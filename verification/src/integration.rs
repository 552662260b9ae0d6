//! Items of the runtime integration: the event payload of a created asset,
//! and the address helpers the integration uses to reach precompiles.
use vstd::prelude::*;
pub use crate::address::{fixed_address, prefixed_address};
use crate::assets::AssetId;

verus! {

/// The payload of an asset-created event.
#[derive(Clone, Copy, Debug, PartialEq, Eq, Structural)]
pub struct Created {
    pub id: AssetId,
}

} // verus!
