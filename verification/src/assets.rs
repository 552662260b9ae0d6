//! The asset-hub ERC-20 forwarder contract: every ERC-20 message is
//! forwarded, unchanged, to the asset's ERC-20 precompile, whose address
//! carries the asset id as its prefix.
use vstd::prelude::*;
use crate::address::{Address, prefixed_address, spec_prefixed_address, law_prefixed_address_injective};
use crate::u256::U256;

verus! {

/// Passet Hub ERC20 precompile index
pub const PRECOMPILE_INDEX: u16 = 0x0120;

/// The id of an asset on the asset hub.
pub type AssetId = u32;

/// An error reported back by the ERC-20 precompile, with its message.
pub struct Error(pub String);

/// An ERC-20 message, with its arguments.
#[allow(non_camel_case_types)]
#[derive(Clone, Copy, Debug, PartialEq, Eq)]
pub enum Erc20Call {
    totalSupply,
    balanceOf { account: Address },
    transfer { to: Address, value: U256 },
    allowance { owner: Address, spender: Address },
    approve { spender: Address, value: U256 },
    transferFrom { from: Address, to: Address, value: U256 },
}

/// An ERC-20 message together with the address of the precompile that is to
/// answer it.
#[derive(Clone, Copy, Debug, PartialEq, Eq)]
pub struct Erc20Request {
    pub dest: Address,
    pub call: Erc20Call,
}

/// Asset Hub precompile interface: the contract's storage is the id of the
/// asset whose precompile it talks to.
pub struct AssetHubPrecompile {
    asset_id: AssetId,
}

impl View for AssetHubPrecompile {
    type V = AssetId;

    closed spec fn view(&self) -> AssetId {
        self.asset_id
    }
}

/// The address of the ERC-20 precompile of the asset `asset_id`.
pub open spec fn spec_asset_precompile(asset_id: AssetId) -> Seq<u8> {
    spec_prefixed_address(PRECOMPILE_INDEX, asset_id)
}

impl AssetHubPrecompile {
    /// Creates the contract for the asset `asset_id`.
    pub fn create(asset_id: AssetId) -> (res: Self)
        ensures
            res@ == asset_id,
    {
        Self { asset_id }
    }

    /// The id of the asset that the contract talks to.
    #[allow(non_snake_case)]
    pub fn assetId(&self) -> (res: AssetId)
        ensures
            res == self@,
    {
        self.asset_id
    }

    /// The address of the asset's ERC-20 precompile.
    pub fn precompile_address(&self) -> (res: Address)
        ensures
            res@ == spec_asset_precompile(self@),
    {
        prefixed_address(PRECOMPILE_INDEX, self.asset_id)
    }

    /// Forwards an ERC-20 message: the same message, addressed to the
    /// asset's ERC-20 precompile.
    pub fn forward(&self, call: Erc20Call) -> (res: Erc20Request)
        ensures
            res.dest@ == spec_asset_precompile(self@),
            res.call == call,
    {
        Erc20Request { dest: self.precompile_address(), call }
    }
}

/// Contracts for distinct assets forward to distinct precompiles.
pub proof fn law_distinct_assets_distinct_precompiles(a: AssetId, b: AssetId)
    requires
        a != b,
    ensures
        spec_asset_precompile(a) != spec_asset_precompile(b),
{
    if spec_asset_precompile(a) == spec_asset_precompile(b) {
        law_prefixed_address_injective(PRECOMPILE_INDEX, a, PRECOMPILE_INDEX, b);
    }
}

} // verus!
