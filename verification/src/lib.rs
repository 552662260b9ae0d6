//! Verified core of an ink!-on-parachain project: precompile address
//! derivation, XCM location builders, the asset-hub ERC-20 forwarder, the
//! runtime precompiles, 256-bit integer conversions and the node's service
//! decisions.
pub mod address;
pub mod assets;
pub mod integration;
pub mod node;
pub mod precompiles;
pub mod u256;
pub mod xcm;
