use parachain_precompiles::address::{fixed_address, prefixed_address, u32_to_be_bytes, Address};
use parachain_precompiles::assets::{AssetHubPrecompile, Erc20Call, PRECOMPILE_INDEX};
use parachain_precompiles::integration;
use parachain_precompiles::u256::U256;

#[test]
fn fixed_address_works() {
    let expected = "0000000000000000000000000000000000640000";
    let result = fixed_address(100);
    let address_bytes: [u8; 20] = result.into();
    let hex_result = hex::encode(address_bytes);
    assert_eq!(hex_result, expected);
}

#[test]
fn prefixed_address_works() {
    let expected = "ffffffff00000000000000000000000000650000";
    let result = prefixed_address(101, u32::MAX);
    let address_bytes: [u8; 20] = result.into();
    let hex_result = hex::encode(address_bytes);
    assert_eq!(hex_result, expected);
}

#[test]
fn contract_stores_asset_id() {
    // Create contract for asset ID 1337
    let contract = AssetHubPrecompile::create(1337);

    // Verify the asset ID is stored correctly
    assert_eq!(contract.assetId(), 1337);
}

#[test]
fn be_bytes_of_u32() {
    assert_eq!(u32_to_be_bytes(0x0102_0304), [1, 2, 3, 4]);
    assert_eq!(u32_to_be_bytes(0), [0, 0, 0, 0]);
    assert_eq!(u32_to_be_bytes(u32::MAX), [0xff, 0xff, 0xff, 0xff]);
}

#[test]
fn fixed_address_edge_indices() {
    assert_eq!(hex::encode(fixed_address(0)), "0000000000000000000000000000000000000000");
    assert_eq!(hex::encode(fixed_address(u16::MAX)), "00000000000000000000000000000000ffff0000");
    assert_eq!(hex::encode(fixed_address(0x0120)), "0000000000000000000000000000000001200000");
}

#[test]
fn zero_prefix_is_fixed_address() {
    for n in [0u16, 1, 12, 0x0120, 0x080C, u16::MAX] {
        assert_eq!(prefixed_address(n, 0), fixed_address(n));
    }
}

#[test]
fn distinct_prefixes_and_indices_give_distinct_addresses() {
    assert_ne!(prefixed_address(0x0120, 1), prefixed_address(0x0120, 2));
    assert_ne!(prefixed_address(0x0120, 1), prefixed_address(0x0121, 1));
    assert_ne!(fixed_address(11), fixed_address(12));
    assert_ne!(prefixed_address(1, 0x0000_0100), prefixed_address(1, 0x0001_0000));
}

#[test]
fn prefix_keeps_index_bytes() {
    let a = prefixed_address(0x0120, 0xdead_beef);
    let f = fixed_address(0x0120);
    assert_eq!(&a[0..4], &[0xde, 0xad, 0xbe, 0xef]);
    assert_eq!(&a[4..], &f[4..]);
}

#[test]
fn integration_helpers_are_the_same_functions() {
    assert_eq!(integration::fixed_address(100), fixed_address(100));
    assert_eq!(integration::prefixed_address(0x0120, 7), prefixed_address(0x0120, 7));
    let created = integration::Created { id: 9 };
    assert_eq!(created.id, 9);
}

#[test]
fn asset_contract_forwards_to_its_precompile() {
    let contract = AssetHubPrecompile::create(1337);
    let expected: Address = prefixed_address(PRECOMPILE_INDEX, 1337);
    assert_eq!(contract.precompile_address(), expected);
    assert_eq!(hex::encode(expected), "0000053900000000000000000000000001200000");
    let to = [0x22u8; 20];
    let call = Erc20Call::transfer { to, value: U256([5, 0, 0, 0]) };
    let req = contract.forward(call);
    assert_eq!(req.dest, expected);
    assert_eq!(req.call, call);
    let req = contract.forward(Erc20Call::totalSupply);
    assert_eq!(req.dest, expected);
    assert_eq!(req.call, Erc20Call::totalSupply);
}

#[test]
fn distinct_assets_forward_to_distinct_precompiles() {
    let a = AssetHubPrecompile::create(1);
    let b = AssetHubPrecompile::create(2);
    assert_ne!(a.forward(Erc20Call::totalSupply).dest, b.forward(Erc20Call::totalSupply).dest);
}
