use parity_scale_codec::Encode;
use parachain_precompiles::address::fixed_address;
use parachain_precompiles::u256::U256;
use parachain_precompiles::xcm::{
    xcm_utils_address, DEPOSIT_ASSET, WITHDRAW_ASSET, Multilocation, XcmCall, XcmUtilitiesPrecompile, XCM_UTILS_PRECOMPILE_INDEX,
};

#[test]
fn xcm_utils_address_works() {
    let expected = "000000000000000000000000000000000000080c";
    let result = xcm_utils_address();
    let address_bytes: [u8; 20] = result.into();
    let hex_result = hex::encode(address_bytes);
    assert_eq!(hex_result, expected);
}

#[test]
fn contract_stores_precompile_address() {
    let contract = XcmUtilitiesPrecompile::new();
    let expected_address = xcm_utils_address();
    assert_eq!(contract.get_precompile_address(), expected_address);
}

#[test]
fn relay_chain_location_is_correct() {
    let contract = XcmUtilitiesPrecompile::new();
    let location = contract.relay_chain_location();
    assert_eq!(location.parents, 1);
    assert!(location.interior.is_empty());
}

#[test]
fn parachain_location_is_correct() {
    let contract = XcmUtilitiesPrecompile::new();
    let location = contract.parachain_location(1000);
    assert_eq!(location.parents, 1);
    assert_eq!(location.interior.len(), 1);

    let expected = [0x00, 0x00, 0x00, 0x03, 0xe8]; // 0x00 (parachain selector) + 1000 as big endian bytes
    assert_eq!(location.interior[0], expected);
}

#[test]
fn local_account_location_is_correct() {
    let contract = XcmUtilitiesPrecompile::new();
    let test_address = [0x01u8; 20];
    let location = contract.local_account_location(test_address);

    assert_eq!(location.parents, 0);
    assert_eq!(location.interior.len(), 1);

    let expected_start = [0x03]; // AccountKey20 selector
    let expected_account = [0x01; 20];
    let expected_network = [0x00]; // Network option null

    let mut expected = Vec::new();
    expected.extend_from_slice(&expected_start);
    expected.extend_from_slice(&expected_account);
    expected.extend_from_slice(&expected_network);

    assert_eq!(location.interior[0], expected);
}

#[test]
fn xcm_utils_address_ends_with_its_index() {
    let a = xcm_utils_address();
    assert_eq!(&a[0..18], &[0u8; 18]);
    assert_eq!(&a[18..], &XCM_UTILS_PRECOMPILE_INDEX.to_be_bytes());
    assert_ne!(a, fixed_address(XCM_UTILS_PRECOMPILE_INDEX));
}

#[test]
fn parachain_location_edge_ids() {
    let contract = XcmUtilitiesPrecompile::new();
    assert_eq!(contract.parachain_location(0).interior[0], vec![0, 0, 0, 0, 0]);
    assert_eq!(contract.parachain_location(u32::MAX).interior[0], vec![0, 0xff, 0xff, 0xff, 0xff]);
    assert_eq!(contract.parachain_location(0x0102_0304).interior[0], vec![0, 1, 2, 3, 4]);
}

#[test]
fn local_account_location_keeps_account_order() {
    let contract = XcmUtilitiesPrecompile::new();
    let mut account = [0u8; 20];
    for (i, b) in account.iter_mut().enumerate() {
        *b = i as u8;
    }
    let location = contract.local_account_location(account);
    let junction = &location.interior[0];
    assert_eq!(junction.len(), 22);
    assert_eq!(junction[0], 3);
    assert_eq!(&junction[1..21], &account[..]);
    assert_eq!(junction[21], 0);
}

#[test]
fn transfer_message_withdraws_then_deposits() {
    let contract = XcmUtilitiesPrecompile::new();
    let asset = contract.relay_chain_location();
    let beneficiary = contract.local_account_location([0x01u8; 20]);
    let beneficiary_interior = beneficiary.interior.clone();
    let msg = contract.create_simple_transfer_message(asset, U256([100, 0, 0, 0]), beneficiary);
    let mut expected = vec![0x08u8, WITHDRAW_ASSET];
    expected.push(1); // the relay chain: one parent
    expected.extend_from_slice(&Vec::<Vec<u8>>::new().encode());
    let mut amount = [0u8; 32];
    amount[0] = 100;
    expected.extend_from_slice(&amount);
    expected.push(DEPOSIT_ASSET);
    expected.push(0);
    expected.extend_from_slice(&beneficiary_interior.encode());
    assert_eq!(msg, expected);
    // the beneficiary's junctions: one string of 22 bytes
    assert_eq!(&msg[36..39], &[13, 0, 4]);
    assert_eq!(msg[39], 22 * 4);
    assert_eq!(msg.len(), 2 + 1 + 1 + 32 + 1 + 1 + 1 + 1 + 22);
}

#[test]
fn send_and_execute_are_addressed_to_the_precompile() {
    let contract = XcmUtilitiesPrecompile::new();
    let dest = Multilocation { parents: 1, interior: vec![vec![0, 0, 0, 3, 0xe8]] };
    let req = contract.send_xcm(dest, vec![1, 2, 3]);
    assert_eq!(req.dest, xcm_utils_address());
    match req.call {
        XcmCall::xcmSend { dest, message } => {
            assert_eq!(dest.parents, 1);
            assert_eq!(dest.interior, vec![vec![0, 0, 0, 3, 0xe8]]);
            assert_eq!(message, vec![1, 2, 3]);
        }
        _ => panic!("expected a send request"),
    }
    let req = contract.execute_xcm(vec![9], 500);
    assert_eq!(req.dest, xcm_utils_address());
    match req.call {
        XcmCall::xcmExecute { message, max_weight } => {
            assert_eq!(message, vec![9]);
            assert_eq!(max_weight, 500);
        }
        _ => panic!("expected an execute request"),
    }
}
