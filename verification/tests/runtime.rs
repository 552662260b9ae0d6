use alloy_core::primitives::Bytes;
use alloy_core::sol_types::SolValue;
use parachain_precompiles::address::{fixed_address, prefixed_address};
use parachain_precompiles::precompiles::{
    AddressMatcher, DemoPrecompile, Foo, FooPrecompileConfig, IDemoCalls, IFooCalls, InlineIdConfig,
};
use parachain_precompiles::u256::{from_alloy_u256, to_alloy_u256, u256_to_le_bytes, AlloyU256, U256};

struct Runtime;

#[test]
fn foobar() {
    let precompile_addr: [u8; 20] =
        hex::decode("00000000000000000000000000000000000B0000").unwrap().try_into().unwrap();
    // the demo precompile answers this address
    assert_eq!(DemoPrecompile::<Runtime>::matcher(), AddressMatcher::Fixed(11));
    assert_eq!(precompile_addr, fixed_address(11));

    let mut msg: Vec<u8> = Vec::new();
    msg.push(123);
    let call = IDemoCalls::echo { mode: 1, message: msg };
    let result = DemoPrecompile::<Runtime>::call(&precompile_addr, &call);
    assert!(result.is_ok());
    let data = result.unwrap();
    let bytes = Bytes::abi_decode_validate(&data).unwrap();
    let vec: Vec<u8> = bytes.0.into();
    assert_eq!(vec, vec![123]);
}

#[test]
fn demo_precompile_echo_encoding() {
    assert!(DemoPrecompile::<Runtime>::has_contract_info());
    let out = DemoPrecompile::<Runtime>::call(&[0u8; 20], &IDemoCalls::echo { mode: 0, message: vec![] })
        .unwrap();
    let mut expected = vec![0u8; 64];
    expected[31] = 0x20;
    assert_eq!(out, expected);
    let message: Vec<u8> = (0..33u8).collect();
    let out = DemoPrecompile::<Runtime>::call(&[0u8; 20], &IDemoCalls::echo { mode: 1, message: message.clone() })
        .unwrap();
    assert_eq!(out.len(), 32 + 32 + 64);
    assert_eq!(out[31], 0x20);
    assert_eq!(out[63], 33);
    assert_eq!(&out[64..97], &message[..]);
    assert_eq!(&out[97..], &[0u8; 31]);
}

#[test]
fn inline_config_matcher() {
    assert_eq!(InlineIdConfig::<0x0B>::matcher(), AddressMatcher::Prefix(0x0B));
    assert_eq!(Foo::<Runtime, InlineIdConfig<7>>::matcher(), AddressMatcher::Prefix(7));
    // a prefix matcher with index 7 covers every prefixed address of index 7
    assert_eq!(&prefixed_address(7, 42)[4..], &fixed_address(7)[4..]);
    assert!(!Foo::<Runtime, InlineIdConfig<7>>::has_contract_info());
}

#[test]
fn fortytwo_is_abi_encoded_uint128() {
    let mut expected = vec![0u8; 32];
    expected[31] = 42;
    assert_eq!(Foo::<Runtime, InlineIdConfig<7>>::fortytwo().unwrap(), expected);
    assert_eq!(
        Foo::<Runtime, InlineIdConfig<7>>::call(&[0u8; 20], &IFooCalls::fortytwo).unwrap(),
        expected
    );
}

#[test]
fn u256_le_bytes_layout() {
    let v = U256([0x0807_0605_0403_0201, 0, 0, 0xff00_0000_0000_0001]);
    let b = u256_to_le_bytes(&v);
    assert_eq!(&b[0..8], &[1, 2, 3, 4, 5, 6, 7, 8]);
    assert_eq!(&b[8..24], &[0u8; 16]);
    assert_eq!(&b[24..32], &[1, 0, 0, 0, 0, 0, 0, 0xff]);
}

#[test]
fn u256_conversion_keeps_value() {
    let v = U256([1, 2, 3, u64::MAX]);
    let a = to_alloy_u256(v);
    assert_eq!(a, AlloyU256([1, 2, 3, u64::MAX]));
    assert_eq!(from_alloy_u256(a), v);
    let z = U256([0, 0, 0, 0]);
    assert_eq!(from_alloy_u256(to_alloy_u256(z)), z);
    let w = AlloyU256([u64::MAX, 0, 0x1234_5678_9abc_def0, 7]);
    assert_eq!(to_alloy_u256(from_alloy_u256(w)), w);
}
