//! The runtime's precompiles: `DemoPrecompile` at index 11, whose `echo`
//! message answers its message ABI-encoded as `bytes`, and `Foo`, whose
//! addresses come from its configuration and whose only message,
//! `fortytwo`, answers the ABI encoding of the number 42.
use vstd::prelude::*;
use core::marker::PhantomData;

verus! {

/// Which addresses a precompile answers: the precompile at a fixed index,
/// or every prefixed address with the given index. The runtime takes only
/// matchers whose index is not 0 (see `wf`).
#[derive(Clone, Copy, Debug, PartialEq, Eq, Structural)]
pub enum AddressMatcher {
    Fixed(u16),
    Prefix(u16),
}

impl AddressMatcher {
    /// The matcher is well formed: its index is not zero.
    pub open spec fn wf(self) -> bool {
        match self {
            AddressMatcher::Fixed(n) => n != 0,
            AddressMatcher::Prefix(n) => n != 0,
        }
    }
}

/// An error of a precompile call. The calls of the precompiles here never
/// fail.
#[derive(Clone, Copy, Debug, PartialEq, Eq)]
pub struct PrecompileError;

/// The ABI encoding of an unsigned integer: one 32-byte word holding the
/// value in big-endian order, padded with zero bytes on the left.
pub open spec fn abi_word(value: nat) -> Seq<u8> {
    Seq::new(
        32,
        |i: int| ((value / vstd::arithmetic::power::pow(256, (31 - i) as nat) as nat) % 256) as u8,
    )
}

/// Calls `alloy_sol_types::SolValue::abi_encode` on a `u128`, which is
/// encoded as the Solidity type `uint128`: one 32-byte word, the value in
/// big-endian order padded with zeros on the left.
#[verifier::external_body]
fn abi_encode_u128(value: u128) -> (res: Vec<u8>)
    ensures
        res@ == abi_word(value as nat),
{
    alloy_core::sol_types::SolValue::abi_encode(&value)
}

/// `n` zero bytes.
pub open spec fn zero_bytes(n: nat) -> Seq<u8> {
    Seq::new(n, |i: int| 0u8)
}

/// The number of zero bytes that pad `len` bytes to a multiple of 32.
pub open spec fn padding_len(len: nat) -> nat {
    ((32 - len % 32) % 32) as nat
}

/// The ABI encoding of a value of the Solidity type `bytes`: the offset word
/// 0x20, the length word, then the data padded with zero bytes to a
/// multiple of 32 bytes.
pub open spec fn abi_bytes(data: Seq<u8>) -> Seq<u8> {
    abi_word(32) + abi_word(data.len()) + data + zero_bytes(padding_len(data.len()))
}

/// Calls `alloy_sol_types::SolValue::abi_encode` on a `Vec<u8>`, which is
/// encoded as the Solidity type `bytes`: the offset word 0x20, the length
/// word, then the data padded with zeros to a multiple of 32 bytes (for no
/// data, the two words alone).
#[verifier::external_body]
fn abi_encode_bytes(data: &Vec<u8>) -> (res: Vec<u8>)
    ensures
        res@ == abi_bytes(data@),
{
    alloy_core::sol_types::SolValue::abi_encode(data)
}

/// The messages of the demo precompile's interface.
#[allow(non_camel_case_types)]
#[derive(Clone, Debug, PartialEq, Eq)]
pub enum IDemoCalls {
    /// Answer `message`; `mode` does not change the answer.
    echo { mode: u8, message: Vec<u8> },
}

/// The messages of the foo precompile's interface.
#[allow(non_camel_case_types)]
#[derive(Clone, Copy, Debug, PartialEq, Eq, Structural)]
pub enum IFooCalls {
    fortytwo,
}

/// A demo precompile for the runtime `T`.
pub struct DemoPrecompile<T>(pub PhantomData<T>);

impl<T> DemoPrecompile<T> {
    /// The demo precompile answers the precompile at index 11.
    pub fn matcher() -> (res: AddressMatcher)
        ensures
            res == AddressMatcher::Fixed(11),
            res.wf(),
    {
        AddressMatcher::Fixed(11)
    }

    /// The demo precompile keeps contract information.
    pub fn has_contract_info() -> (res: bool)
        ensures
            res,
    {
        true
    }

    /// Handles a call: `echo` answers its message, ABI-encoded as `bytes`.
    pub fn call(_address: &[u8; 20], input: &IDemoCalls) -> (res: Result<Vec<u8>, PrecompileError>)
        ensures
            res matches Ok(out) && (input matches IDemoCalls::echo { message, .. } && out@
                == abi_bytes(message@)),
    {
        match input {
            IDemoCalls::echo { mode: _, message } => Ok(abi_encode_bytes(message)),
        }
    }
}

/// The configuration of a `Foo` precompile: which addresses it answers.
pub trait FooPrecompileConfig {
    /// The Address matcher used by the precompile.
    spec fn spec_matcher() -> AddressMatcher;

    /// The Address matcher used by the precompile.
    fn matcher() -> (res: AddressMatcher)
        ensures
            res == Self::spec_matcher(),
    ;
}

/// A precompile configuration that uses a prefix `AddressMatcher`: it
/// answers every prefixed address with index `PREFIX`. The matcher is well
/// formed only when `PREFIX` is not 0.
pub struct InlineIdConfig<const PREFIX: u16>;

impl<const P: u16> FooPrecompileConfig for InlineIdConfig<P> {
    open spec fn spec_matcher() -> AddressMatcher {
        AddressMatcher::Prefix(P)
    }

    fn matcher() -> (res: AddressMatcher)
        ensures
            P != 0 ==> res.wf(),
    {
        AddressMatcher::Prefix(P)
    }
}

/// The matcher of `InlineIdConfig<P>` is well formed exactly when `P` is
/// not 0.
pub proof fn lemma_inline_id_config_wf<const P: u16>()
    ensures
        InlineIdConfig::<P>::spec_matcher().wf() <==> P != 0,
{
}

/// A Foo precompile for the runtime `Runtime`, answering the addresses that
/// `PrecompileConfig` names.
pub struct Foo<Runtime, PrecompileConfig, Instance = ()> {
    pub _phantom: PhantomData<(Runtime, PrecompileConfig, Instance)>,
}

impl<Runtime, PrecompileConfig: FooPrecompileConfig, Instance> Foo<Runtime, PrecompileConfig, Instance> {
    /// The addresses the precompile answers are those of its configuration.
    pub fn matcher() -> (res: AddressMatcher)
        ensures
            res == PrecompileConfig::spec_matcher(),
    {
        PrecompileConfig::matcher()
    }

    /// The foo precompile keeps no contract information.
    pub fn has_contract_info() -> (res: bool)
        ensures
            !res,
    {
        false
    }

    /// Handles a call: `fortytwo` answers the ABI encoding of 42.
    pub fn call(_address: &[u8; 20], input: &IFooCalls) -> (res: Result<Vec<u8>, PrecompileError>)
        ensures
            res matches Ok(out) && out@ == abi_word(42),
    {
        match input {
            IFooCalls::fortytwo => Self::fortytwo(),
        }
    }

    /// Answers the ABI encoding of the `uint128` 42.
    pub fn fortytwo() -> (res: Result<Vec<u8>, PrecompileError>)
        ensures
            res matches Ok(out) && out@ == abi_word(42),
    {
        Ok(abi_encode_u128(42u128))
    }
}

} // verus!
