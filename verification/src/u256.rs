//! 256-bit unsigned integers as four little-endian 64-bit limbs, and the
//! byte-level conversion between the runtime's `U256` and alloy's `U256`.
use vstd::prelude::*;
use vstd::bytes::{spec_u64_from_le_bytes, spec_u64_to_le_bytes};

verus! {

/// The runtime's 256-bit unsigned integer: limb `i` holds bits `64 * i`
/// up to `64 * i + 63`.
#[derive(Clone, Copy, Debug, PartialEq, Eq)]
pub struct U256(pub [u64; 4]);

/// Alloy's 256-bit unsigned integer, held by its four little-endian limbs.
#[derive(Clone, Copy, Debug, PartialEq, Eq)]
pub struct AlloyU256(pub [u64; 4]);

/// The 32 little-endian bytes of the integer with the given limbs.
pub open spec fn le_bytes_of_limbs(limbs: Seq<u64>) -> Seq<u8> {
    spec_u64_to_le_bytes(limbs[0]) + spec_u64_to_le_bytes(limbs[1]) + spec_u64_to_le_bytes(
        limbs[2],
    ) + spec_u64_to_le_bytes(limbs[3])
}

/// Limb `i` of the integer whose little-endian bytes are `bytes`.
pub open spec fn limb_of_le_bytes(bytes: Seq<u8>, i: int) -> u64 {
    spec_u64_from_le_bytes(bytes.subrange(8 * i, 8 * i + 8))
}

/// Calls `alloy_primitives::U256::from_le_slice` on 32 bytes and returns
/// the limbs of the result: limb `i` is the little-endian `u64` read from
/// bytes `8 * i .. 8 * i + 8`.
#[verifier::external_body]
fn alloy_from_le_slice(bytes: &[u8; 32]) -> (res: AlloyU256)
    ensures
        forall|i: int| 0 <= i < 4 ==> #[trigger] res.0[i] == limb_of_le_bytes(bytes@, i),
{
    AlloyU256(alloy_core::primitives::U256::from_le_slice(bytes).into_limbs())
}

/// Calls `alloy_primitives::U256::to_le_bytes::<32>` on the integer with the
/// given limbs: the result is the little-endian bytes of each limb in turn.
#[verifier::external_body]
fn alloy_to_le_bytes(value: &AlloyU256) -> (res: [u8; 32])
    ensures
        res@ == le_bytes_of_limbs(value.0@),
{
    alloy_core::primitives::U256::from_limbs(value.0).to_le_bytes::<32>()
}

/// Calls `primitive_types::U256::from_little_endian` on 32 bytes: limb `i`
/// of the result is the little-endian `u64` read from bytes
/// `8 * i .. 8 * i + 8`.
#[verifier::external_body]
fn u256_from_little_endian(bytes: &[u8; 32]) -> (res: U256)
    ensures
        forall|i: int| 0 <= i < 4 ==> #[trigger] res.0[i] == limb_of_le_bytes(bytes@, i),
{
    U256(primitive_types::U256::from_little_endian(bytes).0)
}

/// The 32 little-endian bytes of a runtime `U256`.
pub fn u256_to_le_bytes(value: &U256) -> (res: [u8; 32])
    ensures
        res@ == le_bytes_of_limbs(value.0@),
{
    let mut bytes: [u8; 32] = [0u8; 32];
    let mut i: usize = 0;
    while i < 4
        invariant
            i <= 4,
            forall|k: int| 0 <= k < 8 * i ==> bytes@[k] == le_bytes_of_limbs(value.0@)[k],
        decreases 4 - i,
    {
        let word: u64 = value.0[i];
        let word_bytes = vstd::bytes::u64_to_le_bytes(word);
        let mut j: usize = 0;
        while j < 8
            invariant
                i < 4,
                j <= 8,
                word == value.0@[i as int],
                word_bytes@ == spec_u64_to_le_bytes(word),
                word_bytes@.len() == 8,
                forall|k: int| 0 <= k < 8 * i ==> bytes@[k] == le_bytes_of_limbs(value.0@)[k],
                forall|k: int|
                    8 * i <= k < 8 * i + j ==> bytes@[k] == spec_u64_to_le_bytes(word)[k - 8 * i],
            decreases 8 - j,
        {
            bytes[i * 8 + j] = word_bytes[j];
            j = j + 1;
        }
        proof {
            lemma_le_bytes_of_limbs_at(value.0@, i as int);
        }
        i = i + 1;
    }
    proof {
        lemma_le_bytes_of_limbs_at(value.0@, 0);
    }
    assert(bytes@ =~= le_bytes_of_limbs(value.0@));
    bytes
}

/// Bytes `8 * i .. 8 * i + 8` of the encoding are the bytes of limb `i`.
proof fn lemma_le_bytes_of_limbs_at(limbs: Seq<u64>, i: int)
    requires
        limbs.len() == 4,
        0 <= i < 4,
    ensures
        le_bytes_of_limbs(limbs).len() == 32,
        forall|k: int|
            8 * i <= k < 8 * i + 8 ==> le_bytes_of_limbs(limbs)[k] == spec_u64_to_le_bytes(
                limbs[i],
            )[k - 8 * i],
{
    vstd::bytes::lemma_auto_spec_u64_to_from_le_bytes();
}

/// Writing the limbs as little-endian bytes and reading them back gives the
/// same limbs: the conversion to alloy's `U256` and back keeps every value.
pub proof fn law_limbs_roundtrip(limbs: Seq<u64>)
    requires
        limbs.len() == 4,
    ensures
        forall|i: int| 0 <= i < 4 ==> #[trigger] limb_of_le_bytes(le_bytes_of_limbs(limbs), i) == limbs[i],
{
    vstd::bytes::lemma_auto_spec_u64_to_from_le_bytes();
    assert forall|i: int| 0 <= i < 4 implies #[trigger] limb_of_le_bytes(le_bytes_of_limbs(limbs), i) == limbs[i] by {
        lemma_le_bytes_of_limbs_at(limbs, i);
        assert(le_bytes_of_limbs(limbs).subrange(8 * i, 8 * i + 8) =~= spec_u64_to_le_bytes(limbs[i]));
    }
}

/// Converts the runtime's `U256` to alloy's `U256` through its 32
/// little-endian bytes; the value is kept.
pub fn to_alloy_u256(value: U256) -> (res: AlloyU256)
    ensures
        res.0@ == value.0@,
{
    let bytes = u256_to_le_bytes(&value);
    let res = alloy_from_le_slice(&bytes);
    proof {
        law_limbs_roundtrip(value.0@);
    }
    assert(res.0@ =~= value.0@);
    res
}

/// Converts alloy's `U256` to the runtime's `U256` through its 32
/// little-endian bytes; the value is kept.
pub fn from_alloy_u256(value: AlloyU256) -> (res: U256)
    ensures
        res.0@ == value.0@,
{
    let bytes = alloy_to_le_bytes(&value);
    let res = u256_from_little_endian(&bytes);
    proof {
        law_limbs_roundtrip(value.0@);
    }
    assert(res.0@ =~= value.0@);
    res
}

/// Reading 32 little-endian bytes as limbs and writing the limbs back as
/// bytes gives the same bytes.
pub proof fn law_bytes_roundtrip(bytes: Seq<u8>)
    requires
        bytes.len() == 32,
    ensures
        le_bytes_of_limbs(seq![
            limb_of_le_bytes(bytes, 0),
            limb_of_le_bytes(bytes, 1),
            limb_of_le_bytes(bytes, 2),
            limb_of_le_bytes(bytes, 3),
        ]) == bytes,
{
    vstd::bytes::lemma_auto_spec_u64_to_from_le_bytes();
    let l = seq![
        limb_of_le_bytes(bytes, 0),
        limb_of_le_bytes(bytes, 1),
        limb_of_le_bytes(bytes, 2),
        limb_of_le_bytes(bytes, 3),
    ];
    assert(spec_u64_to_le_bytes(l[0]) == bytes.subrange(0, 8));
    assert(spec_u64_to_le_bytes(l[1]) == bytes.subrange(8, 16));
    assert(spec_u64_to_le_bytes(l[2]) == bytes.subrange(16, 24));
    assert(spec_u64_to_le_bytes(l[3]) == bytes.subrange(24, 32));
    assert(le_bytes_of_limbs(l) =~= bytes);
}

} // verus!
