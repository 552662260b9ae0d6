//! Addresses of precompiles.
//!
//! A precompile at index `n` lives at the 20-byte address whose bytes 16..18
//! hold `n` in big-endian order and whose other bytes are zero. A prefixed
//! precompile additionally carries a 32-bit prefix (such as an asset id) in
//! its first four bytes.
use vstd::prelude::*;

verus! {

/// A 20-byte account or contract address.
pub type Address = [u8; 20];

/// The four low-order bytes of `x`, most significant first: for `x` below
/// 2^32 this is the big-endian encoding of a 32-bit integer.
pub open spec fn be_bytes4(x: nat) -> Seq<u8> {
    seq![
        ((x / 0x1000000) % 256) as u8,
        ((x / 0x10000) % 256) as u8,
        ((x / 0x100) % 256) as u8,
        (x % 256) as u8,
    ]
}

/// The big-endian encoding of a 32-bit integer.
pub open spec fn be_bytes_u32(x: u32) -> Seq<u8> {
    be_bytes4(x as nat)
}

/// The address of the precompile at index `n`.
pub open spec fn spec_fixed_address(n: u16) -> Seq<u8> {
    Seq::new(16, |i: int| 0u8) + be_bytes4(n as nat * 0x10000)
}

/// The address of the precompile at index `n` carrying `prefix` in its first
/// four bytes.
pub open spec fn spec_prefixed_address(n: u16, prefix: u32) -> Seq<u8> {
    be_bytes_u32(prefix) + spec_fixed_address(n).subrange(4, 20)
}

/// Big-endian bytes of a 32-bit integer.
pub fn u32_to_be_bytes(x: u32) -> (res: [u8; 4])
    ensures
        res@ == be_bytes_u32(x),
{
    let res: [u8; 4] = [
        (x / 0x1000000) as u8,
        ((x / 0x10000) % 256) as u8,
        ((x / 0x100) % 256) as u8,
        (x % 256) as u8,
    ];
    assert(res@ =~= be_bytes_u32(x));
    res
}

/// Calculates the address of a precompile at index `n`.
pub fn fixed_address(n: u16) -> (res: Address)
    ensures
        res@ == spec_fixed_address(n),
{
    let shifted: u32 = (n as u32) << 16;
    assert(shifted == (n as u32) * 0x10000) by (bit_vector)
        requires
            shifted == (n as u32) << 16,
    ;
    let suffix = u32_to_be_bytes(shifted);
    let mut address: [u8; 20] = [0u8; 20];
    let mut i: usize = 16;
    while i < 20
        invariant
            16 <= i <= 20,
            suffix@ == be_bytes_u32(shifted),
            shifted == n as nat * 0x10000,
            forall|j: int| 0 <= j < 16 ==> address@[j] == 0u8,
            forall|j: int| 16 <= j < i ==> address@[j] == suffix@[j - 16],
        decreases 20 - i,
    {
        address[i] = suffix[i - 16];
        i = i + 1;
    }
    assert(address@ =~= spec_fixed_address(n));
    address
}

/// Calculates the address of a precompile at index `n` and with some
/// additional prefix.
pub fn prefixed_address(n: u16, prefix: u32) -> (res: Address)
    ensures
        res@ == spec_prefixed_address(n, prefix),
{
    let mut address_bytes = fixed_address(n);
    let prefix_bytes = u32_to_be_bytes(prefix);
    let mut i: usize = 0;
    while i < 4
        invariant
            i <= 4,
            prefix_bytes@ == be_bytes_u32(prefix),
            forall|j: int| 0 <= j < i ==> address_bytes@[j] == prefix_bytes@[j],
            forall|j: int| 4 <= j < 20 ==> address_bytes@[j] == spec_fixed_address(n)[j],
        decreases 4 - i,
    {
        address_bytes[i] = prefix_bytes[i];
        i = i + 1;
    }
    assert(address_bytes@ =~= spec_prefixed_address(n, prefix));
    address_bytes
}

/// Bytes 16 and 17 of the address of the precompile at index `n` read back
/// as `n`, and the four bytes after the prefix position are zero except
/// for those two.
pub proof fn lemma_fixed_address_index(n: u16)
    ensures
        spec_fixed_address(n).len() == 20,
        spec_fixed_address(n)[16] as int * 256 + spec_fixed_address(n)[17] as int == n as int,
        spec_fixed_address(n)[18] == 0u8,
        spec_fixed_address(n)[19] == 0u8,
        forall|i: int| 0 <= i < 16 ==> spec_fixed_address(n)[i] == 0u8,
{
    let x: nat = n as nat * 0x10000;
    assert(x / 0x1000000 == n as nat / 256);
    assert(x / 0x10000 == n as nat);
    assert(x / 0x100 == n as nat * 0x100);
    assert((n as nat * 0x100) % 256 == 0) by (nonlinear_arith);
    assert((n as nat * 0x10000) % 256 == 0) by (nonlinear_arith);
    assert(n as nat / 256 < 256);
}

/// Distinct precompile indices have distinct addresses.
pub proof fn law_fixed_address_injective(n: u16, m: u16)
    requires
        spec_fixed_address(n) == spec_fixed_address(m),
    ensures
        n == m,
{
    lemma_fixed_address_index(n);
    lemma_fixed_address_index(m);
}

/// Distinct pairs of index and prefix give distinct prefixed addresses.
pub proof fn law_prefixed_address_injective(n: u16, p: u32, m: u16, q: u32)
    requires
        spec_prefixed_address(n, p) == spec_prefixed_address(m, q),
    ensures
        n == m,
        p == q,
{
    lemma_fixed_address_index(n);
    lemma_fixed_address_index(m);
    let a = spec_prefixed_address(n, p);
    let b = spec_prefixed_address(m, q);
    assert(a[16] == b[16] && a[17] == b[17]);
    assert(a[0] == b[0] && a[1] == b[1] && a[2] == b[2] && a[3] == b[3]);
    let pn = p as nat;
    let qn = q as nat;
    assert(pn == ((pn / 0x1000000) % 256) * 0x1000000 + ((pn / 0x10000) % 256) * 0x10000
        + ((pn / 0x100) % 256) * 0x100 + pn % 256) by (nonlinear_arith)
        requires pn < 0x100000000;
    assert(qn == ((qn / 0x1000000) % 256) * 0x1000000 + ((qn / 0x10000) % 256) * 0x10000
        + ((qn / 0x100) % 256) * 0x100 + qn % 256) by (nonlinear_arith)
        requires qn < 0x100000000;
}

/// A zero prefix leaves the address of the precompile unchanged.
pub proof fn law_zero_prefix_is_fixed(n: u16)
    ensures
        spec_prefixed_address(n, 0) == spec_fixed_address(n),
{
    lemma_fixed_address_index(n);
    assert(spec_prefixed_address(n, 0) =~= spec_fixed_address(n));
}

/// The prefix changes only the first four bytes: the rest of a prefixed
/// address is the address of the precompile at the same index.
pub proof fn law_prefix_keeps_index(n: u16, prefix: u32)
    ensures
        spec_prefixed_address(n, prefix).len() == 20,
        spec_prefixed_address(n, prefix).subrange(0, 4) == be_bytes_u32(prefix),
        spec_prefixed_address(n, prefix).subrange(4, 20) == spec_fixed_address(n).subrange(4, 20),
{
    assert(spec_prefixed_address(n, prefix).subrange(0, 4) =~= be_bytes_u32(prefix));
    assert(spec_prefixed_address(n, prefix).subrange(4, 20) =~= spec_fixed_address(n).subrange(4, 20));
}

} // verus!
