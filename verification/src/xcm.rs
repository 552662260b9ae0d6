//! The XCM utilities contract: locations for the relay chain, for a
//! parachain and for a local account, and forwarding of XCM send and execute
//! requests to the XCM utilities precompile.
use vstd::prelude::*;
use crate::address::{Address, be_bytes_u32, u32_to_be_bytes};
use crate::u256::{U256, le_bytes_of_limbs, u256_to_le_bytes};

verus! {

/// XCM Utilities precompile index
pub const XCM_UTILS_PRECOMPILE_INDEX: u16 = 0x080C;

/// An error reported back by the XCM utilities precompile, with its message.
pub struct Error(pub String);

/// Multilocation structure for XCM
pub struct Multilocation {
    pub parents: u8,
    pub interior: Vec<Vec<u8>>,
}

/// The encoded junction that selects parachain `para_id`: the parachain
/// selector `0x00` followed by the id in big-endian order.
pub open spec fn parachain_junction(para_id: u32) -> Seq<u8> {
    seq![0x00u8] + be_bytes_u32(para_id)
}

/// The encoded junction that selects a 20-byte account on this chain: the
/// AccountKey20 selector `0x03`, the account, and `0x00` for "no network".
pub open spec fn account_key20_junction(account: Seq<u8>) -> Seq<u8> {
    seq![0x03u8] + account + seq![0x00u8]
}

/// The `n` low-order bytes of `x`, least significant first.
pub open spec fn le_bytes(x: nat, n: nat) -> Seq<u8> {
    Seq::new(n, |i: int| ((x / vstd::arithmetic::power::pow(256, i as nat) as nat) % 256) as u8)
}

/// The SCALE compact encoding of a length `n` below 2^32: one byte `4n`
/// below 2^6, two little-endian bytes `4n + 1` below 2^14, four
/// little-endian bytes `4n + 2` below 2^30, otherwise the byte 3 followed by
/// the four little-endian bytes of `n`.
pub open spec fn compact_len(n: nat) -> Seq<u8> {
    if n < 0x40 {
        seq![(n * 4) as u8]
    } else if n < 0x4000 {
        le_bytes(n * 4 + 1, 2)
    } else if n < 0x4000_0000 {
        le_bytes(n * 4 + 2, 4)
    } else {
        seq![3u8] + le_bytes(n, 4)
    }
}

/// The SCALE encoding of each byte string in turn, each one its compact
/// length followed by its bytes.
pub open spec fn scale_byte_strings(items: Seq<Seq<u8>>) -> Seq<u8>
    decreases items.len(),
{
    if items.len() == 0 {
        seq![]
    } else {
        compact_len(items[0].len()) + items[0] + scale_byte_strings(items.drop_first())
    }
}

/// The SCALE encoding of a list of byte strings: the compact number of
/// strings, then each string with its compact length.
pub open spec fn scale_junctions(interior: Seq<Seq<u8>>) -> Seq<u8> {
    compact_len(interior.len()) + scale_byte_strings(interior)
}

/// The lists and strings that SCALE can encode: none holds 2^32 items or more.
pub open spec fn scale_encodable(interior: Seq<Seq<u8>>) -> bool {
    &&& interior.len() <= u32::MAX
    &&& forall|i: int| 0 <= i < interior.len() ==> #[trigger] interior[i].len() <= u32::MAX
}

/// Calls `parity_scale_codec::Encode::encode` on a list of byte strings: the
/// compact number of strings, then each string as its compact length and its
/// bytes. It panics on a list or a string of 2^32 items or more, which the
/// `requires` leaves out.
#[verifier::external_body]
fn scale_encode_junctions(interior: &Vec<Vec<u8>>) -> (res: Vec<u8>)
    requires
        scale_encodable(interior.deep_view()),
    ensures
        res@ == scale_junctions(interior.deep_view()),
{
    parity_scale_codec::Encode::encode(interior)
}

/// A location as the contract encodes it with SCALE: the number of parents,
/// then the junctions.
pub open spec fn location_bytes(location: Multilocation) -> Seq<u8> {
    seq![location.parents] + scale_junctions(location.interior.deep_view())
}

/// The index of the XCM instruction that withdraws assets into the holding
/// register.
pub const WITHDRAW_ASSET: u8 = 0x00;

/// The index of the XCM instruction that deposits the held assets to a
/// beneficiary.
pub const DEPOSIT_ASSET: u8 = 0x0D;

/// The withdraw-and-deposit message: the compact count 2 of its
/// instructions, then `WithdrawAsset` with the asset's location and the
/// amount (its 32 little-endian bytes), then `DepositAsset` with the
/// beneficiary's location.
pub open spec fn transfer_message(
    asset_location: Multilocation,
    amount: U256,
    beneficiary: Multilocation,
) -> Seq<u8> {
    seq![0x08u8, WITHDRAW_ASSET] + location_bytes(asset_location) + le_bytes_of_limbs(amount.0@)
        + seq![DEPOSIT_ASSET] + location_bytes(beneficiary)
}

/// An XCM request to the precompile.
pub enum XcmCall {
    /// Send `message` to the chain at `dest`.
    xcmSend { dest: Multilocation, message: Vec<u8> },
    /// Execute `message` locally with at most `max_weight`.
    xcmExecute { message: Vec<u8>, max_weight: u64 },
}

/// An XCM request together with the address of the precompile that is to
/// carry it out.
pub struct XcmRequest {
    pub dest: Address,
    pub call: XcmCall,
}

/// XCM Utilities precompile interface: the contract stores the address of
/// the XCM utilities precompile.
pub struct XcmUtilitiesPrecompile {
    precompile_address: Address,
}

impl View for XcmUtilitiesPrecompile {
    type V = Seq<u8>;

    closed spec fn view(&self) -> Seq<u8> {
        self.precompile_address@
    }
}

impl XcmUtilitiesPrecompile {
    /// Creates the contract; it talks to the XCM utilities precompile.
    pub fn new() -> (res: Self)
        ensures
            res@ == spec_xcm_utils_address(),
    {
        let precompile_address = xcm_utils_address();
        Self { precompile_address }
    }

    /// The address of the precompile that the contract talks to.
    pub fn get_precompile_address(&self) -> (res: Address)
        ensures
            res@ == self@,
    {
        self.precompile_address
    }

    /// Send an XCM message to another chain: the request, addressed to the
    /// precompile.
    pub fn send_xcm(&self, dest: Multilocation, message: Vec<u8>) -> (res: XcmRequest)
        ensures
            res.dest@ == self@,
            res.call matches XcmCall::xcmSend { dest: d, message: m } && d == dest && m == message,
    {
        XcmRequest { dest: self.precompile_address, call: XcmCall::xcmSend { dest, message } }
    }

    /// Execute an XCM message locally: the request, addressed to the
    /// precompile.
    pub fn execute_xcm(&self, message: Vec<u8>, max_weight: u64) -> (res: XcmRequest)
        ensures
            res.dest@ == self@,
            res.call matches XcmCall::xcmExecute { message: m, max_weight: w } && m == message
                && w == max_weight,
    {
        XcmRequest {
            dest: self.precompile_address,
            call: XcmCall::xcmExecute { message, max_weight },
        }
    }

    /// Create a simple withdraw and deposit XCM message: withdraw `amount`
    /// of the asset at `asset_location`, then deposit it to `beneficiary`.
    pub fn create_simple_transfer_message(
        &self,
        asset_location: Multilocation,
        amount: U256,
        beneficiary: Multilocation,
    ) -> (res: Vec<u8>)
        requires
            scale_encodable(asset_location.interior.deep_view()),
            scale_encodable(beneficiary.interior.deep_view()),
        ensures
            res@ == transfer_message(asset_location, amount, beneficiary),
            res@.len() > 0,
    {
        let mut message: Vec<u8> = vec![0x08u8, WITHDRAW_ASSET];
        message.push(asset_location.parents);
        let asset_junctions = scale_encode_junctions(&asset_location.interior);
        message.extend_from_slice(asset_junctions.as_slice());
        let amount_bytes = u256_to_le_bytes(&amount);
        message.extend_from_slice(&amount_bytes);
        message.push(DEPOSIT_ASSET);
        message.push(beneficiary.parents);
        let beneficiary_junctions = scale_encode_junctions(&beneficiary.interior);
        message.extend_from_slice(beneficiary_junctions.as_slice());
        assert(message@ =~= transfer_message(asset_location, amount, beneficiary));
        message
    }

    /// Helper to create a multilocation for the relay chain
    pub fn relay_chain_location(&self) -> (res: Multilocation)
        ensures
            res.parents == 1,
            res.interior@.len() == 0,
    {
        Multilocation { parents: 1, interior: Vec::new() }
    }

    /// Helper to create a multilocation for a parachain
    pub fn parachain_location(&self, para_id: u32) -> (res: Multilocation)
        ensures
            res.parents == 1,
            res.interior@.len() == 1,
            res.interior@[0]@ == parachain_junction(para_id),
    {
        let mut interior: Vec<Vec<u8>> = Vec::new();
        let mut parachain_bytes: Vec<u8> = vec![0x00u8];
        let id_bytes = u32_to_be_bytes(para_id);
        parachain_bytes.extend_from_slice(&id_bytes);
        assert(parachain_bytes@ =~= parachain_junction(para_id));
        interior.push(parachain_bytes);
        Multilocation { parents: 1, interior }
    }

    /// Helper to create a multilocation for an account on this chain
    pub fn local_account_location(&self, account: Address) -> (res: Multilocation)
        ensures
            res.parents == 0,
            res.interior@.len() == 1,
            res.interior@[0]@ == account_key20_junction(account@),
    {
        let mut interior: Vec<Vec<u8>> = Vec::new();
        let mut account_bytes: Vec<u8> = vec![0x03u8];
        account_bytes.extend_from_slice(&account);
        account_bytes.push(0x00u8);
        assert(account_bytes@ =~= account_key20_junction(account@));
        interior.push(account_bytes);
        Multilocation { parents: 0, interior }
    }
}

/// The address of the XCM utilities precompile: eighteen zero bytes, then
/// the precompile index in big-endian order.
pub open spec fn spec_xcm_utils_address() -> Seq<u8> {
    Seq::new(16, |i: int| 0u8) + be_bytes_u32(XCM_UTILS_PRECOMPILE_INDEX as u32)
}

/// Calculate the address of the XCM Utilities precompile
pub fn xcm_utils_address() -> (res: Address)
    ensures
        res@ == spec_xcm_utils_address(),
{
    let suffix = u32_to_be_bytes(XCM_UTILS_PRECOMPILE_INDEX as u32);
    let mut address: [u8; 20] = [0u8; 20];
    let mut i: usize = 16;
    while i < 20
        invariant
            16 <= i <= 20,
            suffix@ == be_bytes_u32(XCM_UTILS_PRECOMPILE_INDEX as u32),
            forall|j: int| 0 <= j < 16 ==> address@[j] == 0u8,
            forall|j: int| 16 <= j < i ==> address@[j] == suffix@[j - 16],
        decreases 20 - i,
    {
        address[i] = suffix[i - 16];
        i = i + 1;
    }
    assert(address@ =~= spec_xcm_utils_address());
    address
}

} // verus!
