//! The byte layouts this crate shares with the SCALE codec, and the calls into it.
//!
//! Everything here that is marked `external_body` is taken on trust: its contract restates
//! what the codec does and is not proved.

use crate::id::{AccountId, PalletId};
use frame_support::pallet_prelude::{Decode, Encode};
use frame_support::sp_runtime::traits::AccountIdConversion;
use vstd::prelude::*;

verus! {

/// The four bytes of `value`, least significant first.
pub open spec fn u32_le_bytes(value: u32) -> Seq<u8> {
    seq![
        (value % 256) as u8,
        (value / 256 % 256) as u8,
        (value / 65536 % 256) as u8,
        (value / 16777216) as u8,
    ]
}

/// The number that the first four of `bytes` spell, least significant byte first.
pub open spec fn u32_from_le_bytes(bytes: Seq<u8>) -> int
    recommends
        bytes.len() >= 4,
{
    bytes[0] + 256 * bytes[1] + 65536 * bytes[2] + 16777216 * bytes[3]
}

/// What decoding a `u32` from the front of `bytes` gives: the number that the first four
/// bytes spell, or nothing where there are fewer than four.
pub open spec fn decoded_u32(bytes: Seq<u8>) -> Option<u32> {
    if bytes.len() >= 4 {
        Some(u32_from_le_bytes(bytes) as u32)
    } else {
        None
    }
}

/// The number that the first eight of `bytes` spell, least significant byte first.
pub open spec fn u64_from_le_bytes(bytes: Seq<u8>) -> int
    recommends
        bytes.len() >= 8,
{
    u32_from_le_bytes(bytes) + 4294967296 * u32_from_le_bytes(bytes.skip(4))
}

/// Spelling a number out and reading it back gives the number, and the spelling has four
/// bytes.
pub proof fn lemma_u32_le_round_trip(value: u32)
    ensures
        u32_le_bytes(value).len() == 4,
        u32_from_le_bytes(u32_le_bytes(value)) == value,
        decoded_u32(u32_le_bytes(value)) == Some(value),
{
    let b0: u32 = value % 256;
    let b1: u32 = value / 256 % 256;
    let b2: u32 = value / 65536 % 256;
    let b3: u32 = value / 16777216;
    assert(b0 < 256 && b1 < 256 && b2 < 256 && b3 < 256 && value == b0 + 256 * b1 + 65536 * b2
        + 16777216 * b3) by (bit_vector)
        requires
            b0 == value % 256,
            b1 == value / 256 % 256,
            b2 == value / 65536 % 256,
            b3 == value / 16777216,
    ;
    let bytes = u32_le_bytes(value);
    assert(bytes[0] == b0 && bytes[1] == b1 && bytes[2] == b2 && bytes[3] == b3);
}

/// The subject handed to the randomness provider for `seed`: the pallet's identifier
/// followed by the seed, least significant byte first. Twelve bytes in all.
pub open spec fn subject_bytes(pallet_id: PalletId, seed: u32) -> Seq<u8> {
    pallet_id.0@ + u32_le_bytes(seed)
}

/// The marker that the host puts in front of a pallet's identifier when it derives the
/// pallet's own account: the letters `modl`.
pub open spec fn account_marker() -> Seq<u8> {
    seq![0x6du8, 0x6fu8, 0x64u8, 0x6cu8]
}

/// The account that belongs to the pallet itself: the marker and then the identifier, cut
/// to the eight bytes an `AccountId` has room for and read least significant byte first.
pub open spec fn pallet_account(pallet_id: PalletId) -> int {
    u64_from_le_bytes(account_marker() + pallet_id.0@)
}

/// Calls `Encode::encode` on the pair of a `frame_support::PalletId` and the seed.
///
/// Trusted: the codec writes a tuple as its fields one after the other, a `PalletId` as its
/// eight bytes without a length in front, and a `u32` as four bytes, least significant first.
#[verifier::external_body]
pub(crate) fn encode_subject(pallet_id: &PalletId, seed: u32) -> (subject: Vec<u8>)
    ensures
        subject@ == subject_bytes(*pallet_id, seed),
{
    (frame_support::PalletId(pallet_id.0), seed).encode()
}

/// Calls `Decode::decode` for `u32` with `bytes` as the input.
///
/// Trusted: the codec takes four bytes off the front of the input and reads them least
/// significant first; it fails exactly when the input holds fewer than four bytes.
#[verifier::external_body]
pub(crate) fn decode_u32(bytes: &[u8]) -> (number: Option<u32>)
    ensures
        number == decoded_u32(bytes@),
{
    let mut input = bytes;
    u32::decode(&mut input).ok()
}

/// Calls `AccountIdConversion::into_account_truncating` on a `frame_support::PalletId`, for
/// an account that is a `u64`.
///
/// Trusted: the conversion encodes the marker `modl`, the identifier and an empty sub-seed
/// one after the other and decodes a `u64` from the front of that, which reads eight bytes,
/// least significant first. Twelve bytes are on offer, so the call does not fail.
#[verifier::external_body]
pub(crate) fn into_account_truncating(pallet_id: &PalletId) -> (account: AccountId)
    ensures
        account == pallet_account(*pallet_id),
{
    frame_support::PalletId(pallet_id.0).into_account_truncating()
}

} // verus!
