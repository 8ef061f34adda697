//! From a block number to a seed, from a seed to the subject put before the randomness
//! provider, and from the provider's answer to a yes or a no.
//!
//! The provider itself is not part of this crate and nothing is assumed of its answers.
//! What is fixed here is what it is asked and how its answer is read.

use crate::codec::{decode_u32, decoded_u32, encode_subject, subject_bytes, u32_from_le_bytes};
use crate::id::PalletId;
use vstd::prelude::*;

verus! {

/// The seed for a block number: the number itself while it fits in 32 bits, else zero.
pub open spec fn seed_of(block_number: u64) -> u32 {
    if block_number <= u32::MAX {
        block_number as u32
    } else {
        0
    }
}

/// Whether a random seed counts as a yes: the number spelled by its first four bytes, least
/// significant first, is even.
pub open spec fn comes_up_head(random_seed: Seq<u8>) -> bool
    recommends
        random_seed.len() >= 4,
{
    u32_from_le_bytes(random_seed) % 2 == 0
}

/// Only the lowest bit of the first byte of a random seed decides.
pub proof fn lemma_first_byte_decides(random_seed: Seq<u8>)
    requires
        random_seed.len() >= 4,
    ensures
        comes_up_head(random_seed) <==> random_seed[0] % 2 == 0,
{
}

/// Narrows a block number to a seed. A block number too large for 32 bits gives seed zero.
pub fn seed_from_block_number(block_number: u64) -> (seed: u32)
    ensures
        seed == seed_of(block_number),
{
    if block_number <= 0xffff_ffff {
        block_number as u32
    } else {
        0
    }
}

/// The bytes to put before the randomness provider for `seed`.
pub fn random_subject(pallet_id: &PalletId, seed: u32) -> (subject: Vec<u8>)
    ensures
        subject@ == subject_bytes(*pallet_id, seed),
        subject@.len() == 12,
{
    encode_subject(pallet_id, seed)
}

/// Reads the provider's answer: `true` when the number at its front is even.
///
/// An answer shorter than four bytes holds no such number; a provider never gives one.
pub fn boolean_from_random(random_seed: &[u8]) -> (head: bool)
    requires
        random_seed@.len() >= 4,
    ensures
        head == comes_up_head(random_seed@),
        head == (random_seed@[0] % 2 == 0),
{
    let random_number: u32 = decode_u32(random_seed).unwrap();
    assert(decoded_u32(random_seed@) == Some(random_number));
    random_number % 2 == 0
}

} // verus!
