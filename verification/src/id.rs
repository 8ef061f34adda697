//! How accounts and the pallet are named.

use vstd::prelude::*;

verus! {

/// An account is named by a number.
pub type AccountId = u64;

/// The eight bytes that tell this pallet apart from every other user of the same host.
#[derive(Clone, Copy, Debug, PartialEq, Eq)]
pub struct PalletId(pub [u8; 8]);

} // verus!
