//! Who is calling. The host has checked the caller before the pallet sees it; the pallet
//! only asks whether an account stands behind the call.

use crate::id::AccountId;
use crate::machine::{Error, Event};
use vstd::prelude::*;

verus! {

/// Where a call comes from.
#[derive(Clone, Copy, Debug, PartialEq, Eq, Structural)]
pub enum Origin {
    /// The host itself.
    Root,
    /// An account that signed the call.
    Signed(AccountId),
    /// Nobody: the call carries no signature.
    Unsigned,
}

/// Why a call did not go through.
#[derive(Clone, Copy, Debug, PartialEq, Eq, Structural)]
pub enum DispatchError {
    /// No account signed the call.
    BadOrigin,
    /// The pallet turned the call down.
    Module(Error),
}

/// The account that signed, if one did.
pub open spec fn signer(origin: Origin) -> Option<AccountId> {
    match origin {
        Origin::Signed(who) => Some(who),
        _ => None,
    }
}

/// What a signed call reports: the event where the pallet let it through, the pallet's
/// error where it did not.
pub open spec fn reported(
    verdict: Result<(), Error>,
    event: Event,
) -> Result<Event, DispatchError> {
    match verdict {
        Ok(_) => Ok(event),
        Err(error) => Err(DispatchError::Module(error)),
    }
}

/// Gives the account that signed the call, and `BadOrigin` for every other origin.
pub fn ensure_signed(origin: Origin) -> (who: Result<AccountId, DispatchError>)
    ensures
        who == match signer(origin) {
            Some(account) => Ok::<AccountId, DispatchError>(account),
            None => Err(DispatchError::BadOrigin),
        },
{
    match origin {
        Origin::Signed(who) => Ok(who),
        _ => Err(DispatchError::BadOrigin),
    }
}

/// Turns the pallet's verdict on a signed call into what the call reports.
pub fn report(verdict: Result<(), Error>, event: Event) -> (result: Result<Event, DispatchError>)
    ensures
        result == reported(verdict, event),
{
    match verdict {
        Ok(_) => Ok(event),
        Err(error) => Err(DispatchError::Module(error)),
    }
}

} // verus!
