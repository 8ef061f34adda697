//! The life of one account's coin, and what each step makes of the whole store.
//!
//! An account has no coin until `create` succeeds for it. From then on it always has one:
//! `flip` and `toss` change the face it shows, and nothing takes the coin away.

use crate::id::AccountId;
use crate::coin::{Coin, CoinSide};
use vstd::prelude::*;

verus! {

/// Why an operation was turned down.
#[derive(Clone, Copy, Debug, PartialEq, Eq, Structural)]
pub enum Error {
    /// `create` for an account that has a coin already.
    CoinAlreadyExists,
    /// `flip` or `toss` for an account that has no coin.
    CoinDoesNotExist,
}

/// What an operation that went through reports.
#[derive(Clone, Copy, Debug, PartialEq, Eq, Structural)]
pub enum Event {
    /// `who` got a coin.
    CoinCreated { who: AccountId },
    /// `who` turned its coin over.
    CoinFlipped { who: AccountId },
    /// `who` tossed its coin.
    CoinTossed { who: AccountId },
}

/// `create` on one account: a coin showing `Head` where there was none.
pub open spec fn created(state: Option<Coin>) -> Result<Coin, Error> {
    match state {
        None => Ok(Coin { side: CoinSide::Head }),
        Some(_) => Err(Error::CoinAlreadyExists),
    }
}

/// `flip` on one account: the coin that is there, turned over.
pub open spec fn flipped(state: Option<Coin>) -> Result<Coin, Error> {
    match state {
        Some(coin) => Ok(Coin { side: coin.side.opposite() }),
        None => Err(Error::CoinDoesNotExist),
    }
}

/// `toss` on one account: the coin that is there, showing the face that was drawn.
pub open spec fn tossed(state: Option<Coin>, head: bool) -> Result<Coin, Error> {
    match state {
        Some(_) => Ok(Coin { side: CoinSide::chosen(head) }),
        None => Err(Error::CoinDoesNotExist),
    }
}

/// What the caller is told of a step: that it went through, or why it did not.
pub open spec fn verdict(step: Result<Coin, Error>) -> Result<(), Error> {
    match step {
        Ok(_) => Ok(()),
        Err(error) => Err(error),
    }
}

/// The store once a step on `who` has been settled: the new coin is written where the step
/// went through, and where it did not the store is left exactly as it was.
pub open spec fn settled(
    coins: Map<AccountId, Coin>,
    who: AccountId,
    step: Result<Coin, Error>,
) -> Map<AccountId, Coin> {
    match step {
        Ok(coin) => coins.insert(who, coin),
        Err(_) => coins,
    }
}

/// The store after `who` asked for a coin.
pub open spec fn after_create(
    coins: Map<AccountId, Coin>,
    who: AccountId,
) -> Map<AccountId, Coin> {
    settled(coins, who, created(coins.get(who)))
}

/// The store after `who` asked to flip.
pub open spec fn after_flip(
    coins: Map<AccountId, Coin>,
    who: AccountId,
) -> Map<AccountId, Coin> {
    settled(coins, who, flipped(coins.get(who)))
}

/// The store after `who` asked to toss and `head` was drawn.
pub open spec fn after_toss(
    coins: Map<AccountId, Coin>,
    who: AccountId,
    head: bool,
) -> Map<AccountId, Coin> {
    settled(coins, who, tossed(coins.get(who), head))
}

/// What `who` is told on asking for a coin.
pub open spec fn create_verdict(coins: Map<AccountId, Coin>, who: AccountId) -> Result<(), Error> {
    verdict(created(coins.get(who)))
}

/// What `who` is told on asking to flip.
pub open spec fn flip_verdict(coins: Map<AccountId, Coin>, who: AccountId) -> Result<(), Error> {
    verdict(flipped(coins.get(who)))
}

/// What `who` is told on asking to toss. The face drawn has no say in it.
pub open spec fn toss_verdict(coins: Map<AccountId, Coin>, who: AccountId) -> Result<(), Error> {
    verdict(tossed(coins.get(who), true))
}

/// Decides `create` for an account in the given state.
pub fn create(state: Option<Coin>) -> (step: Result<Coin, Error>)
    ensures
        step == created(state),
{
    match state {
        None => Ok(Coin::default()),
        Some(_) => Err(Error::CoinAlreadyExists),
    }
}

/// Decides `flip` for an account in the given state.
pub fn flip(state: Option<Coin>) -> (step: Result<Coin, Error>)
    ensures
        step == flipped(state),
{
    match state {
        Some(coin) => Ok(coin.flipped()),
        None => Err(Error::CoinDoesNotExist),
    }
}

/// Decides `toss` for an account in the given state, with the draw already made.
pub fn toss(state: Option<Coin>, head: bool) -> (step: Result<Coin, Error>)
    ensures
        step == tossed(state, head),
{
    match state {
        Some(coin) => Ok(coin.tossed(head)),
        None => Err(Error::CoinDoesNotExist),
    }
}

} // verus!
