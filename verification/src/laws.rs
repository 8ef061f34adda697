//! What holds of the registry whatever its state, stated over the functions in which the
//! contracts of the calls are written.

use crate::codec::{lemma_u32_le_round_trip, subject_bytes, u32_le_bytes};
use crate::coin::{Coin, CoinSide};
use crate::id::{AccountId, PalletId};
use crate::machine::{
    after_create, after_flip, after_toss, create_verdict, flip_verdict, toss_verdict, Error,
};
use crate::pallet::{Config, Pallet};
use vstd::prelude::*;

verus! {

/// Asking twice for a coin gives one coin. For an account without a coin the first call goes
/// through; the second is turned down with `CoinAlreadyExists`, and it leaves the store as
/// the first call left it.
pub proof fn lemma_create_twice(coins: Map<AccountId, Coin>, who: AccountId)
    ensures
        !coins.contains_key(who) ==> create_verdict(coins, who) == Ok::<(), Error>(()),
        create_verdict(after_create(coins, who), who) == Err::<(), Error>(
            Error::CoinAlreadyExists,
        ),
        after_create(after_create(coins, who), who) == after_create(coins, who),
{
}

/// Without a coin there is nothing to flip or to toss: both calls are turned down with
/// `CoinDoesNotExist`, whatever face would have been drawn, and the store stays as it was,
/// so that the account still has no coin afterwards.
pub proof fn lemma_no_coin_no_flip_no_toss(coins: Map<AccountId, Coin>, who: AccountId, head: bool)
    requires
        !coins.contains_key(who),
    ensures
        flip_verdict(coins, who) == Err::<(), Error>(Error::CoinDoesNotExist),
        after_flip(coins, who) == coins,
        toss_verdict(coins, who) == Err::<(), Error>(Error::CoinDoesNotExist),
        after_toss(coins, who, head) == coins,
        !after_flip(coins, who).contains_key(who),
        !after_toss(coins, who, head).contains_key(who),
{
}

/// A flip always changes the face, and a second flip brings the first face back: the store
/// after two flips is the store before them.
pub proof fn lemma_flip_twice(coins: Map<AccountId, Coin>, who: AccountId)
    requires
        coins.contains_key(who),
    ensures
        flip_verdict(coins, who) == Ok::<(), Error>(()),
        flip_verdict(after_flip(coins, who), who) == Ok::<(), Error>(()),
        after_flip(coins, who)[who].side != coins[who].side,
        after_flip(after_flip(coins, who), who)[who].side == coins[who].side,
        after_flip(after_flip(coins, who), who) == coins,
{
    assert(after_flip(after_flip(coins, who), who) =~= coins);
}

/// A toss does not look at the face the coin shows: the coin ends up on the face drawn,
/// which may well be the face it showed before.
pub proof fn lemma_toss_shows_the_draw(coins: Map<AccountId, Coin>, who: AccountId, head: bool)
    requires
        coins.contains_key(who),
    ensures
        toss_verdict(coins, who) == Ok::<(), Error>(()),
        after_toss(coins, who, head)[who] == (Coin { side: CoinSide::chosen(head) }),
        coins[who].side == CoinSide::chosen(head) ==> after_toss(coins, who, head)
            == coins,
{
    if coins[who].side == CoinSide::chosen(head) {
        assert(after_toss(coins, who, head) =~= coins);
    }
}

/// The draw is a function of the identifier, the seed and the state of the host. Take a host
/// whose randomness is settled, one that gives each subject one answer: then a registry makes
/// one seed come up one way only, however often it draws.
pub proof fn lemma_draw_repeats<T: Config>(pallet: &Pallet<T>, seed: u32, first: bool, second: bool)
    requires
        pallet.randomness_is_settled(),
        pallet.draws(seed, first),
        pallet.draws(seed, second),
    ensures
        first == second,
{
}

/// Subjects keep draws apart: two subjects are the same only where both the identifier and
/// the seed are the same.
pub proof fn lemma_subjects_are_distinct(
    first_id: PalletId,
    first_seed: u32,
    second_id: PalletId,
    second_seed: u32,
)
    requires
        subject_bytes(first_id, first_seed) == subject_bytes(second_id, second_seed),
    ensures
        first_id == second_id,
        first_seed == second_seed,
{
    let first = subject_bytes(first_id, first_seed);
    let second = subject_bytes(second_id, second_seed);
    assert(first_id.0@ =~= first.take(8));
    assert(second_id.0@ =~= second.take(8));
    assert(first_id.0 == second_id.0);
    assert(u32_le_bytes(first_seed) =~= first.skip(8));
    assert(u32_le_bytes(second_seed) =~= second.skip(8));
    lemma_u32_le_round_trip(first_seed);
    lemma_u32_le_round_trip(second_seed);
}

/// What one account does leaves every other account alone: whether the other account has a
/// coin, and which face it shows, is the same before and after.
pub proof fn lemma_accounts_do_not_interfere(
    coins: Map<AccountId, Coin>,
    who: AccountId,
    other: AccountId,
    head: bool,
)
    requires
        who != other,
    ensures
        after_create(coins, who).get(other) == coins.get(other),
        after_flip(coins, who).get(other) == coins.get(other),
        after_toss(coins, who, head).get(other) == coins.get(other),
{
}

/// A coin, once there, stays: no call takes a coin off the record, and only `create` puts
/// one on it, for the caller alone.
pub proof fn lemma_coins_stay(
    coins: Map<AccountId, Coin>,
    who: AccountId,
    head: bool,
)
    ensures
        after_create(coins, who).dom() == coins.dom().insert(who),
        after_flip(coins, who).dom() == coins.dom(),
        after_toss(coins, who, head).dom() == coins.dom(),
{
    assert(after_create(coins, who).dom() =~= coins.dom().insert(who));
    assert(after_flip(coins, who).dom() =~= coins.dom());
    assert(after_toss(coins, who, head).dom() =~= coins.dom());
}

} // verus!
