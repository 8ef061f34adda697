//! The registry: every account's coin, and the calls that act on it.

use crate::codec::{into_account_truncating, pallet_account, subject_bytes};
use crate::coin::Coin;
use crate::id::{AccountId, PalletId};
use crate::machine::{
    after_create, after_flip, after_toss, create, create_verdict, flip, flip_verdict, toss,
    toss_verdict, Error, Event,
};
use crate::origin::{ensure_signed, report, reported, signer, DispatchError, Origin};
use crate::randomness::{
    boolean_from_random, comes_up_head, random_subject, seed_from_block_number, seed_of,
};
use std::collections::HashMap;
use vstd::prelude::*;

verus! {

broadcast use vstd::std_specs::hash::group_hash_axioms;

/// What the host has to supply.
///
/// Neither method promises anything here: whatever an implementation answers, the registry
/// stays within its contracts. An implementation may promise more of its own answers, and
/// the registry's contracts then say more of a toss: they speak of the host through
/// `call_ensures`.
pub trait Config {
    /// The number of the block that is being built.
    fn block_number(&self) -> u64;

    /// Thirty-two bytes drawn for `subject`. This is not a source of secure randomness.
    fn random(&self, subject: &[u8]) -> [u8; 32];
}

/// The registry of coins, one per account at most.
pub struct Pallet<T: Config> {
    pallet_id: PalletId,
    config: T,
    coins: HashMap<AccountId, Coin>,
}

impl<T: Config> View for Pallet<T> {
    type V = Map<AccountId, Coin>;

    /// The coins on record, by account.
    closed spec fn view(&self) -> Map<AccountId, Coin> {
        self.coins@
    }
}

impl<T: Config> Pallet<T> {
    /// The identifier this registry was set up with.
    pub closed spec fn pallet_id(&self) -> PalletId {
        self.pallet_id
    }

    /// The host this registry was set up with.
    pub closed spec fn config(&self) -> T {
        self.config
    }

    /// Whether two registries were set up alike: with the same identifier and the same host.
    /// No call changes how a registry was set up.
    pub open spec fn set_up_like(&self, other: &Self) -> bool {
        self.pallet_id() == other.pallet_id() && self.config() == other.config()
    }

    /// Whether the host may make `seed` come up `head`: it is asked for the subject of this
    /// registry's identifier and `seed`, and `head` is how one of the answers that it may
    /// give to that subject reads.
    pub open spec fn draws(&self, seed: u32, head: bool) -> bool {
        exists|subject: &[u8], random_seed: [u8; 32]|
            subject@ == subject_bytes(self.pallet_id(), seed) && #[trigger] call_ensures(
                T::random,
                (&self.config(), subject),
                random_seed,
            ) && head == comes_up_head(random_seed@)
    }

    /// Whether the host's randomness is settled: to one subject it gives one answer only.
    /// This is what a host in a fixed state is like.
    pub open spec fn randomness_is_settled(&self) -> bool {
        forall|first_subject: &[u8], second_subject: &[u8], first: [u8; 32], second: [u8; 32]|
            first_subject@ == second_subject@ && #[trigger] call_ensures(
                T::random,
                (&self.config(), first_subject),
                first,
            ) && #[trigger] call_ensures(T::random, (&self.config(), second_subject), second)
                ==> first == second
    }

    /// Whether a toss may come up `head`: the seed is that of a block number that the host
    /// may report, and the host may make that seed come up `head`.
    pub open spec fn tosses(&self, head: bool) -> bool {
        exists|block_number: u64| #[trigger]
            call_ensures(T::block_number, (&self.config(),), block_number) && self.draws(
                seed_of(block_number),
                head,
            )
    }

    /// An empty registry.
    pub fn new(pallet_id: PalletId, config: T) -> (pallet: Self)
        ensures
            pallet@ == Map::<AccountId, Coin>::empty(),
            pallet.pallet_id() == pallet_id,
            pallet.config() == config,
    {
        Pallet { pallet_id, config, coins: HashMap::new() }
    }

    /// The coin on record for `account_id`, if there is one.
    pub fn coin(&self, account_id: &AccountId) -> (coin: Option<Coin>)
        ensures
            coin == self@.get(*account_id),
    {
        match self.coins.get(account_id) {
            Some(coin) => Some(*coin),
            None => None,
        }
    }

    /// How many accounts have a coin.
    pub fn len(&self) -> (count: usize)
        ensures
            count == self@.len(),
            self@.dom().finite(),
    {
        self.coins.len()
    }

    /// A call by `origin` for a coin of its own.
    ///
    /// Only a signed origin gets one, and only where the account has none yet. The coin
    /// shows `Head`. Every other call changes nothing.
    pub fn create_coin(&mut self, origin: Origin) -> (result: Result<Event, DispatchError>)
        ensures
            final(self).set_up_like(old(self)),
            match signer(origin) {
                Some(who) => {
                    &&& final(self)@ == after_create(old(self)@, who)
                    &&& result == reported(
                        create_verdict(old(self)@, who),
                        (Event::CoinCreated { who }),
                    )
                },
                None => final(self)@ == old(self)@ && result == Err::<Event, DispatchError>(
                    DispatchError::BadOrigin,
                ),
            },
    {
        let who = match ensure_signed(origin) {
            Ok(who) => who,
            Err(error) => {
                return Err(error);
            },
        };
        let verdict = self.do_create_coin(&who);
        report(verdict, Event::CoinCreated { who })
    }

    /// A call by `origin` to turn its coin over.
    ///
    /// Only a signed origin whose account has a coin gets its way. Every other call changes
    /// nothing.
    pub fn do_flip(&mut self, origin: Origin) -> (result: Result<Event, DispatchError>)
        ensures
            final(self).set_up_like(old(self)),
            match signer(origin) {
                Some(who) => {
                    &&& final(self)@ == after_flip(old(self)@, who)
                    &&& result == reported(
                        flip_verdict(old(self)@, who),
                        (Event::CoinFlipped { who }),
                    )
                },
                None => final(self)@ == old(self)@ && result == Err::<Event, DispatchError>(
                    DispatchError::BadOrigin,
                ),
            },
    {
        let who = match ensure_signed(origin) {
            Ok(who) => who,
            Err(error) => {
                return Err(error);
            },
        };
        let verdict = self.do_flip_coin(&who);
        report(verdict, Event::CoinFlipped { who })
    }

    /// A call by `origin` to toss its coin.
    ///
    /// Only a signed origin whose account has a coin gets its way; the coin then shows one
    /// face or the other, as the host's randomness has it. Every other call changes nothing.
    pub fn do_toss(&mut self, origin: Origin) -> (result: Result<Event, DispatchError>)
        ensures
            final(self).set_up_like(old(self)),
            match signer(origin) {
                Some(who) => {
                    &&& result == reported(
                        toss_verdict(old(self)@, who),
                        (Event::CoinTossed { who }),
                    )
                    &&& old(self)@.contains_key(who) ==> exists|head: bool| #[trigger]
                        old(self).tosses(head) && final(self)@ == after_toss(
                            old(self)@,
                            who,
                            head,
                        )
                    &&& !old(self)@.contains_key(who) ==> final(self)@ == old(self)@
                },
                None => final(self)@ == old(self)@ && result == Err::<Event, DispatchError>(
                    DispatchError::BadOrigin,
                ),
            },
    {
        let who = match ensure_signed(origin) {
            Ok(who) => who,
            Err(error) => {
                return Err(error);
            },
        };
        let verdict = self.do_toss_coin(&who);
        report(verdict, Event::CoinTossed { who })
    }

    /// The account that stands for the pallet itself.
    pub fn account_id(&self) -> (account: AccountId)
        ensures
            account == pallet_account(self.pallet_id()),
    {
        into_account_truncating(&self.pallet_id)
    }

    /// Puts a coin showing `Head` on record for `account_id`, unless it has one.
    pub fn do_create_coin(&mut self, account_id: &AccountId) -> (result: Result<(), Error>)
        ensures
            final(self).set_up_like(old(self)),
            final(self)@ == after_create(old(self)@, *account_id),
            result == create_verdict(old(self)@, *account_id),
    {
        match create(self.coin(account_id)) {
            Ok(coin) => {
                self.coins.insert(*account_id, coin);
                Ok(())
            },
            Err(error) => Err(error),
        }
    }

    /// Turns the coin of `account_id` over, if it has one.
    pub fn do_flip_coin(&mut self, account_id: &AccountId) -> (result: Result<(), Error>)
        ensures
            final(self).set_up_like(old(self)),
            final(self)@ == after_flip(old(self)@, *account_id),
            result == flip_verdict(old(self)@, *account_id),
    {
        match flip(self.coin(account_id)) {
            Ok(coin) => {
                self.coins.insert(*account_id, coin);
                Ok(())
            },
            Err(error) => Err(error),
        }
    }

    /// Tosses the coin of `account_id`, if it has one.
    ///
    /// The seed is the host's block number, and the face is the one that
    /// [`generate_insecure_random_boolean`](Self::generate_insecure_random_boolean) draws
    /// for it. The host is not asked for anything where there is no coin to toss.
    pub fn do_toss_coin(&mut self, account_id: &AccountId) -> (result: Result<(), Error>)
        ensures
            final(self).set_up_like(old(self)),
            result == toss_verdict(old(self)@, *account_id),
            old(self)@.contains_key(*account_id) ==> exists|head: bool| #[trigger]
                old(self).tosses(head) && final(self)@ == after_toss(
                    old(self)@,
                    *account_id,
                    head,
                ),
            !old(self)@.contains_key(*account_id) ==> final(self)@ == old(self)@,
    {
        if self.coin(account_id).is_none() {
            return Err(Error::CoinDoesNotExist);
        }
        let block_number = self.config.block_number();
        assert(call_ensures(T::block_number, (&self.config(),), block_number));
        let seed = seed_from_block_number(block_number);
        let head = self.generate_insecure_random_boolean(seed);
        assert(self.tosses(head));
        self.do_toss_coin_with(account_id, head)
    }

    /// Settles a toss of the coin of `account_id` whose draw has been made: the coin shows
    /// `Head` where `head` holds and `Tail` where it does not.
    pub fn do_toss_coin_with(
        &mut self,
        account_id: &AccountId,
        head: bool,
    ) -> (result: Result<(), Error>)
        ensures
            final(self).set_up_like(old(self)),
            final(self)@ == after_toss(old(self)@, *account_id, head),
            result == toss_verdict(old(self)@, *account_id),
    {
        match toss(self.coin(account_id), head) {
            Ok(coin) => {
                self.coins.insert(*account_id, coin);
                Ok(())
            },
            Err(error) => Err(error),
        }
    }

    /// Draws a yes or a no for `seed`.
    ///
    /// The host's randomness is asked for the subject that
    /// [`random_subject`](crate::randomness::random_subject) gives for this registry's
    /// identifier and `seed`, and its answer is read by
    /// [`boolean_from_random`](crate::randomness::boolean_from_random). The draw is as good
    /// as the host's answer, and no better.
    pub fn generate_insecure_random_boolean(&self, seed: u32) -> (head: bool)
        ensures
            self.draws(seed, head),
    {
        let subject = random_subject(&self.pallet_id, seed);
        let subject = subject.as_slice();
        let random_seed = self.config.random(subject);
        assert(call_ensures(T::random, (&self.config(), subject), random_seed));
        boolean_from_random(random_seed.as_slice())
    }
}

} // verus!
