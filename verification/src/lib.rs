//! A coin for every account: create it, flip it, toss it.
//!
//! [`Pallet`] is the registry. It keeps at most one [`Coin`] per account and offers three
//! calls: `create_coin` puts a coin showing `Head` on record, `do_flip` turns it over, and
//! `do_toss` lets the host's randomness pick the face. The host, a [`Config`], supplies the
//! block number and the randomness; nothing is asked of either.
//!
//! The modules, from the bottom up:
//! - [`id`] and [`coin`] hold the plain data;
//! - [`codec`] holds the byte layouts and the calls into the SCALE codec;
//! - [`randomness`] turns a block number into a seed and a random answer into a draw;
//! - [`machine`] is the life of one account's coin and its effect on the store;
//! - [`origin`] tells a signed call from the others;
//! - [`pallet`] is the registry with its calls;
//! - [`laws`] states what holds of the registry in every state.

pub mod codec;
pub mod coin;
pub mod id;
pub mod laws;
pub mod machine;
pub mod origin;
pub mod pallet;
pub mod randomness;

pub use coin::{Coin, CoinSide};
pub use id::{AccountId, PalletId};
pub use machine::{Error, Event};
pub use origin::{DispatchError, Origin};
pub use pallet::{Config, Pallet};
