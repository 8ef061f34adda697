//! The coin record: one face, with its fixed one-byte encoding.

use vstd::prelude::*;

verus! {

/// The face a coin shows.
#[derive(Clone, Copy, Debug, PartialEq, Eq, PartialOrd, Structural)]
pub enum CoinSide {
    Head,
    Tail,
}

impl CoinSide {
    /// The other face.
    pub open spec fn opposite(self) -> CoinSide {
        match self {
            CoinSide::Head => CoinSide::Tail,
            CoinSide::Tail => CoinSide::Head,
        }
    }

    /// The face chosen by a yes/no answer: `Head` for yes, `Tail` for no.
    pub open spec fn chosen(head: bool) -> CoinSide {
        if head {
            CoinSide::Head
        } else {
            CoinSide::Tail
        }
    }

    /// The byte that stands for this face in an encoded record.
    pub open spec fn tag(self) -> u8 {
        match self {
            CoinSide::Head => 0,
            CoinSide::Tail => 1,
        }
    }

    /// Picks `Head` when `head` holds and `Tail` otherwise.
    pub fn from_boolean(head: bool) -> (side: CoinSide)
        ensures
            side == CoinSide::chosen(head),
    {
        if head {
            CoinSide::Head
        } else {
            CoinSide::Tail
        }
    }
}

impl Default for CoinSide {
    /// A coin starts out showing `Head`.
    fn default() -> (side: CoinSide)
        ensures
            side == CoinSide::Head,
    {
        CoinSide::Head
    }
}

/// The record kept for one account.
#[derive(Clone, Copy, Debug, PartialEq, Eq, PartialOrd, Structural)]
pub struct Coin {
    pub side: CoinSide,
}

impl Default for Coin {
    /// A fresh coin shows `Head`.
    fn default() -> (coin: Coin)
        ensures
            coin == (Coin { side: CoinSide::Head }),
    {
        Coin { side: CoinSide::Head }
    }
}

impl Coin {
    /// The face this coin shows.
    pub fn side(&self) -> (side: CoinSide)
        ensures
            side == self.side,
    {
        self.side
    }

    /// The coin turned over: `Head` becomes `Tail` and `Tail` becomes `Head`.
    pub fn flipped(self) -> (coin: Coin)
        ensures
            coin == (Coin { side: self.side.opposite() }),
    {
        match self.side {
            CoinSide::Head => Coin { side: CoinSide::Tail },
            CoinSide::Tail => Coin { side: CoinSide::Head },
        }
    }

    /// The coin after a toss that came up `head` (or not). The face it showed before plays no
    /// part, so a toss may leave the coin as it was.
    pub fn tossed(self, head: bool) -> (coin: Coin)
        ensures
            coin == (Coin { side: CoinSide::chosen(head) }),
    {
        Coin { side: CoinSide::from_boolean(head) }
    }

    /// The bytes a record is stored as: a single byte, the tag of its face.
    pub open spec fn encoding(self) -> Seq<u8> {
        seq![self.side.tag()]
    }

    /// The record that a byte string starts with, if it starts with one. Only the first byte
    /// is read; bytes after it are not part of the record.
    pub open spec fn decoding(bytes: Seq<u8>) -> Option<Coin> {
        if bytes.len() >= 1 && bytes[0] == 0 {
            Some(Coin { side: CoinSide::Head })
        } else if bytes.len() >= 1 && bytes[0] == 1 {
            Some(Coin { side: CoinSide::Tail })
        } else {
            None
        }
    }

    /// Encodes the record.
    pub fn encode(&self) -> (bytes: Vec<u8>)
        ensures
            bytes@ == self.encoding(),
    {
        let tag: u8 = match self.side {
            CoinSide::Head => 0,
            CoinSide::Tail => 1,
        };
        let mut bytes: Vec<u8> = Vec::new();
        bytes.push(tag);
        assert(bytes@ =~= self.encoding());
        bytes
    }

    /// Decodes the record at the front of `bytes`. Fails on empty input and on a first byte
    /// that is no face's tag.
    pub fn decode(bytes: &[u8]) -> (coin: Option<Coin>)
        ensures
            coin == Coin::decoding(bytes@),
    {
        if bytes.len() == 0 {
            None
        } else if bytes[0] == 0 {
            Some(Coin { side: CoinSide::Head })
        } else if bytes[0] == 1 {
            Some(Coin { side: CoinSide::Tail })
        } else {
            None
        }
    }
}

/// A record survives the trip through its encoding: one byte goes out, and decoding it,
/// with or without further bytes behind it, gives the record back.
pub proof fn lemma_encoding_round_trips(coin: Coin, rest: Seq<u8>)
    ensures
        coin.encoding().len() == 1,
        Coin::decoding(coin.encoding()) == Some(coin),
        Coin::decoding(coin.encoding() + rest) == Some(coin),
{
}

/// Every record has one encoding only: bytes that decode to a record start with the very
/// byte that the record encodes to.
pub proof fn lemma_decoding_is_canonical(bytes: Seq<u8>, coin: Coin)
    requires
        Coin::decoding(bytes) == Some(coin),
    ensures
        bytes.len() >= 1,
        bytes.take(1) == coin.encoding(),
{
    assert(bytes.take(1) =~= coin.encoding());
}

} // verus!
