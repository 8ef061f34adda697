use pallet_coinflip::machine::{create, flip, toss};
use pallet_coinflip::origin::{ensure_signed, report};
use pallet_coinflip::{Coin, CoinSide, DispatchError, Error, Event, Origin};

const HEAD: Coin = Coin { side: CoinSide::Head };
const TAIL: Coin = Coin { side: CoinSide::Tail };

#[test]
fn a_coin_starts_on_head() {
    assert_eq!(Coin::default(), HEAD);
    assert_eq!(CoinSide::default(), CoinSide::Head);
    assert_eq!(Coin::default().side(), CoinSide::Head);
}

#[test]
fn flipping_swaps_the_faces() {
    assert_eq!(HEAD.flipped(), TAIL);
    assert_eq!(TAIL.flipped(), HEAD);
    assert_eq!(HEAD.flipped().flipped(), HEAD);
    assert_eq!(TAIL.flipped().flipped(), TAIL);
}

#[test]
fn tossing_takes_the_draw() {
    assert_eq!(HEAD.tossed(true), HEAD);
    assert_eq!(HEAD.tossed(false), TAIL);
    assert_eq!(TAIL.tossed(true), HEAD);
    assert_eq!(TAIL.tossed(false), TAIL);
    assert_eq!(CoinSide::from_boolean(true), CoinSide::Head);
    assert_eq!(CoinSide::from_boolean(false), CoinSide::Tail);
}

#[test]
fn head_comes_before_tail() {
    assert!(CoinSide::Head < CoinSide::Tail);
    assert!(HEAD < TAIL);
    assert!(!(TAIL < HEAD));
    assert!(HEAD <= HEAD);
}

#[test]
fn a_coin_encodes_to_one_byte() {
    assert_eq!(HEAD.encode(), vec![0u8]);
    assert_eq!(TAIL.encode(), vec![1u8]);
}

#[test]
fn decoding_gives_the_coin_back() {
    assert_eq!(Coin::decode(&HEAD.encode()), Some(HEAD));
    assert_eq!(Coin::decode(&TAIL.encode()), Some(TAIL));
    assert_eq!(Coin::decode(&[0]), Some(HEAD));
    assert_eq!(Coin::decode(&[1]), Some(TAIL));
}

#[test]
fn decoding_reads_the_first_byte_only() {
    assert_eq!(Coin::decode(&[0, 9, 9]), Some(HEAD));
    assert_eq!(Coin::decode(&[1, 0]), Some(TAIL));
}

#[test]
fn decoding_rejects_what_is_no_coin() {
    assert_eq!(Coin::decode(&[]), None);
    assert_eq!(Coin::decode(&[2]), None);
    assert_eq!(Coin::decode(&[255]), None);
    assert_eq!(Coin::decode(&[2, 0]), None);
}

#[test]
fn create_needs_an_account_without_a_coin() {
    assert_eq!(create(None), Ok(HEAD));
    assert_eq!(create(Some(HEAD)), Err(Error::CoinAlreadyExists));
    assert_eq!(create(Some(TAIL)), Err(Error::CoinAlreadyExists));
}

#[test]
fn flip_needs_a_coin() {
    assert_eq!(flip(None), Err(Error::CoinDoesNotExist));
    assert_eq!(flip(Some(HEAD)), Ok(TAIL));
    assert_eq!(flip(Some(TAIL)), Ok(HEAD));
}

#[test]
fn toss_needs_a_coin() {
    assert_eq!(toss(None, true), Err(Error::CoinDoesNotExist));
    assert_eq!(toss(None, false), Err(Error::CoinDoesNotExist));
    assert_eq!(toss(Some(HEAD), false), Ok(TAIL));
    assert_eq!(toss(Some(HEAD), true), Ok(HEAD));
    assert_eq!(toss(Some(TAIL), true), Ok(HEAD));
    assert_eq!(toss(Some(TAIL), false), Ok(TAIL));
}

#[test]
fn only_a_signature_names_an_account() {
    assert_eq!(ensure_signed(Origin::Signed(5)), Ok(5));
    assert_eq!(ensure_signed(Origin::Signed(0)), Ok(0));
    assert_eq!(ensure_signed(Origin::Root), Err(DispatchError::BadOrigin));
    assert_eq!(ensure_signed(Origin::Unsigned), Err(DispatchError::BadOrigin));
}

#[test]
fn a_call_reports_its_event_or_the_error() {
    let event = Event::CoinFlipped { who: 3 };
    assert_eq!(report(Ok(()), event), Ok(event));
    assert_eq!(
        report(Err(Error::CoinDoesNotExist), event),
        Err(DispatchError::Module(Error::CoinDoesNotExist))
    );
    assert_eq!(
        report(Err(Error::CoinAlreadyExists), Event::CoinCreated { who: 3 }),
        Err(DispatchError::Module(Error::CoinAlreadyExists))
    );
}
