use frame_support::pallet_prelude::Encode;
use pallet_coinflip::randomness::{boolean_from_random, random_subject, seed_from_block_number};
use pallet_coinflip::{Config, Pallet, PalletId};

struct Quiet;

impl Config for Quiet {
    fn block_number(&self) -> u64 {
        0
    }

    fn random(&self, _subject: &[u8]) -> [u8; 32] {
        [0u8; 32]
    }
}

#[test]
fn seed_is_the_block_number_while_it_fits() {
    assert_eq!(seed_from_block_number(0), 0);
    assert_eq!(seed_from_block_number(1), 1);
    assert_eq!(seed_from_block_number(7), 7);
    assert_eq!(seed_from_block_number(0xffff_ffff), 0xffff_ffff);
}

#[test]
fn seed_is_zero_for_a_block_number_too_large() {
    assert_eq!(seed_from_block_number(0x1_0000_0000), 0);
    assert_eq!(seed_from_block_number(0x1_0000_0007), 0);
    assert_eq!(seed_from_block_number(u64::MAX), 0);
}

#[test]
fn subject_is_identifier_then_seed() {
    let id = PalletId(*b"coinflip");
    assert_eq!(random_subject(&id, 7), b"coinflip\x07\x00\x00\x00".to_vec());
    assert_eq!(random_subject(&id, 0), b"coinflip\x00\x00\x00\x00".to_vec());
    assert_eq!(random_subject(&id, 0x0102_0304), b"coinflip\x04\x03\x02\x01".to_vec());
    assert_eq!(random_subject(&id, u32::MAX), b"coinflip\xff\xff\xff\xff".to_vec());
    assert_eq!(
        random_subject(&PalletId([0, 1, 2, 3, 4, 5, 6, 7]), 256),
        vec![0, 1, 2, 3, 4, 5, 6, 7, 0, 1, 0, 0]
    );
}

#[test]
fn subject_is_what_the_codec_writes_for_the_pair() {
    let bytes = *b"py/trsry";
    let expected = (frame_support::PalletId(bytes), 123_456_789u32).encode();
    assert_eq!(random_subject(&PalletId(bytes), 123_456_789), expected);
    assert_eq!(expected.len(), 12);
}

#[test]
fn different_seeds_give_different_subjects() {
    let id = PalletId(*b"coinflip");
    assert_ne!(random_subject(&id, 1), random_subject(&id, 2));
    assert_ne!(random_subject(&id, 1), random_subject(&id, 256));
    assert_ne!(random_subject(&id, 1), random_subject(&PalletId(*b"coinflop"), 1));
}

#[test]
fn an_even_number_is_a_yes() {
    assert!(boolean_from_random(&[0, 0, 0, 0]));
    assert!(boolean_from_random(&[2, 0, 0, 0]));
    assert!(boolean_from_random(&[254, 255, 255, 255]));
    assert!(boolean_from_random(&[0, 1, 1, 1]));
    assert!(boolean_from_random(&[0u8; 32]));
}

#[test]
fn an_odd_number_is_a_no() {
    assert!(!boolean_from_random(&[1, 0, 0, 0]));
    assert!(!boolean_from_random(&[255, 255, 255, 255]));
    assert!(!boolean_from_random(&[1, 2, 2, 2]));
    assert!(!boolean_from_random(b"coinflip\x07\x00\x00\x00"));
}

#[test]
fn only_the_first_four_bytes_are_read() {
    assert!(boolean_from_random(&[2, 0, 0, 0, 1, 1, 1, 1]));
    assert!(!boolean_from_random(&[3, 0, 0, 0, 2, 2, 2, 2]));
}

#[test]
fn pallet_account_is_marker_then_identifier() {
    let pallet = Pallet::new(PalletId(*b"coinflip"), Quiet);
    assert_eq!(pallet.account_id(), u64::from_le_bytes(*b"modlcoin"));
    assert_eq!(pallet.account_id(), 0x6e69_6f63_6c64_6f6d);
    let pallet = Pallet::new(PalletId([0; 8]), Quiet);
    assert_eq!(pallet.account_id(), 0x0000_0000_6c64_6f6d);
    let pallet = Pallet::new(PalletId([1, 2, 3, 4, 5, 6, 7, 8]), Quiet);
    assert_eq!(pallet.account_id(), 0x0403_0201_6c64_6f6d);
}

#[test]
fn about_half_of_the_seeds_come_up_head_with_a_host_that_echoes_the_seed() {
    // A host that answers with the seed's own bytes: even seeds are a yes, odd ones a no.
    struct Echo;
    impl Config for Echo {
        fn block_number(&self) -> u64 {
            0
        }

        fn random(&self, subject: &[u8]) -> [u8; 32] {
            let mut answer = [0u8; 32];
            answer[..4].copy_from_slice(&subject[8..12]);
            answer
        }
    }
    let pallet = Pallet::new(PalletId(*b"coinflip"), Echo);
    let mut heads = 0;
    for seed in 0..10_000u32 {
        if pallet.generate_insecure_random_boolean(seed) {
            heads += 1;
        }
    }
    assert_eq!(heads, 5_000);
}
