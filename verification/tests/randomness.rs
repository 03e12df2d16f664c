use hash_db::Hasher;
use sp_core::Blake2Hasher;
use storage_hub::randomness::{Event, GetBabeData, Pallet};

fn blake2(data: &[u8]) -> [u8; 32] {
    Blake2Hasher::hash(data).0
}

struct SecondEpoch;

impl GetBabeData for SecondEpoch {
    fn get_epoch_index() -> u64 {
        2
    }

    fn get_epoch_randomness() -> Option<[u8; 32]> {
        Some([7; 32])
    }
}

struct SilentEpoch;

impl GetBabeData for SilentEpoch {
    fn get_epoch_index() -> u64 {
        9
    }

    fn get_epoch_randomness() -> Option<[u8; 32]> {
        None
    }
}

#[test]
fn a_new_source_has_no_seed() {
    let pallet = Pallet::new();
    assert_eq!(pallet.latest_babe_randomness(), None);
    assert_eq!(pallet.relay_epoch(), 0);
    assert_eq!(pallet.inherent_included(), None);
    let r = pallet.random(b"subject");
    assert_eq!(r.seed, [0; 32]);
    assert_eq!(r.valid_from_block, 0);
}

#[test]
fn a_later_epoch_brings_a_new_seed() {
    let mut pallet = Pallet::new();
    let event = pallet.set_babe_randomness(1, Some([3; 32]), 10);
    assert_eq!(
        event,
        Some(Event::NewRandomnessAvailable { randomness_seed: [3; 32], from_epoch: 1, valid_until_block: 9 })
    );
    assert_eq!(pallet.latest_babe_randomness(), Some(([3; 32], 9)));
    assert_eq!(pallet.relay_epoch(), 1);
    assert_eq!(pallet.inherent_included(), Some(()));
}

#[test]
fn the_same_epoch_brings_nothing() {
    let mut pallet = Pallet::new();
    assert!(pallet.set_babe_randomness(1, Some([3; 32]), 10).is_some());
    pallet.on_finalize();
    assert_eq!(pallet.inherent_included(), None);
    assert_eq!(pallet.set_babe_randomness(1, Some([4; 32]), 11), None);
    assert_eq!(pallet.set_babe_randomness(0, Some([4; 32]), 11), None);
    assert_eq!(pallet.latest_babe_randomness(), Some(([3; 32], 9)));
    assert_eq!(pallet.relay_epoch(), 1);
    assert_eq!(pallet.inherent_included(), Some(()));
}

#[test]
fn an_epoch_without_randomness_brings_nothing() {
    let mut pallet = Pallet::new();
    assert_eq!(pallet.set_babe_randomness(5, None, 10), None);
    assert_eq!(pallet.latest_babe_randomness(), None);
    assert_eq!(pallet.relay_epoch(), 0);
    assert_eq!(pallet.inherent_included(), Some(()));
}

#[test]
fn the_seed_is_valid_up_to_the_block_before() {
    let mut pallet = Pallet::new();
    pallet.set_babe_randomness(1, Some([3; 32]), 0);
    assert_eq!(pallet.latest_babe_randomness(), Some(([3; 32], 0)));
    pallet.set_babe_randomness(2, Some([4; 32]), 1);
    assert_eq!(pallet.latest_babe_randomness(), Some(([4; 32], 0)));
    pallet.set_babe_randomness(3, Some([5; 32]), u64::MAX);
    assert_eq!(pallet.latest_babe_randomness(), Some(([5; 32], u64::MAX - 1)));
}

#[test]
fn random_hashes_the_seed_with_the_hashed_subject() {
    let mut pallet = Pallet::new();
    pallet.set_babe_randomness(1, Some([3; 32]), 10);
    let r = pallet.random(b"subject");
    let mut digest = [3u8; 32].to_vec();
    digest.extend_from_slice(&blake2(b"subject"));
    assert_eq!(r.seed, blake2(&digest));
    assert_eq!(r.valid_from_block, 9);
    assert_ne!(pallet.random(b"other").seed, r.seed);
    assert_eq!(pallet.random(b"subject").seed, r.seed);
    assert_ne!(r.seed, blake2(b"subject"));
}

#[test]
fn epoch_data_from_a_getter() {
    let mut pallet = Pallet::new();
    let event = pallet.set_babe_randomness_from::<SecondEpoch>(4);
    assert_eq!(
        event,
        Some(Event::NewRandomnessAvailable { randomness_seed: [7; 32], from_epoch: 2, valid_until_block: 3 })
    );
    assert_eq!(pallet.relay_epoch(), 2);
    assert_eq!(pallet.set_babe_randomness_from::<SilentEpoch>(5), None);
    assert_eq!(pallet.relay_epoch(), 2);
    assert_eq!(pallet.latest_babe_randomness(), Some(([7; 32], 3)));
}
