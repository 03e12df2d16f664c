//! The source of randomness: the latest seed that the relay chain produced,
//! with the last block whose commitments may use it.
use vstd::prelude::*;
use crate::file_system::Randomness;
use crate::hashing::{blake2_256, spec_blake2_256};

verus! {

/// Where the epoch data of the relay chain come from.
pub trait GetBabeData {
    /// The index of the current epoch of the relay chain.
    fn get_epoch_index() -> u64;

    /// The randomness of the current epoch, if the relay chain gave one.
    fn get_epoch_randomness() -> Option<[u8; 32]>;
}

/// What the randomness source has to tell.
#[derive(Debug, Clone, Copy, PartialEq, Eq)]
pub enum Event {
    /// A new random seed is available from the relay chain.
    NewRandomnessAvailable { randomness_seed: [u8; 32], from_epoch: u64, valid_until_block: u64 },
}

/// The state of the randomness source.
pub struct Pallet {
    latest: Option<([u8; 32], u64)>,
    epoch: u64,
    included: bool,
}

/// The mathematical value of a randomness source.
pub struct RandomnessView {
    /// The latest seed with the last block that may use it.
    pub latest: Option<(Seq<u8>, u64)>,
    /// The latest epoch for which a seed was taken.
    pub relay_epoch: u64,
    /// Whether the seed was looked for in the current block.
    pub inherent_included: bool,
}

impl View for Pallet {
    type V = RandomnessView;

    closed spec fn view(&self) -> RandomnessView {
        RandomnessView {
            latest: match self.latest {
                Some(pair) => Some((pair.0@, pair.1)),
                None => None,
            },
            relay_epoch: self.epoch,
            inherent_included: self.included,
        }
    }
}

/// The state after the epoch data of the relay chain have been looked at in
/// block `block_number`: a seed of a later epoch than the last one taken
/// becomes the latest seed, valid up to the block before this one.
pub open spec fn spec_set_babe_randomness(
    pre: RandomnessView,
    epoch_index: u64,
    epoch_randomness: Option<Seq<u8>>,
    block_number: u64,
) -> RandomnessView {
    if epoch_index > pre.relay_epoch && epoch_randomness is Some {
        RandomnessView {
            latest: Some(
                (
                    epoch_randomness->0,
                    if block_number == 0 {
                        0
                    } else {
                        (block_number - 1) as u64
                    },
                ),
            ),
            relay_epoch: epoch_index,
            inherent_included: true,
        }
    } else {
        RandomnessView { inherent_included: true, ..pre }
    }
}

/// The seed for a subject: the digest of the latest seed followed by the
/// digest of the subject. Without a latest seed it is the zero seed, which no
/// commitment after block zero may use.
pub open spec fn spec_random(v: RandomnessView, subject: Seq<u8>) -> (Seq<u8>, u64) {
    match v.latest {
        Some(pair) => (spec_blake2_256(pair.0 + spec_blake2_256(subject)), pair.1),
        None => (Seq::new(32, |i: int| 0u8), 0),
    }
}

impl Pallet {
    /// A source that has no seed yet.
    pub fn new() -> (pallet: Self)
        ensures
            pallet@ == (RandomnessView { latest: None, relay_epoch: 0, inherent_included: false }),
    {
        Pallet { latest: None, epoch: 0, included: false }
    }

    /// Takes the epoch data of the relay chain in block `block_number`, and
    /// tells of a new seed where there is one.
    pub fn set_babe_randomness(
        &mut self,
        epoch_index: u64,
        epoch_randomness: Option<[u8; 32]>,
        block_number: u64,
    ) -> (event: Option<Event>)
        ensures
            final(self)@ == spec_set_babe_randomness(
                old(self)@,
                epoch_index,
                match epoch_randomness {
                    Some(seed) => Some(seed@),
                    None => None,
                },
                block_number,
            ),
            match event {
                Some(Event::NewRandomnessAvailable { randomness_seed, from_epoch, valid_until_block }) => {
                    &&& epoch_index > old(self)@.relay_epoch
                    &&& epoch_randomness == Some(randomness_seed)
                    &&& from_epoch == epoch_index
                    &&& final(self)@.latest == Some((randomness_seed@, valid_until_block))
                },
                None => !(epoch_index > old(self)@.relay_epoch && epoch_randomness is Some),
            },
    {
        self.included = true;
        if epoch_index > self.epoch {
            match epoch_randomness {
                Some(seed) => {
                    let latest_valid_block = if block_number == 0 {
                        0
                    } else {
                        block_number - 1
                    };
                    self.latest = Some((seed, latest_valid_block));
                    self.epoch = epoch_index;
                    return Some(
                        Event::NewRandomnessAvailable {
                            randomness_seed: seed,
                            from_epoch: epoch_index,
                            valid_until_block: latest_valid_block,
                        },
                    );
                },
                None => {},
            }
        }
        None
    }

    /// Takes the epoch data that `G` gives in block `block_number`.
    pub fn set_babe_randomness_from<G: GetBabeData>(&mut self, block_number: u64) -> (event: Option<Event>)
        ensures
            final(self)@.inherent_included,
            final(self)@.relay_epoch >= old(self)@.relay_epoch,
            event is None ==> final(self)@ == (RandomnessView { inherent_included: true, ..old(self)@ }),
    {
        let epoch_index = G::get_epoch_index();
        let epoch_randomness = G::get_epoch_randomness();
        self.set_babe_randomness(epoch_index, epoch_randomness, block_number)
    }

    /// Closes a block in which the epoch data were looked at, so that the next
    /// block has to look again.
    pub fn on_finalize(&mut self)
        requires
            old(self)@.inherent_included,
        ensures
            final(self)@ == (RandomnessView { inherent_included: false, ..old(self)@ }),
    {
        self.included = false;
    }

    /// The seed for `subject`, with the last block at which the subject may
    /// have been committed.
    pub fn random(&self, subject: &[u8]) -> (r: Randomness)
        ensures
            (r.seed@, r.valid_from_block) == spec_random(self@, subject@),
    {
        match self.latest {
            Some(pair) => {
                let hashed_subject = blake2_256(subject);
                let mut digest: Vec<u8> = Vec::new();
                let mut i: usize = 0;
                while i < 32
                    invariant
                        i <= 32,
                        digest@ == pair.0@.subrange(0, i as int),
                    decreases 32 - i,
                {
                    digest.push(pair.0[i]);
                    assert(digest@ =~= pair.0@.subrange(0, i + 1));
                    i = i + 1;
                }
                let mut j: usize = 0;
                while j < 32
                    invariant
                        j <= 32,
                        digest@ == pair.0@ + hashed_subject@.subrange(0, j as int),
                    decreases 32 - j,
                {
                    digest.push(hashed_subject[j]);
                    assert(digest@ =~= pair.0@ + hashed_subject@.subrange(0, j + 1));
                    j = j + 1;
                }
                assert(digest@ =~= pair.0@ + hashed_subject@);
                Randomness { seed: blake2_256(digest.as_slice()), valid_from_block: pair.1 }
            },
            None => {
                let seed = [0u8;32];
                assert(seed@ =~= Seq::new(32, |i: int| 0u8));
                Randomness { seed, valid_from_block: 0 }
            },
        }
    }

    /// The latest seed and the last block that may use it.
    pub fn latest_babe_randomness(&self) -> (latest: Option<([u8; 32], u64)>)
        ensures
            match latest {
                Some(pair) => self@.latest == Some((pair.0@, pair.1)),
                None => self@.latest is None,
            },
    {
        self.latest
    }

    /// The latest relay epoch for which a seed was taken.
    pub fn relay_epoch(&self) -> (epoch: u64)
        ensures
            epoch == self@.relay_epoch,
    {
        self.epoch
    }

    /// Whether the epoch data were looked at in the current block.
    pub fn inherent_included(&self) -> (included: Option<()>)
        ensures
            included is Some <==> self@.inherent_included,
    {
        if self.included {
            Some(())
        } else {
            None
        }
    }
}

} // verus!
