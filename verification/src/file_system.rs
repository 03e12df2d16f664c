//! The storage request ledger and its expiration schedule.
//!
//! A storage request asks for replicas of one file location. Providers
//! volunteer for it, confirm that they store the file, and may later stop
//! storing it. Every request is scheduled for expiry in a time slot of bounded
//! size, and a sweep with a work budget clears the slots whose time has come.
use std::collections::HashMap;
use vstd::prelude::*;
use crate::keyed::KeyedList;
use crate::bytes::{copy_byte_strings, digest_bytes, lemma_deep_view_drop_last, lemma_deep_view_push, same_digest};
use crate::providers::{AccountId, ProviderRegistry};
use crate::threshold::AdmissionThreshold;

verus! {

broadcast use vstd::std_specs::hash::group_hash_axioms;

/// Budget that looking at one slot costs a sweep.
pub const SLOT_COST: u64 = 1;

/// Budget that taking one location off a slot costs a sweep.
pub const ENTRY_COST: u64 = 1;

/// Budget that removing the request of an expired location costs a sweep, on
/// top of [`ENTRY_COST`].
pub const REMOVAL_COST: u64 = 1;

/// Parameters of the ledger.
#[derive(Debug, Clone, Copy, PartialEq, Eq, Structural)]
pub struct FileSystemConfig {
    /// Replicas that a new request asks for.
    pub target_bsps_required: u32,
    /// Blocks after which a request expires.
    pub storage_request_ttl: u64,
    /// Locations that one expiration slot can hold.
    pub max_expired_storage_requests: u32,
}

impl FileSystemConfig {
    /// A slot can hold at least one location.
    pub open spec fn valid(&self) -> bool {
        self.max_expired_storage_requests >= 1
    }
}

/// Why a ledger operation was refused.
#[derive(Debug, Clone, Copy, PartialEq, Eq, Structural)]
pub enum LedgerError {
    /// A request already exists at the location.
    StorageRequestAlreadyRegistered,
    /// No request exists at the location.
    StorageRequestNotFound,
    /// The caller does not own the request.
    StorageRequestNotAuthorized,
    /// The caller is not a registered backup storage provider.
    NotABsp,
    /// The provider has volunteered for the request before.
    BspAlreadyVolunteered,
    /// The provider has not volunteered for the request.
    BspNotVolunteered,
    /// The provider has confirmed the request before.
    BspAlreadyConfirmed,
    /// The provider's scalar for the request lies above the threshold.
    AboveThreshold,
    /// The randomness was not yet valid when the request was made.
    RandomnessNotValidYet,
    /// No expiration slot is left before the end of time.
    MaxBlockNumberReached,
    /// A count would exceed its range.
    CounterOverflow,
}

/// A request for replicas of one file location.
#[derive(Debug, Clone, PartialEq, Eq)]
pub struct StorageRequestMetadata {
    /// Block at which the request was made.
    pub requested_at: u64,
    /// Account that made the request.
    pub owner: AccountId,
    /// Fingerprint of the file.
    pub fingerprint: [u8; 32],
    /// Size of the file in bytes.
    pub size: u64,
    /// Peers from which the file's content can be had.
    pub user_peer_ids: Vec<Vec<u8>>,
    /// Replicas asked for.
    pub bsps_required: u32,
    /// Providers that have confirmed storing the file.
    pub bsps_confirmed: u32,
    /// Providers that have volunteered to store the file.
    pub bsps_volunteered: u32,
}

/// What the ledger records of a provider that volunteered for a request.
#[derive(Debug, Clone, Copy, PartialEq, Eq, Structural)]
pub struct StorageRequestBspsMetadata {
    /// Whether the provider has confirmed that it stores the file.
    pub confirmed: bool,
}

/// A seed drawn for a subject, with the last block at which a subject may have
/// been committed for the seed to be unpredictable.
#[derive(Debug, Clone, Copy, PartialEq, Eq)]
pub struct Randomness {
    /// The seed.
    pub seed: [u8; 32],
    /// The block up to which commitments may use the seed.
    pub valid_from_block: u64,
}

/// The mathematical value of a [`FileSystem`].
pub struct FileSystemView {
    /// The parameters.
    pub config: FileSystemConfig,
    /// The current block.
    pub current_block: u64,
    /// The open requests, by location.
    pub requests: Map<Seq<u8>, StorageRequestMetadata>,
    /// The volunteer records, by location and provider.
    pub records: Map<(Seq<u8>, Seq<u8>), StorageRequestBspsMetadata>,
    /// The locations scheduled for expiry in each slot; a slot without any
    /// holds the empty list.
    pub expirations: Map<u64, Seq<Seq<u8>>>,
    /// The slot that the next location is scheduled in, unless it is full or
    /// lies too early.
    pub next_available_insertion_slot: u64,
    /// The next slot to sweep.
    pub next_cleanup_slot: u64,
    /// The admission threshold.
    pub threshold: AdmissionThreshold,
}

/// The records that are not at `location`.
pub open spec fn records_elsewhere(
    records: Map<(Seq<u8>, Seq<u8>), StorageRequestBspsMetadata>,
    location: Seq<u8>,
) -> Map<(Seq<u8>, Seq<u8>), StorageRequestBspsMetadata> {
    Map::new(
        |p: (Seq<u8>, Seq<u8>)| records.contains_key(p) && p.0 != location,
        |p: (Seq<u8>, Seq<u8>)| records[p],
    )
}

impl FileSystemView {
    /// The earliest slot that a location may be scheduled in now: not before
    /// the insertion cursor, not before the request's time to live has passed,
    /// and not before the cleanup cursor.
    pub open spec fn insertion_base(self) -> int {
        let by_ttl = self.current_block + self.config.storage_request_ttl;
        let by_cursor = if self.next_available_insertion_slot >= self.next_cleanup_slot {
            self.next_available_insertion_slot as int
        } else {
            self.next_cleanup_slot as int
        };
        if by_ttl >= by_cursor {
            by_ttl
        } else {
            by_cursor
        }
    }

    /// The slot that the next location is scheduled in: the base, or the slot
    /// after it where the base is full.
    pub open spec fn insertion_slot(self) -> int {
        let base = self.insertion_base();
        if base <= u64::MAX && self.expirations[base as u64].len() >= self.config.max_expired_storage_requests {
            base + 1
        } else {
            base
        }
    }

    /// The state after `location` has been scheduled, or `None` where no slot
    /// is left.
    pub open spec fn scheduled(self, location: Seq<u8>) -> Option<FileSystemView> {
        let slot = self.insertion_slot();
        if slot > u64::MAX {
            None
        } else {
            Some(
                FileSystemView {
                    expirations: self.expirations.insert(
                        slot as u64,
                        self.expirations[slot as u64].push(location),
                    ),
                    next_available_insertion_slot: slot as u64,
                    ..self
                },
            )
        }
    }

    /// The state without the request at `location` and without its records.
    pub open spec fn without_request(self, location: Seq<u8>) -> FileSystemView {
        FileSystemView {
            requests: self.requests.remove(location),
            records: records_elsewhere(self.records, location),
            ..self
        }
    }
}

/// A request together with the providers that volunteered for it: those that
/// have not confirmed yet and those that have.
pub struct RequestEntry {
    metadata: StorageRequestMetadata,
    pending: KeyedList<()>,
    confirmed: KeyedList<()>,
}

impl RequestEntry {
    /// No provider is both pending and confirmed, and the request counts its
    /// volunteers and confirmations exactly.
    pub closed spec fn ok(&self) -> bool {
        &&& self.pending.wf()
        &&& self.confirmed.wf()
        &&& forall|who: Seq<u8>| !(self.pending@.contains_key(who) && self.confirmed@.contains_key(who))
        &&& self.metadata.bsps_volunteered == self.pending.spec_len() + self.confirmed.spec_len()
        &&& self.metadata.bsps_confirmed == self.confirmed.spec_len()
    }

    /// Whether provider `who` has a record at this request.
    pub closed spec fn has_record(&self, who: Seq<u8>) -> bool {
        self.pending@.contains_key(who) || self.confirmed@.contains_key(who)
    }

    /// The record of provider `who` at this request.
    pub closed spec fn record(&self, who: Seq<u8>) -> StorageRequestBspsMetadata {
        StorageRequestBspsMetadata { confirmed: self.confirmed@.contains_key(who) }
    }
}

/// The ledger of storage requests with its expiration schedule and the
/// admission threshold.
pub struct FileSystem {
    config: FileSystemConfig,
    current_block: u64,
    requests: KeyedList<RequestEntry>,
    expirations: HashMap<u64, Vec<Vec<u8>>>,
    next_available_insertion_slot: u64,
    next_cleanup_slot: u64,
    threshold: AdmissionThreshold,
}

/// The requests of the entries.
pub closed spec fn request_map(entries: Map<Seq<u8>, RequestEntry>) -> Map<Seq<u8>, StorageRequestMetadata> {
    Map::new(|location: Seq<u8>| entries.contains_key(location), |location: Seq<u8>| entries[location].metadata)
}

/// The records of the entries as one map.
pub closed spec fn record_map(entries: Map<Seq<u8>, RequestEntry>) -> Map<
    (Seq<u8>, Seq<u8>),
    StorageRequestBspsMetadata,
> {
    Map::new(
        |p: (Seq<u8>, Seq<u8>)| entries.contains_key(p.0) && entries[p.0].has_record(p.1),
        |p: (Seq<u8>, Seq<u8>)| entries[p.0].record(p.1),
    )
}

/// The list of every slot; a slot without a list holds the empty one.
pub closed spec fn slot_lists(expirations: Map<u64, Vec<Vec<u8>>>) -> Map<u64, Seq<Seq<u8>>> {
    Map::total(
        |slot: u64|
            if expirations.contains_key(slot) {
                expirations[slot].deep_view()
            } else {
                Seq::<Seq<u8>>::empty()
            },
    )
}

impl View for FileSystem {
    type V = FileSystemView;

    closed spec fn view(&self) -> FileSystemView {
        FileSystemView {
            config: self.config,
            current_block: self.current_block,
            requests: request_map(self.requests@),
            records: record_map(self.requests@),
            expirations: slot_lists(self.expirations@),
            next_available_insertion_slot: self.next_available_insertion_slot,
            next_cleanup_slot: self.next_cleanup_slot,
            threshold: self.threshold,
        }
    }
}

/// The schedule of a state is in order: no slot holds more than the
/// configured number of locations, no location is scheduled after the
/// insertion cursor, and none is left before the cleanup cursor.
pub open spec fn schedule_in_order(v: FileSystemView) -> bool {
    &&& v.config.valid()
    &&& v.expirations.dom() == Set::<u64>::full()
    &&& forall|slot: u64| #[trigger] v.expirations[slot].len() <= v.config.max_expired_storage_requests
    &&& forall|slot: u64|
        slot > v.next_available_insertion_slot ==> (#[trigger] v.expirations[slot]).len() == 0
    &&& forall|slot: u64| slot < v.next_cleanup_slot ==> (#[trigger] v.expirations[slot]).len() == 0
}

/// Every record belongs to a request that counts it: a request with a record
/// counts at least one volunteer, at least one confirmation where the record
/// is confirmed, and fewer confirmations than volunteers where it is not; and
/// no request counts more confirmations than volunteers.
pub open spec fn counts_cover_records(v: FileSystemView) -> bool {
    &&& forall|location: Seq<u8>, who: Seq<u8>| #[trigger]
        v.records.contains_key((location, who)) ==> {
            &&& v.requests.contains_key(location)
            &&& v.requests[location].bsps_volunteered >= 1
            &&& v.records[(location, who)].confirmed ==> v.requests[location].bsps_confirmed >= 1
            &&& !v.records[(location, who)].confirmed ==> v.requests[location].bsps_confirmed
                < v.requests[location].bsps_volunteered
        }
    &&& forall|location: Seq<u8>| #[trigger]
        v.requests.contains_key(location) ==> v.requests[location].bsps_confirmed
            <= v.requests[location].bsps_volunteered
}

impl FileSystem {
    /// The parts are valid, every request counts its records exactly, and the
    /// schedule is in order.
    pub closed spec fn wf(&self) -> bool {
        &&& self.requests.wf()
        &&& forall|location: Seq<u8>| #[trigger]
            self.requests@.contains_key(location) ==> self.requests@[location].ok()
        &&& self.threshold.wf()
        &&& schedule_in_order(self@)
    }

    /// A valid ledger has its schedule in order, a valid threshold, and
    /// counts that cover its records.
    pub proof fn lemma_wf(&self)
        requires
            self.wf(),
        ensures
            schedule_in_order(self@),
            self@.threshold.wf(),
            counts_cover_records(self@),
    {
        assert forall|location: Seq<u8>, who: Seq<u8>| #[trigger]
            self@.records.contains_key((location, who)) implies {
            &&& self@.requests.contains_key(location)
            &&& self@.requests[location].bsps_volunteered >= 1
            &&& self@.records[(location, who)].confirmed ==> self@.requests[location].bsps_confirmed >= 1
            &&& !self@.records[(location, who)].confirmed ==> self@.requests[location].bsps_confirmed
                < self@.requests[location].bsps_volunteered
        } by {
            let entry = self.requests@[location];
            assert(entry.ok());
            if entry.pending@.contains_key(who) {
                entry.pending.lemma_len_positive(who);
            }
            if entry.confirmed@.contains_key(who) {
                entry.confirmed.lemma_len_positive(who);
            }
        }
        assert forall|location: Seq<u8>| #[trigger]
            self@.requests.contains_key(location) implies self@.requests[location].bsps_confirmed
            <= self@.requests[location].bsps_volunteered by {
            assert(self.requests@[location].ok());
        }
    }

    /// A ledger at block `current_block` without requests. `None` where a slot
    /// could hold no location.
    pub fn new(config: FileSystemConfig, threshold: AdmissionThreshold, current_block: u64) -> (r: Option<Self>)
        requires
            threshold.wf(),
        ensures
            r is Some <==> config.valid(),
            r matches Some(fs) ==> fs.wf() && fs@.config == config && fs@.current_block == current_block
                && fs@.requests == Map::<Seq<u8>, StorageRequestMetadata>::empty() && fs@.records == Map::<
                (Seq<u8>, Seq<u8>),
                StorageRequestBspsMetadata,
            >::empty() && (forall|slot: u64| (#[trigger] fs@.expirations[slot]).len() == 0)
                && fs@.next_available_insertion_slot == 0 && fs@.next_cleanup_slot == 0 && fs@.threshold
                == threshold,
    {
        if config.max_expired_storage_requests < 1 {
            return None;
        }
        let fs = FileSystem {
            config,
            current_block,
            requests: KeyedList::new(),
            expirations: HashMap::new(),
            next_available_insertion_slot: 0,
            next_cleanup_slot: 0,
            threshold,
        };
        assert(fs@.requests =~= Map::<Seq<u8>, StorageRequestMetadata>::empty());
        assert(fs@.records =~= Map::<(Seq<u8>, Seq<u8>), StorageRequestBspsMetadata>::empty());
        Some(fs)
    }

    /// The current block.
    pub fn current_block(&self) -> (block: u64)
        ensures
            block == self@.current_block,
    {
        self.current_block
    }

    /// The insertion cursor of the schedule.
    pub fn next_available_expiration_insertion_block(&self) -> (slot: u64)
        ensures
            slot == self@.next_available_insertion_slot,
    {
        self.next_available_insertion_slot
    }

    /// The cleanup cursor of the schedule.
    pub fn next_starting_block_to_clean_up(&self) -> (slot: u64)
        ensures
            slot == self@.next_cleanup_slot,
    {
        self.next_cleanup_slot
    }

    /// The current admission threshold.
    pub fn bsps_assignment_threshold(&self) -> (threshold: u128)
        ensures
            threshold == self@.threshold.spec_threshold(),
    {
        self.threshold.threshold()
    }

    /// The earliest slot that a location may be scheduled in now, or `None`
    /// where that slot lies beyond the last block.
    pub fn next_expiration_insertion_block_number(&self) -> (slot: Option<u64>)
        ensures
            match slot {
                Some(s) => s == self@.insertion_base(),
                None => self@.insertion_base() > u64::MAX,
            },
    {
        let by_cursor = if self.next_available_insertion_slot >= self.next_cleanup_slot {
            self.next_available_insertion_slot
        } else {
            self.next_cleanup_slot
        };
        match self.current_block.checked_add(self.config.storage_request_ttl) {
            None => None,
            Some(by_ttl) => if by_ttl >= by_cursor {
                Some(by_ttl)
            } else {
                Some(by_cursor)
            },
        }
    }

    /// The locations scheduled for expiry in `slot`, in the order in which
    /// they were scheduled.
    pub fn storage_request_expirations(&self, slot: u64) -> (locations: Vec<Vec<u8>>)
        ensures
            locations.deep_view() == self@.expirations[slot],
    {
        match self.expirations.get(&slot) {
            Some(list) => copy_byte_strings(list),
            None => {
                let empty: Vec<Vec<u8>> = Vec::new();
                assert(empty.deep_view() =~= Seq::<Seq<u8>>::empty());
                empty
            },
        }
    }

    /// Moves the clock forward to `new_block`; a block that is not later than
    /// the current one changes nothing. Slots up to the current block are due
    /// for the sweep, which alone removes anything.
    pub fn advance_time(&mut self, new_block: u64)
        requires
            old(self).wf(),
        ensures
            final(self).wf(),
            final(self)@ == (FileSystemView {
                current_block: if new_block > old(self)@.current_block {
                    new_block
                } else {
                    old(self)@.current_block
                },
                ..old(self)@
            }),
    {
        if new_block > self.current_block {
            self.current_block = new_block;
        }
    }

    /// Schedules `location` for expiry and returns the slot it went to. The
    /// location goes to the end of the list of the earliest slot allowed; where
    /// that list is full it goes to the next slot, which is empty.
    pub fn schedule(&mut self, location: Vec<u8>) -> (r: Result<u64, LedgerError>)
        requires
            old(self).wf(),
        ensures
            final(self).wf(),
            match old(self)@.scheduled(location@) {
                Some(v) => r == Ok::<u64, LedgerError>(v.next_available_insertion_slot) && final(self)@ == v,
                None => r == Err::<u64, LedgerError>(LedgerError::MaxBlockNumberReached) && final(self)@ == old(
                    self,
                )@,
            },
    {
        let base = match self.next_expiration_insertion_block_number() {
            None => {
                return Err(LedgerError::MaxBlockNumberReached);
            },
            Some(base) => base,
        };
        let held: usize = match self.expirations.get(&base) {
            Some(list) => list.len(),
            None => 0,
        };
        assert(held == self@.expirations[base].len());
        let slot = if held >= self.config.max_expired_storage_requests as usize {
            match base.checked_add(1) {
                None => {
                    return Err(LedgerError::MaxBlockNumberReached);
                },
                Some(next) => next,
            }
        } else {
            base
        };
        let ghost before = self@;
        let ghost before_lists = self.expirations@;
        assert(before.expirations[slot].len() < self.config.max_expired_storage_requests);
        let mut list: Vec<Vec<u8>> = match self.expirations.remove(&slot) {
            Some(list) => list,
            None => Vec::new(),
        };
        assert(list.deep_view() =~= before.expirations[slot]);
        let ghost shorter = list;
        list.push(location);
        proof {
            lemma_deep_view_push(shorter, list, location);
        }
        self.expirations.insert(slot, list);
        self.next_available_insertion_slot = slot;
        proof {
            assert(self.expirations@ =~= before_lists.insert(slot, list));
            assert(self@.expirations =~= before.expirations.insert(slot, before.expirations[slot].push(location@)));
            assert forall|s: u64| #[trigger] self@.expirations[s].len() <= self.config.max_expired_storage_requests by {
                assert(before.expirations[s].len() <= self.config.max_expired_storage_requests);
            }
            assert forall|s: u64| s > self.next_available_insertion_slot implies (#[trigger] self@.expirations[s]).len()
                == 0 by {
                assert(before.expirations[s].len() == 0);
            }
            assert forall|s: u64| s < self.next_cleanup_slot implies (#[trigger] self@.expirations[s]).len() == 0 by {
                assert(before.expirations[s].len() == 0);
            }
        }
        Ok(slot)
    }

    /// The request at `location`, if there is one.
    pub fn storage_requests(&self, location: &Vec<u8>) -> (request: Option<&StorageRequestMetadata>)
        requires
            self.wf(),
        ensures
            match request {
                Some(found) => self@.requests.contains_key(location@) && *found == self@.requests[location@],
                None => !self@.requests.contains_key(location@),
            },
    {
        match self.requests.get(location.as_slice()) {
            Some(entry) => Some(&entry.metadata),
            None => None,
        }
    }

    /// The record of provider `who` at `location`, if there is one.
    pub fn storage_request_bsps(&self, location: &Vec<u8>, who: &AccountId) -> (record: Option<
        StorageRequestBspsMetadata,
    >)
        requires
            self.wf(),
        ensures
            match record {
                Some(found) => self@.records.contains_key((location@, who@)) && found == self@.records[(
                    location@,
                    who@,
                )],
                None => !self@.records.contains_key((location@, who@)),
            },
    {
        match self.requests.get(location.as_slice()) {
            None => None,
            Some(entry) => {
                let key = digest_bytes(who);
                if entry.confirmed.contains_key(key.as_slice()) {
                    Some(StorageRequestBspsMetadata { confirmed: true })
                } else if entry.pending.contains_key(key.as_slice()) {
                    Some(StorageRequestBspsMetadata { confirmed: false })
                } else {
                    None
                }
            },
        }
    }

    fn drop_request(&mut self, location: &Vec<u8>) -> (existed: bool)
        requires
            old(self).wf(),
        ensures
            final(self).wf(),
            final(self)@ == old(self)@.without_request(location@),
            existed == old(self)@.requests.contains_key(location@),
    {
        let ghost before = self.requests@;
        let existed = self.requests.remove(location.as_slice()).is_some();
        proof {
            assert(request_map(self.requests@) =~= request_map(before).remove(location@));
            assert(record_map(self.requests@) =~= records_elsewhere(record_map(before), location@));
        }
        existed
    }
}


/// What a ledger operation did, for those who listen.
#[derive(Debug, Clone, PartialEq, Eq)]
pub enum Event {
    /// A request was created.
    NewStorageRequest { who: AccountId, location: Vec<u8>, fingerprint: [u8; 32], size: u64, peer_ids: Vec<Vec<u8>> },
    /// A request was revoked by its owner.
    StorageRequestRevoked { location: Vec<u8> },
    /// A provider was accepted as a volunteer.
    AcceptedBspVolunteer {
        who: AccountId,
        location: Vec<u8>,
        fingerprint: [u8; 32],
        multiaddresses: Vec<Vec<u8>>,
    },
    /// A provider confirmed that it stores the file.
    BspConfirmedStoring { who: AccountId, location: Vec<u8> },
    /// A provider stopped storing the file.
    BspStoppedStoring { bsp: AccountId, file_key: [u8; 32], owner: AccountId, location: Vec<u8> },
}

/// The mathematical value of an [`Event`].
pub enum EventView {
    NewStorageRequest { who: Seq<u8>, location: Seq<u8>, fingerprint: Seq<u8>, size: u64, peer_ids: Seq<Seq<u8>> },
    StorageRequestRevoked { location: Seq<u8> },
    AcceptedBspVolunteer { who: Seq<u8>, location: Seq<u8>, fingerprint: Seq<u8>, multiaddresses: Seq<Seq<u8>> },
    BspConfirmedStoring { who: Seq<u8>, location: Seq<u8> },
    BspStoppedStoring { bsp: Seq<u8>, file_key: Seq<u8>, owner: Seq<u8>, location: Seq<u8> },
}

impl View for Event {
    type V = EventView;

    open spec fn view(&self) -> EventView {
        match *self {
            Event::NewStorageRequest { who, location, fingerprint, size, peer_ids } => EventView::NewStorageRequest {
                who: who@,
                location: location@,
                fingerprint: fingerprint@,
                size,
                peer_ids: peer_ids.deep_view(),
            },
            Event::StorageRequestRevoked { location } => EventView::StorageRequestRevoked { location: location@ },
            Event::AcceptedBspVolunteer { who, location, fingerprint, multiaddresses } => {
                EventView::AcceptedBspVolunteer {
                    who: who@,
                    location: location@,
                    fingerprint: fingerprint@,
                    multiaddresses: multiaddresses.deep_view(),
                }
            },
            Event::BspConfirmedStoring { who, location } => EventView::BspConfirmedStoring {
                who: who@,
                location: location@,
            },
            Event::BspStoppedStoring { bsp, file_key, owner, location } => EventView::BspStoppedStoring {
                bsp: bsp@,
                file_key: file_key@,
                owner: owner@,
                location: location@,
            },
        }
    }
}

/// `request` is a request as it is created: made at block `at` by `owner` for
/// `required` replicas, with no volunteer and no confirmation yet.
pub open spec fn fresh_request(
    request: StorageRequestMetadata,
    at: u64,
    owner: Seq<u8>,
    fingerprint: Seq<u8>,
    size: u64,
    peer_ids: Seq<Seq<u8>>,
    required: u32,
) -> bool {
    &&& request.requested_at == at
    &&& request.owner@ == owner
    &&& request.fingerprint@ == fingerprint
    &&& request.size == size
    &&& request.user_peer_ids.deep_view() == peer_ids
    &&& request.bsps_required == required
    &&& request.bsps_confirmed == 0
    &&& request.bsps_volunteered == 0
}

/// `post` is `pre` with a request created at `location` and scheduled for
/// expiry.
pub open spec fn request_created(
    pre: FileSystemView,
    post: FileSystemView,
    owner: Seq<u8>,
    location: Seq<u8>,
    fingerprint: Seq<u8>,
    size: u64,
    peer_ids: Seq<Seq<u8>>,
    required: u32,
) -> bool {
    &&& pre.scheduled(location) matches Some(v)
    &&& post == (FileSystemView { requests: post.requests, ..v })
    &&& post.requests == pre.requests.insert(location, post.requests[location])
    &&& fresh_request(post.requests[location], pre.current_block, owner, fingerprint, size, peer_ids, required)
}

/// What issuing a request does and reports.
///
/// A location that has a request is refused. Otherwise a request for the
/// configured number of replicas is created and scheduled for expiry; where
/// no expiration slot is left, nothing is created.
pub open spec fn issue_post(
    pre: FileSystemView,
    owner: Seq<u8>,
    location: Seq<u8>,
    fingerprint: Seq<u8>,
    size: u64,
    peer_ids: Seq<Seq<u8>>,
    r: Result<Event, LedgerError>,
    post: FileSystemView,
) -> bool {
    if pre.requests.contains_key(location) {
        r == Err::<Event, LedgerError>(LedgerError::StorageRequestAlreadyRegistered) && post == pre
    } else if pre.scheduled(location) is None {
        r == Err::<Event, LedgerError>(LedgerError::MaxBlockNumberReached) && post == pre
    } else {
        &&& r matches Ok(event)
        &&& event@ == (EventView::NewStorageRequest { who: owner, location, fingerprint, size, peer_ids })
        &&& request_created(
            pre,
            post,
            owner,
            location,
            fingerprint,
            size,
            peer_ids,
            pre.config.target_bsps_required,
        )
    }
}

/// What revoking a request does and reports.
///
/// Only the owner can revoke, and only a request that exists. The request and
/// its records go; its place in the expiration schedule stays, to be passed
/// over when its slot is swept.
pub open spec fn revoke_post(
    pre: FileSystemView,
    caller: Seq<u8>,
    location: Seq<u8>,
    r: Result<Event, LedgerError>,
    post: FileSystemView,
) -> bool {
    if !pre.requests.contains_key(location) {
        r == Err::<Event, LedgerError>(LedgerError::StorageRequestNotFound) && post == pre
    } else if pre.requests[location].owner@ != caller {
        r == Err::<Event, LedgerError>(LedgerError::StorageRequestNotAuthorized) && post == pre
    } else {
        &&& r matches Ok(event)
        &&& event@ == (EventView::StorageRequestRevoked { location })
        &&& post == pre.without_request(location)
    }
}

/// Whether the threshold of `pre` admits provider `who` under `seed`.
pub open spec fn admits(pre: FileSystemView, who: Seq<u8>, seed: Seq<u8>) -> bool {
    AdmissionThreshold::spec_eligibility_scalar(who, seed) <= pre.threshold.spec_threshold()
}

/// The refusal that a volunteer meets, if any, in the order in which the
/// conditions are tested.
pub open spec fn volunteer_refusal(
    pre: FileSystemView,
    registered: bool,
    who: Seq<u8>,
    location: Seq<u8>,
    randomness: Randomness,
) -> Option<LedgerError> {
    if !pre.requests.contains_key(location) {
        Some(LedgerError::StorageRequestNotFound)
    } else if !registered {
        Some(LedgerError::NotABsp)
    } else if pre.records.contains_key((location, who)) {
        Some(LedgerError::BspAlreadyVolunteered)
    } else if randomness.valid_from_block < pre.requests[location].requested_at {
        Some(LedgerError::RandomnessNotValidYet)
    } else if !admits(pre, who, randomness.seed@) {
        Some(LedgerError::AboveThreshold)
    } else if pre.requests[location].bsps_volunteered == u32::MAX {
        Some(LedgerError::CounterOverflow)
    } else {
        None
    }
}

/// What volunteering does and reports.
///
/// A volunteer that meets no refusal gets an unconfirmed record, and the
/// request counts one volunteer more. A refusal changes nothing.
pub open spec fn volunteer_post(
    pre: FileSystemView,
    registry: Map<Seq<u8>, crate::providers::BackupStorageProvider>,
    who: Seq<u8>,
    location: Seq<u8>,
    fingerprint: Seq<u8>,
    randomness: Randomness,
    r: Result<Event, LedgerError>,
    post: FileSystemView,
) -> bool {
    match volunteer_refusal(pre, registry.contains_key(who), who, location, randomness) {
        Some(refusal) => r == Err::<Event, LedgerError>(refusal) && post == pre,
        None => {
            &&& r matches Ok(event)
            &&& event@ == (EventView::AcceptedBspVolunteer {
                who,
                location,
                fingerprint,
                multiaddresses: registry[who].multiaddresses.deep_view(),
            })
            &&& post == (FileSystemView {
                requests: pre.requests.insert(
                    location,
                    StorageRequestMetadata {
                        bsps_volunteered: (pre.requests[location].bsps_volunteered + 1) as u32,
                        ..pre.requests[location]
                    },
                ),
                records: pre.records.insert((location, who), StorageRequestBspsMetadata { confirmed: false }),
                ..pre
            })
        },
    }
}

/// The refusal that a confirmation meets, if any, in the order in which the
/// conditions are tested.
pub open spec fn confirm_refusal(pre: FileSystemView, registered: bool, who: Seq<u8>, location: Seq<u8>) -> Option<
    LedgerError,
> {
    if !pre.requests.contains_key(location) {
        Some(LedgerError::StorageRequestNotFound)
    } else if !registered {
        Some(LedgerError::NotABsp)
    } else if !pre.records.contains_key((location, who)) {
        Some(LedgerError::BspNotVolunteered)
    } else if pre.records[(location, who)].confirmed {
        Some(LedgerError::BspAlreadyConfirmed)
    } else {
        None
    }
}

/// What confirming does and reports.
///
/// A confirmation that meets no refusal marks the provider's record as
/// confirmed, and the request counts one confirmation more. A refusal changes
/// nothing.
pub open spec fn confirm_post(
    pre: FileSystemView,
    registered: bool,
    who: Seq<u8>,
    location: Seq<u8>,
    r: Result<Event, LedgerError>,
    post: FileSystemView,
) -> bool {
    match confirm_refusal(pre, registered, who, location) {
        Some(refusal) => r == Err::<Event, LedgerError>(refusal) && post == pre,
        None => {
            &&& r matches Ok(event)
            &&& event@ == (EventView::BspConfirmedStoring { who, location })
            &&& post == (FileSystemView {
                requests: pre.requests.insert(
                    location,
                    StorageRequestMetadata {
                        bsps_confirmed: (pre.requests[location].bsps_confirmed + 1) as u32,
                        ..pre.requests[location]
                    },
                ),
                records: pre.records.insert((location, who), StorageRequestBspsMetadata { confirmed: true }),
                ..pre
            })
        },
    }
}

/// The refusal that a provider meets when it stops storing a file whose
/// request is open: the count of required replicas would leave its range.
pub open spec fn stop_refusal(pre: FileSystemView, location: Seq<u8>) -> Option<LedgerError> {
    if pre.requests[location].bsps_required == u32::MAX {
        Some(LedgerError::CounterOverflow)
    } else {
        None
    }
}

/// The request at `location` after provider `who` has stopped storing: one
/// replica more is required, and the provider's volunteering and confirmation,
/// if recorded, are no longer counted.
pub open spec fn request_after_stop(pre: FileSystemView, who: Seq<u8>, location: Seq<u8>) -> StorageRequestMetadata {
    let request = pre.requests[location];
    let recorded = pre.records.contains_key((location, who));
    StorageRequestMetadata {
        bsps_required: (request.bsps_required + 1) as u32,
        bsps_volunteered: if recorded {
            (request.bsps_volunteered - 1) as u32
        } else {
            request.bsps_volunteered
        },
        bsps_confirmed: if recorded && pre.records[(location, who)].confirmed {
            (request.bsps_confirmed - 1) as u32
        } else {
            request.bsps_confirmed
        },
        ..request
    }
}

/// What stopping to store does and reports.
///
/// The provider's record at the location goes. Where the location has a
/// request, the request asks for one replica more. Where it has none, a
/// request for one replica is created in the name of `owner` and scheduled
/// for expiry.
pub open spec fn stop_storing_post(
    pre: FileSystemView,
    who: Seq<u8>,
    file_key: Seq<u8>,
    location: Seq<u8>,
    owner: Seq<u8>,
    fingerprint: Seq<u8>,
    size: u64,
    r: Result<Event, LedgerError>,
    post: FileSystemView,
) -> bool {
    let done = r matches Ok(event) && event@ == (EventView::BspStoppedStoring {
        bsp: who,
        file_key,
        owner,
        location,
    });
    if pre.requests.contains_key(location) {
        match stop_refusal(pre, location) {
            Some(refusal) => r == Err::<Event, LedgerError>(refusal) && post == pre,
            None => done && post == (FileSystemView {
                requests: pre.requests.insert(location, request_after_stop(pre, who, location)),
                records: pre.records.remove((location, who)),
                ..pre
            }),
        }
    } else if pre.scheduled(location) is None {
        r == Err::<Event, LedgerError>(LedgerError::MaxBlockNumberReached) && post == pre
    } else {
        done && request_created(
            FileSystemView { records: pre.records.remove((location, who)), ..pre },
            post,
            owner,
            location,
            fingerprint,
            size,
            Seq::<Seq<u8>>::empty(),
            1,
        )
    }
}

impl FileSystem {
    fn create_request(
        &mut self,
        owner: &AccountId,
        location: &Vec<u8>,
        fingerprint: &[u8; 32],
        size: u64,
        peer_ids: Vec<Vec<u8>>,
        required: u32,
    ) -> (created: bool)
        requires
            old(self).wf(),
            !old(self)@.requests.contains_key(location@),
        ensures
            final(self).wf(),
            created == (old(self)@.scheduled(location@) is Some),
            created ==> request_created(
                old(self)@,
                final(self)@,
                owner@,
                location@,
                fingerprint@,
                size,
                peer_ids.deep_view(),
                required,
            ),
            !created ==> final(self)@ == old(self)@,
    {
        let at = self.current_block;
        match self.schedule(location.clone()) {
            Err(_) => false,
            Ok(_) => {
                let ghost before = self.requests@;
                let ghost scheduled = self@;
                let entry = RequestEntry {
                    metadata: StorageRequestMetadata {
                        requested_at: at,
                        owner: *owner,
                        fingerprint: *fingerprint,
                        size,
                        user_peer_ids: peer_ids,
                        bsps_required: required,
                        bsps_confirmed: 0,
                        bsps_volunteered: 0,
                    },
                    pending: KeyedList::new(),
                    confirmed: KeyedList::new(),
                };
                let _ = self.requests.insert(location.clone(), entry);
                proof {
                    assert(request_map(self.requests@) =~= request_map(before).insert(location@, entry.metadata));
                    assert(record_map(self.requests@) =~= record_map(before));
                    assert(self@ == (FileSystemView { requests: self@.requests, ..scheduled }));
                }
                true
            },
        }
    }

    /// Issues a storage request for `location` in the name of `owner`.
    pub fn issue_storage_request(
        &mut self,
        owner: &AccountId,
        location: Vec<u8>,
        fingerprint: [u8; 32],
        size: u64,
        peer_ids: Vec<Vec<u8>>,
    ) -> (r: Result<Event, LedgerError>)
        requires
            old(self).wf(),
        ensures
            final(self).wf(),
            issue_post(old(self)@, owner@, location@, fingerprint@, size, peer_ids.deep_view(), r, final(self)@),
    {
        if self.requests.contains_key(location.as_slice()) {
            return Err(LedgerError::StorageRequestAlreadyRegistered);
        }
        let listed = copy_byte_strings(&peer_ids);
        let required = self.config.target_bsps_required;
        if !self.create_request(owner, &location, &fingerprint, size, peer_ids, required) {
            return Err(LedgerError::MaxBlockNumberReached);
        }
        Ok(Event::NewStorageRequest { who: *owner, location, fingerprint, size, peer_ids: listed })
    }

    /// Revokes the storage request at `location` in the name of `caller`.
    pub fn revoke_storage_request(&mut self, caller: &AccountId, location: Vec<u8>, file_key: [u8; 32]) -> (r: Result<
        Event,
        LedgerError,
    >)
        requires
            old(self).wf(),
        ensures
            final(self).wf(),
            revoke_post(old(self)@, caller@, location@, r, final(self)@),
    {
        match self.requests.get(location.as_slice()) {
            None => {
                return Err(LedgerError::StorageRequestNotFound);
            },
            Some(entry) => {
                if !same_digest(&entry.metadata.owner, caller) {
                    return Err(LedgerError::StorageRequestNotAuthorized);
                }
            },
        }
        let _ = self.drop_request(&location);
        Ok(Event::StorageRequestRevoked { location })
    }
}

impl FileSystem {
    fn can_schedule(&self) -> (room: bool)
        requires
            self.wf(),
        ensures
            room == (self@.insertion_slot() <= u64::MAX),
    {
        match self.next_expiration_insertion_block_number() {
            None => false,
            Some(base) => {
                let held: usize = match self.expirations.get(&base) {
                    Some(list) => list.len(),
                    None => 0,
                };
                assert(held == self@.expirations[base].len());
                if held >= self.config.max_expired_storage_requests as usize {
                    base < u64::MAX
                } else {
                    true
                }
            },
        }
    }

    /// Records provider `who` as a volunteer for the request at `location`.
    /// `randomness` is the seed drawn for the request; it must have been valid
    /// when the request was made.
    pub fn bsp_volunteer(
        &mut self,
        registry: &ProviderRegistry,
        who: &AccountId,
        location: Vec<u8>,
        fingerprint: [u8; 32],
        randomness: &Randomness,
    ) -> (r: Result<Event, LedgerError>)
        requires
            old(self).wf(),
            registry.wf(),
        ensures
            final(self).wf(),
            volunteer_post(
                old(self)@,
                registry@.bsp_by_account(),
                who@,
                location@,
                fingerprint@,
                *randomness,
                r,
                final(self)@,
            ),
    {
        let requested_at: u64;
        let volunteered: u32;
        match self.requests.get(location.as_slice()) {
            None => {
                return Err(LedgerError::StorageRequestNotFound);
            },
            Some(entry) => {
                requested_at = entry.metadata.requested_at;
                volunteered = entry.metadata.bsps_volunteered;
            },
        }
        let multiaddresses = match registry.bsp_multiaddresses_of_account(who) {
            None => {
                return Err(LedgerError::NotABsp);
            },
            Some(list) => list,
        };
        if self.storage_request_bsps(&location, who).is_some() {
            return Err(LedgerError::BspAlreadyVolunteered);
        }
        if randomness.valid_from_block < requested_at {
            return Err(LedgerError::RandomnessNotValidYet);
        }
        let who_bytes = digest_bytes(who);
        if !self.threshold.is_eligible(who_bytes.as_slice(), &randomness.seed) {
            return Err(LedgerError::AboveThreshold);
        }
        if volunteered == u32::MAX {
            return Err(LedgerError::CounterOverflow);
        }
        let ghost before = self@;
        let ghost entries = self.requests@;
        match self.requests.remove(location.as_slice()) {
            None => {},
            Some(found) => {
                let mut entry = found;
                let _ = entry.pending.insert(who_bytes, ());
                entry.metadata.bsps_volunteered = volunteered + 1;
                let _ = self.requests.insert(location.clone(), entry);
                proof {
                    assert(self.requests@ =~= entries.insert(location@, entry));
                    assert(entry.ok());
                }
            },
        }
        proof {
            assert(self@.requests =~= before.requests.insert(
                location@,
                StorageRequestMetadata {
                    bsps_volunteered: (before.requests[location@].bsps_volunteered + 1) as u32,
                    ..before.requests[location@]
                },
            ));
            assert(self@.records =~= before.records.insert(
                (location@, who@),
                StorageRequestBspsMetadata { confirmed: false },
            ));
        }
        Ok(Event::AcceptedBspVolunteer { who: *who, location, fingerprint, multiaddresses })
    }

    /// Records that provider `who` stores the file of the request at
    /// `location`.
    pub fn bsp_confirm_storing(
        &mut self,
        registry: &ProviderRegistry,
        who: &AccountId,
        location: Vec<u8>,
        root: [u8; 32],
        proof: &Vec<Vec<u8>>,
    ) -> (r: Result<Event, LedgerError>)
        requires
            old(self).wf(),
            registry.wf(),
        ensures
            final(self).wf(),
            confirm_post(
                old(self)@,
                registry@.bsp_by_account().contains_key(who@),
                who@,
                location@,
                r,
                final(self)@,
            ),
    {
        if !self.requests.contains_key(location.as_slice()) {
            return Err(LedgerError::StorageRequestNotFound);
        }
        if !registry.is_bsp_account(who) {
            return Err(LedgerError::NotABsp);
        }
        match self.storage_request_bsps(&location, who) {
            None => {
                return Err(LedgerError::BspNotVolunteered);
            },
            Some(record) => {
                if record.confirmed {
                    return Err(LedgerError::BspAlreadyConfirmed);
                }
            },
        }
        let who_bytes = digest_bytes(who);
        let ghost before = self@;
        let ghost entries = self.requests@;
        match self.requests.remove(location.as_slice()) {
            None => {},
            Some(found) => {
                let mut entry = found;
                proof {
                    assert(entry.ok());
                    assert(entry.pending@.contains_key(who@));
                    entry.pending.lemma_len_positive(who@);
                }
                let _ = entry.pending.remove(who_bytes.as_slice());
                let _ = entry.confirmed.insert(who_bytes, ());
                entry.metadata.bsps_confirmed = entry.metadata.bsps_confirmed + 1;
                let _ = self.requests.insert(location.clone(), entry);
                proof {
                    assert(self.requests@ =~= entries.insert(location@, entry));
                    assert(entry.ok());
                }
            },
        }
        proof {
            assert(self@.requests =~= before.requests.insert(
                location@,
                StorageRequestMetadata {
                    bsps_confirmed: (before.requests[location@].bsps_confirmed + 1) as u32,
                    ..before.requests[location@]
                },
            ));
            assert(self@.records =~= before.records.insert(
                (location@, who@),
                StorageRequestBspsMetadata { confirmed: true },
            ));
        }
        Ok(Event::BspConfirmedStoring { who: *who, location })
    }

    /// Records that provider `who` no longer stores the file at `location`.
    pub fn bsp_stop_storing(
        &mut self,
        who: &AccountId,
        file_key: [u8; 32],
        location: Vec<u8>,
        owner: AccountId,
        fingerprint: [u8; 32],
        size: u64,
        can_serve: bool,
    ) -> (r: Result<Event, LedgerError>)
        requires
            old(self).wf(),
        ensures
            final(self).wf(),
            stop_storing_post(
                old(self)@,
                who@,
                file_key@,
                location@,
                owner@,
                fingerprint@,
                size,
                r,
                final(self)@,
            ),
    {
        let ghost before = self@;
        let ghost entries = self.requests@;
        let required: u32 = match self.requests.get(location.as_slice()) {
            Some(entry) => entry.metadata.bsps_required,
            None => {
                if !self.can_schedule() {
                    return Err(LedgerError::MaxBlockNumberReached);
                }
                let peer_ids: Vec<Vec<u8>> = Vec::new();
                assert(peer_ids.deep_view() =~= Seq::<Seq<u8>>::empty());
                assert(before.records.remove((location@, who@)) =~= before.records);
                let created = self.create_request(&owner, &location, &fingerprint, size, peer_ids, 1);
                assert(created);
                return Ok(Event::BspStoppedStoring { bsp: *who, file_key, owner, location });
            },
        };
        if required == u32::MAX {
            return Err(LedgerError::CounterOverflow);
        }
        let who_bytes = digest_bytes(who);
        match self.requests.remove(location.as_slice()) {
            None => {},
            Some(found) => {
                let mut entry = found;
                proof {
                    assert(entry.ok());
                    if entry.pending@.contains_key(who@) {
                        entry.pending.lemma_len_positive(who@);
                    }
                    if entry.confirmed@.contains_key(who@) {
                        entry.confirmed.lemma_len_positive(who@);
                    }
                }
                entry.metadata.bsps_required = required + 1;
                if entry.pending.remove(who_bytes.as_slice()).is_some() {
                    entry.metadata.bsps_volunteered = entry.metadata.bsps_volunteered - 1;
                } else if entry.confirmed.remove(who_bytes.as_slice()).is_some() {
                    entry.metadata.bsps_volunteered = entry.metadata.bsps_volunteered - 1;
                    entry.metadata.bsps_confirmed = entry.metadata.bsps_confirmed - 1;
                }
                let _ = self.requests.insert(location.clone(), entry);
                proof {
                    assert(self.requests@ =~= entries.insert(location@, entry));
                    assert(entry.ok());
                }
            },
        }
        proof {
            assert(self@.requests =~= before.requests.insert(
                location@,
                request_after_stop(before, who@, location@),
            ));
            assert(self@.records =~= before.records.remove((location@, who@)));
        }
        Ok(Event::BspStoppedStoring { bsp: *who, file_key, owner, location })
    }

    /// Takes note that a backup storage provider has signed up: the admission
    /// threshold decays by one step.
    pub fn subscribe_bsp_sign_up(&mut self, who: &AccountId)
        requires
            old(self).wf(),
        ensures
            final(self).wf(),
            final(self)@ == (FileSystemView { threshold: final(self)@.threshold, ..old(self)@ }),
            final(self)@.threshold.spec_config() == old(self)@.threshold.spec_config(),
            final(self)@.threshold.spec_threshold() == crate::threshold::spec_joined(
                old(self)@.threshold.spec_config(),
                old(self)@.threshold.spec_threshold() as nat,
            ),
    {
        self.threshold.on_provider_joined();
    }

    /// Takes note that a backup storage provider has signed off: the admission
    /// threshold grows by one step.
    pub fn subscribe_bsp_sign_off(&mut self, who: &AccountId)
        requires
            old(self).wf(),
        ensures
            final(self).wf(),
            final(self)@ == (FileSystemView { threshold: final(self)@.threshold, ..old(self)@ }),
            final(self)@.threshold.spec_config() == old(self)@.threshold.spec_config(),
            final(self)@.threshold.spec_threshold() == crate::threshold::spec_left(
                old(self)@.threshold.spec_config(),
                old(self)@.threshold.spec_threshold() as nat,
            ),
    {
        self.threshold.on_provider_left();
    }

    /// Replaces the admission threshold.
    pub fn set_bsps_assignment_threshold(&mut self, threshold: AdmissionThreshold)
        requires
            old(self).wf(),
            threshold.wf(),
        ensures
            final(self).wf(),
            final(self)@ == (FileSystemView { threshold, ..old(self)@ }),
    {
        self.threshold = threshold;
    }
}

impl FileSystemView {
    /// Budget that taking `location` off a slot costs: more where its request
    /// is still there to be removed.
    pub open spec fn entry_cost(self, location: Seq<u8>) -> nat {
        if self.requests.contains_key(location) {
            (ENTRY_COST + REMOVAL_COST) as nat
        } else {
            ENTRY_COST as nat
        }
    }

    /// The state after the last location of `slot` has been taken off the slot
    /// and its request, if it still had one, removed.
    pub open spec fn entry_taken(self, slot: u64) -> FileSystemView {
        let list = self.expirations[slot];
        FileSystemView {
            expirations: self.expirations.insert(slot, list.drop_last()),
            ..self.without_request(list.last())
        }
    }
}

/// Sweeping one slot: locations are taken off the end of the slot's list for
/// as long as the budget pays for the next one. Gives the state and the
/// budget that are left.
pub open spec fn swept_slot(v: FileSystemView, slot: u64, budget: nat) -> (FileSystemView, nat)
    decreases v.expirations[slot].len(),
{
    let list = v.expirations[slot];
    if list.len() == 0 || budget < v.entry_cost(list.last()) {
        (v, budget)
    } else {
        swept_slot(v.entry_taken(slot), slot, (budget - v.entry_cost(list.last())) as nat)
    }
}

/// Sweeping from the cleanup cursor: for as long as the cursor is not past
/// `current_block` and the budget pays for looking at a slot, the slot at the
/// cursor is swept; the cursor moves on only when the slot is empty. Gives
/// the state and the budget that are left.
pub open spec fn swept(v: FileSystemView, current_block: u64, budget: nat) -> (FileSystemView, nat)
    decreases u64::MAX - v.next_cleanup_slot,
{
    let slot = v.next_cleanup_slot;
    if slot > current_block || budget < SLOT_COST {
        (v, budget)
    } else {
        let after = swept_slot(v, slot, (budget - SLOT_COST) as nat);
        if after.0.expirations[slot].len() > 0 || slot == u64::MAX {
            after
        } else {
            swept(FileSystemView { next_cleanup_slot: (slot + 1) as u64, ..after.0 }, current_block, after.1)
        }
    }
}

impl FileSystem {
    fn held(&self, slot: u64) -> (count: usize)
        ensures
            count == self@.expirations[slot].len(),
    {
        match self.expirations.get(&slot) {
            Some(list) => list.len(),
            None => 0,
        }
    }

    fn sweep_slot(&mut self, slot: u64, budget: u64) -> (left: u64)
        requires
            old(self).wf(),
        ensures
            final(self).wf(),
            left <= budget,
            (final(self)@, left as nat) == swept_slot(old(self)@, slot, budget as nat),
            final(self)@.next_cleanup_slot == old(self)@.next_cleanup_slot,
    {
        let ghost start = self@;
        let ghost start_lists = self.expirations@;
        let mut list: Vec<Vec<u8>> = match self.expirations.remove(&slot) {
            Some(list) => list,
            None => {
                assert(self.expirations@ =~= start_lists);
                return budget;
            },
        };
        assert(start.expirations[slot] == list.deep_view());
        proof {
            assert(self.expirations@ =~= start_lists.remove(slot));
            assert(self@.expirations.insert(slot, list.deep_view()) =~= start.expirations);
            assert forall|s: u64| #[trigger] self@.expirations[s].len() <= self.config.max_expired_storage_requests by {
                assert(start.expirations[s].len() <= self.config.max_expired_storage_requests);
            }
            assert forall|s: u64| s > self.next_available_insertion_slot implies (#[trigger] self@.expirations[s]).len()
                == 0 by {
                assert(start.expirations[s].len() == 0);
            }
            assert forall|s: u64| s < self.next_cleanup_slot implies (#[trigger] self@.expirations[s]).len() == 0 by {
                assert(start.expirations[s].len() == 0);
            }
        }
        let mut left = budget;
        loop
            invariant
                self.wf(),
                start.config.valid(),
                start.expirations.dom() == Set::<u64>::full(),
                left <= budget,
                list.len() <= start.expirations[slot].len(),
                self@.config == start.config,
                self@.next_available_insertion_slot == start.next_available_insertion_slot,
                self@.next_cleanup_slot == start.next_cleanup_slot,
                swept_slot(
                    FileSystemView { expirations: self@.expirations.insert(slot, list.deep_view()), ..self@ },
                    slot,
                    left as nat,
                ) == swept_slot(start, slot, budget as nat),
            ensures
                swept_slot(
                    FileSystemView { expirations: self@.expirations.insert(slot, list.deep_view()), ..self@ },
                    slot,
                    left as nat,
                ) == (
                    FileSystemView { expirations: self@.expirations.insert(slot, list.deep_view()), ..self@ },
                    left as nat,
                ),
            decreases list.len(),
        {
            let ghost logical = FileSystemView {
                expirations: self@.expirations.insert(slot, list.deep_view()),
                ..self@
            };
            if list.len() == 0 {
                break;
            }
            let known = self.requests.contains_key(list[list.len() - 1].as_slice());
            proof {
                assert(list.deep_view().last() == list@.last()@) by {
                    assert(list@.last().deep_view() =~= list@.last()@);
                }
            }
            let cost: u64 = if known {
                ENTRY_COST + REMOVAL_COST
            } else {
                ENTRY_COST
            };
            assert(cost == logical.entry_cost(logical.expirations[slot].last()));
            if left < cost {
                break;
            }
            let ghost longer = list;
            match list.pop() {
                None => {},
                Some(location) => {
                    proof {
                        lemma_deep_view_drop_last(longer, list);
                    }
                    left = left - cost;
                    let _ = self.drop_request(&location);
                    proof {
                        let next = FileSystemView {
                            expirations: self@.expirations.insert(slot, list.deep_view()),
                            ..self@
                        };
                        assert(next.expirations =~= logical.entry_taken(slot).expirations);
                        assert(next == logical.entry_taken(slot));
                    }
                },
            }
        }
        let ghost logical = FileSystemView { expirations: self@.expirations.insert(slot, list.deep_view()), ..self@ };
        assert(swept_slot(logical, slot, left as nat) == (logical, left as nat));
        let ghost lists = self.expirations@;
        proof {
            assert(start.expirations[slot].len() <= start.config.max_expired_storage_requests);
            if list.len() > 0 {
                assert(start.expirations[slot].len() > 0);
                assert(slot <= start.next_available_insertion_slot);
                assert(slot >= start.next_cleanup_slot);
            }
        }
        let ghost before = self@;
        self.expirations.insert(slot, list);
        proof {
            assert(self.expirations@ =~= lists.insert(slot, list));
            assert(self@.expirations =~= logical.expirations);
            assert(self@ == logical);
            assert forall|s: u64| #[trigger] self@.expirations[s].len() <= self.config.max_expired_storage_requests by {
                assert(before.expirations[s].len() <= self.config.max_expired_storage_requests);
            }
            assert forall|s: u64| s > self.next_available_insertion_slot implies (#[trigger] self@.expirations[s]).len()
                == 0 by {
                assert(before.expirations[s].len() == 0);
            }
            assert forall|s: u64| s < self.next_cleanup_slot implies (#[trigger] self@.expirations[s]).len() == 0 by {
                assert(before.expirations[s].len() == 0);
            }
        }
        left
    }

    /// Sweeps the expiration schedule with a budget and returns the budget
    /// consumed. Slots are swept from the cleanup cursor up to `current_block`;
    /// a sweep that runs out of budget stops where it is and the next one goes
    /// on from there.
    pub fn sweep(&mut self, current_block: u64, budget: u64) -> (consumed: u64)
        requires
            old(self).wf(),
        ensures
            final(self).wf(),
            consumed <= budget,
            (final(self)@, (budget - consumed) as nat) == swept(old(self)@, current_block, budget as nat),
    {
        let mut left = budget;
        loop
            invariant
                self.wf(),
                left <= budget,
                swept(self@, current_block, left as nat) == swept(old(self)@, current_block, budget as nat),
            decreases u64::MAX - self.next_cleanup_slot,
        {
            let slot = self.next_cleanup_slot;
            if slot > current_block || left < SLOT_COST {
                return budget - left;
            }
            let ghost before = self@;
            let ghost paid = (left - SLOT_COST) as nat;
            left = self.sweep_slot(slot, left - SLOT_COST);
            assert((self@, left as nat) == swept_slot(before, slot, paid));
            if self.held(slot) > 0 || slot == u64::MAX {
                return budget - left;
            }
            let ghost after = self@;
            self.next_cleanup_slot = slot + 1;
            proof {
                assert(self@ == (FileSystemView { next_cleanup_slot: (slot + 1) as u64, ..after }));
                assert forall|s: u64| s < self.next_cleanup_slot implies (#[trigger] self@.expirations[s]).len()
                    == 0 by {
                    if s < slot {
                        assert(after.expirations[s].len() == 0);
                    }
                }
            }
        }
    }
}

/// A provider that has volunteered for a request cannot volunteer for it
/// again: the second attempt is refused as `BspAlreadyVolunteered` and changes
/// nothing.
pub proof fn lemma_volunteer_twice(
    pre: FileSystemView,
    registry: Map<Seq<u8>, crate::providers::BackupStorageProvider>,
    who: Seq<u8>,
    location: Seq<u8>,
    fingerprint: Seq<u8>,
    randomness: Randomness,
    r1: Result<Event, LedgerError>,
    mid: FileSystemView,
    again: Randomness,
    r2: Result<Event, LedgerError>,
    post: FileSystemView,
)
    requires
        volunteer_post(pre, registry, who, location, fingerprint, randomness, r1, mid),
        r1 is Ok,
        volunteer_post(mid, registry, who, location, fingerprint, again, r2, post),
    ensures
        r2 == Err::<Event, LedgerError>(LedgerError::BspAlreadyVolunteered),
        post == mid,
        mid.records[(location, who)] == (StorageRequestBspsMetadata { confirmed: false }),
{
    assert(volunteer_refusal(pre, registry.contains_key(who), who, location, randomness) is None);
    assert(mid.requests.contains_key(location));
    assert(mid.records.contains_key((location, who)));
}

/// A provider that has not volunteered for a request cannot confirm it: the
/// attempt is refused as `BspNotVolunteered` and changes nothing.
pub proof fn lemma_confirm_without_volunteering(
    pre: FileSystemView,
    who: Seq<u8>,
    location: Seq<u8>,
    r: Result<Event, LedgerError>,
    post: FileSystemView,
)
    requires
        pre.requests.contains_key(location),
        !pre.records.contains_key((location, who)),
        confirm_post(pre, true, who, location, r, post),
    ensures
        r == Err::<Event, LedgerError>(LedgerError::BspNotVolunteered),
        post == pre,
{
}

/// A provider that stops storing after it has confirmed is no longer counted:
/// the request counts one confirmation and one volunteer less, asks for one
/// replica more, and has no record of the provider. Only a count of required
/// replicas at the end of its range stands in the way.
pub proof fn lemma_stop_after_confirm(
    pre: FileSystemView,
    who: Seq<u8>,
    location: Seq<u8>,
    r1: Result<Event, LedgerError>,
    mid: FileSystemView,
    file_key: Seq<u8>,
    owner: Seq<u8>,
    fingerprint: Seq<u8>,
    size: u64,
    r2: Result<Event, LedgerError>,
    post: FileSystemView,
)
    requires
        counts_cover_records(pre),
        confirm_post(pre, true, who, location, r1, mid),
        r1 is Ok,
        stop_storing_post(mid, who, file_key, location, owner, fingerprint, size, r2, post),
        pre.requests[location].bsps_required < u32::MAX,
    ensures
        r2 is Ok,
        post.requests.contains_key(location),
        post.requests[location].bsps_confirmed == pre.requests[location].bsps_confirmed,
        post.requests[location].bsps_confirmed == mid.requests[location].bsps_confirmed - 1,
        post.requests[location].bsps_volunteered == mid.requests[location].bsps_volunteered - 1,
        post.requests[location].bsps_required == mid.requests[location].bsps_required + 1,
        !post.records.contains_key((location, who)),
{
    assert(confirm_refusal(pre, true, who, location) is None);
    assert(pre.records.contains_key((location, who)));
    assert(pre.requests[location].bsps_volunteered >= 1);
    assert(pre.requests[location].bsps_confirmed <= pre.requests[location].bsps_volunteered);
    assert(!pre.records[(location, who)].confirmed);
    assert(mid.requests.contains_key(location));
    assert(mid.records.contains_key((location, who)));
    assert(mid.records[(location, who)].confirmed);
}

/// A sweep without budget removes nothing and leaves both cursors where they
/// are.
pub proof fn lemma_sweep_without_budget(v: FileSystemView, current_block: u64)
    ensures
        swept(v, current_block, 0) == (v, 0nat),
{
}

/// What sweeping one slot does, whatever the budget: it shortens the list of
/// that slot from its end and touches no other slot; it removes requests and
/// records but changes none; the requests it removes are those of the
/// locations it took off the slot, and none of those locations keeps a
/// request; with budget for every location of the slot it empties the slot.
pub proof fn lemma_swept_slot(v: FileSystemView, slot: u64, budget: nat)
    requires
        v.expirations.dom() == Set::<u64>::full(),
    ensures
        swept_slot(v, slot, budget).1 <= budget,
        swept_slot(v, slot, budget).0 == (FileSystemView {
            requests: swept_slot(v, slot, budget).0.requests,
            records: swept_slot(v, slot, budget).0.records,
            expirations: swept_slot(v, slot, budget).0.expirations,
            ..v
        }),
        swept_slot(v, slot, budget).0.expirations[slot].len() <= v.expirations[slot].len(),
        swept_slot(v, slot, budget).0.expirations == v.expirations.insert(
            slot,
            v.expirations[slot].subrange(0, swept_slot(v, slot, budget).0.expirations[slot].len() as int),
        ),
        forall|location: Seq<u8>| #[trigger]
            swept_slot(v, slot, budget).0.requests.contains_key(location) ==> v.requests.contains_key(location)
                && swept_slot(v, slot, budget).0.requests[location] == v.requests[location],
        forall|p: (Seq<u8>, Seq<u8>)| #[trigger]
            swept_slot(v, slot, budget).0.records.contains_key(p) ==> v.records.contains_key(p) && swept_slot(
                v,
                slot,
                budget,
            ).0.records[p] == v.records[p],
        forall|location: Seq<u8>|
            v.requests.contains_key(location) && !(#[trigger] swept_slot(v, slot, budget).0.requests.contains_key(
                location,
            )) ==> exists|i: int|
                swept_slot(v, slot, budget).0.expirations[slot].len() <= i < v.expirations[slot].len()
                    && v.expirations[slot][i] == location,
        forall|i: int|
            swept_slot(v, slot, budget).0.expirations[slot].len() <= i < v.expirations[slot].len() ==> !swept_slot(
                v,
                slot,
                budget,
            ).0.requests.contains_key(#[trigger] v.expirations[slot][i]),
        budget >= v.expirations[slot].len() * (ENTRY_COST + REMOVAL_COST) ==> swept_slot(
            v,
            slot,
            budget,
        ).0.expirations[slot].len() == 0,
    decreases v.expirations[slot].len(),
{
    let list = v.expirations[slot];
    if list.len() == 0 || budget < v.entry_cost(list.last()) {
        assert(list.subrange(0, list.len() as int) =~= list);
        assert(v.expirations =~= v.expirations.insert(slot, list));
        if list.len() > 0 {
            assert(budget < list.len() * (ENTRY_COST + REMOVAL_COST)) by (nonlinear_arith)
                requires
                    budget < ENTRY_COST + REMOVAL_COST,
                    list.len() >= 1,
            ;
        }
    } else {
        let next = v.entry_taken(slot);
        let cost = v.entry_cost(list.last());
        let left = (budget - cost) as nat;
        assert(next.expirations.dom() =~= Set::<u64>::full());
        lemma_swept_slot(next, slot, left);
        let after = swept_slot(next, slot, left);
        let kept = after.0.expirations[slot].len();
        assert(next.expirations[slot] == list.drop_last());
        assert(list.drop_last().subrange(0, kept as int) =~= list.subrange(0, kept as int));
        assert(after.0.expirations =~= v.expirations.insert(slot, list.subrange(0, kept as int)));
        assert forall|location: Seq<u8>|
            v.requests.contains_key(location) && !(#[trigger] after.0.requests.contains_key(
                location,
            )) implies exists|i: int| kept <= i < list.len() && list[i] == location by {
            if next.requests.contains_key(location) {
                let i = choose|i: int| kept <= i < list.drop_last().len() && list.drop_last()[i] == location;
                assert(list[i] == location);
            } else {
                assert(list[list.len() - 1] == location);
            }
        }
        assert forall|i: int| kept <= i < list.len() implies !after.0.requests.contains_key(#[trigger] list[i]) by {
            if i < list.len() - 1 {
                assert(list.drop_last()[i] == list[i]);
            } else {
                assert(!next.requests.contains_key(list[i]));
            }
        }
        if budget >= list.len() * (ENTRY_COST + REMOVAL_COST) {
            assert(left >= list.drop_last().len() * (ENTRY_COST + REMOVAL_COST)) by (nonlinear_arith)
                requires
                    budget >= list.len() * (ENTRY_COST + REMOVAL_COST),
                    left == budget - cost,
                    cost <= ENTRY_COST + REMOVAL_COST,
                    list.drop_last().len() == list.len() - 1,
                    list.len() >= 1,
            ;
        }
    }
}

/// What a sweep does, whatever the budget: the cleanup cursor never moves
/// back, and every slot it has passed is empty; slots after `current_block`
/// and slots before the cursor are as they were; requests are removed, none
/// is changed; nothing else of the state changes.
pub proof fn lemma_swept(v: FileSystemView, current_block: u64, budget: nat)
    requires
        v.expirations.dom() == Set::<u64>::full(),
    ensures
        swept(v, current_block, budget).1 <= budget,
        swept(v, current_block, budget).0 == (FileSystemView {
            requests: swept(v, current_block, budget).0.requests,
            records: swept(v, current_block, budget).0.records,
            expirations: swept(v, current_block, budget).0.expirations,
            next_cleanup_slot: swept(v, current_block, budget).0.next_cleanup_slot,
            ..v
        }),
        swept(v, current_block, budget).0.expirations.dom() == Set::<u64>::full(),
        v.next_cleanup_slot <= swept(v, current_block, budget).0.next_cleanup_slot,
        swept(v, current_block, budget).0.next_cleanup_slot <= current_block + 1 || swept(
            v,
            current_block,
            budget,
        ).0.next_cleanup_slot == v.next_cleanup_slot,
        forall|slot: u64|
            v.next_cleanup_slot <= slot < swept(v, current_block, budget).0.next_cleanup_slot ==> (#[trigger] swept(
                v,
                current_block,
                budget,
            ).0.expirations[slot]).len() == 0,
        forall|slot: u64|
            slot > current_block || slot < v.next_cleanup_slot ==> #[trigger] swept(
                v,
                current_block,
                budget,
            ).0.expirations[slot] == v.expirations[slot],
        forall|location: Seq<u8>| #[trigger]
            swept(v, current_block, budget).0.requests.contains_key(location) ==> v.requests.contains_key(location)
                && swept(v, current_block, budget).0.requests[location] == v.requests[location],
        forall|p: (Seq<u8>, Seq<u8>)| #[trigger]
            swept(v, current_block, budget).0.records.contains_key(p) ==> v.records.contains_key(p) && swept(
                v,
                current_block,
                budget,
            ).0.records[p] == v.records[p],
    decreases u64::MAX - v.next_cleanup_slot,
{
    let slot = v.next_cleanup_slot;
    if slot > current_block || budget < SLOT_COST {
    } else {
        let paid = (budget - SLOT_COST) as nat;
        lemma_swept_slot(v, slot, paid);
        let after = swept_slot(v, slot, paid);
        assert(after.0.expirations.dom() =~= Set::<u64>::full());
        if after.0.expirations[slot].len() > 0 || slot == u64::MAX {
        } else {
            let moved = FileSystemView { next_cleanup_slot: (slot + 1) as u64, ..after.0 };
            lemma_swept(moved, current_block, after.1);
            let end = swept(moved, current_block, after.1);
            assert forall|s: u64| v.next_cleanup_slot <= s < end.0.next_cleanup_slot implies (
            #[trigger] end.0.expirations[s]).len() == 0 by {
                if s == slot {
                    assert(end.0.expirations[s] == moved.expirations[s]);
                }
            }
            assert forall|s: u64| s > current_block || s < v.next_cleanup_slot implies #[trigger] end.0.expirations[s]
                == v.expirations[s] by {
                assert(end.0.expirations[s] == moved.expirations[s]);
            }
        }
    }
}

/// A sweep at the block of a slot that is next to be cleaned, with budget for
/// the slot and for all its locations, removes exactly what the slot holds:
/// the slot is empty afterwards and the cursor has moved past it, a request
/// is gone if and only if its location was in the slot, and no other slot has
/// changed.
pub proof fn lemma_sweep_due_slot(v: FileSystemView, slot: u64, budget: nat)
    requires
        v.expirations.dom() == Set::<u64>::full(),
        v.next_cleanup_slot == slot,
        slot < u64::MAX,
        budget >= SLOT_COST + v.expirations[slot].len() * (ENTRY_COST + REMOVAL_COST),
    ensures
        swept(v, slot, budget).0.expirations[slot].len() == 0,
        swept(v, slot, budget).0.next_cleanup_slot == slot + 1,
        forall|other: u64|
            other != slot ==> #[trigger] swept(v, slot, budget).0.expirations[other] == v.expirations[other],
        forall|location: Seq<u8>|
            v.requests.contains_key(location) ==> (#[trigger] swept(v, slot, budget).0.requests.contains_key(location)
                <==> !v.expirations[slot].contains(location)),
        forall|location: Seq<u8>| #[trigger]
            swept(v, slot, budget).0.requests.contains_key(location) ==> v.requests.contains_key(location) && swept(
                v,
                slot,
                budget,
            ).0.requests[location] == v.requests[location],
{
    let paid = (budget - SLOT_COST) as nat;
    lemma_swept_slot(v, slot, paid);
    let after = swept_slot(v, slot, paid);
    let list = v.expirations[slot];
    assert(after.0.expirations[slot].len() == 0);
    let moved = FileSystemView { next_cleanup_slot: (slot + 1) as u64, ..after.0 };
    assert(swept(v, slot, budget) == swept(moved, slot, after.1));
    assert(swept(moved, slot, after.1) == (moved, after.1));
    assert forall|location: Seq<u8>| v.requests.contains_key(location) implies (#[trigger] moved.requests.contains_key(
        location,
    ) <==> !list.contains(location)) by {
        if list.contains(location) {
            let i = choose|i: int| 0 <= i < list.len() && list[i] == location;
            assert(!after.0.requests.contains_key(list[i]));
        }
        if !moved.requests.contains_key(location) {
            let i = choose|i: int| 0 <= i < list.len() && list[i] == location;
            assert(list.contains(location));
        }
    }
}

/// Scheduling appends with carry: the location goes to the end of the list of
/// one slot, which is not before either cursor, and no other list changes; a
/// full slot is never appended to, the location goes to the next slot instead,
/// which was empty; the insertion cursor never moves back; and the schedule
/// stays in order.
pub proof fn lemma_scheduled(v: FileSystemView, location: Seq<u8>)
    requires
        schedule_in_order(v),
        v.scheduled(location) is Some,
    ensures
        ({
            let post = v.scheduled(location)->0;
            let slot = post.next_available_insertion_slot;
            &&& schedule_in_order(post)
            &&& slot >= v.next_available_insertion_slot
            &&& slot >= v.next_cleanup_slot
            &&& slot >= v.current_block + v.config.storage_request_ttl
            &&& post.expirations[slot] == v.expirations[slot].push(location)
            &&& v.expirations[slot].len() < v.config.max_expired_storage_requests
            &&& slot != v.insertion_base() ==> v.expirations[slot].len() == 0 && v.expirations[(slot - 1) as u64].len()
                == v.config.max_expired_storage_requests
            &&& forall|other: u64| other != slot ==> #[trigger] post.expirations[other] == v.expirations[other]
        }),
{
    let post = v.scheduled(location)->0;
    let slot = post.next_available_insertion_slot;
    let base = v.insertion_base();
    assert(v.expirations[base as u64].len() <= v.config.max_expired_storage_requests);
    if slot != base {
        assert(v.expirations[slot].len() == 0);
    }
    assert(post.expirations.dom() =~= Set::<u64>::full());
    assert forall|s: u64| #[trigger] post.expirations[s].len() <= post.config.max_expired_storage_requests by {
        assert(v.expirations[s].len() <= v.config.max_expired_storage_requests);
    }
    assert forall|s: u64| s > post.next_available_insertion_slot implies (#[trigger] post.expirations[s]).len()
        == 0 by {
        assert(v.expirations[s].len() == 0);
    }
    assert forall|s: u64| s < post.next_cleanup_slot implies (#[trigger] post.expirations[s]).len() == 0 by {
        assert(v.expirations[s].len() == 0);
    }
}

} // verus!
