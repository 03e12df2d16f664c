//! The registry of storage providers: who asked to sign up, who is signed up
//! as a main or a backup storage provider, with what capacity, and what
//! deposit each step asks of the provider's account.
//!
//! Balances are kept elsewhere. Every operation that depends on an account's
//! balance takes the facts it needs as [`BalanceFacts`] and answers with the
//! [`BalanceAction`] that the caller has to carry out.
use vstd::prelude::*;
use crate::file_system::Randomness;
use crate::bytes::{copy_byte_strings, digest_bytes};
use crate::keyed::KeyedList;

verus! {

/// A 32-byte account identifier.
pub type AccountId = [u8; 32];

/// An amount of the native currency.
pub type Balance = u128;

/// An amount of storage, in units of data.
pub type StorageData = u64;

/// A 32-byte identifier of a provider or of a bucket.
pub type HashId = [u8; 32];

/// Parameters of the registry.
#[derive(Debug, Clone, Copy, PartialEq, Eq, Structural)]
pub struct ProvidersConfig {
    /// Most main storage providers there can be.
    pub max_msps: u32,
    /// Most backup storage providers there can be.
    pub max_bsps: u32,
    /// Least capacity a provider can offer.
    pub sp_min_capacity: StorageData,
    /// Deposit for each unit of capacity above the least.
    pub deposit_per_data: Balance,
    /// Deposit for the least capacity.
    pub sp_min_deposit: Balance,
    /// Blocks within which a sign-up request has to be confirmed.
    pub max_blocks_for_randomness: u64,
    /// Blocks that have to pass between two changes of capacity.
    pub min_blocks_between_capacity_changes: u64,
}

/// Why the registry refused an operation.
#[derive(Debug, Clone, Copy, PartialEq, Eq, Structural)]
pub enum ProvidersError {
    /// The account has a sign-up request that is not yet confirmed.
    SignUpRequestPending,
    /// There are as many main storage providers as there can be.
    MaxMspsReached,
    /// There are as many backup storage providers as there can be.
    MaxBspsReached,
    /// The account is signed up already.
    AlreadyRegistered,
    /// The provider gave no address.
    NoMultiAddress,
    /// The capacity is below the least a provider can offer.
    StorageTooLow,
    /// The account cannot pay the deposit.
    NotEnoughBalance,
    /// The deposit cannot be held on the account.
    CannotHoldDeposit,
    /// The account has no sign-up request.
    SignUpNotRequested,
    /// The sign-up request was not confirmed in time.
    SignUpRequestExpired,
    /// The randomness was not yet valid when the request was made.
    RandomnessNotValidYet,
    /// The account or provider is not signed up.
    NotRegistered,
    /// The account is signed up but nothing is known of its provider.
    SpRegisteredButDataNotFound,
    /// The provider still has data in use.
    StorageStillInUse,
    /// A capacity of zero was asked for.
    NewCapacityCantBeZero,
    /// The capacity asked for is the one the provider has.
    NewCapacityEqualsCurrentCapacity,
    /// The capacity was changed too recently.
    NotEnoughTimePassed,
    /// The capacity asked for is less than what the provider has in use.
    NewCapacityLessThanUsedStorage,
    /// A sum or product would exceed its range.
    ArithmeticOverflow,
    /// A difference would fall below zero.
    ArithmeticUnderflow,
}

/// What the caller knows of the balance of the account that an operation is
/// about.
#[derive(Debug, Clone, Copy, PartialEq, Eq, Structural)]
pub struct BalanceFacts {
    /// What the account can spend.
    pub reducible: Balance,
    /// Whether the amount that the operation would hold can be held.
    pub can_hold: bool,
    /// What is held on the account as a provider's deposit.
    pub on_hold: Balance,
}

/// What the caller has to do to the balance of the account after an operation
/// has succeeded.
#[derive(Debug, Clone, Copy, PartialEq, Eq, Structural)]
pub enum BalanceAction {
    /// Nothing.
    Nothing,
    /// Hold this amount as deposit.
    Hold(Balance),
    /// Release this amount of the deposit.
    Release(Balance),
    /// Release the whole deposit.
    ReleaseAll,
}

/// What the registry knows of a main storage provider.
#[derive(Debug, Clone, PartialEq, Eq)]
pub struct MainStorageProvider {
    /// Storage the provider offers.
    pub capacity: StorageData,
    /// Storage the provider has in use.
    pub data_used: StorageData,
    /// Network addresses under which the provider can be reached.
    pub multiaddresses: Vec<Vec<u8>>,
    /// What the provider offers to its users.
    pub value_prop: Vec<u8>,
    /// Block at which the capacity was last changed.
    pub last_capacity_change: u64,
}

/// What the registry knows of a backup storage provider.
#[derive(Debug, Clone, PartialEq, Eq)]
pub struct BackupStorageProvider {
    /// Storage the provider offers.
    pub capacity: StorageData,
    /// Storage the provider has in use.
    pub data_used: StorageData,
    /// Network addresses under which the provider can be reached.
    pub multiaddresses: Vec<Vec<u8>>,
    /// Root of the trie of files the provider stores.
    pub root: [u8; 32],
    /// Block at which the capacity was last changed.
    pub last_capacity_change: u64,
}

/// A provider of either kind.
#[derive(Debug, Clone, PartialEq, Eq)]
pub enum StorageProvider {
    BackupStorageProvider(BackupStorageProvider),
    MainStorageProvider(MainStorageProvider),
}

/// A request to sign up, with the block at which it was made.
#[derive(Debug, Clone, PartialEq, Eq)]
pub struct SignUpRequest {
    pub provider: StorageProvider,
    pub requested_at: u64,
}

/// A bucket of files that a main storage provider keeps for a user.
#[derive(Debug, Clone, Copy, PartialEq, Eq)]
pub struct Bucket {
    /// Root of the trie of the bucket's files.
    pub root: [u8; 32],
    /// The user the bucket belongs to.
    pub user_id: AccountId,
    /// The provider that keeps the bucket.
    pub msp_id: HashId,
}

/// A backup storage provider with what a main storage provider had: the same
/// capacity, use, addresses and time of last change, and the zero root.
pub open spec fn spec_backup_from_main(msp: MainStorageProvider) -> BackupStorageProvider {
    BackupStorageProvider {
        capacity: msp.capacity,
        data_used: msp.data_used,
        multiaddresses: msp.multiaddresses,
        root: vstd::array::spec_array_fill_for_copy_type::<u8, 32>(0u8),
        last_capacity_change: msp.last_capacity_change,
    }
}

impl From<MainStorageProvider> for BackupStorageProvider {
    /// Makes a backup storage provider of what a main storage provider had.
    fn from(msp: MainStorageProvider) -> (bsp: Self) {
        BackupStorageProvider {
            capacity: msp.capacity,
            data_used: msp.data_used,
            multiaddresses: msp.multiaddresses,
            root: [0u8; 32],
            last_capacity_change: msp.last_capacity_change,
        }
    }
}

impl vstd::std_specs::convert::FromSpecImpl<MainStorageProvider> for BackupStorageProvider {
    open spec fn obeys_from_spec() -> bool {
        true
    }

    open spec fn from_spec(msp: MainStorageProvider) -> Self {
        spec_backup_from_main(msp)
    }
}

/// The deposit for a capacity: the least deposit, plus the deposit per unit
/// for every unit above the least capacity.
pub open spec fn spec_deposit(config: ProvidersConfig, capacity: StorageData) -> Result<Balance, ProvidersError> {
    if capacity < config.sp_min_capacity {
        Err(ProvidersError::StorageTooLow)
    } else if config.deposit_per_data * (capacity - config.sp_min_capacity) > u128::MAX {
        Err(ProvidersError::ArithmeticOverflow)
    } else if config.sp_min_deposit + config.deposit_per_data * (capacity - config.sp_min_capacity) > u128::MAX {
        Err(ProvidersError::ArithmeticOverflow)
    } else {
        Ok((config.sp_min_deposit + config.deposit_per_data * (capacity - config.sp_min_capacity)) as u128)
    }
}

/// Computes the deposit for a capacity.
pub fn deposit_for(config: &ProvidersConfig, capacity: StorageData) -> (r: Result<Balance, ProvidersError>)
    ensures
        r == spec_deposit(*config, capacity),
{
    if capacity < config.sp_min_capacity {
        return Err(ProvidersError::StorageTooLow);
    }
    let over: u64 = capacity - config.sp_min_capacity;
    match config.deposit_per_data.checked_mul(over as u128) {
        None => Err(ProvidersError::ArithmeticOverflow),
        Some(above) => match config.sp_min_deposit.checked_add(above) {
            None => Err(ProvidersError::ArithmeticOverflow),
            Some(deposit) => Ok(deposit),
        },
    }
}

/// The mathematical value of the registry.
pub struct ProvidersView {
    /// The parameters.
    pub config: ProvidersConfig,
    /// The sign-up requests, by account.
    pub sign_up_requests: Map<Seq<u8>, SignUpRequest>,
    /// The identifier of each account's main storage provider.
    pub msp_ids: Map<Seq<u8>, HashId>,
    /// The identifier of each account's backup storage provider.
    pub bsp_ids: Map<Seq<u8>, HashId>,
    /// The main storage providers, by identifier.
    pub msps: Map<Seq<u8>, MainStorageProvider>,
    /// The backup storage providers, by identifier.
    pub bsps: Map<Seq<u8>, BackupStorageProvider>,
    /// The buckets, by identifier.
    pub buckets: Map<Seq<u8>, Bucket>,
    /// How many main storage providers are signed up.
    pub msp_count: u32,
    /// How many backup storage providers are signed up.
    pub bsp_count: u32,
    /// The capacity of all backup storage providers together.
    pub total_bsps_capacity: StorageData,
}

impl ProvidersView {
    /// The backup storage providers, by the account that signed them up.
    pub open spec fn bsp_by_account(self) -> Map<Seq<u8>, BackupStorageProvider> {
        Map::new(
            |who: Seq<u8>| self.bsp_ids.contains_key(who) && self.bsps.contains_key(self.bsp_ids[who]@),
            |who: Seq<u8>| self.bsps[self.bsp_ids[who]@],
        )
    }
}

/// The registry of storage providers.
pub struct Pallet {
    config: ProvidersConfig,
    sign_up_requests: KeyedList<SignUpRequest>,
    msp_ids: KeyedList<HashId>,
    bsp_ids: KeyedList<HashId>,
    msps: KeyedList<MainStorageProvider>,
    bsps: KeyedList<BackupStorageProvider>,
    buckets: KeyedList<Bucket>,
    msp_count: u32,
    bsp_count: u32,
    total_bsps_capacity: StorageData,
}

/// The registry, as the storage request ledger knows it.
pub type ProviderRegistry = Pallet;

impl View for Pallet {
    type V = ProvidersView;

    closed spec fn view(&self) -> ProvidersView {
        ProvidersView {
            config: self.config,
            sign_up_requests: self.sign_up_requests@,
            msp_ids: self.msp_ids@,
            bsp_ids: self.bsp_ids@,
            msps: self.msps@,
            bsps: self.bsps@,
            buckets: self.buckets@,
            msp_count: self.msp_count,
            bsp_count: self.bsp_count,
            total_bsps_capacity: self.total_bsps_capacity,
        }
    }
}

/// What a provider gave of itself when it asked to sign up.
pub open spec fn provider_capacity(provider: StorageProvider) -> StorageData {
    match provider {
        StorageProvider::MainStorageProvider(msp) => msp.capacity,
        StorageProvider::BackupStorageProvider(bsp) => bsp.capacity,
    }
}

/// How many addresses a provider gave.
pub open spec fn provider_addresses(provider: StorageProvider) -> nat {
    match provider {
        StorageProvider::MainStorageProvider(msp) => msp.multiaddresses@.len(),
        StorageProvider::BackupStorageProvider(bsp) => bsp.multiaddresses@.len(),
    }
}

/// The refusal that a request to sign up meets, if any, in the order in which
/// the conditions are tested.
pub open spec fn request_refusal(pre: ProvidersView, who: Seq<u8>, provider: StorageProvider, facts: BalanceFacts) -> Option<
    ProvidersError,
> {
    let count = if provider is MainStorageProvider {
        pre.msp_count
    } else {
        pre.bsp_count
    };
    let most = if provider is MainStorageProvider {
        pre.config.max_msps
    } else {
        pre.config.max_bsps
    };
    if pre.sign_up_requests.contains_key(who) {
        Some(ProvidersError::SignUpRequestPending)
    } else if count == u32::MAX {
        Some(ProvidersError::ArithmeticOverflow)
    } else if count + 1 > most {
        Some(
            if provider is MainStorageProvider {
                ProvidersError::MaxMspsReached
            } else {
                ProvidersError::MaxBspsReached
            },
        )
    } else if pre.msp_ids.contains_key(who) || pre.bsp_ids.contains_key(who) {
        Some(ProvidersError::AlreadyRegistered)
    } else if provider_addresses(provider) == 0 {
        Some(ProvidersError::NoMultiAddress)
    } else {
        match spec_deposit(pre.config, provider_capacity(provider)) {
            Err(e) => Some(e),
            Ok(deposit) => if facts.reducible < deposit {
                Some(ProvidersError::NotEnoughBalance)
            } else if !facts.can_hold {
                Some(ProvidersError::CannotHoldDeposit)
            } else {
                None
            },
        }
    }
}

/// What a request to sign up does and reports: where nothing stands against
/// it, the request is kept with the block at which it was made, and the
/// deposit for the capacity is to be held.
pub open spec fn request_post(
    pre: ProvidersView,
    who: Seq<u8>,
    provider: StorageProvider,
    now: u64,
    facts: BalanceFacts,
    r: Result<BalanceAction, ProvidersError>,
    post: ProvidersView,
) -> bool {
    match request_refusal(pre, who, provider, facts) {
        Some(refusal) => r == Err::<BalanceAction, ProvidersError>(refusal) && post == pre,
        None => {
            &&& r == Ok::<BalanceAction, ProvidersError>(
                BalanceAction::Hold(spec_deposit(pre.config, provider_capacity(provider))->Ok_0),
            )
            &&& post == (ProvidersView {
                sign_up_requests: pre.sign_up_requests.insert(who, SignUpRequest { provider, requested_at: now }),
                ..pre
            })
        },
    }
}

/// Whether a request made at `request_block` can still be confirmed at `now`.
pub open spec fn in_time(config: ProvidersConfig, request_block: u64, now: u64) -> bool {
    now < request_block + config.max_blocks_for_randomness
}

/// The refusal that the confirmation of a request meets, if any, in the order
/// in which the conditions are tested.
pub open spec fn sign_up_refusal(
    pre: ProvidersView,
    provider: StorageProvider,
    request_block: u64,
    now: u64,
    randomness: Randomness,
) -> Option<ProvidersError> {
    let count = if provider is MainStorageProvider {
        pre.msp_count
    } else {
        pre.bsp_count
    };
    let most = if provider is MainStorageProvider {
        pre.config.max_msps
    } else {
        pre.config.max_bsps
    };
    if count == u32::MAX {
        Some(ProvidersError::ArithmeticOverflow)
    } else if count + 1 > most {
        Some(
            if provider is MainStorageProvider {
                ProvidersError::MaxMspsReached
            } else {
                ProvidersError::MaxBspsReached
            },
        )
    } else if !in_time(pre.config, request_block, now) {
        Some(ProvidersError::SignUpRequestExpired)
    } else if randomness.valid_from_block < request_block {
        Some(ProvidersError::RandomnessNotValidYet)
    } else if provider is BackupStorageProvider && pre.total_bsps_capacity + provider_capacity(provider) > u64::MAX {
        Some(ProvidersError::ArithmeticOverflow)
    } else {
        None
    }
}

/// The registry after account `who` has been signed up as `provider` under
/// the identifier `id`.
pub open spec fn signed_up(pre: ProvidersView, who: Seq<u8>, provider: StorageProvider, id: HashId) -> ProvidersView {
    match provider {
        StorageProvider::MainStorageProvider(msp) => ProvidersView {
            msp_ids: pre.msp_ids.insert(who, id),
            msps: pre.msps.insert(id@, msp),
            msp_count: (pre.msp_count + 1) as u32,
            sign_up_requests: pre.sign_up_requests.remove(who),
            ..pre
        },
        StorageProvider::BackupStorageProvider(bsp) => ProvidersView {
            bsp_ids: pre.bsp_ids.insert(who, id),
            bsps: pre.bsps.insert(id@, bsp),
            bsp_count: (pre.bsp_count + 1) as u32,
            total_bsps_capacity: (pre.total_bsps_capacity + bsp.capacity) as u64,
            sign_up_requests: pre.sign_up_requests.remove(who),
            ..pre
        },
    }
}

/// What the registry has to tell.
#[derive(Debug, Clone, PartialEq, Eq)]
pub enum Event {
    /// A main storage provider has signed up.
    MspSignUpSuccess { who: AccountId, multiaddresses: Vec<Vec<u8>>, capacity: StorageData, value_prop: Vec<u8> },
    /// A backup storage provider has signed up.
    BspSignUpSuccess { who: AccountId, multiaddresses: Vec<Vec<u8>>, capacity: StorageData },
}

/// A successful sign-up: the identifier that the provider got, and the event
/// that tells of it.
#[derive(Debug, Clone, PartialEq, Eq)]
pub struct SignedUp {
    pub id: HashId,
    pub event: Event,
}

/// `event` tells that account `who` has signed `provider` up: it is of the
/// provider's kind and carries the account, the provider's addresses and
/// capacity, and what a main storage provider offers.
pub open spec fn tells_of_sign_up(event: Event, who: Seq<u8>, provider: StorageProvider) -> bool {
    match provider {
        StorageProvider::MainStorageProvider(msp) => event matches Event::MspSignUpSuccess {
            who: account,
            multiaddresses,
            capacity,
            value_prop,
        } && account@ == who && multiaddresses.deep_view() == msp.multiaddresses.deep_view() && capacity
            == msp.capacity && value_prop@ == msp.value_prop@,
        StorageProvider::BackupStorageProvider(bsp) => event matches Event::BspSignUpSuccess {
            who: account,
            multiaddresses,
            capacity,
        } && account@ == who && multiaddresses.deep_view() == bsp.multiaddresses.deep_view() && capacity
            == bsp.capacity,
    }
}

/// What signing a provider up does and reports: where nothing stands against
/// it, the provider is registered under the identifier that the randomness
/// gives, and the identifier is returned with the event that tells of the
/// sign-up.
pub open spec fn sign_up_post(
    pre: ProvidersView,
    who: Seq<u8>,
    provider: StorageProvider,
    request_block: u64,
    now: u64,
    randomness: Randomness,
    r: Result<SignedUp, ProvidersError>,
    post: ProvidersView,
) -> bool {
    match sign_up_refusal(pre, provider, request_block, now, randomness) {
        Some(refusal) => r == Err::<SignedUp, ProvidersError>(refusal) && post == pre,
        None => r matches Ok(done) && done.id == randomness.seed && tells_of_sign_up(done.event, who, provider)
            && post == signed_up(pre, who, provider, randomness.seed),
    }
}

/// What confirming a sign-up does and reports: the request of the account is
/// taken up and the provider it names is signed up.
pub open spec fn confirm_post(
    pre: ProvidersView,
    who: Seq<u8>,
    now: u64,
    randomness: Randomness,
    r: Result<SignedUp, ProvidersError>,
    post: ProvidersView,
) -> bool {
    if !pre.sign_up_requests.contains_key(who) {
        r == Err::<SignedUp, ProvidersError>(ProvidersError::SignUpNotRequested) && post == pre
    } else {
        sign_up_post(
            pre,
            who,
            pre.sign_up_requests[who].provider,
            pre.sign_up_requests[who].requested_at,
            now,
            randomness,
            r,
            post,
        )
    }
}

/// The refusal that a main storage provider meets when it signs off, if any.
pub open spec fn msp_sign_off_refusal(pre: ProvidersView, who: Seq<u8>) -> Option<ProvidersError> {
    if !pre.msp_ids.contains_key(who) {
        Some(ProvidersError::NotRegistered)
    } else if !pre.msps.contains_key(pre.msp_ids[who]@) {
        Some(ProvidersError::SpRegisteredButDataNotFound)
    } else if pre.msps[pre.msp_ids[who]@].data_used != 0 {
        Some(ProvidersError::StorageStillInUse)
    } else if pre.msp_count == 0 {
        Some(ProvidersError::ArithmeticUnderflow)
    } else {
        None
    }
}

/// What the signing off of a main storage provider does and reports: the
/// provider is removed and its whole deposit is to be released.
pub open spec fn msp_sign_off_post(
    pre: ProvidersView,
    who: Seq<u8>,
    r: Result<BalanceAction, ProvidersError>,
    post: ProvidersView,
) -> bool {
    match msp_sign_off_refusal(pre, who) {
        Some(refusal) => r == Err::<BalanceAction, ProvidersError>(refusal) && post == pre,
        None => r == Ok::<BalanceAction, ProvidersError>(BalanceAction::ReleaseAll) && post == (ProvidersView {
            msp_ids: pre.msp_ids.remove(who),
            msps: pre.msps.remove(pre.msp_ids[who]@),
            msp_count: (pre.msp_count - 1) as u32,
            ..pre
        }),
    }
}

/// The refusal that a backup storage provider meets when it signs off, if
/// any.
pub open spec fn bsp_sign_off_refusal(pre: ProvidersView, who: Seq<u8>) -> Option<ProvidersError> {
    if !pre.bsp_ids.contains_key(who) {
        Some(ProvidersError::NotRegistered)
    } else if !pre.bsps.contains_key(pre.bsp_ids[who]@) {
        Some(ProvidersError::SpRegisteredButDataNotFound)
    } else if pre.bsps[pre.bsp_ids[who]@].data_used != 0 {
        Some(ProvidersError::StorageStillInUse)
    } else if pre.total_bsps_capacity < pre.bsps[pre.bsp_ids[who]@].capacity {
        Some(ProvidersError::ArithmeticUnderflow)
    } else if pre.bsp_count == 0 {
        Some(ProvidersError::ArithmeticUnderflow)
    } else {
        None
    }
}

/// What the signing off of a backup storage provider does and reports: the
/// provider is removed, its capacity no longer counts, and its whole deposit
/// is to be released.
pub open spec fn bsp_sign_off_post(
    pre: ProvidersView,
    who: Seq<u8>,
    r: Result<BalanceAction, ProvidersError>,
    post: ProvidersView,
) -> bool {
    match bsp_sign_off_refusal(pre, who) {
        Some(refusal) => r == Err::<BalanceAction, ProvidersError>(refusal) && post == pre,
        None => r == Ok::<BalanceAction, ProvidersError>(BalanceAction::ReleaseAll) && post == (ProvidersView {
            bsp_ids: pre.bsp_ids.remove(who),
            bsps: pre.bsps.remove(pre.bsp_ids[who]@),
            bsp_count: (pre.bsp_count - 1) as u32,
            total_bsps_capacity: (pre.total_bsps_capacity - pre.bsps[pre.bsp_ids[who]@].capacity) as u64,
            ..pre
        }),
    }
}

/// What is to be done to an account's balance when the deposit it owes
/// changes from what is on hold: the difference is to be held, if the account
/// can pay it and it can be held, or to be released.
pub open spec fn deposit_adjustment(deposit: Balance, facts: BalanceFacts) -> Result<BalanceAction, ProvidersError> {
    if deposit > facts.on_hold {
        if facts.reducible < deposit - facts.on_hold {
            Err(ProvidersError::NotEnoughBalance)
        } else if !facts.can_hold {
            Err(ProvidersError::CannotHoldDeposit)
        } else {
            Ok(BalanceAction::Hold((deposit - facts.on_hold) as u128))
        }
    } else if deposit < facts.on_hold {
        Ok(BalanceAction::Release((facts.on_hold - deposit) as u128))
    } else {
        Ok(BalanceAction::Nothing)
    }
}

/// Decides what is to be done to an account's balance when the deposit it
/// owes changes.
pub fn adjust_deposit(deposit: Balance, facts: BalanceFacts) -> (r: Result<BalanceAction, ProvidersError>)
    ensures
        r == deposit_adjustment(deposit, facts),
{
    if deposit > facts.on_hold {
        let difference = deposit - facts.on_hold;
        if facts.reducible < difference {
            Err(ProvidersError::NotEnoughBalance)
        } else if !facts.can_hold {
            Err(ProvidersError::CannotHoldDeposit)
        } else {
            Ok(BalanceAction::Hold(difference))
        }
    } else if deposit < facts.on_hold {
        Ok(BalanceAction::Release(facts.on_hold - deposit))
    } else {
        Ok(BalanceAction::Nothing)
    }
}

/// What a change of capacity says of a provider's capacity so far, its use and
/// the time of its last change, whatever its kind: the refusal it meets, if
/// any, or else what is to be done to the balance.
pub open spec fn capacity_change(
    config: ProvidersConfig,
    capacity: StorageData,
    data_used: StorageData,
    last_capacity_change: u64,
    new_capacity: StorageData,
    now: u64,
    facts: BalanceFacts,
) -> Result<BalanceAction, ProvidersError> {
    if new_capacity == capacity {
        Err(ProvidersError::NewCapacityEqualsCurrentCapacity)
    } else if now < last_capacity_change + config.min_blocks_between_capacity_changes {
        Err(ProvidersError::NotEnoughTimePassed)
    } else if new_capacity < config.sp_min_capacity {
        Err(ProvidersError::StorageTooLow)
    } else if new_capacity < data_used {
        Err(ProvidersError::NewCapacityLessThanUsedStorage)
    } else {
        match spec_deposit(config, new_capacity) {
            Err(e) => Err(e),
            Ok(deposit) => deposit_adjustment(deposit, facts),
        }
    }
}

/// Decides on a change of capacity from what is known of the provider.
pub fn decide_capacity_change(
    config: &ProvidersConfig,
    capacity: StorageData,
    data_used: StorageData,
    last_capacity_change: u64,
    new_capacity: StorageData,
    now: u64,
    facts: BalanceFacts,
) -> (r: Result<BalanceAction, ProvidersError>)
    ensures
        r == capacity_change(*config, capacity, data_used, last_capacity_change, new_capacity, now, facts),
{
    if new_capacity == capacity {
        return Err(ProvidersError::NewCapacityEqualsCurrentCapacity);
    }
    let early = match last_capacity_change.checked_add(config.min_blocks_between_capacity_changes) {
        Some(earliest) => now < earliest,
        None => true,
    };
    if early {
        return Err(ProvidersError::NotEnoughTimePassed);
    }
    if new_capacity < config.sp_min_capacity {
        return Err(ProvidersError::StorageTooLow);
    }
    if new_capacity < data_used {
        return Err(ProvidersError::NewCapacityLessThanUsedStorage);
    }
    match deposit_for(config, new_capacity) {
        Err(e) => Err(e),
        Ok(deposit) => adjust_deposit(deposit, facts),
    }
}

/// A successful change of capacity: the capacity that the provider had, and
/// what is to be done to its account's balance.
#[derive(Debug, Clone, Copy, PartialEq, Eq, Structural)]
pub struct CapacityChanged {
    pub old_capacity: StorageData,
    pub action: BalanceAction,
}

/// What a change of the capacity of a main storage provider does and reports.
pub open spec fn change_capacity_msp_post(
    pre: ProvidersView,
    msp_id: Seq<u8>,
    new_capacity: StorageData,
    now: u64,
    facts: BalanceFacts,
    r: Result<CapacityChanged, ProvidersError>,
    post: ProvidersView,
) -> bool {
    if !pre.msps.contains_key(msp_id) {
        r == Err::<CapacityChanged, ProvidersError>(ProvidersError::NotRegistered) && post == pre
    } else {
        let msp = pre.msps[msp_id];
        match capacity_change(
            pre.config,
            msp.capacity,
            msp.data_used,
            msp.last_capacity_change,
            new_capacity,
            now,
            facts,
        ) {
            Err(e) => r == Err::<CapacityChanged, ProvidersError>(e) && post == pre,
            Ok(action) => r == Ok::<CapacityChanged, ProvidersError>(
                CapacityChanged { old_capacity: msp.capacity, action },
            ) && post == (ProvidersView {
                msps: pre.msps.insert(
                    msp_id,
                    MainStorageProvider { capacity: new_capacity, last_capacity_change: now, ..msp },
                ),
                ..pre
            }),
        }
    }
}

/// The capacity of all backup storage providers together after one of them
/// has changed its capacity, or the error where the sum leaves its range.
pub open spec fn total_after_change(total: StorageData, old_capacity: StorageData, new_capacity: StorageData) -> Result<
    StorageData,
    ProvidersError,
> {
    if new_capacity > old_capacity {
        if total + (new_capacity - old_capacity) > u64::MAX {
            Err(ProvidersError::ArithmeticOverflow)
        } else {
            Ok((total + (new_capacity - old_capacity)) as u64)
        }
    } else {
        if total < old_capacity - new_capacity {
            Err(ProvidersError::ArithmeticUnderflow)
        } else {
            Ok((total - (old_capacity - new_capacity)) as u64)
        }
    }
}

/// What a change of the capacity of a backup storage provider does and
/// reports.
pub open spec fn change_capacity_bsp_post(
    pre: ProvidersView,
    bsp_id: Seq<u8>,
    new_capacity: StorageData,
    now: u64,
    facts: BalanceFacts,
    r: Result<CapacityChanged, ProvidersError>,
    post: ProvidersView,
) -> bool {
    if !pre.bsps.contains_key(bsp_id) {
        r == Err::<CapacityChanged, ProvidersError>(ProvidersError::NotRegistered) && post == pre
    } else {
        let bsp = pre.bsps[bsp_id];
        match capacity_change(
            pre.config,
            bsp.capacity,
            bsp.data_used,
            bsp.last_capacity_change,
            new_capacity,
            now,
            facts,
        ) {
            Err(e) => r == Err::<CapacityChanged, ProvidersError>(e) && post == pre,
            Ok(action) => match total_after_change(pre.total_bsps_capacity, bsp.capacity, new_capacity) {
                Err(e) => r == Err::<CapacityChanged, ProvidersError>(e) && post == pre,
                Ok(total) => r == Ok::<CapacityChanged, ProvidersError>(
                    CapacityChanged { old_capacity: bsp.capacity, action },
                ) && post == (ProvidersView {
                    bsps: pre.bsps.insert(
                        bsp_id,
                        BackupStorageProvider { capacity: new_capacity, last_capacity_change: now, ..bsp },
                    ),
                    total_bsps_capacity: total,
                    ..pre
                }),
            },
        }
    }
}

/// What a change of the capacity of an account's provider does and reports.
pub open spec fn change_capacity_post(
    pre: ProvidersView,
    who: Seq<u8>,
    new_capacity: StorageData,
    now: u64,
    facts: BalanceFacts,
    r: Result<CapacityChanged, ProvidersError>,
    post: ProvidersView,
) -> bool {
    if new_capacity == 0 {
        r == Err::<CapacityChanged, ProvidersError>(ProvidersError::NewCapacityCantBeZero) && post == pre
    } else if pre.msp_ids.contains_key(who) {
        change_capacity_msp_post(pre, pre.msp_ids[who]@, new_capacity, now, facts, r, post)
    } else if pre.bsp_ids.contains_key(who) {
        change_capacity_bsp_post(pre, pre.bsp_ids[who]@, new_capacity, now, facts, r, post)
    } else {
        r == Err::<CapacityChanged, ProvidersError>(ProvidersError::NotRegistered) && post == pre
    }
}

impl Pallet {
    /// No key of the registry is bound twice.
    pub closed spec fn wf(&self) -> bool {
        &&& self.sign_up_requests.wf()
        &&& self.msp_ids.wf()
        &&& self.bsp_ids.wf()
        &&& self.msps.wf()
        &&& self.bsps.wf()
        &&& self.buckets.wf()
    }

    /// A registry without providers.
    pub fn new(config: ProvidersConfig) -> (registry: Self)
        ensures
            registry.wf(),
            registry@ == (ProvidersView {
                config,
                sign_up_requests: Map::empty(),
                msp_ids: Map::empty(),
                bsp_ids: Map::empty(),
                msps: Map::empty(),
                bsps: Map::empty(),
                buckets: Map::empty(),
                msp_count: 0,
                bsp_count: 0,
                total_bsps_capacity: 0,
            }),
    {
        Pallet {
            config,
            sign_up_requests: KeyedList::new(),
            msp_ids: KeyedList::new(),
            bsp_ids: KeyedList::new(),
            msps: KeyedList::new(),
            bsps: KeyedList::new(),
            buckets: KeyedList::new(),
            msp_count: 0,
            bsp_count: 0,
            total_bsps_capacity: 0,
        }
    }

    fn request_sign_up(&mut self, who: &AccountId, provider: StorageProvider, now: u64, facts: BalanceFacts) -> (r:
        Result<BalanceAction, ProvidersError>)
        requires
            old(self).wf(),
        ensures
            final(self).wf(),
            request_post(old(self)@, who@, provider, now, facts, r, final(self)@),
    {
        let key = digest_bytes(who);
        if self.sign_up_requests.contains_key(key.as_slice()) {
            return Err(ProvidersError::SignUpRequestPending);
        }
        let is_msp: bool;
        let capacity: StorageData;
        let addresses: usize;
        match &provider {
            StorageProvider::MainStorageProvider(msp) => {
                is_msp = true;
                capacity = msp.capacity;
                addresses = msp.multiaddresses.len();
            },
            StorageProvider::BackupStorageProvider(bsp) => {
                is_msp = false;
                capacity = bsp.capacity;
                addresses = bsp.multiaddresses.len();
            },
        }
        let count = if is_msp {
            self.msp_count
        } else {
            self.bsp_count
        };
        let most = if is_msp {
            self.config.max_msps
        } else {
            self.config.max_bsps
        };
        if count == u32::MAX {
            return Err(ProvidersError::ArithmeticOverflow);
        }
        if count + 1 > most {
            if is_msp {
                return Err(ProvidersError::MaxMspsReached);
            } else {
                return Err(ProvidersError::MaxBspsReached);
            }
        }
        if self.msp_ids.contains_key(key.as_slice()) || self.bsp_ids.contains_key(key.as_slice()) {
            return Err(ProvidersError::AlreadyRegistered);
        }
        if addresses == 0 {
            return Err(ProvidersError::NoMultiAddress);
        }
        let deposit = match deposit_for(&self.config, capacity) {
            Err(e) => {
                return Err(e);
            },
            Ok(deposit) => deposit,
        };
        if facts.reducible < deposit {
            return Err(ProvidersError::NotEnoughBalance);
        }
        if !facts.can_hold {
            return Err(ProvidersError::CannotHoldDeposit);
        }
        let _ = self.sign_up_requests.insert(key, SignUpRequest { provider, requested_at: now });
        Ok(BalanceAction::Hold(deposit))
    }

    /// Takes the request of account `who` to sign up as a main storage
    /// provider, at block `now`. On success the deposit is to be held;
    /// `facts.can_hold` speaks of that deposit.
    pub fn do_request_msp_sign_up(
        &mut self,
        who: &AccountId,
        msp_info: MainStorageProvider,
        now: u64,
        facts: BalanceFacts,
    ) -> (r: Result<BalanceAction, ProvidersError>)
        requires
            old(self).wf(),
        ensures
            final(self).wf(),
            request_post(
                old(self)@,
                who@,
                StorageProvider::MainStorageProvider(msp_info),
                now,
                facts,
                r,
                final(self)@,
            ),
    {
        self.request_sign_up(who, StorageProvider::MainStorageProvider(msp_info), now, facts)
    }

    /// Takes the request of account `who` to sign up as a backup storage
    /// provider, at block `now`. On success the deposit is to be held;
    /// `facts.can_hold` speaks of that deposit.
    pub fn do_request_bsp_sign_up(
        &mut self,
        who: &AccountId,
        bsp_info: BackupStorageProvider,
        now: u64,
        facts: BalanceFacts,
    ) -> (r: Result<BalanceAction, ProvidersError>)
        requires
            old(self).wf(),
        ensures
            final(self).wf(),
            request_post(
                old(self)@,
                who@,
                StorageProvider::BackupStorageProvider(bsp_info),
                now,
                facts,
                r,
                final(self)@,
            ),
    {
        self.request_sign_up(who, StorageProvider::BackupStorageProvider(bsp_info), now, facts)
    }

    /// Drops the sign-up request of account `who`. On success the whole
    /// deposit is to be released.
    pub fn do_cancel_sign_up(&mut self, who: &AccountId) -> (r: Result<BalanceAction, ProvidersError>)
        requires
            old(self).wf(),
        ensures
            final(self).wf(),
            match r {
                Ok(action) => action == BalanceAction::ReleaseAll && old(self)@.sign_up_requests.contains_key(who@)
                    && final(self)@ == (ProvidersView {
                    sign_up_requests: old(self)@.sign_up_requests.remove(who@),
                    ..old(self)@
                }),
                Err(e) => e == ProvidersError::SignUpNotRequested && !old(self)@.sign_up_requests.contains_key(who@)
                    && final(self)@ == old(self)@,
            },
    {
        let key = digest_bytes(who);
        match self.sign_up_requests.remove(key.as_slice()) {
            Some(_) => Ok(BalanceAction::ReleaseAll),
            None => {
                assert(self@.sign_up_requests =~= old(self)@.sign_up_requests);
                Err(ProvidersError::SignUpNotRequested)
            },
        }
    }

    fn sign_up_check(&self, provider: &StorageProvider, request_block: u64, now: u64, randomness: &Randomness) -> (refusal:
        Option<ProvidersError>)
        ensures
            refusal == sign_up_refusal(self@, *provider, request_block, now, *randomness),
    {
        let is_msp: bool;
        let capacity: StorageData;
        match provider {
            StorageProvider::MainStorageProvider(msp) => {
                is_msp = true;
                capacity = msp.capacity;
            },
            StorageProvider::BackupStorageProvider(bsp) => {
                is_msp = false;
                capacity = bsp.capacity;
            },
        }
        let count = if is_msp {
            self.msp_count
        } else {
            self.bsp_count
        };
        let most = if is_msp {
            self.config.max_msps
        } else {
            self.config.max_bsps
        };
        if count == u32::MAX {
            return Some(ProvidersError::ArithmeticOverflow);
        }
        if count + 1 > most {
            if is_msp {
                return Some(ProvidersError::MaxMspsReached);
            } else {
                return Some(ProvidersError::MaxBspsReached);
            }
        }
        let timely = match request_block.checked_add(self.config.max_blocks_for_randomness) {
            Some(limit) => now < limit,
            None => true,
        };
        if !timely {
            return Some(ProvidersError::SignUpRequestExpired);
        }
        if randomness.valid_from_block < request_block {
            return Some(ProvidersError::RandomnessNotValidYet);
        }
        if !is_msp && self.total_bsps_capacity.checked_add(capacity).is_none() {
            return Some(ProvidersError::ArithmeticOverflow);
        }
        None
    }

    fn sign_up(
        &mut self,
        who: &AccountId,
        provider: StorageProvider,
        request_block: u64,
        now: u64,
        randomness: &Randomness,
    ) -> (r: Result<SignedUp, ProvidersError>)
        requires
            old(self).wf(),
        ensures
            final(self).wf(),
            sign_up_post(old(self)@, who@, provider, request_block, now, *randomness, r, final(self)@),
    {
        match self.sign_up_check(&provider, request_block, now, randomness) {
            Some(refusal) => {
                return Err(refusal);
            },
            None => {},
        }
        let id = randomness.seed;
        let key = digest_bytes(who);
        let event = match provider {
            StorageProvider::MainStorageProvider(msp) => {
                let event = Event::MspSignUpSuccess {
                    who: *who,
                    multiaddresses: copy_byte_strings(&msp.multiaddresses),
                    capacity: msp.capacity,
                    value_prop: msp.value_prop.clone(),
                };
                let _ = self.msp_ids.insert(digest_bytes(who), id);
                let _ = self.msps.insert(digest_bytes(&id), msp);
                self.msp_count = self.msp_count + 1;
                event
            },
            StorageProvider::BackupStorageProvider(bsp) => {
                let event = Event::BspSignUpSuccess {
                    who: *who,
                    multiaddresses: copy_byte_strings(&bsp.multiaddresses),
                    capacity: bsp.capacity,
                };
                self.total_bsps_capacity = self.total_bsps_capacity + bsp.capacity;
                let _ = self.bsp_ids.insert(digest_bytes(who), id);
                let _ = self.bsps.insert(digest_bytes(&id), bsp);
                self.bsp_count = self.bsp_count + 1;
                event
            },
        };
        let _ = self.sign_up_requests.remove(key.as_slice());
        Ok(SignedUp { id, event })
    }

    /// Confirms the sign-up request of account `who` at block `now`, with the
    /// randomness drawn for the account. On success the provider that the
    /// request names is signed up under the identifier that the randomness
    /// gives.
    pub fn do_confirm_sign_up(&mut self, who: &AccountId, now: u64, randomness: &Randomness) -> (r: Result<
        SignedUp,
        ProvidersError,
    >)
        requires
            old(self).wf(),
        ensures
            final(self).wf(),
            confirm_post(old(self)@, who@, now, *randomness, r, final(self)@),
    {
        let key = digest_bytes(who);
        match self.sign_up_requests.get(key.as_slice()) {
            None => {
                return Err(ProvidersError::SignUpNotRequested);
            },
            Some(request) => {
                match self.sign_up_check(&request.provider, request.requested_at, now, randomness) {
                    Some(refusal) => {
                        return Err(refusal);
                    },
                    None => {},
                }
            },
        }
        let ghost before = self@;
        match self.sign_up_requests.remove(key.as_slice()) {
            None => Err(ProvidersError::SignUpNotRequested),
            Some(request) => {
                let ghost between = self@;
                let r = self.sign_up(who, request.provider, request.requested_at, now, randomness);
                proof {
                    assert(sign_up_refusal(between, request.provider, request.requested_at, now, *randomness)
                        == sign_up_refusal(before, request.provider, request.requested_at, now, *randomness));
                    assert(between.sign_up_requests.remove(who@) =~= before.sign_up_requests.remove(who@));
                    assert(signed_up(between, who@, request.provider, randomness.seed) == signed_up(
                        before,
                        who@,
                        request.provider,
                        randomness.seed,
                    ));
                }
                r
            },
        }
    }

    /// Signs account `who` up as a main storage provider, for a request made
    /// at `request_block`.
    pub fn do_msp_sign_up(
        &mut self,
        who: &AccountId,
        msp_info: MainStorageProvider,
        request_block: u64,
        now: u64,
        randomness: &Randomness,
    ) -> (r: Result<SignedUp, ProvidersError>)
        requires
            old(self).wf(),
        ensures
            final(self).wf(),
            sign_up_post(
                old(self)@,
                who@,
                StorageProvider::MainStorageProvider(msp_info),
                request_block,
                now,
                *randomness,
                r,
                final(self)@,
            ),
    {
        self.sign_up(who, StorageProvider::MainStorageProvider(msp_info), request_block, now, randomness)
    }

    /// Signs account `who` up as a backup storage provider, for a request
    /// made at `request_block`.
    pub fn do_bsp_sign_up(
        &mut self,
        who: &AccountId,
        bsp_info: BackupStorageProvider,
        request_block: u64,
        now: u64,
        randomness: &Randomness,
    ) -> (r: Result<SignedUp, ProvidersError>)
        requires
            old(self).wf(),
        ensures
            final(self).wf(),
            sign_up_post(
                old(self)@,
                who@,
                StorageProvider::BackupStorageProvider(bsp_info),
                request_block,
                now,
                *randomness,
                r,
                final(self)@,
            ),
    {
        self.sign_up(who, StorageProvider::BackupStorageProvider(bsp_info), request_block, now, randomness)
    }

    /// Signs the main storage provider of account `who` off. On success the
    /// whole deposit is to be released.
    pub fn do_msp_sign_off(&mut self, who: &AccountId) -> (r: Result<BalanceAction, ProvidersError>)
        requires
            old(self).wf(),
        ensures
            final(self).wf(),
            msp_sign_off_post(old(self)@, who@, r, final(self)@),
    {
        let key = digest_bytes(who);
        let id: HashId = match self.msp_ids.get(key.as_slice()) {
            None => {
                return Err(ProvidersError::NotRegistered);
            },
            Some(id) => *id,
        };
        let id_key = digest_bytes(&id);
        match self.msps.get(id_key.as_slice()) {
            None => {
                return Err(ProvidersError::SpRegisteredButDataNotFound);
            },
            Some(msp) => {
                if msp.data_used != 0 {
                    return Err(ProvidersError::StorageStillInUse);
                }
            },
        }
        if self.msp_count == 0 {
            return Err(ProvidersError::ArithmeticUnderflow);
        }
        let _ = self.msp_ids.remove(key.as_slice());
        let _ = self.msps.remove(id_key.as_slice());
        self.msp_count = self.msp_count - 1;
        Ok(BalanceAction::ReleaseAll)
    }

    /// Signs the backup storage provider of account `who` off. On success the
    /// whole deposit is to be released.
    pub fn do_bsp_sign_off(&mut self, who: &AccountId) -> (r: Result<BalanceAction, ProvidersError>)
        requires
            old(self).wf(),
        ensures
            final(self).wf(),
            bsp_sign_off_post(old(self)@, who@, r, final(self)@),
    {
        let key = digest_bytes(who);
        let id: HashId = match self.bsp_ids.get(key.as_slice()) {
            None => {
                return Err(ProvidersError::NotRegistered);
            },
            Some(id) => *id,
        };
        let id_key = digest_bytes(&id);
        let capacity: StorageData = match self.bsps.get(id_key.as_slice()) {
            None => {
                return Err(ProvidersError::SpRegisteredButDataNotFound);
            },
            Some(bsp) => {
                if bsp.data_used != 0 {
                    return Err(ProvidersError::StorageStillInUse);
                }
                bsp.capacity
            },
        };
        if self.total_bsps_capacity < capacity {
            return Err(ProvidersError::ArithmeticUnderflow);
        }
        if self.bsp_count == 0 {
            return Err(ProvidersError::ArithmeticUnderflow);
        }
        let _ = self.bsp_ids.remove(key.as_slice());
        let _ = self.bsps.remove(id_key.as_slice());
        self.total_bsps_capacity = self.total_bsps_capacity - capacity;
        self.bsp_count = self.bsp_count - 1;
        Ok(BalanceAction::ReleaseAll)
    }

    /// Changes the capacity of the main storage provider `msp_id` at block
    /// `now`. `facts.can_hold` speaks of the part of the new deposit that is
    /// not yet on hold.
    pub fn do_change_capacity_msp(
        &mut self,
        account_id: &AccountId,
        msp_id: HashId,
        new_capacity: StorageData,
        now: u64,
        facts: BalanceFacts,
    ) -> (r: Result<CapacityChanged, ProvidersError>)
        requires
            old(self).wf(),
        ensures
            final(self).wf(),
            change_capacity_msp_post(old(self)@, msp_id@, new_capacity, now, facts, r, final(self)@),
    {
        let id_key = digest_bytes(&msp_id);
        let action = match self.msps.get(id_key.as_slice()) {
            None => {
                return Err(ProvidersError::NotRegistered);
            },
            Some(msp) => match decide_capacity_change(
                &self.config,
                msp.capacity,
                msp.data_used,
                msp.last_capacity_change,
                new_capacity,
                now,
                facts,
            ) {
                Err(e) => {
                    return Err(e);
                },
                Ok(action) => action,
            },
        };
        match self.msps.remove(id_key.as_slice()) {
            None => Err(ProvidersError::NotRegistered),
            Some(found) => {
                let mut msp = found;
                let old_capacity = msp.capacity;
                msp.capacity = new_capacity;
                msp.last_capacity_change = now;
                let _ = self.msps.insert(id_key, msp);
                assert(self@.msps =~= old(self)@.msps.insert(msp_id@, msp));
                Ok(CapacityChanged { old_capacity, action })
            },
        }
    }

    /// Changes the capacity of the backup storage provider `bsp_id` at block
    /// `now`. `facts.can_hold` speaks of the part of the new deposit that is
    /// not yet on hold.
    pub fn do_change_capacity_bsp(
        &mut self,
        account_id: &AccountId,
        bsp_id: HashId,
        new_capacity: StorageData,
        now: u64,
        facts: BalanceFacts,
    ) -> (r: Result<CapacityChanged, ProvidersError>)
        requires
            old(self).wf(),
        ensures
            final(self).wf(),
            change_capacity_bsp_post(old(self)@, bsp_id@, new_capacity, now, facts, r, final(self)@),
    {
        let id_key = digest_bytes(&bsp_id);
        let action: BalanceAction;
        let total: StorageData;
        match self.bsps.get(id_key.as_slice()) {
            None => {
                return Err(ProvidersError::NotRegistered);
            },
            Some(bsp) => {
                match decide_capacity_change(
                    &self.config,
                    bsp.capacity,
                    bsp.data_used,
                    bsp.last_capacity_change,
                    new_capacity,
                    now,
                    facts,
                ) {
                    Err(e) => {
                        return Err(e);
                    },
                    Ok(decided) => {
                        action = decided;
                    },
                }
                if new_capacity > bsp.capacity {
                    match self.total_bsps_capacity.checked_add(new_capacity - bsp.capacity) {
                        None => {
                            return Err(ProvidersError::ArithmeticOverflow);
                        },
                        Some(sum) => {
                            total = sum;
                        },
                    }
                } else {
                    match self.total_bsps_capacity.checked_sub(bsp.capacity - new_capacity) {
                        None => {
                            return Err(ProvidersError::ArithmeticUnderflow);
                        },
                        Some(rest) => {
                            total = rest;
                        },
                    }
                }
            },
        }
        match self.bsps.remove(id_key.as_slice()) {
            None => Err(ProvidersError::NotRegistered),
            Some(found) => {
                let mut bsp = found;
                let old_capacity = bsp.capacity;
                bsp.capacity = new_capacity;
                bsp.last_capacity_change = now;
                let _ = self.bsps.insert(id_key, bsp);
                self.total_bsps_capacity = total;
                assert(self@.bsps =~= old(self)@.bsps.insert(bsp_id@, bsp));
                Ok(CapacityChanged { old_capacity, action })
            },
        }
    }

    /// Changes the capacity of the provider of account `who` at block `now`.
    pub fn do_change_capacity(&mut self, who: &AccountId, new_capacity: StorageData, now: u64, facts: BalanceFacts) -> (r:
        Result<CapacityChanged, ProvidersError>)
        requires
            old(self).wf(),
        ensures
            final(self).wf(),
            change_capacity_post(old(self)@, who@, new_capacity, now, facts, r, final(self)@),
    {
        if new_capacity == 0 {
            return Err(ProvidersError::NewCapacityCantBeZero);
        }
        let key = digest_bytes(who);
        let msp_id: Option<HashId> = match self.msp_ids.get(key.as_slice()) {
            Some(id) => Some(*id),
            None => None,
        };
        match msp_id {
            Some(id) => self.do_change_capacity_msp(who, id, new_capacity, now, facts),
            None => {
                let bsp_id: Option<HashId> = match self.bsp_ids.get(key.as_slice()) {
                    Some(id) => Some(*id),
                    None => None,
                };
                match bsp_id {
                    Some(id) => self.do_change_capacity_bsp(who, id, new_capacity, now, facts),
                    None => Err(ProvidersError::NotRegistered),
                }
            },
        }
    }
}

/// The sum of two amounts of storage, stopping at the end of the range.
pub open spec fn saturating_sum(a: StorageData, b: StorageData) -> StorageData {
    if a + b > u64::MAX {
        u64::MAX
    } else {
        (a + b) as u64
    }
}

/// The difference of two amounts of storage, stopping at zero.
pub open spec fn saturating_difference(a: StorageData, b: StorageData) -> StorageData {
    if a < b {
        0
    } else {
        (a - b) as u64
    }
}

/// The registry after the provider of account `who` has had its use of data
/// set by `change`, or `None` where the account has no provider. The main
/// storage provider of an account comes before its backup storage provider.
pub open spec fn data_used_changed(
    pre: ProvidersView,
    who: Seq<u8>,
    change: spec_fn(StorageData) -> StorageData,
) -> Option<ProvidersView> {
    if pre.msp_ids.contains_key(who) {
        let id = pre.msp_ids[who]@;
        if pre.msps.contains_key(id) {
            Some(
                ProvidersView {
                    msps: pre.msps.insert(
                        id,
                        MainStorageProvider { data_used: change(pre.msps[id].data_used), ..pre.msps[id] },
                    ),
                    ..pre
                },
            )
        } else {
            None
        }
    } else if pre.bsp_ids.contains_key(who) {
        let id = pre.bsp_ids[who]@;
        if pre.bsps.contains_key(id) {
            Some(
                ProvidersView {
                    bsps: pre.bsps.insert(
                        id,
                        BackupStorageProvider { data_used: change(pre.bsps[id].data_used), ..pre.bsps[id] },
                    ),
                    ..pre
                },
            )
        } else {
            None
        }
    } else {
        None
    }
}

impl Pallet {
    fn change_data_used(&mut self, who: &AccountId, delta: StorageData, grow: bool) -> (r: Result<(), ProvidersError>)
        requires
            old(self).wf(),
        ensures
            final(self).wf(),
            match data_used_changed(
                old(self)@,
                who@,
                |used: StorageData|
                    if grow {
                        saturating_sum(used, delta)
                    } else {
                        saturating_difference(used, delta)
                    },
            ) {
                Some(v) => r is Ok && final(self)@ == v,
                None => r == Err::<(), ProvidersError>(ProvidersError::NotRegistered) && final(self)@ == old(self)@,
            },
    {
        let key = digest_bytes(who);
        let msp_id: Option<HashId> = match self.msp_ids.get(key.as_slice()) {
            Some(id) => Some(*id),
            None => None,
        };
        match msp_id {
            Some(id) => {
                let id_key = digest_bytes(&id);
                match self.msps.remove(id_key.as_slice()) {
                    None => {
                        assert(self@.msps =~= old(self)@.msps);
                        Err(ProvidersError::NotRegistered)
                    },
                    Some(found) => {
                        let mut msp = found;
                        msp.data_used = if grow {
                            msp.data_used.saturating_add(delta)
                        } else {
                            msp.data_used.saturating_sub(delta)
                        };
                        let _ = self.msps.insert(id_key, msp);
                        assert(self@.msps =~= old(self)@.msps.insert(id@, msp));
                        Ok(())
                    },
                }
            },
            None => {
                let bsp_id: Option<HashId> = match self.bsp_ids.get(key.as_slice()) {
                    Some(id) => Some(*id),
                    None => None,
                };
                match bsp_id {
                    None => Err(ProvidersError::NotRegistered),
                    Some(id) => {
                        let id_key = digest_bytes(&id);
                        match self.bsps.remove(id_key.as_slice()) {
                            None => {
                                assert(self@.bsps =~= old(self)@.bsps);
                                Err(ProvidersError::NotRegistered)
                            },
                            Some(found) => {
                                let mut bsp = found;
                                bsp.data_used = if grow {
                                    bsp.data_used.saturating_add(delta)
                                } else {
                                    bsp.data_used.saturating_sub(delta)
                                };
                                let _ = self.bsps.insert(id_key, bsp);
                                assert(self@.bsps =~= old(self)@.bsps.insert(id@, bsp));
                                Ok(())
                            },
                        }
                    },
                }
            },
        }
    }

    /// Adds `delta` to the data that the provider of account `who` has in
    /// use, stopping at the end of the range.
    pub fn increase_data_used(&mut self, who: &AccountId, delta: StorageData) -> (r: Result<(), ProvidersError>)
        requires
            old(self).wf(),
        ensures
            final(self).wf(),
            match data_used_changed(old(self)@, who@, |used: StorageData| saturating_sum(used, delta)) {
                Some(v) => r is Ok && final(self)@ == v,
                None => r == Err::<(), ProvidersError>(ProvidersError::NotRegistered) && final(self)@ == old(self)@,
            },
    {
        let r = self.change_data_used(who, delta, true);
        proof {
            let chosen = |used: StorageData|
                if true {
                    saturating_sum(used, delta)
                } else {
                    saturating_difference(used, delta)
                };
            let plain = |used: StorageData| saturating_sum(used, delta);
            assert(forall|used: StorageData| #[trigger] chosen(used) == plain(used));
            lemma_data_used_changed(old(self)@, who@, chosen, plain);
        }
        r
    }

    /// Takes `delta` off the data that the provider of account `who` has in
    /// use, stopping at zero.
    pub fn decrease_data_used(&mut self, who: &AccountId, delta: StorageData) -> (r: Result<(), ProvidersError>)
        requires
            old(self).wf(),
        ensures
            final(self).wf(),
            match data_used_changed(old(self)@, who@, |used: StorageData| saturating_difference(used, delta)) {
                Some(v) => r is Ok && final(self)@ == v,
                None => r == Err::<(), ProvidersError>(ProvidersError::NotRegistered) && final(self)@ == old(self)@,
            },
    {
        let r = self.change_data_used(who, delta, false);
        proof {
            let chosen = |used: StorageData|
                if false {
                    saturating_sum(used, delta)
                } else {
                    saturating_difference(used, delta)
                };
            let plain = |used: StorageData| saturating_difference(used, delta);
            assert(forall|used: StorageData| #[trigger] chosen(used) == plain(used));
            lemma_data_used_changed(old(self)@, who@, chosen, plain);
        }
        r
    }

    /// Registers a bucket that main storage provider `msp_id` keeps for
    /// `user_id`, replacing a bucket of the same identifier.
    pub fn add_bucket(&mut self, msp_id: HashId, user_id: AccountId, bucket_id: HashId, bucket_root: [u8; 32])
        requires
            old(self).wf(),
        ensures
            final(self).wf(),
            final(self)@ == (ProvidersView {
                buckets: old(self)@.buckets.insert(bucket_id@, Bucket { root: bucket_root, user_id, msp_id }),
                ..old(self)@
            }),
    {
        let _ = self.buckets.insert(digest_bytes(&bucket_id), Bucket { root: bucket_root, user_id, msp_id });
    }

    /// Sets the root of a bucket.
    pub fn change_root_bucket(&mut self, bucket_id: HashId, new_root: [u8; 32]) -> (r: Result<(), ProvidersError>)
        requires
            old(self).wf(),
        ensures
            final(self).wf(),
            if old(self)@.buckets.contains_key(bucket_id@) {
                r is Ok && final(self)@ == (ProvidersView {
                    buckets: old(self)@.buckets.insert(
                        bucket_id@,
                        Bucket { root: new_root, ..old(self)@.buckets[bucket_id@] },
                    ),
                    ..old(self)@
                })
            } else {
                r == Err::<(), ProvidersError>(ProvidersError::NotRegistered) && final(self)@ == old(self)@
            },
    {
        let key = digest_bytes(&bucket_id);
        match self.buckets.remove(key.as_slice()) {
            None => {
                assert(self@.buckets =~= old(self)@.buckets);
                Err(ProvidersError::NotRegistered)
            },
            Some(found) => {
                let bucket = Bucket { root: new_root, user_id: found.user_id, msp_id: found.msp_id };
                let _ = self.buckets.insert(key, bucket);
                assert(self@.buckets =~= old(self)@.buckets.insert(bucket_id@, bucket));
                Ok(())
            },
        }
    }

    /// Removes a bucket; removing a bucket that is not there changes nothing.
    pub fn remove_root_bucket(&mut self, bucket_id: HashId)
        requires
            old(self).wf(),
        ensures
            final(self).wf(),
            final(self)@ == (ProvidersView { buckets: old(self)@.buckets.remove(bucket_id@), ..old(self)@ }),
    {
        let key = digest_bytes(&bucket_id);
        let _ = self.buckets.remove(key.as_slice());
    }

    /// Sets the root of a backup storage provider.
    pub fn change_root_bsp(&mut self, who: HashId, new_root: [u8; 32]) -> (r: Result<(), ProvidersError>)
        requires
            old(self).wf(),
        ensures
            final(self).wf(),
            if old(self)@.bsps.contains_key(who@) {
                r is Ok && final(self)@ == (ProvidersView {
                    bsps: old(self)@.bsps.insert(
                        who@,
                        BackupStorageProvider { root: new_root, ..old(self)@.bsps[who@] },
                    ),
                    ..old(self)@
                })
            } else {
                r == Err::<(), ProvidersError>(ProvidersError::NotRegistered) && final(self)@ == old(self)@
            },
    {
        let key = digest_bytes(&who);
        match self.bsps.remove(key.as_slice()) {
            None => {
                assert(self@.bsps =~= old(self)@.bsps);
                Err(ProvidersError::NotRegistered)
            },
            Some(found) => {
                let mut bsp = found;
                bsp.root = new_root;
                let _ = self.bsps.insert(key, bsp);
                assert(self@.bsps =~= old(self)@.bsps.insert(who@, bsp));
                Ok(())
            },
        }
    }

    /// Tells whether `who` identifies a backup storage provider.
    pub fn is_bsp(&self, who: &HashId) -> (found: bool)
        requires
            self.wf(),
        ensures
            found == self@.bsps.contains_key(who@),
    {
        let key = digest_bytes(who);
        self.bsps.contains_key(key.as_slice())
    }

    /// Tells whether `who` identifies a main storage provider.
    pub fn is_msp(&self, who: &HashId) -> (found: bool)
        requires
            self.wf(),
        ensures
            found == self@.msps.contains_key(who@),
    {
        let key = digest_bytes(who);
        self.msps.contains_key(key.as_slice())
    }

    /// How many backup storage providers are signed up.
    pub fn get_number_of_bsps(&self) -> (count: u32)
        ensures
            count == self@.bsp_count,
    {
        self.bsp_count
    }

    /// How many main storage providers are signed up.
    pub fn get_number_of_msps(&self) -> (count: u32)
        ensures
            count == self@.msp_count,
    {
        self.msp_count
    }

    /// The capacity of all backup storage providers together.
    pub fn get_total_bsps_capacity(&self) -> (total: StorageData)
        ensures
            total == self@.total_bsps_capacity,
    {
        self.total_bsps_capacity
    }

    /// The network addresses of a backup storage provider.
    pub fn get_bsp_multiaddresses(&self, who: &HashId) -> (r: Result<Vec<Vec<u8>>, ProvidersError>)
        requires
            self.wf(),
        ensures
            match r {
                Ok(list) => self@.bsps.contains_key(who@) && list.deep_view()
                    == self@.bsps[who@].multiaddresses.deep_view(),
                Err(e) => e == ProvidersError::NotRegistered && !self@.bsps.contains_key(who@),
            },
    {
        let key = digest_bytes(who);
        match self.bsps.get(key.as_slice()) {
            Some(bsp) => Ok(copy_byte_strings(&bsp.multiaddresses)),
            None => Err(ProvidersError::NotRegistered),
        }
    }

    /// Tells whether `who` identifies a provider of either kind or a bucket.
    pub fn is_provider(&self, who: HashId) -> (found: bool)
        requires
            self.wf(),
        ensures
            found == (self@.bsps.contains_key(who@) || self@.msps.contains_key(who@) || self@.buckets.contains_key(
                who@,
            )),
    {
        let key = digest_bytes(&who);
        self.bsps.contains_key(key.as_slice()) || self.msps.contains_key(key.as_slice())
            || self.buckets.contains_key(key.as_slice())
    }

    /// The identifier of the provider of account `who`: that of its backup
    /// storage provider where it has one, else that of its main storage
    /// provider.
    pub fn get_provider(&self, who: AccountId) -> (id: Option<HashId>)
        requires
            self.wf(),
        ensures
            id == (if self@.bsp_ids.contains_key(who@) {
                Some(self@.bsp_ids[who@])
            } else if self@.msp_ids.contains_key(who@) {
                Some(self@.msp_ids[who@])
            } else {
                None
            }),
    {
        let key = digest_bytes(&who);
        match self.bsp_ids.get(key.as_slice()) {
            Some(id) => Some(*id),
            None => match self.msp_ids.get(key.as_slice()) {
                Some(id) => Some(*id),
                None => None,
            },
        }
    }

    /// The root kept under `who`: that of the bucket of this identifier where
    /// there is one, else that of the backup storage provider.
    pub fn get_root(&self, who: HashId) -> (root: Option<[u8; 32]>)
        requires
            self.wf(),
        ensures
            root == (if self@.buckets.contains_key(who@) {
                Some(self@.buckets[who@].root)
            } else if self@.bsps.contains_key(who@) {
                Some(self@.bsps[who@].root)
            } else {
                None
            }),
    {
        let key = digest_bytes(&who);
        match self.buckets.get(key.as_slice()) {
            Some(bucket) => Some(bucket.root),
            None => match self.bsps.get(key.as_slice()) {
                Some(bsp) => Some(bsp.root),
                None => None,
            },
        }
    }

    /// The stake behind `who`, a bucket or a backup storage provider: the
    /// least deposit.
    pub fn get_stake(&self, who: HashId) -> (stake: Option<Balance>)
        requires
            self.wf(),
        ensures
            stake == (if self@.buckets.contains_key(who@) || self@.bsps.contains_key(who@) {
                Some(self@.config.sp_min_deposit)
            } else {
                None
            }),
    {
        let key = digest_bytes(&who);
        if self.buckets.contains_key(key.as_slice()) || self.bsps.contains_key(key.as_slice()) {
            Some(self.config.sp_min_deposit)
        } else {
            None
        }
    }

    /// Tells whether account `who` has signed a backup storage provider up.
    pub fn is_bsp_account(&self, who: &AccountId) -> (found: bool)
        requires
            self.wf(),
        ensures
            found == self@.bsp_by_account().contains_key(who@),
    {
        let key = digest_bytes(who);
        match self.bsp_ids.get(key.as_slice()) {
            None => false,
            Some(id) => {
                let id_key = digest_bytes(id);
                self.bsps.contains_key(id_key.as_slice())
            },
        }
    }

    /// The network addresses of the backup storage provider of account `who`,
    /// or `None` for an account without one.
    pub fn bsp_multiaddresses_of_account(&self, who: &AccountId) -> (addresses: Option<Vec<Vec<u8>>>)
        requires
            self.wf(),
        ensures
            match addresses {
                Some(list) => self@.bsp_by_account().contains_key(who@) && list.deep_view()
                    == self@.bsp_by_account()[who@].multiaddresses.deep_view(),
                None => !self@.bsp_by_account().contains_key(who@),
            },
    {
        let key = digest_bytes(who);
        match self.bsp_ids.get(key.as_slice()) {
            None => None,
            Some(id) => {
                let id_key = digest_bytes(id);
                match self.bsps.get(id_key.as_slice()) {
                    Some(bsp) => Some(copy_byte_strings(&bsp.multiaddresses)),
                    None => None,
                }
            },
        }
    }
}

/// Two changes that agree on every amount change a registry alike.
pub proof fn lemma_data_used_changed(
    pre: ProvidersView,
    who: Seq<u8>,
    f: spec_fn(StorageData) -> StorageData,
    g: spec_fn(StorageData) -> StorageData,
)
    requires
        forall|used: StorageData| #[trigger] f(used) == g(used),
    ensures
        data_used_changed(pre, who, f) == data_used_changed(pre, who, g),
{
}

} // verus!
