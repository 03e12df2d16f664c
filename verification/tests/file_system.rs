use sp_core::Blake2Hasher;
use hash_db::Hasher;
use storage_hub::file_system::{
    Event, FileSystem, FileSystemConfig, LedgerError, Randomness, StorageRequestBspsMetadata,
    StorageRequestMetadata, ENTRY_COST, REMOVAL_COST, SLOT_COST,
};
use storage_hub::providers::{BackupStorageProvider, BalanceAction, BalanceFacts, ProviderRegistry, ProvidersConfig};
use storage_hub::threshold::{compute_point, AdmissionThreshold, ThresholdConfig, ONE};

const TARGET_BSPS_REQUIRED: u32 = 3;
const STORAGE_REQUEST_TTL: u64 = 40;
const MAX_EXPIRED_STORAGE_REQUESTS: u32 = 100;

fn config() -> FileSystemConfig {
    FileSystemConfig {
        target_bsps_required: TARGET_BSPS_REQUIRED,
        storage_request_ttl: STORAGE_REQUEST_TTL,
        max_expired_storage_requests: MAX_EXPIRED_STORAGE_REQUESTS,
    }
}

fn threshold_config() -> ThresholdConfig {
    ThresholdConfig { asymptote: ONE / 100, multiplier: ONE / 2, decay: ONE / 2 }
}

/// A ledger at block 1 whose threshold admits every provider.
fn new_test_ext() -> (FileSystem, ProviderRegistry) {
    let threshold = AdmissionThreshold::seeded(threshold_config(), ONE).unwrap();
    (FileSystem::new(config(), threshold, 1).unwrap(), ProviderRegistry::new(providers_config()))
}

fn providers_config() -> ProvidersConfig {
    ProvidersConfig {
        max_msps: 100,
        max_bsps: 100,
        sp_min_capacity: 2,
        deposit_per_data: 2,
        sp_min_deposit: 10,
        max_blocks_for_randomness: 20,
        min_blocks_between_capacity_changes: 10,
    }
}

fn roll_to(fs: &mut FileSystem, n: u64) {
    while fs.current_block() < n {
        let next = fs.current_block() + 1;
        fs.advance_time(next);
        fs.sweep(next, u64::MAX);
    }
}

fn blake2(data: &[u8]) -> [u8; 32] {
    Blake2Hasher::hash(data).0
}

fn create_sp_multiaddresses() -> Vec<Vec<u8>> {
    vec!["/ip4/127.0.0.1/udp/1234".as_bytes().to_vec()]
}

/// Registers an account as a backup storage provider.
fn bsp_sign_up(fs: &mut FileSystem, registry: &mut ProviderRegistry, who: &[u8; 32], storage_amount: u64) {
    let facts = BalanceFacts { reducible: 1_000_000, can_hold: true, on_hold: 0 };
    let provider = BackupStorageProvider {
        capacity: storage_amount,
        data_used: 0,
        multiaddresses: create_sp_multiaddresses(),
        root: [0; 32],
        last_capacity_change: fs.current_block(),
    };
    assert_eq!(
        registry.do_request_bsp_sign_up(who, provider, fs.current_block(), facts),
        Ok(BalanceAction::Hold(10 + 2 * (storage_amount as u128 - 2)))
    );

    // Advance enough blocks for randomness to be valid
    let block = fs.current_block();
    roll_to(fs, block + 4);

    let drawn = Randomness { seed: blake2(who), valid_from_block: fs.current_block() };
    assert_eq!(registry.do_confirm_sign_up(who, fs.current_block(), &drawn).map(|done| done.id), Ok(blake2(who)));
}

fn randomness(fs: &FileSystem, seed: [u8; 32]) -> Randomness {
    Randomness { seed, valid_from_block: fs.current_block() }
}

fn compute_set_get_initial_threshold(fs: &mut FileSystem) -> u128 {
    let initial = compute_point(&threshold_config(), 3);
    fs.set_bsps_assignment_threshold(AdmissionThreshold::seeded(threshold_config(), initial).unwrap());
    assert_eq!(fs.bsps_assignment_threshold(), initial);
    initial
}

#[test]
fn request_storage_success() {
    let (mut fs, _registry) = new_test_ext();
    let owner_account_id = [1u8; 32];
    let location = b"test".to_vec();
    let size = 4;
    let file_content = b"test".to_vec();
    let fingerprint = blake2(&file_content);
    let peer_id = vec![1u8];
    let peer_ids = vec![peer_id];

    let event = fs.issue_storage_request(&owner_account_id, location.clone(), fingerprint, size, peer_ids.clone());
    assert!(event.is_ok());

    assert_eq!(
        fs.storage_requests(&location).cloned(),
        Some(StorageRequestMetadata {
            requested_at: 1,
            owner: owner_account_id,
            fingerprint,
            size,
            user_peer_ids: peer_ids.clone(),
            bsps_required: TARGET_BSPS_REQUIRED,
            bsps_confirmed: 0,
            bsps_volunteered: 0,
        })
    );

    assert_eq!(
        event,
        Ok(Event::NewStorageRequest { who: owner_account_id, location: location.clone(), fingerprint, size: 4, peer_ids })
    );
}

#[test]
fn request_storage_expiration_clear_success() {
    let (mut fs, _registry) = new_test_ext();
    let owner_account_id = [1u8; 32];
    let location = b"test".to_vec();
    let file_content = b"test".to_vec();
    let fingerprint = blake2(&file_content);
    let peer_ids = vec![vec![1u8]];
    let size = 4;

    assert!(fs
        .issue_storage_request(&owner_account_id, location.clone(), fingerprint, size, peer_ids.clone())
        .is_ok());

    assert_eq!(
        fs.storage_requests(&location).cloned(),
        Some(StorageRequestMetadata {
            requested_at: 1,
            owner: owner_account_id,
            fingerprint,
            size,
            user_peer_ids: peer_ids.clone(),
            bsps_required: TARGET_BSPS_REQUIRED,
            bsps_confirmed: 0,
            bsps_volunteered: 0,
        })
    );

    let expected_expiration_inserted_at_block_number = fs.next_expiration_insertion_block_number().unwrap();

    assert_eq!(
        fs.storage_request_expirations(expected_expiration_inserted_at_block_number),
        vec![location]
    );

    roll_to(&mut fs, expected_expiration_inserted_at_block_number + 1);

    assert_eq!(
        fs.storage_request_expirations(expected_expiration_inserted_at_block_number),
        Vec::<Vec<u8>>::new()
    );
}

#[test]
fn request_storage_expiration_current_block_increment_success() {
    let (mut fs, _registry) = new_test_ext();
    let owner = [1u8; 32];
    let location = b"test".to_vec();
    let file_content = b"test".to_vec();
    let fingerprint = blake2(&file_content);
    let peer_ids = vec![vec![1u8]];

    let mut expected_expiration_block_number = fs.next_expiration_insertion_block_number().unwrap();

    let max_storage_request_expiry: u32 = MAX_EXPIRED_STORAGE_REQUESTS;
    for _ in 0..(max_storage_request_expiry - 1) {
        assert_eq!(fs.schedule(location.clone()), Ok(expected_expiration_block_number));
    }

    assert!(fs.issue_storage_request(&owner, location.clone(), fingerprint, 4, peer_ids).is_ok());

    assert_eq!(
        fs.storage_request_expirations(expected_expiration_block_number).len(),
        max_storage_request_expiry as usize
    );

    expected_expiration_block_number = fs.next_expiration_insertion_block_number().unwrap();

    assert_eq!(fs.next_available_expiration_insertion_block(), expected_expiration_block_number);

    roll_to(&mut fs, expected_expiration_block_number);

    assert_eq!(fs.storage_request_expirations(expected_expiration_block_number), Vec::<Vec<u8>>::new());
}

#[test]
fn request_storage_clear_old_expirations_success() {
    let (mut fs, _registry) = new_test_ext();
    let owner = [1u8; 32];
    let location = b"test".to_vec();
    let file_content = b"test".to_vec();
    let fingerprint = blake2(&file_content);
    let peer_ids = vec![vec![1u8]];

    let expected_expiration_block_number = fs.next_expiration_insertion_block_number().unwrap();

    let max_storage_request_expiry: u32 = MAX_EXPIRED_STORAGE_REQUESTS;

    for _ in 0..(max_storage_request_expiry - 1) {
        assert_eq!(fs.schedule(location.clone()), Ok(expected_expiration_block_number));
    }

    assert!(fs.issue_storage_request(&owner, location.clone(), fingerprint, 4, peer_ids).is_ok());

    fs.advance_time(expected_expiration_block_number);

    assert_eq!(fs.next_starting_block_to_clean_up(), 0);

    assert_eq!(
        fs.storage_request_expirations(expected_expiration_block_number).len(),
        max_storage_request_expiry as usize
    );

    let used_weight = fs.sweep(fs.current_block(), 0);

    assert_eq!(used_weight, 0);

    assert_eq!(
        fs.storage_request_expirations(expected_expiration_block_number).len(),
        max_storage_request_expiry as usize
    );

    assert_eq!(fs.next_starting_block_to_clean_up(), 0);

    roll_to(&mut fs, expected_expiration_block_number + 1);

    assert_eq!(fs.storage_request_expirations(expected_expiration_block_number), Vec::<Vec<u8>>::new());

    assert_eq!(fs.next_starting_block_to_clean_up(), fs.current_block() + 1);
}

#[test]
fn revoke_request_storage_success() {
    let (mut fs, _registry) = new_test_ext();
    let owner = [1u8; 32];
    let location = b"test".to_vec();
    let file_content = b"test".to_vec();
    let fingerprint = blake2(&file_content);
    let file_key = [0u8; 32];

    assert!(fs.issue_storage_request(&owner, location.clone(), fingerprint, 4, Vec::new()).is_ok());

    assert_eq!(
        fs.storage_request_expirations(fs.next_expiration_insertion_block_number().unwrap()),
        vec![location.clone()]
    );

    let event = fs.revoke_storage_request(&owner, location.clone(), file_key);

    assert_eq!(event, Ok(Event::StorageRequestRevoked { location: location.clone() }));
    assert_eq!(fs.storage_requests(&location), None);
}

#[test]
fn revoke_non_existing_storage_request_fail() {
    let (mut fs, _registry) = new_test_ext();
    let owner = [1u8; 32];
    let location = b"test".to_vec();
    let file_key = [0u8; 32];

    assert_eq!(
        fs.revoke_storage_request(&owner, location.clone(), file_key),
        Err(LedgerError::StorageRequestNotFound)
    );
}

#[test]
fn revoke_storage_request_not_owner_fail() {
    let (mut fs, _registry) = new_test_ext();
    let owner = [1u8; 32];
    let not_owner = [2u8; 32];
    let location = b"test".to_vec();
    let file_content = b"test".to_vec();
    let fingerprint = blake2(&file_content);
    let file_key = [0u8; 32];

    assert!(fs.issue_storage_request(&owner, location.clone(), fingerprint, 4, Vec::new()).is_ok());

    assert_eq!(
        fs.revoke_storage_request(&not_owner, location.clone(), file_key),
        Err(LedgerError::StorageRequestNotAuthorized)
    );
    assert!(fs.storage_requests(&location).is_some());
}

#[test]
fn bsp_volunteer_success() {
    let (mut fs, mut registry) = new_test_ext();
    let owner = [1u8; 32];
    let bsp_account_id = [2u8; 32];
    let location = b"test".to_vec();
    let fingerprint = [0u8; 32];
    let peer_ids = vec![vec![1u8]];
    let storage_amount = 100;

    assert!(fs.issue_storage_request(&owner, location.clone(), fingerprint, 4, peer_ids.clone()).is_ok());

    bsp_sign_up(&mut fs, &mut registry, &bsp_account_id, storage_amount);

    let seed = randomness(&fs, fingerprint);
    let event = fs.bsp_volunteer(&registry, &bsp_account_id, location.clone(), fingerprint, &seed);
    assert!(event.is_ok());

    assert_eq!(
        fs.storage_request_bsps(&location, &bsp_account_id).expect("BSP should exist in storage"),
        StorageRequestBspsMetadata { confirmed: false }
    );

    assert_eq!(
        event,
        Ok(Event::AcceptedBspVolunteer {
            who: bsp_account_id,
            location,
            fingerprint,
            multiaddresses: create_sp_multiaddresses(),
        })
    );
}

#[test]
fn bsp_volunteer_storage_request_not_found_fail() {
    let (mut fs, mut registry) = new_test_ext();
    let bsp_account_id = [2u8; 32];
    let location = b"test".to_vec();
    let fingerprint = [0u8; 32];

    bsp_sign_up(&mut fs, &mut registry, &bsp_account_id, 100);

    let seed = randomness(&fs, fingerprint);
    assert_eq!(
        fs.bsp_volunteer(&registry, &bsp_account_id, location.clone(), fingerprint, &seed),
        Err(LedgerError::StorageRequestNotFound)
    );
    assert_eq!(fs.storage_request_bsps(&location, &bsp_account_id), None);
}

#[test]
fn bsp_already_volunteered_failed() {
    let (mut fs, mut registry) = new_test_ext();
    let owner_account_id = [1u8; 32];
    let bsp_account_id = [2u8; 32];
    let location = b"test".to_vec();
    let size = 4;
    let file_content = b"test".to_vec();
    let fingerprint = blake2(&file_content);
    let peer_ids = vec![vec![1u8]];
    let storage_amount = 100;

    assert!(fs
        .issue_storage_request(&owner_account_id, location.clone(), fingerprint, size, peer_ids.clone())
        .is_ok());

    bsp_sign_up(&mut fs, &mut registry, &bsp_account_id, storage_amount);

    let seed = randomness(&fs, fingerprint);
    assert!(fs.bsp_volunteer(&registry, &bsp_account_id, location.clone(), fingerprint, &seed).is_ok());

    assert_eq!(
        fs.bsp_volunteer(&registry, &bsp_account_id, location.clone(), fingerprint, &seed),
        Err(LedgerError::BspAlreadyVolunteered)
    );
    assert_eq!(fs.storage_requests(&location).unwrap().bsps_volunteered, 1);
}

#[test]
fn bsp_volunteer_above_threshold_high_fail() {
    let (mut fs, mut registry) = new_test_ext();
    let owner_account_id = [1u8; 32];
    let bsp_account_id = [2u8; 32];
    let location = b"test".to_vec();
    let size = 4;
    let file_content = b"test".to_vec();
    let fingerprint = blake2(&file_content);
    let peer_ids = vec![vec![1u8]];
    let storage_amount = 100;

    assert!(fs
        .issue_storage_request(&owner_account_id, location.clone(), fingerprint, size, peer_ids.clone())
        .is_ok());

    bsp_sign_up(&mut fs, &mut registry, &bsp_account_id, storage_amount);

    let zero_floor = ThresholdConfig { asymptote: 0, multiplier: ONE / 2, decay: ONE / 2 };
    fs.set_bsps_assignment_threshold(AdmissionThreshold::seeded(zero_floor, 0).unwrap());

    let seed = randomness(&fs, fingerprint);
    assert_eq!(
        fs.bsp_volunteer(&registry, &bsp_account_id, location.clone(), fingerprint, &seed),
        Err(LedgerError::AboveThreshold)
    );
    assert_eq!(fs.storage_request_bsps(&location, &bsp_account_id), None);
    assert_eq!(fs.storage_requests(&location).unwrap().bsps_volunteered, 0);
}

#[test]
fn bsp_confirm_storing_success() {
    let (mut fs, mut registry) = new_test_ext();
    let owner_account_id = [1u8; 32];
    let bsp_account_id = [2u8; 32];
    let location = b"test".to_vec();
    let size = 4;
    let fingerprint = [0u8; 32];
    let peer_ids = vec![vec![1u8]];
    let storage_amount = 100;

    assert!(fs
        .issue_storage_request(&owner_account_id, location.clone(), fingerprint, size, peer_ids.clone())
        .is_ok());

    bsp_sign_up(&mut fs, &mut registry, &bsp_account_id, storage_amount);

    let seed = randomness(&fs, fingerprint);
    assert!(fs.bsp_volunteer(&registry, &bsp_account_id, location.clone(), fingerprint, &seed).is_ok());

    let event = fs.bsp_confirm_storing(&registry, &bsp_account_id, location.clone(), [0u8; 32], &vec![]);
    assert!(event.is_ok());

    assert_eq!(
        fs.storage_requests(&location).cloned(),
        Some(StorageRequestMetadata {
            requested_at: 1,
            owner: owner_account_id,
            fingerprint,
            size,
            user_peer_ids: peer_ids.clone(),
            bsps_required: TARGET_BSPS_REQUIRED,
            bsps_confirmed: 1,
            bsps_volunteered: 1,
        })
    );

    assert_eq!(
        fs.storage_request_bsps(&location, &bsp_account_id).expect("BSP should exist in storage"),
        StorageRequestBspsMetadata { confirmed: true }
    );

    assert_eq!(event, Ok(Event::BspConfirmedStoring { who: bsp_account_id, location }));
}

#[test]
fn bsp_confirm_storing_storage_request_not_found_fail() {
    let (mut fs, mut registry) = new_test_ext();
    let bsp_account_id = [2u8; 32];
    let location = b"test".to_vec();

    bsp_sign_up(&mut fs, &mut registry, &bsp_account_id, 100);

    assert_eq!(
        fs.bsp_confirm_storing(&registry, &bsp_account_id, location.clone(), [0u8; 32], &vec![]),
        Err(LedgerError::StorageRequestNotFound)
    );
    assert_eq!(fs.storage_requests(&location), None);
}

#[test]
fn bsp_confirm_storing_not_volunteered_fail() {
    let (mut fs, mut registry) = new_test_ext();
    let owner_account_id = [1u8; 32];
    let bsp_account_id = [2u8; 32];
    let location = b"test".to_vec();
    let size = 4;
    let file_content = b"test".to_vec();
    let fingerprint = blake2(&file_content);
    let peer_ids = vec![vec![1u8]];
    let storage_amount = 100;

    assert!(fs
        .issue_storage_request(&owner_account_id, location.clone(), fingerprint, size, peer_ids.clone())
        .is_ok());

    bsp_sign_up(&mut fs, &mut registry, &bsp_account_id, storage_amount);

    assert_eq!(
        fs.bsp_confirm_storing(&registry, &bsp_account_id, location.clone(), [0u8; 32], &vec![]),
        Err(LedgerError::BspNotVolunteered)
    );
    assert_eq!(fs.storage_requests(&location).unwrap().bsps_confirmed, 0);
}

#[test]
fn bsp_already_confirmed_fail() {
    let (mut fs, mut registry) = new_test_ext();
    let owner_account_id = [1u8; 32];
    let bsp_account_id = [2u8; 32];
    let location = b"test".to_vec();
    let size = 4;
    let file_content = b"test".to_vec();
    let fingerprint = blake2(&file_content);
    let peer_ids = vec![vec![1u8]];
    let storage_amount = 100;

    assert!(fs
        .issue_storage_request(&owner_account_id, location.clone(), fingerprint, size, peer_ids.clone())
        .is_ok());

    bsp_sign_up(&mut fs, &mut registry, &bsp_account_id, storage_amount);

    let seed = randomness(&fs, fingerprint);
    assert!(fs.bsp_volunteer(&registry, &bsp_account_id, location.clone(), fingerprint, &seed).is_ok());

    assert!(fs
        .bsp_confirm_storing(&registry, &bsp_account_id, location.clone(), [0u8; 32], &vec![])
        .is_ok());

    assert_eq!(
        fs.bsp_confirm_storing(&registry, &bsp_account_id, location.clone(), [0u8; 32], &vec![]),
        Err(LedgerError::BspAlreadyConfirmed)
    );
    assert_eq!(fs.storage_requests(&location).unwrap().bsps_confirmed, 1);
}

#[test]
fn bsp_actions_not_a_bsp_fail() {
    let (mut fs, registry) = new_test_ext();
    let owner_account_id = [1u8; 32];
    let bsp_account_id = [2u8; 32];
    let location = b"test".to_vec();
    let size = 4;
    let file_content = b"test".to_vec();
    let fingerprint = blake2(&file_content);
    let peer_ids = vec![vec![1u8]];

    assert!(fs
        .issue_storage_request(&owner_account_id, location.clone(), fingerprint, size, peer_ids.clone())
        .is_ok());

    let seed = randomness(&fs, fingerprint);
    assert_eq!(
        fs.bsp_volunteer(&registry, &bsp_account_id, location.clone(), fingerprint, &seed),
        Err(LedgerError::NotABsp)
    );

    assert_eq!(
        fs.bsp_confirm_storing(&registry, &bsp_account_id, location.clone(), [0u8; 32], &vec![]),
        Err(LedgerError::NotABsp)
    );
}

#[test]
fn bsp_stop_storing_success() {
    let (mut fs, mut registry) = new_test_ext();
    let owner_account_id = [1u8; 32];
    let bsp_account_id = [2u8; 32];
    let file_key = [1u8; 32];
    let location = b"test".to_vec();
    let size = 4;
    let fingerprint = [0u8; 32];
    let peer_ids = vec![vec![1u8]];
    let storage_amount = 100;

    assert!(fs
        .issue_storage_request(&owner_account_id, location.clone(), fingerprint, size, peer_ids.clone())
        .is_ok());

    bsp_sign_up(&mut fs, &mut registry, &bsp_account_id, storage_amount);

    let seed = randomness(&fs, fingerprint);
    assert!(fs.bsp_volunteer(&registry, &bsp_account_id, location.clone(), fingerprint, &seed).is_ok());

    assert!(fs
        .bsp_confirm_storing(&registry, &bsp_account_id, location.clone(), [0u8; 32], &vec![])
        .is_ok());

    assert_eq!(
        fs.storage_request_bsps(&location, &bsp_account_id).expect("BSP should exist in storage"),
        StorageRequestBspsMetadata { confirmed: true }
    );

    assert_eq!(
        fs.storage_requests(&location).cloned(),
        Some(StorageRequestMetadata {
            requested_at: 1,
            owner: owner_account_id,
            fingerprint,
            size,
            user_peer_ids: peer_ids.clone(),
            bsps_required: TARGET_BSPS_REQUIRED,
            bsps_confirmed: 1,
            bsps_volunteered: 1,
        })
    );

    let event = fs.bsp_stop_storing(
        &bsp_account_id,
        file_key,
        location.clone(),
        owner_account_id,
        fingerprint,
        size,
        false,
    );
    assert!(event.is_ok());

    assert!(fs.storage_request_bsps(&location, &bsp_account_id).is_none());

    // The provider is no longer counted, and its replica has to be replaced.
    assert_eq!(
        fs.storage_requests(&location).cloned(),
        Some(StorageRequestMetadata {
            requested_at: 1,
            owner: owner_account_id,
            fingerprint,
            size,
            user_peer_ids: peer_ids.clone(),
            bsps_required: TARGET_BSPS_REQUIRED + 1,
            bsps_confirmed: 0,
            bsps_volunteered: 0,
        })
    );

    assert_eq!(
        event,
        Ok(Event::BspStoppedStoring { bsp: bsp_account_id, file_key, owner: owner_account_id, location })
    );
}

#[test]
fn bsp_stop_storing_while_storage_request_open_success() {
    let (mut fs, mut registry) = new_test_ext();
    let owner_account_id = [1u8; 32];
    let bsp_account_id = [2u8; 32];
    let file_key = [1u8; 32];
    let location = b"test".to_vec();
    let size = 4;
    let storage_amount = 100;

    assert!(fs.issue_storage_request(&owner_account_id, location.clone(), [0u8; 32], size, Vec::new()).is_ok());

    bsp_sign_up(&mut fs, &mut registry, &bsp_account_id, storage_amount);

    let seed = randomness(&fs, [0u8; 32]);
    assert!(fs.bsp_volunteer(&registry, &bsp_account_id, location.clone(), [0u8; 32], &seed).is_ok());

    assert!(fs
        .bsp_confirm_storing(&registry, &bsp_account_id, location.clone(), [0u8; 32], &vec![])
        .is_ok());

    let event = fs.bsp_stop_storing(
        &bsp_account_id,
        file_key,
        location.clone(),
        owner_account_id,
        [0u8; 32],
        size,
        false,
    );
    assert!(event.is_ok());

    assert!(fs.storage_request_bsps(&location, &bsp_account_id).is_none());

    // The provider is no longer counted, and its replica has to be replaced.
    assert_eq!(
        fs.storage_requests(&location).cloned(),
        Some(StorageRequestMetadata {
            requested_at: 1,
            owner: owner_account_id,
            fingerprint: [0u8; 32],
            size,
            user_peer_ids: Vec::new(),
            bsps_required: TARGET_BSPS_REQUIRED + 1,
            bsps_confirmed: 0,
            bsps_volunteered: 0,
        })
    );

    assert_eq!(
        event,
        Ok(Event::BspStoppedStoring { bsp: bsp_account_id, file_key, owner: owner_account_id, location })
    );
}

#[test]
fn bsp_stop_storing_not_volunteered_success() {
    let (mut fs, mut registry) = new_test_ext();
    let owner_account_id = [1u8; 32];
    let bsp_account_id = [2u8; 32];
    let file_key = [1u8; 32];
    let location = b"test".to_vec();
    let size = 4;
    let fingerprint = [0u8; 32];
    let storage_amount = 100;

    assert!(fs.issue_storage_request(&owner_account_id, location.clone(), fingerprint, size, Vec::new()).is_ok());

    bsp_sign_up(&mut fs, &mut registry, &bsp_account_id, storage_amount);

    let event = fs.bsp_stop_storing(
        &bsp_account_id,
        file_key,
        location.clone(),
        owner_account_id,
        fingerprint,
        size,
        false,
    );
    assert!(event.is_ok());

    let current_bsps_required: u32 = TARGET_BSPS_REQUIRED;

    assert_eq!(
        fs.storage_requests(&location).cloned(),
        Some(StorageRequestMetadata {
            requested_at: 1,
            owner: owner_account_id,
            fingerprint,
            size,
            user_peer_ids: Vec::new(),
            bsps_required: current_bsps_required.checked_add(1).unwrap(),
            bsps_confirmed: 0,
            bsps_volunteered: 0,
        })
    );

    assert_eq!(
        event,
        Ok(Event::BspStoppedStoring { bsp: bsp_account_id, file_key, owner: owner_account_id, location })
    );
}

#[test]
fn bsp_stop_storing_no_storage_request_success() {
    let (mut fs, _registry) = new_test_ext();
    let bsp_account_id = [2u8; 32];
    let file_key = [1u8; 32];
    let location = b"test".to_vec();
    let owner_account_id = [1u8; 32];
    let size = 4;
    let fingerprint = [0u8; 32];

    let event = fs.bsp_stop_storing(
        &bsp_account_id,
        file_key,
        location.clone(),
        owner_account_id,
        fingerprint,
        size,
        false,
    );
    assert!(event.is_ok());

    assert_eq!(
        fs.storage_requests(&location).cloned(),
        Some(StorageRequestMetadata {
            requested_at: 1,
            owner: owner_account_id,
            fingerprint,
            size,
            user_peer_ids: Vec::new(),
            bsps_required: 1,
            bsps_confirmed: 0,
            bsps_volunteered: 0,
        })
    );

    assert_eq!(
        event,
        Ok(Event::BspStoppedStoring { bsp: bsp_account_id, file_key, owner: owner_account_id, location })
    );
}

#[test]
fn compute_asymptotic_threshold_point_success() {
    let threshold = compute_point(&threshold_config(), 1);

    assert!(threshold > 0 && threshold >= threshold_config().asymptote, "Threshold should be positive");
}

#[test]
fn subscribe_bsp_sign_up_decreases_threshold_success() {
    let (mut fs, _registry) = new_test_ext();
    let initial_threshold = compute_set_get_initial_threshold(&mut fs);

    fs.subscribe_bsp_sign_up(&[2u8; 32]);

    let updated_threshold = fs.bsps_assignment_threshold();
    assert!(
        updated_threshold < initial_threshold && updated_threshold >= threshold_config().asymptote,
        "Threshold should decrease after BSP sign up"
    );
}

#[test]
fn subscribe_bsp_sign_off_increases_threshold_success() {
    let (mut fs, _registry) = new_test_ext();
    let initial_threshold = compute_set_get_initial_threshold(&mut fs);

    fs.subscribe_bsp_sign_off(&[2u8; 32]);

    let updated_threshold = fs.bsps_assignment_threshold();
    assert!(
        updated_threshold > initial_threshold && updated_threshold >= threshold_config().asymptote,
        "Threshold should increase after BSP sign off"
    );
}

#[test]
fn threshold_does_not_exceed_asymptote_success() {
    let (mut fs, _registry) = new_test_ext();
    fs.set_bsps_assignment_threshold(
        AdmissionThreshold::seeded(threshold_config(), threshold_config().asymptote).unwrap(),
    );

    fs.subscribe_bsp_sign_up(&[2u8; 32]);

    assert!(
        fs.bsps_assignment_threshold() == threshold_config().asymptote,
        "Threshold should not go below the asymptote"
    );
}

#[test]
fn new_ledger_needs_room_in_a_slot() {
    let threshold = AdmissionThreshold::new(threshold_config()).unwrap();
    let no_room = FileSystemConfig { max_expired_storage_requests: 0, ..config() };
    assert!(FileSystem::new(no_room, threshold, 1).is_none());
    let fs = FileSystem::new(config(), threshold, 7).unwrap();
    assert_eq!(fs.current_block(), 7);
    assert_eq!(fs.next_available_expiration_insertion_block(), 0);
    assert_eq!(fs.next_starting_block_to_clean_up(), 0);
    assert_eq!(fs.bsps_assignment_threshold(), ONE / 100 + ONE / 2);
}

#[test]
fn issue_twice_at_one_location_is_refused() {
    let (mut fs, _registry) = new_test_ext();
    let location = b"test".to_vec();
    assert!(fs.issue_storage_request(&[1; 32], location.clone(), [0; 32], 4, Vec::new()).is_ok());
    assert_eq!(
        fs.issue_storage_request(&[2; 32], location.clone(), [1; 32], 8, Vec::new()),
        Err(LedgerError::StorageRequestAlreadyRegistered)
    );
    assert_eq!(fs.storage_requests(&location).unwrap().owner, [1; 32]);
    assert_eq!(fs.storage_request_expirations(41), vec![location]);
}

#[test]
fn issue_at_the_end_of_time_is_refused() {
    let threshold = AdmissionThreshold::new(threshold_config()).unwrap();
    let mut fs = FileSystem::new(config(), threshold, u64::MAX - 10).unwrap();
    let location = b"test".to_vec();
    assert_eq!(fs.next_expiration_insertion_block_number(), None);
    assert_eq!(
        fs.issue_storage_request(&[1; 32], location.clone(), [0; 32], 4, Vec::new()),
        Err(LedgerError::MaxBlockNumberReached)
    );
    assert_eq!(fs.storage_requests(&location), None);
    assert_eq!(
        fs.bsp_stop_storing(&[2; 32], [0; 32], location.clone(), [1; 32], [0; 32], 4, false),
        Err(LedgerError::MaxBlockNumberReached)
    );
    assert_eq!(fs.schedule(location), Err(LedgerError::MaxBlockNumberReached));
}

#[test]
fn schedule_carries_into_the_next_slot() {
    let threshold = AdmissionThreshold::new(threshold_config()).unwrap();
    let small = FileSystemConfig { max_expired_storage_requests: 2, ..config() };
    let mut fs = FileSystem::new(small, threshold, 1).unwrap();
    assert_eq!(fs.schedule(b"a".to_vec()), Ok(41));
    assert_eq!(fs.schedule(b"b".to_vec()), Ok(41));
    assert_eq!(fs.schedule(b"c".to_vec()), Ok(42));
    assert_eq!(fs.next_available_expiration_insertion_block(), 42);
    assert_eq!(fs.schedule(b"d".to_vec()), Ok(42));
    assert_eq!(fs.schedule(b"e".to_vec()), Ok(43));
    assert_eq!(fs.storage_request_expirations(41), vec![b"a".to_vec(), b"b".to_vec()]);
    assert_eq!(fs.storage_request_expirations(42), vec![b"c".to_vec(), b"d".to_vec()]);
    assert_eq!(fs.storage_request_expirations(43), vec![b"e".to_vec()]);
    assert_eq!(fs.storage_request_expirations(44), Vec::<Vec<u8>>::new());
    fs.advance_time(10);
    assert_eq!(fs.schedule(b"f".to_vec()), Ok(50));
    fs.advance_time(5);
    assert_eq!(fs.current_block(), 10);
}

#[test]
fn sweep_removes_exactly_the_due_slot() {
    let threshold = AdmissionThreshold::new(threshold_config()).unwrap();
    let small = FileSystemConfig { max_expired_storage_requests: 3, ..config() };
    let mut fs = FileSystem::new(small, threshold, 1).unwrap();
    for name in [b"a", b"b", b"c", b"d"] {
        assert!(fs.issue_storage_request(&[1; 32], name.to_vec(), [0; 32], 4, Vec::new()).is_ok());
    }
    assert_eq!(fs.storage_request_expirations(41).len(), 3);
    assert_eq!(fs.storage_request_expirations(42), vec![b"d".to_vec()]);
    // Bring the cleanup cursor to the full slot; the slots before it are empty.
    assert_eq!(fs.sweep(40, 1000), 41 * SLOT_COST);
    assert_eq!(fs.next_starting_block_to_clean_up(), 41);
    fs.advance_time(41);
    let consumed = fs.sweep(41, 1000);
    assert_eq!(consumed, SLOT_COST + 3 * (ENTRY_COST + REMOVAL_COST));
    assert_eq!(fs.storage_request_expirations(41), Vec::<Vec<u8>>::new());
    assert_eq!(fs.storage_request_expirations(42), vec![b"d".to_vec()]);
    assert_eq!(fs.storage_requests(&b"a".to_vec()), None);
    assert_eq!(fs.storage_requests(&b"b".to_vec()), None);
    assert_eq!(fs.storage_requests(&b"c".to_vec()), None);
    assert!(fs.storage_requests(&b"d".to_vec()).is_some());
    assert_eq!(fs.next_starting_block_to_clean_up(), 42);
}

#[test]
fn sweep_resumes_where_the_budget_ended() {
    let threshold = AdmissionThreshold::new(threshold_config()).unwrap();
    let mut fs = FileSystem::new(config(), threshold, 1).unwrap();
    for name in [b"a", b"b", b"c"] {
        assert!(fs.issue_storage_request(&[1; 32], name.to_vec(), [0; 32], 4, Vec::new()).is_ok());
    }
    assert_eq!(fs.sweep(40, 1000), 41);
    // Budget for the slot and one location with its request.
    assert_eq!(fs.sweep(41, 4), 3);
    assert_eq!(fs.next_starting_block_to_clean_up(), 41);
    assert_eq!(fs.storage_request_expirations(41), vec![b"a".to_vec(), b"b".to_vec()]);
    assert_eq!(fs.storage_requests(&b"c".to_vec()), None);
    assert!(fs.storage_requests(&b"b".to_vec()).is_some());
    // Budget for the slot only.
    assert_eq!(fs.sweep(41, 1), 1);
    assert_eq!(fs.storage_request_expirations(41).len(), 2);
    assert_eq!(fs.sweep(41, 0), 0);
    assert_eq!(fs.sweep(41, 1000), 5);
    assert_eq!(fs.storage_request_expirations(41), Vec::<Vec<u8>>::new());
    assert_eq!(fs.next_starting_block_to_clean_up(), 42);
    assert_eq!(fs.storage_requests(&b"a".to_vec()), None);
}

#[test]
fn sweep_passes_over_a_revoked_request() {
    let (mut fs, _registry) = new_test_ext();
    let location = b"test".to_vec();
    assert!(fs.issue_storage_request(&[1; 32], location.clone(), [0; 32], 4, Vec::new()).is_ok());
    assert!(fs.revoke_storage_request(&[1; 32], location.clone(), [0; 32]).is_ok());
    assert_eq!(fs.storage_request_expirations(41), vec![location.clone()]);
    assert_eq!(fs.sweep(40, 1000), 41);
    assert_eq!(fs.sweep(41, 1000), SLOT_COST + ENTRY_COST);
    assert_eq!(fs.storage_request_expirations(41), Vec::<Vec<u8>>::new());
}

#[test]
fn sweep_removes_the_records_of_an_expired_request() {
    let (mut fs, mut registry) = new_test_ext();
    let location = b"test".to_vec();
    let bsp = [2u8; 32];
    assert!(fs.issue_storage_request(&[1; 32], location.clone(), [0; 32], 4, Vec::new()).is_ok());
    bsp_sign_up(&mut fs, &mut registry, &bsp, 100);
    let seed = randomness(&fs, [0; 32]);
    assert!(fs.bsp_volunteer(&registry, &bsp, location.clone(), [0; 32], &seed).is_ok());
    roll_to(&mut fs, 41);
    assert_eq!(fs.storage_requests(&location), None);
    assert_eq!(fs.storage_request_bsps(&location, &bsp), None);
}

#[test]
fn revoke_removes_the_records_of_the_request() {
    let (mut fs, mut registry) = new_test_ext();
    let location = b"test".to_vec();
    let bsp = [2u8; 32];
    assert!(fs.issue_storage_request(&[1; 32], location.clone(), [0; 32], 4, Vec::new()).is_ok());
    bsp_sign_up(&mut fs, &mut registry, &bsp, 100);
    let seed = randomness(&fs, [0; 32]);
    assert!(fs.bsp_volunteer(&registry, &bsp, location.clone(), [0; 32], &seed).is_ok());
    assert!(fs.revoke_storage_request(&[1; 32], location.clone(), [0; 32]).is_ok());
    assert_eq!(fs.storage_request_bsps(&location, &bsp), None);
}

#[test]
fn volunteer_with_early_randomness_is_refused() {
    let threshold = AdmissionThreshold::seeded(threshold_config(), ONE).unwrap();
    let mut fs = FileSystem::new(config(), threshold, 10).unwrap();
    let mut registry = ProviderRegistry::new(providers_config());
    let location = b"test".to_vec();
    let bsp = [2u8; 32];
    assert!(fs.issue_storage_request(&[1; 32], location.clone(), [0; 32], 4, Vec::new()).is_ok());
    bsp_sign_up(&mut fs, &mut registry, &bsp, 100);
    let early = Randomness { seed: [0; 32], valid_from_block: 9 };
    assert_eq!(
        fs.bsp_volunteer(&registry, &bsp, location.clone(), [0; 32], &early),
        Err(LedgerError::RandomnessNotValidYet)
    );
    let in_time = Randomness { seed: [0; 32], valid_from_block: 10 };
    assert!(fs.bsp_volunteer(&registry, &bsp, location.clone(), [0; 32], &in_time).is_ok());
}

#[test]
fn stop_storing_at_the_end_of_the_range_is_refused() {
    let threshold = AdmissionThreshold::new(threshold_config()).unwrap();
    let most = FileSystemConfig { target_bsps_required: u32::MAX, ..config() };
    let mut fs = FileSystem::new(most, threshold, 1).unwrap();
    let location = b"test".to_vec();
    assert!(fs.issue_storage_request(&[1; 32], location.clone(), [0; 32], 4, Vec::new()).is_ok());
    assert_eq!(
        fs.bsp_stop_storing(&[2; 32], [0; 32], location.clone(), [1; 32], [0; 32], 4, false),
        Err(LedgerError::CounterOverflow)
    );
    assert_eq!(fs.storage_requests(&location).unwrap().bsps_required, u32::MAX);
}

#[test]
fn stop_storing_of_a_pending_volunteer() {
    let (mut fs, mut registry) = new_test_ext();
    let location = b"test".to_vec();
    let first = [2u8; 32];
    let second = [3u8; 32];
    assert!(fs.issue_storage_request(&[1; 32], location.clone(), [0; 32], 4, Vec::new()).is_ok());
    bsp_sign_up(&mut fs, &mut registry, &first, 100);
    bsp_sign_up(&mut fs, &mut registry, &second, 100);
    let seed = randomness(&fs, [0; 32]);
    assert!(fs.bsp_volunteer(&registry, &first, location.clone(), [0; 32], &seed).is_ok());
    assert!(fs.bsp_volunteer(&registry, &second, location.clone(), [0; 32], &seed).is_ok());
    assert!(fs.bsp_confirm_storing(&registry, &second, location.clone(), [0; 32], &vec![]).is_ok());
    assert!(fs.bsp_stop_storing(&first, [0; 32], location.clone(), [1; 32], [0; 32], 4, false).is_ok());
    let request = fs.storage_requests(&location).unwrap();
    assert_eq!(request.bsps_volunteered, 1);
    assert_eq!(request.bsps_confirmed, 1);
    assert_eq!(request.bsps_required, TARGET_BSPS_REQUIRED + 1);
    assert_eq!(fs.storage_request_bsps(&location, &first), None);
    assert_eq!(fs.storage_request_bsps(&location, &second), Some(StorageRequestBspsMetadata { confirmed: true }));
}
