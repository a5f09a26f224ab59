use wardrobe_platform::photokit_coordinator::{recovery_action, recovery_deleted, recovery_intents, recovery_start, RecoveryAction, RecoveryStage, RecoveryWork,};
use wardrobe_platform::photokit_types::{PhotoKitEnrollment, PhotoKitKeyCleanupIntent};
use wardrobe_platform::photokit_coordinator::{
    authorization_unavailable, cleanup_failure_code, PhotoKitCoordinator,
};
use wardrobe_platform::photokit_keychain::{
    map_keychain_error, validate_key_reference as validate_keychain_reference,
    MacOsPhotoKitKeychain,
};
use wardrobe_platform::photokit_records::{
    authorization_from_db, authorization_to_db, availability_from_db, availability_to_db,
    connector_state_from_db, locator_aad, reason_from_db, reason_to_db, trigger_from_db,
    trigger_to_db, validate_availability_result, validate_command_name, validate_envelope_hash,
    validate_hash, validate_key_reference, validate_materialization, validate_terminal_reason,
    validate_uuid,
};
use wardrobe_platform::photokit_repository::{single_change, PhotoKitRepository};
use wardrobe_platform::photokit_types::{
    BlobRecord, PhotoKitAuthorizationV1, PhotoKitAvailabilityReasonV1, PhotoKitAvailabilityV1,
    PhotoKitConnectorStateV1, PhotoKitCoordinatorError, PhotoKitFinalizedObservation,
    PhotoKitKeyError, PhotoKitKeyPort, PhotoKitMaterializationRecord, PhotoKitNativeError,
    PhotoKitReconcileTriggerV1, PhotoKitRootKey,
};
use wardrobe_platform::photokit_wire::{
    decode_binary, read_u32, read_u64, status_error, supported_uti, validate_reason,
    validate_resource_token, CommandKind, RequestIdentity, ABI_VERSION, BINARY_HEADER_BYTES,
};
use wardrobe_platform::platform_error::PlatformError;
use wardrobe_platform::store::Database;

const OPERATION: [u8; 16] = [
    0x11, 0x11, 0x11, 0x11, 0x11, 0x11, 0x41, 0x11, 0x81, 0x11, 0x11, 0x11, 0x11, 0x11, 0x11, 0x11,
];
const EPOCH: [u8; 16] = [
    0x22, 0x22, 0x22, 0x22, 0x22, 0x22, 0x42, 0x22, 0x82, 0x22, 0x22, 0x22, 0x22, 0x22, 0x22, 0x22,
];

fn identity() -> RequestIdentity {
    RequestIdentity {
        operation_id: OPERATION,
        enrollment_epoch: EPOCH,
        reconciliation_fence: 7,
        generation: 9,
        request_sequence: 11,
    }
}

#[test]
fn binary_decoder_requires_exact_identity_and_chunk_sequence() {
    let identity = identity();
    let mut bytes = vec![0_u8; BINARY_HEADER_BYTES + 3];
    bytes[0..4].copy_from_slice(b"WKPB");
    bytes[4..8].copy_from_slice(&ABI_VERSION.to_le_bytes());
    bytes[8..12].copy_from_slice(&(BINARY_HEADER_BYTES as u32).to_le_bytes());
    bytes[16..24].copy_from_slice(&identity.request_sequence.to_le_bytes());
    bytes[24..32].copy_from_slice(&identity.reconciliation_fence.to_le_bytes());
    bytes[32..40].copy_from_slice(&identity.generation.to_le_bytes());
    bytes[40..48].copy_from_slice(&3_u64.to_le_bytes());
    bytes[48..64].copy_from_slice(&identity.operation_id);
    bytes[64..80].copy_from_slice(&identity.enrollment_epoch);
    bytes[80..].copy_from_slice(&[1, 2, 3]);

    assert_eq!(decode_binary(&bytes, &identity, 3).unwrap(), [1, 2, 3]);
    assert!(decode_binary(&bytes, &identity, 4).is_err());
    bytes[24] ^= 1;
    assert!(decode_binary(&bytes, &identity, 3).is_err());
}

#[test]
fn binary_decoder_rejects_empty_payload_and_wrong_magic() {
    let identity = identity();
    let mut header = vec![0_u8; BINARY_HEADER_BYTES];
    header[0..4].copy_from_slice(b"WKPB");
    assert_eq!(
        decode_binary(&header, &identity, 0),
        Err(PhotoKitNativeError::InvalidResponse)
    );
    let mut frame = vec![0_u8; BINARY_HEADER_BYTES + 1];
    frame[0..4].copy_from_slice(b"WKPX");
    assert_eq!(
        decode_binary(&frame, &identity, 0),
        Err(PhotoKitNativeError::InvalidResponse)
    );
}

#[test]
fn wire_helpers_read_and_classify() {
    assert_eq!(status_error(2), PhotoKitNativeError::Unavailable);
    assert_eq!(status_error(3), PhotoKitNativeError::InvalidResponse);
    assert_eq!(status_error(4), PhotoKitNativeError::InvalidResponse);
    assert_eq!(status_error(99), PhotoKitNativeError::Unavailable);
    let bytes = [1, 0, 0, 0, 2, 0, 0, 0, 3];
    assert_eq!(read_u32(&bytes, 0), Some(1));
    assert_eq!(read_u64(&bytes, 0), Some(0x0000_0002_0000_0001));
    assert_eq!(read_u32(&bytes, 6), None);
    assert_eq!(CommandKind::EnumerateAlbum.wire_name(), "enumerate_album");
    assert_eq!(CommandKind::StreamResource.wire_name(), "stream_resource");
    assert!(supported_uti("public.heic"));
    assert!(supported_uti("public.jpeg"));
    assert!(!supported_uti("public.avif"));
    assert_eq!(validate_resource_token("aaaaaaaa-1111-4111-8111-111111111111"), Ok(()));
    assert_eq!(
        validate_resource_token("Upper"),
        Err(PhotoKitNativeError::InvalidResponse)
    );
    assert_eq!(validate_reason("transfer_failed"), Ok(()));
    assert_eq!(validate_reason("made_up"), Err(PhotoKitNativeError::InvalidResponse));
}

#[test]
fn database_names_round_trip() {
    for value in [
        PhotoKitAuthorizationV1::NotDetermined,
        PhotoKitAuthorizationV1::Restricted,
        PhotoKitAuthorizationV1::Denied,
        PhotoKitAuthorizationV1::Limited,
        PhotoKitAuthorizationV1::Authorized,
    ] {
        assert_eq!(authorization_from_db(authorization_to_db(value)), Ok(value));
    }
    for value in [
        PhotoKitReconcileTriggerV1::Startup,
        PhotoKitReconcileTriggerV1::User,
        PhotoKitReconcileTriggerV1::LibraryChange,
    ] {
        assert_eq!(trigger_from_db(trigger_to_db(value)), Ok(value));
    }
    for value in [PhotoKitAvailabilityV1::Available, PhotoKitAvailabilityV1::Unavailable] {
        assert_eq!(availability_from_db(availability_to_db(value)), Ok(value));
    }
    for value in [
        PhotoKitAvailabilityReasonV1::Materialized,
        PhotoKitAvailabilityReasonV1::Accessible,
        PhotoKitAvailabilityReasonV1::AuthorizationNotDetermined,
        PhotoKitAvailabilityReasonV1::AuthorizationRestricted,
        PhotoKitAvailabilityReasonV1::AuthorizationDenied,
        PhotoKitAvailabilityReasonV1::LimitedAccess,
        PhotoKitAvailabilityReasonV1::ScopeUnavailable,
        PhotoKitAvailabilityReasonV1::AssetNotInScope,
        PhotoKitAvailabilityReasonV1::IcloudUnavailable,
        PhotoKitAvailabilityReasonV1::UnsupportedResource,
        PhotoKitAvailabilityReasonV1::TransferFailed,
        PhotoKitAvailabilityReasonV1::BlobIntegrityFailed,
    ] {
        assert_eq!(reason_from_db(reason_to_db(value)), Ok(value));
    }
    assert_eq!(authorization_to_db(PhotoKitAuthorizationV1::NotDetermined), "not_determined");
    assert_eq!(trigger_to_db(PhotoKitReconcileTriggerV1::LibraryChange), "library_change");
    assert_eq!(connector_state_from_db("ready"), Ok(PhotoKitConnectorStateV1::Ready));
    assert!(connector_state_from_db("bogus").is_err());
    assert!(authorization_from_db("Authorized").is_err());
}

#[test]
fn record_validators_are_exact() {
    assert_eq!(
        validate_uuid("11111111-1111-4111-8111-111111111111", "field"),
        Ok(())
    );
    assert_eq!(
        validate_uuid("11111111-1111-4111-8111-11111111111A", "field"),
        Err(PlatformError::InvalidInput("field"))
    );
    assert_eq!(
        validate_uuid("00000000-0000-0000-0000-000000000000", "field"),
        Err(PlatformError::InvalidInput("field"))
    );
    assert_eq!(
        validate_uuid("11111111111141118111111111111111", "field"),
        Err(PlatformError::InvalidInput("field"))
    );
    assert_eq!(validate_key_reference("photokit-locator-x"), Ok(()));
    assert_eq!(
        validate_key_reference(""),
        Err(PlatformError::InvalidInput("photokit_key_reference"))
    );
    assert!(validate_key_reference(&"k".repeat(129)).is_err());
    assert!(validate_key_reference("tab\there").is_err());
    let digest = "a".repeat(64);
    assert_eq!(validate_hash(&digest), Ok(()));
    assert!(validate_hash(&"A".repeat(64)).is_err());
    assert!(validate_hash(&"a".repeat(63)).is_err());
    assert_eq!(validate_envelope_hash(&digest), Ok(()));
    assert_eq!(validate_command_name("sync_photokit_v1"), Ok(()));
    assert!(validate_command_name("sync_photokit_v2").is_err());
    assert_eq!(validate_terminal_reason("scope_unavailable"), Ok(()));
    assert!(validate_terminal_reason("bogus").is_err());
}

#[test]
fn locator_aad_separates_its_parts_with_zero_bytes() {
    assert_eq!(locator_aad("e", "album", "r1"), b"e\0album\0r1".to_vec());
    assert_eq!(locator_aad("", "", ""), vec![0, 0]);
}

#[test]
fn finalized_observations_and_materializations_are_checked() {
    let record = PhotoKitMaterializationRecord {
        resource_fingerprint: "f".repeat(64),
        blob: BlobRecord { sha256: "a".repeat(64), byte_length: 10 },
        resource_uti: "public.png".to_owned(),
        pixel_width: 100,
        pixel_height: 200,
    };
    assert_eq!(validate_materialization(&record), Ok(()));
    let wide = PhotoKitMaterializationRecord { pixel_width: 16385, ..record.clone() };
    assert_eq!(
        validate_materialization(&wide),
        Err(PlatformError::InvalidInput("photokit_materialization"))
    );
    let materialized = PhotoKitFinalizedObservation {
        ordinal: 0,
        availability: PhotoKitAvailabilityV1::Available,
        reason: PhotoKitAvailabilityReasonV1::Materialized,
        materialization: Some(record),
    };
    assert_eq!(validate_availability_result(&materialized), Ok(()));
    let inconsistent = PhotoKitFinalizedObservation {
        availability: PhotoKitAvailabilityV1::Unavailable,
        ..materialized.clone()
    };
    assert_eq!(
        validate_availability_result(&inconsistent),
        Err(PlatformError::InvalidInput("photokit_availability_result"))
    );
    let missing = PhotoKitFinalizedObservation { materialization: None, ..materialized };
    assert!(validate_availability_result(&missing).is_err());
}

#[test]
fn keychain_helpers_follow_the_security_framework_codes() {
    assert_eq!(map_keychain_error(-25300), PhotoKitKeyError::NotFound);
    assert_eq!(map_keychain_error(-25293), PhotoKitKeyError::Locked);
    assert_eq!(map_keychain_error(-25308), PhotoKitKeyError::Locked);
    assert_eq!(map_keychain_error(-25291), PhotoKitKeyError::Unavailable);
    assert_eq!(map_keychain_error(-1), PhotoKitKeyError::Internal);
    assert_eq!(validate_keychain_reference("photokit-locator-1"), Ok(()));
    assert_eq!(validate_keychain_reference(""), Err(PhotoKitKeyError::Integrity));
    assert_eq!(validate_keychain_reference("é"), Err(PhotoKitKeyError::Integrity));
    let keychain = MacOsPhotoKitKeychain::default();
    assert_eq!(keychain.delete_root_key("x").unwrap_err(), PhotoKitKeyError::Unavailable);
    assert!(keychain.create_root_key("x").is_err());
    assert!(keychain.load_root_key("x", false).is_err());
}

#[test]
fn cleanup_failure_codes_and_unavailable_authorization() {
    assert_eq!(cleanup_failure_code(Ok(())), None);
    assert_eq!(cleanup_failure_code(Err(PhotoKitKeyError::NotFound)), None);
    assert_eq!(cleanup_failure_code(Err(PhotoKitKeyError::Locked)), Some("locked"));
    assert_eq!(cleanup_failure_code(Err(PhotoKitKeyError::Unavailable)), Some("unavailable"));
    assert_eq!(cleanup_failure_code(Err(PhotoKitKeyError::Integrity)), Some("internal"));
    assert_eq!(cleanup_failure_code(Err(PhotoKitKeyError::Internal)), Some("internal"));
    assert_eq!(
        authorization_unavailable(PhotoKitAuthorizationV1::Denied),
        (PhotoKitAvailabilityReasonV1::AuthorizationDenied, "authorization_denied")
    );
    assert_eq!(
        authorization_unavailable(PhotoKitAuthorizationV1::Limited),
        (PhotoKitAvailabilityReasonV1::LimitedAccess, "limited_access")
    );
    assert_eq!(single_change(1), Ok(()));
    assert_eq!(
        single_change(0),
        Err(PlatformError::Conflict("photokit_cleanup_intent_state"))
    );
    assert!(single_change(2).is_err());
}

#[test]
fn root_keys_keep_their_bytes() {
    let key = PhotoKitRootKey::from_bytes([7; 32]);
    assert_eq!(key.expose(), &[7; 32]);
    let generated = PhotoKitRootKey::generate().unwrap();
    assert_eq!(generated.expose().len(), 32);
}

const SCHEMA: &str = "
CREATE TABLE photokit_enrollments(
    enrollment_epoch TEXT PRIMARY KEY, key_reference TEXT NOT NULL, state TEXT NOT NULL,
    allow_icloud_downloads INTEGER NOT NULL, operation_fence INTEGER NOT NULL,
    active_membership_generation INTEGER, created_at_ms INTEGER NOT NULL);
CREATE TABLE photokit_key_cleanup_intents(
    intent_id TEXT PRIMARY KEY, deletion_run_id TEXT, enrollment_epoch TEXT,
    key_reference TEXT NOT NULL UNIQUE, reason TEXT NOT NULL, state TEXT NOT NULL,
    failure_code TEXT, last_attempt_at_ms INTEGER, completed_at_ms INTEGER,
    created_at_ms INTEGER NOT NULL);
CREATE TABLE photokit_locator_records(
    locator_id TEXT PRIMARY KEY, enrollment_epoch TEXT, operation_id TEXT,
    finalized INTEGER NOT NULL);
CREATE TABLE photokit_operations(
    operation_id TEXT PRIMARY KEY, state TEXT NOT NULL, terminal_reason TEXT,
    started_at_ms INTEGER NOT NULL, finished_at_ms INTEGER);
CREATE TABLE photokit_materialization_attempts(operation_id TEXT NOT NULL);
CREATE TABLE photokit_operation_observations(operation_id TEXT NOT NULL);
CREATE TABLE photokit_connector_state(
    singleton INTEGER PRIMARY KEY, state TEXT NOT NULL, active_enrollment_epoch TEXT,
    updated_at_ms INTEGER NOT NULL);
INSERT INTO photokit_connector_state VALUES (1, 'unconfigured', NULL, 0);
";

fn shared_database(name: &str) -> (rusqlite::Connection, Database) {
    let path = format!("file:{name}?mode=memory&cache=shared");
    let keeper = rusqlite::Connection::open(&path).unwrap();
    keeper.execute_batch(SCHEMA).unwrap();
    (keeper, Database::new(path))
}

#[test]
fn repository_reserves_lists_and_removes_pending_enrollments() {
    let (keeper, database) = shared_database("photokit_pending");
    let repository = PhotoKitRepository::new(database);
    assert_eq!(repository.active_enrollment(), Ok(None));
    let reserved = repository.reserve_enrollment("photokit-locator-a", true, 100).unwrap();
    assert_eq!(reserved.key_reference, "photokit-locator-a");
    assert!(reserved.allow_icloud_downloads);
    assert_eq!(reserved.operation_fence, 0);
    assert_eq!(reserved.membership_generation, None);
    assert_eq!(validate_uuid(&reserved.enrollment_epoch, "epoch"), Ok(()));
    let epoch = reserved.enrollment_epoch.as_bytes();
    assert_eq!(epoch[14], b'4');
    assert!(b"89ab".contains(&epoch[19]));
    assert_eq!(repository.pending_enrollments().unwrap(), vec![reserved.clone()]);
    assert_eq!(
        repository.reserve_enrollment("", false, 100),
        Err(PlatformError::InvalidInput("photokit_key_reference"))
    );

    assert_eq!(
        repository.remove_pending_enrollment(&reserved.enrollment_epoch, 200, "other"),
        Err(PlatformError::InvalidInput("photokit_cleanup_reason"))
    );
    assert_eq!(
        repository.remove_pending_enrollment("not-a-uuid", 200, "pending_enrollment_recovery"),
        Err(PlatformError::InvalidInput("photokit_enrollment_epoch"))
    );
    repository
        .remove_pending_enrollment(&reserved.enrollment_epoch, 200, "pending_enrollment_recovery")
        .unwrap();
    assert_eq!(repository.pending_enrollments().unwrap(), vec![]);
    let intents = repository.pending_key_cleanup_intents().unwrap();
    assert_eq!(intents.len(), 1);
    assert_eq!(intents[0].key_reference, "photokit-locator-a");

    assert_eq!(
        repository.fail_key_cleanup_intent(&intents[0].intent_id, "bogus", 300),
        Err(PlatformError::InvalidInput("photokit_cleanup_failure_code"))
    );
    repository.fail_key_cleanup_intent(&intents[0].intent_id, "locked", 300).unwrap();
    repository.complete_key_cleanup_intent(&intents[0].intent_id, 400).unwrap();
    assert_eq!(
        repository.complete_key_cleanup_intent(&intents[0].intent_id, 500),
        Err(PlatformError::Conflict("photokit_cleanup_intent_state"))
    );
    assert_eq!(repository.pending_key_cleanup_intents().unwrap(), vec![]);
    drop(keeper);
}

#[test]
fn repository_reads_the_active_enrollment_and_recovers_operations() {
    let (keeper, database) = shared_database("photokit_active");
    keeper
        .execute_batch(
            "INSERT INTO photokit_enrollments VALUES
                ('22222222-2222-4222-8222-222222222222', 'key-a', 'active', 0, 5, 3, 1);
             UPDATE photokit_connector_state
                SET active_enrollment_epoch = '22222222-2222-4222-8222-222222222222',
                    state = 'reconciling';
             INSERT INTO photokit_operations VALUES ('op-1', 'enumerating', NULL, 1, NULL);
             INSERT INTO photokit_operations VALUES ('op-2', 'complete', NULL, 2, 3);
             INSERT INTO photokit_materialization_attempts VALUES ('op-1');
             INSERT INTO photokit_locator_records VALUES ('l1', NULL, 'op-1', 0);",
        )
        .unwrap();
    let repository = PhotoKitRepository::new(database);
    let active = repository.active_enrollment().unwrap().unwrap();
    assert_eq!(active.enrollment_epoch, "22222222-2222-4222-8222-222222222222");
    assert_eq!(active.key_reference, "key-a");
    assert!(!active.allow_icloud_downloads);
    assert_eq!(active.operation_fence, 5);
    assert_eq!(active.membership_generation, Some(3));

    assert_eq!(repository.recover_operations(10), Ok(1));
    let state: String = keeper
        .query_row("SELECT state FROM photokit_connector_state", [], |row| row.get(0))
        .unwrap();
    assert_eq!(state, "ready");
    let reason: String = keeper
        .query_row(
            "SELECT terminal_reason FROM photokit_operations WHERE operation_id = 'op-1'",
            [],
            |row| row.get(0),
        )
        .unwrap();
    assert_eq!(reason, "restore_interrupted");
    let attempts: i64 = keeper
        .query_row("SELECT COUNT(*) FROM photokit_materialization_attempts", [], |row| row.get(0))
        .unwrap();
    assert_eq!(attempts, 0);
    assert_eq!(repository.recover_operations(11), Ok(0));
}

struct FakeKeys {
    delete: Result<(), PhotoKitKeyError>,
}

impl PhotoKitKeyPort for FakeKeys {
    fn create_root_key(&self, _key_reference: &str) -> Result<PhotoKitRootKey, PhotoKitKeyError> {
        Ok(PhotoKitRootKey::from_bytes([1; 32]))
    }

    fn load_root_key(
        &self,
        _key_reference: &str,
        _allow_authentication_ui: bool,
    ) -> Result<PhotoKitRootKey, PhotoKitKeyError> {
        Ok(PhotoKitRootKey::from_bytes([1; 32]))
    }

    fn delete_root_key(&self, _key_reference: &str) -> Result<(), PhotoKitKeyError> {
        self.delete
    }
}

#[test]
fn recovery_deletes_keys_or_records_why_it_could_not() {
    let (keeper, database) = shared_database("photokit_recover_locked");
    let repository = PhotoKitRepository::new(database.clone());
    let pending = repository.reserve_enrollment("key-locked", false, 1).unwrap();
    let mut coordinator = PhotoKitCoordinator::new(
        repository,
        (),
        FakeKeys { delete: Err(PhotoKitKeyError::Locked) },
    );
    assert_eq!(coordinator.recover(10).unwrap(), 0);
    assert_eq!(coordinator.repository().pending_enrollments().unwrap(), vec![pending.clone()]);

    let mut deleting = PhotoKitCoordinator::new(
        PhotoKitRepository::new(database),
        (),
        FakeKeys { delete: Err(PhotoKitKeyError::NotFound) },
    );
    assert_eq!(deleting.recover(20).unwrap(), 1);
    assert_eq!(deleting.repository().pending_enrollments().unwrap(), vec![]);
    assert_eq!(deleting.repository().pending_key_cleanup_intents().unwrap(), vec![]);
    let state: String = keeper
        .query_row("SELECT state FROM photokit_key_cleanup_intents", [], |row| row.get(0))
        .unwrap();
    assert_eq!(state, "complete");
    assert_eq!(*deleting.native(), ());
    *deleting.native_mut() = ();
}

#[test]
fn recovery_records_the_failure_code_of_a_pending_intent() {
    let (keeper, database) = shared_database("photokit_recover_intent");
    keeper
        .execute(
            "INSERT INTO photokit_key_cleanup_intents(intent_id, key_reference, reason, state,
                created_at_ms) VALUES ('33333333-3333-4333-8333-333333333333', 'key-b',
                'pending_enrollment_recovery', 'pending', 1)",
            [],
        )
        .unwrap();
    let mut coordinator = PhotoKitCoordinator::new(
        PhotoKitRepository::new(database),
        (),
        MacOsPhotoKitKeychain,
    );
    assert_eq!(coordinator.recover(5).unwrap(), 0);
    let code: String = keeper
        .query_row("SELECT failure_code FROM photokit_key_cleanup_intents", [], |row| row.get(0))
        .unwrap();
    assert_eq!(code, "unavailable");
}

#[test]
fn recovery_surfaces_only_platform_failures() {
    let mut coordinator = PhotoKitCoordinator::new(
        PhotoKitRepository::new(Database::new("file:missing?mode=ro".to_owned())),
        (),
        FakeKeys { delete: Ok(()) },
    );
    match coordinator.recover(1) {
        Err(PhotoKitCoordinatorError::Platform(PlatformError::Sqlite)) => {}
        other => panic!("unexpected {other:?}"),
    }
}

#[test]
fn recovery_steps_hand_each_item_its_own_key() {
    let pending = vec![PhotoKitEnrollment {
        enrollment_epoch: "epoch-a".to_owned(),
        key_reference: "key-a".to_owned(),
        allow_icloud_downloads: false,
        operation_fence: 0,
        membership_generation: None,
    }];
    let state = recovery_start(2, pending);
    match recovery_action(&state) {
        RecoveryAction::DeleteKey(key) => assert_eq!(key, "key-a"),
        _ => panic!("the enrollment's key is deleted first"),
    }
    let (state, work) = recovery_deleted(state, Err(PhotoKitKeyError::NotFound));
    match work {
        RecoveryWork::RemovePending { enrollment_epoch, key_reference } => {
            assert_eq!((enrollment_epoch.as_str(), key_reference.as_str()), ("epoch-a", "key-a"))
        }
        _ => panic!("a missing key removes the enrollment"),
    }
    assert_eq!(state.recovered, 3);
    assert!(matches!(recovery_action(&state), RecoveryAction::ReadIntents));
    let intents = vec![PhotoKitKeyCleanupIntent {
        intent_id: "intent-b".to_owned(),
        key_reference: "key-b".to_owned(),
    }];
    let state = recovery_intents(state, intents);
    assert_eq!(state.stage, RecoveryStage::Intents);
    match recovery_action(&state) {
        RecoveryAction::DeleteKey(key) => assert_eq!(key, "key-b"),
        _ => panic!("the intent's key is deleted next"),
    }
    let (state, work) = recovery_deleted(state, Err(PhotoKitKeyError::Locked));
    match work {
        RecoveryWork::FailIntent(id, code) => assert_eq!((id.as_str(), code), ("intent-b", "locked")),
        _ => panic!("a locked key records its failure"),
    }
    assert!(matches!(recovery_action(&state), RecoveryAction::Finish(3)));
}
