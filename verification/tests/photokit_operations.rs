use wardrobe_platform::photokit_finalize::{
    accepted_bytes_total, availability_counts, check_enumeration_complete, complete_step,
    count_transition, generation_param, next_fence, next_membership_generation,
    operation_state_from_db, unavailable_step, FinalizeStep, OperationState,
};
use wardrobe_platform::photokit_materialize::{
    enumeration_step, first_transfer_step, image_within_limits_check, materialized_observation,
    resource_step, retry_transfer_step, unavailable_observation, validate_attempt,
    validate_native_asset, validation_outcome, EnumerationStep, MaterializationAttempt,
    MaterializationStep,
};
use wardrobe_platform::photokit_locator::locator_lookup;
use wardrobe_platform::photokit_records::{validate_availability_result, validate_uuid};
use wardrobe_platform::photokit_repository::PhotoKitRepository;
use wardrobe_platform::photokit_types::{
    BlobRecord, PhotoKitAuthorizationV1, PhotoKitAvailabilityReasonV1, PhotoKitAvailabilityV1,
    PhotoKitEnumerationTerminal, PhotoKitFinalizedObservation, PhotoKitMaterializationRecord,
    PhotoKitNativeAsset, PhotoKitNativeError, PhotoKitNativeResource, PhotoKitReconcileTriggerV1,
    PhotoKitRootKey,
    PhotoKitTransferTerminal, PhotoKitValidatedImage,
};
use wardrobe_platform::photokit_wire::RequestIdentity;
use wardrobe_platform::platform_error::PlatformError;
use wardrobe_platform::store::Database;

const SHA: &str = "0123456789abcdef0123456789abcdef0123456789abcdef0123456789abcdef";

fn attempt(ordinal: u8, network: bool, bytes: u64, outcome: &'static str) -> MaterializationAttempt {
    MaterializationAttempt {
        attempt_ordinal: ordinal,
        network_access_allowed: network,
        accepted_bytes: bytes,
        outcome,
    }
}

fn resource(uti: &str) -> PhotoKitNativeResource {
    PhotoKitNativeResource {
        operation_resource_token: "token-1".to_owned(),
        resource_uti: uti.to_owned(),
    }
}

#[test]
fn assets_without_a_supported_resource_are_unavailable() {
    let unsupported = MaterializationStep::Unavailable {
        attempt: attempt(0, false, 0, "unsupported_resource"),
        reason: PhotoKitAvailabilityReasonV1::UnsupportedResource,
    };
    assert_eq!(resource_step(&None), Some(unsupported));
    assert_eq!(resource_step(&Some(resource("public.avif"))), Some(unsupported));
    assert_eq!(resource_step(&Some(resource("public.heic"))), None);
}

#[test]
fn first_transfers_are_validated_retried_or_failed() {
    let complete = Ok(PhotoKitTransferTerminal::Complete);
    let network = Ok(PhotoKitTransferTerminal::NetworkAccessRequired);
    assert_eq!(
        first_transfer_step(complete, 10, false),
        MaterializationStep::Validate { attempt_ordinal: 0, accepted_bytes: 10 }
    );
    assert_eq!(
        first_transfer_step(network, 0, true),
        MaterializationStep::RetryWithNetwork { attempt: attempt(0, false, 0, "network_access_required") }
    );
    assert_eq!(
        first_transfer_step(network, 0, false),
        MaterializationStep::Unavailable {
            attempt: attempt(0, false, 0, "network_access_required"),
            reason: PhotoKitAvailabilityReasonV1::IcloudUnavailable,
        }
    );
    let failed = |bytes| MaterializationStep::Unavailable {
        attempt: attempt(0, false, bytes, "transfer_failed"),
        reason: PhotoKitAvailabilityReasonV1::TransferFailed,
    };
    assert_eq!(first_transfer_step(complete, 0, true), failed(0));
    assert_eq!(first_transfer_step(network, 7, true), failed(7));
    assert_eq!(first_transfer_step(Ok(PhotoKitTransferTerminal::Failed), 3, true), failed(3));
    assert_eq!(first_transfer_step(Err(PhotoKitNativeError::Cancelled), 5, true), failed(5));
}

#[test]
fn retries_are_validated_only_when_complete_with_bytes() {
    assert_eq!(
        retry_transfer_step(Ok(PhotoKitTransferTerminal::Complete), 9),
        MaterializationStep::Validate { attempt_ordinal: 1, accepted_bytes: 9 }
    );
    for (transfer, bytes) in [
        (Ok(PhotoKitTransferTerminal::Complete), 0),
        (Ok(PhotoKitTransferTerminal::NetworkAccessRequired), 0),
        (Err(PhotoKitNativeError::Unavailable), 4),
    ] {
        assert_eq!(
            retry_transfer_step(transfer, bytes),
            MaterializationStep::Unavailable {
                attempt: attempt(1, true, bytes, "transfer_failed"),
                reason: PhotoKitAvailabilityReasonV1::TransferFailed,
            }
        );
    }
}

#[test]
fn validated_images_must_be_within_limits() {
    let image = |w, h, frames| PhotoKitValidatedImage { pixel_width: w, pixel_height: h, frame_count: frames };
    assert!(image_within_limits_check(&image(8000, 8000, 1)));
    assert!(!image_within_limits_check(&image(8001, 8000, 1)));
    assert!(!image_within_limits_check(&image(16385, 1, 1)));
    assert!(!image_within_limits_check(&image(0, 10, 1)));
    assert!(!image_within_limits_check(&image(10, 10, 2)));
    assert_eq!(
        validation_outcome(Ok(image(10, 20, 1)), 1, 30),
        (attempt(1, true, 30, "materialized"), Ok(image(10, 20, 1)))
    );
    assert_eq!(
        validation_outcome(Ok(image(10, 20, 3)), 0, 30),
        (
            attempt(0, false, 30, "blob_integrity_failed"),
            Err(PhotoKitAvailabilityReasonV1::BlobIntegrityFailed)
        )
    );
    assert_eq!(
        validation_outcome(Err(PhotoKitNativeError::ImageValidation), 0, 2).1,
        Err(PhotoKitAvailabilityReasonV1::BlobIntegrityFailed)
    );
}

#[test]
fn finalized_observations_are_consistent() {
    let image = PhotoKitValidatedImage { pixel_width: 10, pixel_height: 20, frame_count: 1 };
    let lost = materialized_observation(4, "public.png".to_owned(), image, None).unwrap();
    assert_eq!(lost, unavailable_observation(4, PhotoKitAvailabilityReasonV1::BlobIntegrityFailed));
    assert_eq!(validate_availability_result(&lost), Ok(()));
    let blob = BlobRecord { sha256: SHA.to_owned(), byte_length: 100 };
    let kept = materialized_observation(5, "public.png".to_owned(), image, Some(blob.clone())).unwrap();
    assert_eq!(kept.ordinal, 5);
    assert_eq!(kept.availability, PhotoKitAvailabilityV1::Available);
    assert_eq!(kept.reason, PhotoKitAvailabilityReasonV1::Materialized);
    let record = kept.materialization.clone().unwrap();
    assert_eq!(record.blob, blob);
    assert_eq!(record.resource_fingerprint.len(), 64);
    assert_eq!(validate_availability_result(&kept), Ok(()));
    assert_eq!(
        materialized_observation(5, "public.png".to_owned(), image, Some(BlobRecord {
            sha256: "xyz".to_owned(),
            byte_length: 1
        })),
        Err(PlatformError::InvalidInput("sha256"))
    );
}

#[test]
fn native_assets_are_checked() {
    let asset = |locator: &str, resource| PhotoKitNativeAsset {
        asset_locator: locator.to_owned(),
        primary_resource: resource,
    };
    assert_eq!(validate_native_asset(&asset("a", None)), Ok(()));
    assert_eq!(validate_native_asset(&asset("a", Some(resource("public.png")))), Ok(()));
    assert_eq!(
        validate_native_asset(&asset("", None)),
        Err(PlatformError::InvalidInput("photokit_asset_locator"))
    );
    assert_eq!(
        validate_native_asset(&asset(&"x".repeat(1025), None)),
        Err(PlatformError::InvalidInput("photokit_asset_locator"))
    );
    assert!(validate_native_asset(&asset(&"x".repeat(1024), None)).is_ok());
    assert_eq!(
        validate_native_asset(&asset("a", Some(resource("públic.png")))),
        Err(PlatformError::InvalidInput("photokit_resource"))
    );
    assert_eq!(
        validate_native_asset(&asset("a", Some(resource("")))),
        Err(PlatformError::InvalidInput("photokit_resource"))
    );
}

#[test]
fn enumeration_ends_decide_the_reconcile() {
    assert_eq!(enumeration_step(Ok(PhotoKitEnumerationTerminal::Complete)), EnumerationStep::Materialize);
    assert_eq!(
        enumeration_step(Ok(PhotoKitEnumerationTerminal::AlbumUnavailable)),
        EnumerationStep::ScopeUnavailable {
            reason: PhotoKitAvailabilityReasonV1::ScopeUnavailable,
            terminal_reason: "scope_unavailable",
        }
    );
    assert_eq!(enumeration_step(Ok(PhotoKitEnumerationTerminal::Incomplete)), EnumerationStep::FailIncomplete);
    assert_eq!(enumeration_step(Err(PhotoKitNativeError::Cancelled)), EnumerationStep::FailIncomplete);
}

#[test]
fn ended_operations_replay_or_refuse() {
    assert_eq!(operation_state_from_db("stale"), Some(OperationState::Stale));
    assert_eq!(operation_state_from_db("done"), None);
    assert_eq!(complete_step("complete"), Ok(FinalizeStep::Replay));
    assert_eq!(complete_step("materializing"), Ok(FinalizeStep::Proceed));
    assert_eq!(complete_step("failed"), Err(PlatformError::Conflict("photokit_operation_not_replayable")));
    assert_eq!(complete_step("enumerating"), Err(PlatformError::Conflict("photokit_stale_fence")));
    assert_eq!(unavailable_step("failed"), Ok(FinalizeStep::Replay));
    assert_eq!(unavailable_step("enumerating"), Ok(FinalizeStep::Proceed));
    assert_eq!(unavailable_step("interrupted"), Err(PlatformError::Conflict("photokit_operation_not_replayable")));
    assert_eq!(unavailable_step("other"), Err(PlatformError::Conflict("photokit_operation_state")));
}

fn observation(ordinal: u16, bytes: Option<u64>) -> PhotoKitFinalizedObservation {
    match bytes {
        Some(byte_length) => PhotoKitFinalizedObservation {
            ordinal,
            availability: PhotoKitAvailabilityV1::Available,
            reason: PhotoKitAvailabilityReasonV1::Materialized,
            materialization: Some(PhotoKitMaterializationRecord {
                resource_fingerprint: SHA.to_owned(),
                blob: BlobRecord { sha256: SHA.to_owned(), byte_length },
                resource_uti: "public.png".to_owned(),
                pixel_width: 1,
                pixel_height: 1,
            }),
        },
        None => unavailable_observation(ordinal, PhotoKitAvailabilityReasonV1::TransferFailed),
    }
}

#[test]
fn finalized_observations_are_counted() {
    let observations = vec![observation(0, Some(10)), observation(1, None), observation(2, Some(5))];
    assert_eq!(check_enumeration_complete(&[0, 1, 2], &observations), Ok(()));
    assert_eq!(
        check_enumeration_complete(&[0, 2, 1], &observations),
        Err(PlatformError::Conflict("photokit_enumeration_incomplete"))
    );
    assert_eq!(
        check_enumeration_complete(&[0, 1], &observations),
        Err(PlatformError::Conflict("photokit_enumeration_incomplete"))
    );
    assert_eq!(availability_counts(&observations), (2, 1));
    assert_eq!(availability_counts(&[]), (0, 0));
    assert_eq!(accepted_bytes_total(&observations), Ok(15));
    assert_eq!(
        accepted_bytes_total(&[observation(0, Some(u64::MAX))]),
        Err(PlatformError::Corrupt("photokit_accepted_bytes"))
    );
    assert_eq!(
        accepted_bytes_total(&[observation(0, Some(i64::MAX as u64)), observation(1, Some(1))]),
        Err(PlatformError::Corrupt("photokit_accepted_bytes"))
    );
    assert_eq!(count_transition(3, true), Ok(4));
    assert_eq!(count_transition(u16::MAX, false), Ok(u16::MAX));
    assert_eq!(count_transition(u16::MAX, true), Err(PlatformError::Corrupt("photokit_transition_count")));
    assert_eq!(generation_param(7), Ok(7));
    assert_eq!(generation_param(u64::MAX), Err(PlatformError::Corrupt("photokit_generation")));
    assert_eq!(next_fence(5), Ok(6));
    assert_eq!(next_fence(i64::MAX), Err(PlatformError::Corrupt("photokit_fence")));
    assert_eq!(next_membership_generation(0), Ok(1));
    assert_eq!(next_membership_generation(9_007_199_254_740_989), Ok(9_007_199_254_740_990));
    assert_eq!(
        next_membership_generation(9_007_199_254_740_990),
        Err(PlatformError::Corrupt("photokit_generation"))
    );
}

#[test]
fn attempts_are_checked_before_they_are_recorded() {
    assert_eq!(validate_attempt(0, 10, "materialized"), Ok(()));
    assert_eq!(validate_attempt(1, 41_943_040, "transfer_failed"), Ok(()));
    for (ordinal, bytes, outcome) in [(2, 0, "materialized"), (0, 41_943_041, "materialized"), (0, 0, "done")] {
        assert_eq!(
            validate_attempt(ordinal, bytes, outcome),
            Err(PlatformError::InvalidInput("photokit_attempt"))
        );
    }
}

const SCHEMA: &str = "
CREATE TABLE photokit_enrollments(
    enrollment_epoch TEXT PRIMARY KEY, key_reference TEXT NOT NULL, state TEXT NOT NULL,
    allow_icloud_downloads INTEGER NOT NULL, operation_fence INTEGER NOT NULL,
    active_membership_generation INTEGER, created_at_ms INTEGER NOT NULL);
CREATE TABLE photokit_operations(
    operation_id TEXT PRIMARY KEY, request_id TEXT NOT NULL UNIQUE, enrollment_epoch TEXT NOT NULL,
    store_authority_epoch TEXT NOT NULL, reconciliation_fence INTEGER NOT NULL,
    proposed_membership_generation INTEGER NOT NULL, trigger_kind TEXT NOT NULL,
    state TEXT NOT NULL, observed_count INTEGER NOT NULL DEFAULT 0, terminal_reason TEXT,
    started_at_ms INTEGER NOT NULL, finished_at_ms INTEGER);
CREATE TABLE photokit_membership_generations(
    enrollment_epoch TEXT NOT NULL, membership_generation INTEGER NOT NULL);
CREATE TABLE photokit_operation_observations(
    operation_id TEXT NOT NULL, ordinal INTEGER NOT NULL, asset_id TEXT NOT NULL,
    locator_id TEXT NOT NULL, resource_uti TEXT, resource_state TEXT NOT NULL);
CREATE TABLE photokit_locator_records(
    locator_id TEXT PRIMARY KEY, enrollment_epoch TEXT NOT NULL, operation_id TEXT,
    record_kind TEXT NOT NULL, stable_row_id TEXT NOT NULL, key_version INTEGER NOT NULL,
    lookup_hmac BLOB NOT NULL, nonce BLOB NOT NULL, ciphertext BLOB NOT NULL,
    finalized INTEGER NOT NULL, created_at_ms INTEGER NOT NULL);
CREATE TABLE photokit_assets(
    asset_id TEXT PRIMARY KEY, enrollment_epoch TEXT NOT NULL, locator_id TEXT NOT NULL,
    created_at_ms INTEGER NOT NULL);
CREATE TABLE photokit_materialization_attempts(
    attempt_id TEXT PRIMARY KEY, operation_id TEXT NOT NULL, observation_ordinal INTEGER NOT NULL,
    attempt_ordinal INTEGER NOT NULL, network_access_allowed INTEGER NOT NULL,
    accepted_bytes INTEGER NOT NULL, result TEXT NOT NULL, created_at_ms INTEGER NOT NULL);
CREATE TABLE photokit_connector_state(
    singleton INTEGER PRIMARY KEY, state TEXT NOT NULL, authorization TEXT,
    active_enrollment_epoch TEXT, updated_at_ms INTEGER NOT NULL);
CREATE TABLE store_authority_epoch(singleton INTEGER PRIMARY KEY, epoch TEXT NOT NULL);
INSERT INTO store_authority_epoch VALUES (1, 'authority-1');
INSERT INTO photokit_connector_state VALUES (1, 'unconfigured', NULL, NULL, 0);
";

const REQUEST: &str = "44444444-4444-4444-8444-444444444444";
const EPOCH: &str = "22222222-2222-4222-8222-222222222222";

#[test]
fn operations_begin_replay_and_record_attempts() {
    let path = "file:photokit_operations?mode=memory&cache=shared";
    let keeper = rusqlite::Connection::open(path).unwrap();
    keeper.execute_batch(SCHEMA).unwrap();
    let repository = PhotoKitRepository::new(Database::new(path.to_owned()));
    let user = PhotoKitReconcileTriggerV1::User;
    let authorized = PhotoKitAuthorizationV1::Authorized;
    assert_eq!(
        repository.begin_operation("not-a-uuid", user, authorized, 1),
        Err(PlatformError::InvalidInput("photokit_request_id"))
    );
    assert_eq!(
        repository.begin_operation(REQUEST, user, authorized, 1),
        Err(PlatformError::Conflict("photokit_not_configured"))
    );
    keeper
        .execute_batch(&format!(
            "INSERT INTO photokit_enrollments VALUES ('{EPOCH}', 'key', 'active', 1, 4, 2, 1);
             INSERT INTO photokit_membership_generations VALUES ('{EPOCH}', 2);
             UPDATE photokit_connector_state SET active_enrollment_epoch = '{EPOCH}', state = 'ready';"
        ))
        .unwrap();
    let (operation, replayed) = repository.begin_operation(REQUEST, user, authorized, 10).unwrap();
    assert!(!replayed);
    assert_eq!(operation.request_id, REQUEST);
    assert_eq!(operation.enrollment_epoch, EPOCH);
    assert_eq!(operation.store_authority_epoch, "authority-1");
    assert_eq!(operation.reconciliation_fence, 5);
    assert_eq!(operation.proposed_membership_generation, 3);
    assert_eq!(operation.trigger, user);
    let state: String = keeper
        .query_row("SELECT state FROM photokit_connector_state", [], |row| row.get(0))
        .unwrap();
    assert_eq!(state, "reconciling");

    let (again, replayed) = repository.begin_operation(REQUEST, user, authorized, 11).unwrap();
    assert!(replayed);
    assert_eq!(again, operation);
    assert_eq!(
        repository.begin_operation(REQUEST, PhotoKitReconcileTriggerV1::Startup, authorized, 12),
        Err(PlatformError::Conflict("photokit_request_reused"))
    );

    assert_eq!(
        repository.record_attempt(&operation, 0, 0, false, 10, "materialized", 20),
        Err(PlatformError::Conflict("photokit_stale_fence"))
    );

    let key = PhotoKitRootKey::from_bytes([9; 32]);
    assert_eq!(
        repository.record_observation(&operation, &key, 500, "asset-a", None, false, 15),
        Err(PlatformError::InvalidInput("photokit_observation_ordinal"))
    );
    assert_eq!(
        repository.record_observation(&operation, &key, 0, "asset-a", Some("bad\u{7}"), true, 15),
        Err(PlatformError::InvalidInput("photokit_resource_uti"))
    );
    let fresh = repository
        .record_observation(&operation, &key, 0, "asset-a", Some("public.png"), true, 15)
        .unwrap();
    assert_eq!(fresh.ordinal, 0);
    assert_eq!(fresh.resource_uti.as_deref(), Some("public.png"));
    assert!(fresh.supported);
    assert_eq!(validate_uuid(&fresh.asset_id, "asset"), Ok(()));
    let lookup = locator_lookup(&key, EPOCH, "asset", b"asset-b").unwrap();
    keeper
        .execute(
            "INSERT INTO photokit_locator_records VALUES
                ('known-locator', ?1, 'old-op', 'asset', 'known-asset', 1, ?2, x'00', x'00', 1, 1)",
            (EPOCH, lookup.to_vec()),
        )
        .unwrap();
    keeper
        .execute(
            "INSERT INTO photokit_assets VALUES ('known-asset', ?1, 'known-locator', 1)",
            [EPOCH],
        )
        .unwrap();
    let known = repository
        .record_observation(&operation, &key, 1, "asset-b", None, false, 16)
        .unwrap();
    assert_eq!(known.asset_id, "known-asset");
    assert_eq!(known.locator_id, "known-locator");
    assert_eq!(known.resource_uti, None);
    let observed: i64 = keeper
        .query_row("SELECT observed_count FROM photokit_operations", [], |row| row.get(0))
        .unwrap();
    assert_eq!(observed, 2);

    repository.mark_materializing(&operation).unwrap();
    assert_eq!(
        repository.mark_materializing(&operation),
        Err(PlatformError::Conflict("photokit_stale_fence"))
    );
    repository.record_attempt(&operation, 0, 0, false, 10, "materialized", 20).unwrap();
    assert_eq!(
        repository.record_attempt(&operation, 0, 2, false, 10, "materialized", 20),
        Err(PlatformError::InvalidInput("photokit_attempt"))
    );
    let attempts: i64 = keeper
        .query_row("SELECT COUNT(*) FROM photokit_materialization_attempts", [], |row| row.get(0))
        .unwrap();
    assert_eq!(attempts, 1);
}

#[test]
fn request_identities_need_canonical_ids_and_positive_counters() {
    let operation = wardrobe_platform::photokit_types::PhotoKitOperation {
        operation_id: "11111111-1111-4111-8111-111111111111".to_owned(),
        request_id: REQUEST.to_owned(),
        enrollment_epoch: EPOCH.to_owned(),
        store_authority_epoch: "authority-1".to_owned(),
        reconciliation_fence: 3,
        proposed_membership_generation: 4,
        trigger: PhotoKitReconcileTriggerV1::User,
    };
    let identity = RequestIdentity::for_operation(&operation, 9).unwrap();
    assert_eq!(identity.operation_id, [0x11, 0x11, 0x11, 0x11, 0x11, 0x11, 0x41, 0x11, 0x81, 0x11, 0x11, 0x11, 0x11, 0x11, 0x11, 0x11]);
    assert_eq!(identity.enrollment_epoch[0], 0x22);
    assert_eq!(identity.reconciliation_fence, 3);
    assert_eq!(identity.generation, 4);
    assert_eq!(identity.request_sequence, 9);
    let mut upper = operation.clone();
    upper.operation_id = "11111111-1111-4111-8111-11111111111A".to_owned();
    assert_eq!(RequestIdentity::for_operation(&upper, 9).err(), Some(PhotoKitNativeError::InvalidResponse));
    let mut nil = operation.clone();
    nil.enrollment_epoch = "00000000-0000-0000-0000-000000000000".to_owned();
    assert_eq!(RequestIdentity::for_operation(&nil, 9).err(), Some(PhotoKitNativeError::InvalidResponse));
    let mut unfenced = operation.clone();
    unfenced.reconciliation_fence = 0;
    assert_eq!(RequestIdentity::for_operation(&unfenced, 9).err(), Some(PhotoKitNativeError::InvalidResponse));
    let mut ungenerated = operation;
    ungenerated.proposed_membership_generation = 0;
    assert_eq!(RequestIdentity::for_operation(&ungenerated, 9).err(), Some(PhotoKitNativeError::InvalidResponse));
}
