use crate::photokit_finalize::{
    generation_param, next_fence, next_membership_generation, MAX_MEMBERSHIP_GENERATION,
};
use crate::photokit_materialize::{attempt_fields_ok, validate_attempt};
use crate::photokit_records::{
    authorization_to_db, printable_ascii_text, trigger_from_db, trigger_of_name, trigger_to_db,
    validate_ascii, validate_key_reference, validate_uuid,
};
use crate::photokit_types::{
    PhotoKitAuthorizationV1, PhotoKitEnrollment, PhotoKitKeyCleanupIntent, PhotoKitOperation,
    PhotoKitReconcileTriggerV1, PhotoKitRecordedObservation,
};
use crate::platform_error::{PlatformError, PlatformResult};
use crate::photokit_locator::{
    decrypt_locator, locator_lookup, protect_locator, spec_decrypt_locator, LOCATOR_KEY_VERSION,
};
use crate::photokit_types::PhotoKitRootKey;
use crate::photokit_statements::{
    active_enrollment_query, active_fence_query, album_locator_query, asset_locator_insert,
    attempt_insert, authority_epoch_query, cleanup_attempts_delete, cleanup_intent_insert,
    cleanup_locators_delete, cleanup_observations_delete, connector_reconciling_update,
    connector_rest_update, current_operation_query, enrollment_insert, fence_update,
    intent_complete_update, intent_fail_update, interrupted_operations_query,
    key_cleanup_complete_update, known_asset_query, largest_generation_query,
    materializing_update, observation_count_query, observation_insert, observed_count_update,
    operation_by_request_query, operation_insert, operation_interrupt_update,
    pending_enrollment_delete, pending_enrollments_query, pending_intents_query,
    pending_key_query, provisional_locators_delete, CLEANUP_INTENT_INSERT_SQL,
    PENDING_ENROLLMENT_DELETE_SQL, PROVISIONAL_LOCATORS_DELETE_SQL,
};
use crate::store::{
    run_all, statement_view, BoundValue, SqlStatement,
    begin_immediate, blob_at, blob_column, commit, fetch, integer_at, integer_column,
    optional_integer_at, optional_integer_column, run, text_at, text_column, Database, SqlValue,
};
use crate::text::{bytes_equal, bytes_to_vec, str_equal};
use crate::uuid_text::{canonical_uuid, hyphenated_text, is_version4, new_uuid_v4, uuid_hyphenated};
use vstd::prelude::*;
use vstd::string::StringSliceAdditionalSpecFns;

verus! {

/// The PhotoKit connector's records in the application database.
#[derive(Clone, Debug)]
pub struct PhotoKitRepository {
    database: Database,
}

/// The generation as stored: a nullable integer read back as `u64`.
pub open spec fn stored_generation(value: Option<i64>) -> Option<u64> {
    match value {
        Some(v) => Some(v as u64),
        None => None,
    }
}

/// `enrollment` is what a row of (epoch, key reference, iCloud flag, fence,
/// generation) reads as.
pub open spec fn enrollment_of_row(enrollment: PhotoKitEnrollment, row: Seq<SqlValue>) -> bool {
    &&& text_at(row, 0) == Some(enrollment.enrollment_epoch@)
    &&& text_at(row, 1) == Some(enrollment.key_reference@)
    &&& integer_at(row, 2) matches Some(flag) && enrollment.allow_icloud_downloads == (flag != 0)
    &&& integer_at(row, 3) matches Some(fence) && enrollment.operation_fence == fence as u64
    &&& optional_integer_at(row, 4) matches Some(generation) && enrollment.membership_generation
        == stored_generation(generation)
}

/// Every column of an enrollment row has the kind that it is read as.
pub open spec fn enrollment_row(row: Seq<SqlValue>) -> bool {
    &&& text_at(row, 0) is Some
    &&& text_at(row, 1) is Some
    &&& integer_at(row, 2) is Some
    &&& integer_at(row, 3) is Some
    &&& optional_integer_at(row, 4) is Some
}

/// `intent` is what a row of (intent id, key reference) reads as.
pub open spec fn intent_of_row(intent: PhotoKitKeyCleanupIntent, row: Seq<SqlValue>) -> bool {
    &&& text_at(row, 0) == Some(intent.intent_id@)
    &&& text_at(row, 1) == Some(intent.key_reference@)
}

pub open spec fn intent_row(row: Seq<SqlValue>) -> bool {
    text_at(row, 0) is Some && text_at(row, 1) is Some
}

/// The rows of a query, each as the sequence of its column values.
pub open spec fn row_views(rows: Seq<Vec<SqlValue>>) -> Seq<Seq<SqlValue>> {
    rows.map_values(|row: Vec<SqlValue>| row@)
}

/// `enrollments` are what `rows` read as, one for one and in order.
pub open spec fn enrollments_read_from(enrollments: Seq<PhotoKitEnrollment>, rows: Seq<Seq<SqlValue>>) -> bool {
    &&& enrollments.len() == rows.len()
    &&& forall|i: int| 0 <= i < rows.len() ==> enrollment_of_row(#[trigger] enrollments[i], rows[i])
}

/// `intents` are what `rows` read as, one for one and in order.
pub open spec fn intents_read_from(intents: Seq<PhotoKitKeyCleanupIntent>, rows: Seq<Seq<SqlValue>>) -> bool {
    &&& intents.len() == rows.len()
    &&& forall|i: int| 0 <= i < rows.len() ==> intent_of_row(#[trigger] intents[i], rows[i])
}

/// `enrollment` is what the first of `rows` reads as, or `None` when there
/// is no row.
pub open spec fn first_enrollment_read_from(enrollment: Option<PhotoKitEnrollment>, rows: Seq<Seq<SqlValue>>) -> bool {
    match enrollment {
        None => rows.len() == 0,
        Some(e) => rows.len() > 0 && enrollment_of_row(e, rows[0]),
    }
}

/// `ids` are the first column of `rows` read as text, one for one.
pub open spec fn texts_read_from(ids: Seq<String>, rows: Seq<Seq<SqlValue>>) -> bool {
    &&& ids.len() == rows.len()
    &&& forall|i: int| 0 <= i < rows.len() ==> text_at(rows[i], 0) == Some(#[trigger] ids[i]@)
}

pub fn enrollment_from_row(row: &Vec<SqlValue>) -> (enrollment: PlatformResult<PhotoKitEnrollment>)
    ensures
        match enrollment {
            Ok(e) => enrollment_of_row(e, row@),
            Err(e) => e == PlatformError::Sqlite && !enrollment_row(row@),
        },
{
    let enrollment_epoch = text_column(row, 0)?;
    let key_reference = text_column(row, 1)?;
    let flag = integer_column(row, 2)?;
    let fence = integer_column(row, 3)?;
    let generation = optional_integer_column(row, 4)?;
    Ok(PhotoKitEnrollment {
        enrollment_epoch,
        key_reference,
        allow_icloud_downloads: flag != 0,
        operation_fence: fence as u64,
        membership_generation: match generation {
            Some(v) => Some(v as u64),
            None => None,
        },
    })
}

/// Every row read as an enrollment, in order; `Sqlite` when one does not
/// read.
pub fn enrollments_from_rows(rows: &Vec<Vec<SqlValue>>) -> (enrollments: PlatformResult<
    Vec<PhotoKitEnrollment>,
>)
    ensures
        match enrollments {
            Ok(v) => v@.len() == rows@.len() && forall|i: int|
                0 <= i < rows@.len() ==> enrollment_of_row(#[trigger] v@[i], rows@[i]@),
            Err(e) => e == PlatformError::Sqlite && exists|i: int|
                0 <= i < rows@.len() && !enrollment_row(#[trigger] rows@[i]@),
        },
{
    let mut out: Vec<PhotoKitEnrollment> = Vec::new();
    let mut i: usize = 0;
    while i < rows.len()
        invariant
            i <= rows@.len(),
            out@.len() == i,
            forall|j: int| 0 <= j < i ==> enrollment_of_row(#[trigger] out@[j], rows@[j]@),
        decreases rows@.len() - i,
    {
        match enrollment_from_row(&rows[i]) {
            Ok(e) => out.push(e),
            Err(e) => {
                assert(!enrollment_row(rows@[i as int]@));
                return Err(e);
            },
        }
        i = i + 1;
    }
    Ok(out)
}

/// The first row read as an enrollment, as a single-row query reads it; no row
/// is `None`.
pub fn first_enrollment(rows: &Vec<Vec<SqlValue>>) -> (enrollment: PlatformResult<
    Option<PhotoKitEnrollment>,
>)
    ensures
        match enrollment {
            Ok(None) => rows@.len() == 0,
            Ok(Some(e)) => rows@.len() > 0 && enrollment_of_row(e, rows@[0]@),
            Err(e) => e == PlatformError::Sqlite && rows@.len() > 0 && !enrollment_row(rows@[0]@),
        },
{
    if rows.len() == 0 {
        return Ok(None);
    }
    let e = enrollment_from_row(&rows[0])?;
    Ok(Some(e))
}

pub fn intents_from_rows(rows: &Vec<Vec<SqlValue>>) -> (intents: PlatformResult<
    Vec<PhotoKitKeyCleanupIntent>,
>)
    ensures
        match intents {
            Ok(v) => v@.len() == rows@.len() && forall|i: int|
                0 <= i < rows@.len() ==> intent_of_row(#[trigger] v@[i], rows@[i]@),
            Err(e) => e == PlatformError::Sqlite && exists|i: int|
                0 <= i < rows@.len() && !intent_row(#[trigger] rows@[i]@),
        },
{
    let mut out: Vec<PhotoKitKeyCleanupIntent> = Vec::new();
    let mut i: usize = 0;
    while i < rows.len()
        invariant
            i <= rows@.len(),
            out@.len() == i,
            forall|j: int| 0 <= j < i ==> intent_of_row(#[trigger] out@[j], rows@[j]@),
        decreases rows@.len() - i,
    {
        let row = &rows[i];
        let intent_id = match text_column(row, 0) {
            Ok(t) => t,
            Err(e) => {
                assert(!intent_row(rows@[i as int]@));
                return Err(e);
            },
        };
        let key_reference = match text_column(row, 1) {
            Ok(t) => t,
            Err(e) => {
                assert(!intent_row(rows@[i as int]@));
                return Err(e);
            },
        };
        out.push(PhotoKitKeyCleanupIntent { intent_id, key_reference });
        i = i + 1;
    }
    Ok(out)
}

/// The first column of every row as text, as the operation ids are read.
pub fn texts_from_rows(rows: &Vec<Vec<SqlValue>>) -> (texts: PlatformResult<Vec<String>>)
    ensures
        match texts {
            Ok(v) => v@.len() == rows@.len() && forall|i: int|
                0 <= i < rows@.len() ==> text_at(rows@[i]@, 0) == Some(#[trigger] v@[i]@),
            Err(e) => e == PlatformError::Sqlite && exists|i: int|
                0 <= i < rows@.len() && (#[trigger] text_at(rows@[i]@, 0)) is None,
        },
{
    let mut out: Vec<String> = Vec::new();
    let mut i: usize = 0;
    while i < rows.len()
        invariant
            i <= rows@.len(),
            out@.len() == i,
            forall|j: int| 0 <= j < i ==> text_at(rows@[j]@, 0) == Some(#[trigger] out@[j]@),
        decreases rows@.len() - i,
    {
        match text_column(&rows[i], 0) {
            Ok(t) => out.push(t),
            Err(e) => {
                assert(text_at(rows@[i as int]@, 0) is None);
                return Err(e);
            },
        }
        i = i + 1;
    }
    Ok(out)
}

/// A cleanup intent update must change exactly the one pending intent.
pub fn single_change(changed: usize) -> (result: PlatformResult<()>)
    ensures
        result is Ok <==> changed == 1,
        result matches Err(e) ==> e == PlatformError::Conflict("photokit_cleanup_intent_state"),
{
    if changed != 1 {
        return Err(PlatformError::Conflict("photokit_cleanup_intent_state"));
    }
    Ok(())
}

/// The reasons for which a pending enrollment may be removed.
pub open spec fn is_cleanup_reason(reason: Seq<char>) -> bool {
    reason == "pending_enrollment_recovery"@ || reason == "incomplete_enrollment_restore"@
}

pub fn validate_cleanup_reason(reason: &str) -> (result: PlatformResult<()>)
    ensures
        result is Ok <==> is_cleanup_reason(reason@),
        result matches Err(e) ==> e == PlatformError::InvalidInput("photokit_cleanup_reason"),
{
    if str_equal(reason, "pending_enrollment_recovery") || str_equal(
        reason,
        "incomplete_enrollment_restore",
    ) {
        Ok(())
    } else {
        Err(PlatformError::InvalidInput("photokit_cleanup_reason"))
    }
}

/// The failure codes that a failed key deletion is recorded with.
pub open spec fn is_cleanup_failure_code(code: Seq<char>) -> bool {
    code == "locked"@ || code == "unavailable"@ || code == "internal"@
}

pub fn validate_cleanup_failure_code(code: &str) -> (result: PlatformResult<()>)
    ensures
        result is Ok <==> is_cleanup_failure_code(code@),
        result matches Err(e) ==> e == PlatformError::InvalidInput("photokit_cleanup_failure_code"),
{
    if str_equal(code, "locked") || str_equal(code, "unavailable") || str_equal(code, "internal") {
        Ok(())
    } else {
        Err(PlatformError::InvalidInput("photokit_cleanup_failure_code"))
    }
}

/// Deletes what an interrupted operation left unfinished.
fn cleanup_provisional_operation(connection: &rusqlite::Connection, operation_id: &str) -> (result:
    PlatformResult<()>)
    ensures
        result matches Err(e) ==> e == PlatformError::Sqlite,
{
    run(connection, cleanup_attempts_delete(operation_id))?;
    run(connection, cleanup_observations_delete(operation_id))?;
    run(connection, cleanup_locators_delete(operation_id))?;
    Ok(())
}

/// A row of (stable row id, lookup MAC, nonce, ciphertext) that decrypts,
/// as an album record of the enrollment, to `plaintext` under the root key.
pub open spec fn album_row_decrypts_to(row: Seq<SqlValue>, enrollment_epoch: Seq<u8>, root: Seq<u8>, plaintext: Seq<u8>) -> bool {
    match (text_at(row, 0), blob_at(row, 1), blob_at(row, 2), blob_at(row, 3)) {
        (Some(stable_row_id), Some(lookup), Some(nonce), Some(ciphertext)) => spec_decrypt_locator(
            root,
            enrollment_epoch,
            "album".spec_bytes(),
            vstd::utf8::encode_utf8(stable_row_id),
            lookup,
            nonce,
            ciphertext,
        ) == Ok::<Seq<u8>, PlatformError>(plaintext),
        _ => false,
    }
}

/// The album locator stored in a finalized album record row of (stable row
/// id, lookup MAC, nonce, ciphertext): it decrypts under the root key and is
/// UTF-8 text.
pub fn album_locator_from_row(row: &Vec<SqlValue>, enrollment_epoch: &str, root_key: &PhotoKitRootKey) -> (locator:
    PlatformResult<String>)
    ensures
        match locator {
            Ok(s) => album_row_decrypts_to(
                row@,
                enrollment_epoch.spec_bytes(),
                root_key.key_bytes(),
                vstd::utf8::encode_utf8(s@),
            ),
            Err(e) => e == PlatformError::Sqlite || e == PlatformError::Corrupt("photokit_locator_record")
                || e == PlatformError::Corrupt("photokit_locator_key") || e == PlatformError::Corrupt(
                "photokit_locator_decrypt",
            ) || e == PlatformError::Corrupt("photokit_locator_lookup") || e
                == PlatformError::Corrupt("photokit_album_locator_encoding"),
        },
{
    let stable_row_id = text_column(row, 0)?;
    let lookup = blob_column(row, 1)?;
    let nonce = blob_column(row, 2)?;
    let ciphertext = blob_column(row, 3)?;
    let plaintext = match decrypt_locator(
        root_key,
        enrollment_epoch,
        "album",
        stable_row_id.as_str(),
        lookup.as_slice(),
        nonce.as_slice(),
        ciphertext.as_slice(),
    ) {
        Ok(p) => p,
        Err(e) => {
            return Err(e);
        },
    };
    let ghost opened = plaintext@;
    match crate::text::string_from_utf8(plaintext) {
        Some(text) => {
            assert(text_at(row@, 0) == Some(stable_row_id@));
            Ok(text)
        },
        None => Err(PlatformError::Corrupt("photokit_album_locator_encoding")),
    }
}

/// `operation` is what a row of (operation id, request id, enrollment epoch,
/// store authority epoch, fence, proposed generation, trigger) reads as.
pub open spec fn operation_of_row(operation: PhotoKitOperation, row: Seq<SqlValue>) -> bool {
    &&& text_at(row, 0) == Some(operation.operation_id@)
    &&& text_at(row, 1) == Some(operation.request_id@)
    &&& text_at(row, 2) == Some(operation.enrollment_epoch@)
    &&& text_at(row, 3) == Some(operation.store_authority_epoch@)
    &&& integer_at(row, 4) matches Some(fence) && operation.reconciliation_fence == fence as u64
    &&& integer_at(row, 5) matches Some(generation) && operation.proposed_membership_generation
        == generation as u64
    &&& text_at(row, 6) matches Some(trigger) && trigger_of_name(trigger) == Some(operation.trigger)
}

pub open spec fn operation_row(row: Seq<SqlValue>) -> bool {
    &&& text_at(row, 0) is Some
    &&& text_at(row, 1) is Some
    &&& text_at(row, 2) is Some
    &&& text_at(row, 3) is Some
    &&& integer_at(row, 4) is Some
    &&& integer_at(row, 5) is Some
    &&& text_at(row, 6) matches Some(trigger) && trigger_of_name(trigger) is Some
}

pub fn operation_from_row(row: &Vec<SqlValue>) -> (operation: PlatformResult<PhotoKitOperation>)
    ensures
        match operation {
            Ok(o) => operation_of_row(o, row@),
            Err(e) => e == PlatformError::Sqlite && !operation_row(row@),
        },
{
    let operation_id = text_column(row, 0)?;
    let request_id = text_column(row, 1)?;
    let enrollment_epoch = text_column(row, 2)?;
    let store_authority_epoch = text_column(row, 3)?;
    let fence = integer_column(row, 4)?;
    let generation = integer_column(row, 5)?;
    let trigger_name = text_column(row, 6)?;
    let trigger = match trigger_from_db(trigger_name.as_str()) {
        Ok(t) => t,
        Err(_) => {
            return Err(PlatformError::Sqlite);
        },
    };
    Ok(PhotoKitOperation {
        operation_id,
        request_id,
        enrollment_epoch,
        store_authority_epoch,
        reconciliation_fence: fence as u64,
        proposed_membership_generation: generation as u64,
        trigger,
    })
}

/// Checks that the operation is still the current one of the active
/// enrollment, in `expected_state`, under the store's authority epoch: a
/// fence past `i64` is `Corrupt("photokit_fence")`, an operation that is not
/// current `Conflict("photokit_stale_fence")`.
fn ensure_current_operation(connection: &rusqlite::Connection, operation: &PhotoKitOperation, expected_state: &str) -> (result:
    PlatformResult<()>)
    ensures
        operation.reconciliation_fence > i64::MAX ==> result == Err::<(), PlatformError>(
            PlatformError::Corrupt("photokit_fence"),
        ),
        result matches Err(e) ==> e == PlatformError::Sqlite || e == PlatformError::Corrupt(
            "photokit_fence",
        ) || e == PlatformError::Conflict("photokit_stale_fence"),
{
    let fence = generation_param(operation.reconciliation_fence);
    let fence = match fence {
        Ok(f) => f,
        Err(_) => {
            return Err(PlatformError::Corrupt("photokit_fence"));
        },
    };
    let rows = fetch(connection, current_operation_query(operation.operation_id.as_str(), expected_state, fence))?;
    if rows.len() == 0 {
        return Err(PlatformError::Conflict("photokit_stale_fence"));
    }
    Ok(())
}

/// A new operation's fence and proposed generation are one past the
/// enrollment's fence read from `fence_row` (second column) and one past the
/// largest recorded generation read from `largest_row`, within the largest
/// generation allowed.
pub open spec fn fence_and_generation_read(
    fence_row: Seq<SqlValue>,
    largest_row: Seq<SqlValue>,
    operation: PhotoKitOperation,
) -> bool {
    &&& integer_at(fence_row, 1) matches Some(f) && operation.reconciliation_fence == (f + 1) as u64
    &&& integer_at(largest_row, 0) matches Some(g) && operation.proposed_membership_generation == (g
        + 1) as u64 && g + 1 <= MAX_MEMBERSHIP_GENERATION
}

/// The statements that remove a pending enrollment, given the rows that the
/// pending key query read: none when it is not pending; else the cleanup
/// intent for the key in the first row's first column, then the deletion of
/// its unfinalized locator records and of the enrollment. A key that is not
/// text is `Sqlite`.
pub fn removal_statements(
    rows: &Vec<Vec<SqlValue>>,
    enrollment_epoch: &str,
    intent_id: &str,
    cleanup_reason: &str,
    now_ms: i64,
) -> (statements: PlatformResult<Vec<SqlStatement>>)
    ensures
        match statements {
            Ok(v) => if rows@.len() == 0 {
                v@.len() == 0
            } else {
                &&& text_at(rows@[0]@, 0) matches Some(key)
                &&& v@.len() == 3
                &&& statement_view(v@[0]) == (
                    CLEANUP_INTENT_INSERT_SQL@,
                    seq![
                        BoundValue::Text(intent_id@),
                        BoundValue::Text(enrollment_epoch@),
                        BoundValue::Text(key),
                        BoundValue::Text(cleanup_reason@),
                        BoundValue::Integer(now_ms),
                    ],
                )
                &&& statement_view(v@[1]) == (
                    PROVISIONAL_LOCATORS_DELETE_SQL@,
                    seq![BoundValue::Text(enrollment_epoch@)],
                )
                &&& statement_view(v@[2]) == (
                    PENDING_ENROLLMENT_DELETE_SQL@,
                    seq![BoundValue::Text(enrollment_epoch@)],
                )
            },
            Err(e) => e == PlatformError::Sqlite && rows@.len() > 0 && text_at(rows@[0]@, 0) is None,
        },
{
    let mut statements: Vec<SqlStatement> = Vec::new();
    if rows.len() > 0 {
        let key_reference = text_column(&rows[0], 0)?;
        statements.push(cleanup_intent_insert(intent_id, enrollment_epoch, key_reference.as_str(), cleanup_reason, now_ms));
        statements.push(provisional_locators_delete(enrollment_epoch));
        statements.push(pending_enrollment_delete(enrollment_epoch));
        assert(statement_view(statements@[0]).1 =~= seq![
            BoundValue::Text(intent_id@),
            BoundValue::Text(enrollment_epoch@),
            BoundValue::Text(key_reference@),
            BoundValue::Text(cleanup_reason@),
            BoundValue::Integer(now_ms),
        ]);
        assert(statement_view(statements@[1]).1 =~= seq![BoundValue::Text(enrollment_epoch@)]);
        assert(statement_view(statements@[2]).1 =~= seq![BoundValue::Text(enrollment_epoch@)]);
    }
    Ok(statements)
}

/// A fresh version 4 UUID in its canonical text; the random source failing
/// is `Keychain("random_unavailable")`.
fn fresh_uuid_text() -> (text: PlatformResult<String>)
    ensures
        match text {
            Ok(t) => exists|b: Seq<u8>| t@ == uuid_hyphenated(b) && is_version4(b),
            Err(e) => e == PlatformError::Keychain("random_unavailable"),
        },
{
    match new_uuid_v4() {
        Some(bytes) => Ok(hyphenated_text(bytes)),
        None => Err(PlatformError::Keychain("random_unavailable")),
    }
}

impl PhotoKitRepository {
    pub closed spec fn stored_database(&self) -> Database {
        self.database
    }

    pub fn new(database: Database) -> (repository: Self)
        ensures
            repository.stored_database() == database,
    {
        PhotoKitRepository { database }
    }

    pub fn database(&self) -> (database: &Database)
        ensures
            *database == self.stored_database(),
    {
        &self.database
    }

    /// Records a pending enrollment under a fresh epoch. The key reference
    /// must be printable ASCII of at most 128 bytes.
    pub fn reserve_enrollment(&self, key_reference: &str, allow_icloud_downloads: bool, now_ms: i64) -> (enrollment:
        PlatformResult<PhotoKitEnrollment>)
        ensures
            !printable_ascii_text(key_reference.spec_bytes(), 128) ==> enrollment == Err::<
                PhotoKitEnrollment,
                PlatformError,
            >(PlatformError::InvalidInput("photokit_key_reference")),
            printable_ascii_text(key_reference.spec_bytes(), 128) ==> match enrollment {
                Ok(e) => {
                    &&& e.key_reference@ == key_reference@
                    &&& e.allow_icloud_downloads == allow_icloud_downloads
                    &&& e.operation_fence == 0
                    &&& e.membership_generation is None
                    &&& exists|b: Seq<u8>| e.enrollment_epoch@ == uuid_hyphenated(b) && is_version4(b)
                },
                Err(e) => e == PlatformError::Sqlite || e == PlatformError::Keychain("random_unavailable"),
            },
    {
        validate_key_reference(key_reference)?;
        let enrollment_epoch = fresh_uuid_text()?;
        let connection = self.database.connection()?;
        begin_immediate(&connection)?;
        let flag: i64 = if allow_icloud_downloads {
            1
        } else {
            0
        };
        run(&connection, enrollment_insert(enrollment_epoch.as_str(), key_reference, flag, now_ms))?;
        commit(&connection)?;
        Ok(PhotoKitEnrollment {
            enrollment_epoch,
            key_reference: key_reference.to_owned(),
            allow_icloud_downloads,
            operation_fence: 0,
            membership_generation: None,
        })
    }

    /// Removes a pending enrollment and records its key for deletion, for one
    /// of the two cleanup reasons. An epoch that is not pending is left alone.
    pub fn remove_pending_enrollment(&self, enrollment_epoch: &str, now_ms: i64, cleanup_reason: &str) -> (result:
        PlatformResult<()>)
        ensures
            !canonical_uuid(enrollment_epoch@) ==> result == Err::<(), PlatformError>(
                PlatformError::InvalidInput("photokit_enrollment_epoch"),
            ),
            canonical_uuid(enrollment_epoch@) && !is_cleanup_reason(cleanup_reason@) ==> result
                == Err::<(), PlatformError>(PlatformError::InvalidInput("photokit_cleanup_reason")),
            canonical_uuid(enrollment_epoch@) && is_cleanup_reason(cleanup_reason@) ==> (result matches Err(
                e,
            ) ==> e == PlatformError::Sqlite || e == PlatformError::Keychain("random_unavailable")),
    {
        validate_uuid(enrollment_epoch, "photokit_enrollment_epoch")?;
        validate_cleanup_reason(cleanup_reason)?;
        let connection = self.database.connection()?;
        begin_immediate(&connection)?;
        let rows = fetch(&connection, pending_key_query(enrollment_epoch))?;
        let intent_id = if rows.len() > 0 {
            fresh_uuid_text()?
        } else {
            String::new()
        };
        let statements = removal_statements(&rows, enrollment_epoch, intent_id.as_str(), cleanup_reason, now_ms)?;
        run_all(&connection, statements)?;
        commit(&connection)?;
        Ok(())
    }

    /// Marks the pending cleanup intents of a key reference complete.
    pub fn mark_key_cleanup_complete(&self, key_reference: &str, now_ms: i64) -> (result: PlatformResult<
        (),
    >)
        ensures
            !printable_ascii_text(key_reference.spec_bytes(), 128) ==> result == Err::<
                (),
                PlatformError,
            >(PlatformError::InvalidInput("photokit_key_reference")),
            printable_ascii_text(key_reference.spec_bytes(), 128) ==> (result matches Err(e) ==> e
                == PlatformError::Sqlite),
    {
        validate_key_reference(key_reference)?;
        let connection = self.database.connection()?;
        run(&connection, key_cleanup_complete_update(key_reference, now_ms))?;
        Ok(())
    }

    /// The active enrollment of the connector, if one is configured.
    pub fn active_enrollment(&self) -> (enrollment: PlatformResult<Option<PhotoKitEnrollment>>)
        ensures
            enrollment matches Err(e) ==> e == PlatformError::Sqlite,
            enrollment matches Ok(v) ==> exists|rows: Seq<Seq<SqlValue>>|
                #[trigger] first_enrollment_read_from(v, rows),
    {
        let connection = self.database.connection()?;
        let rows = fetch(&connection, active_enrollment_query())?;
        let enrollment = first_enrollment(&rows)?;
        assert(first_enrollment_read_from(enrollment, row_views(rows@)));
        Ok(enrollment)
    }

    /// The album locator of an enrollment, decrypted under its root key.
    pub fn decrypt_album_locator(&self, enrollment_epoch: &str, root_key: &PhotoKitRootKey) -> (locator:
        PlatformResult<String>)
        ensures
            locator matches Err(e) ==> e == PlatformError::Sqlite || e == PlatformError::Corrupt(
                "photokit_album_locator_missing",
            ) || e == PlatformError::Corrupt("photokit_locator_record") || e == PlatformError::Corrupt(
                "photokit_locator_key",
            ) || e == PlatformError::Corrupt("photokit_locator_decrypt") || e
                == PlatformError::Corrupt("photokit_locator_lookup") || e == PlatformError::Corrupt(
                "photokit_album_locator_encoding",
            ),
            locator matches Ok(s) ==> exists|row: Seq<SqlValue>|
                album_row_decrypts_to(
                    row,
                    enrollment_epoch.spec_bytes(),
                    root_key.key_bytes(),
                    vstd::utf8::encode_utf8(s@),
                ),
    {
        let connection = self.database.connection()?;
        let rows = fetch(&connection, album_locator_query(enrollment_epoch))?;
        if rows.len() == 0 {
            return Err(PlatformError::Corrupt("photokit_album_locator_missing"));
        }
        album_locator_from_row(&rows[0], enrollment_epoch, root_key)
    }

    /// Marks every interrupted operation as such, deletes what it left
    /// unfinished, and returns the connector to rest. Returns how many
    /// operations were interrupted.
    pub fn recover_operations(&self, now_ms: i64) -> (recovered: PlatformResult<usize>)
        ensures
            recovered matches Err(e) ==> e == PlatformError::Sqlite,
            recovered matches Ok(n) ==> exists|ids: Seq<String>, rows: Seq<Seq<SqlValue>>|
                #[trigger] texts_read_from(ids, rows) && n == ids.len(),
    {
        let connection = self.database.connection()?;
        begin_immediate(&connection)?;
        let rows = fetch(&connection, interrupted_operations_query())?;
        let operation_ids = texts_from_rows(&rows)?;
        let mut i: usize = 0;
        while i < operation_ids.len()
            decreases operation_ids@.len() - i,
        {
            run(&connection, operation_interrupt_update(operation_ids[i].as_str(), now_ms))?;
            cleanup_provisional_operation(&connection, operation_ids[i].as_str())?;
            i = i + 1;
        }
        run(&connection, connector_rest_update(now_ms))?;
        commit(&connection)?;
        assert(texts_read_from(operation_ids@, row_views(rows@)));
        Ok(operation_ids.len())
    }

    /// The pending enrollments, oldest first.
    pub fn pending_enrollments(&self) -> (enrollments: PlatformResult<Vec<PhotoKitEnrollment>>)
        ensures
            enrollments matches Err(e) ==> e == PlatformError::Sqlite,
            enrollments matches Ok(v) ==> exists|rows: Seq<Seq<SqlValue>>|
                #[trigger] enrollments_read_from(v@, rows),
    {
        let connection = self.database.connection()?;
        let rows = fetch(&connection, pending_enrollments_query())?;
        let enrollments = enrollments_from_rows(&rows)?;
        assert(enrollments_read_from(enrollments@, row_views(rows@)));
        Ok(enrollments)
    }

    /// The pending key cleanup intents, oldest first.
    pub fn pending_key_cleanup_intents(&self) -> (intents: PlatformResult<Vec<PhotoKitKeyCleanupIntent>>)
        ensures
            intents matches Err(e) ==> e == PlatformError::Sqlite,
            intents matches Ok(v) ==> exists|rows: Seq<Seq<SqlValue>>|
                #[trigger] intents_read_from(v@, rows),
    {
        let connection = self.database.connection()?;
        let rows = fetch(&connection, pending_intents_query())?;
        let intents = intents_from_rows(&rows)?;
        assert(intents_read_from(intents@, row_views(rows@)));
        Ok(intents)
    }

    /// Completes a pending cleanup intent. Anything but exactly one changed
    /// intent is a conflict.
    pub fn complete_key_cleanup_intent(&self, intent_id: &str, now_ms: i64) -> (result: PlatformResult<()>)
        ensures
            !canonical_uuid(intent_id@) ==> result == Err::<(), PlatformError>(
                PlatformError::InvalidInput("photokit_cleanup_intent"),
            ),
            canonical_uuid(intent_id@) ==> (result matches Err(e) ==> e == PlatformError::Sqlite || e
                == PlatformError::Conflict("photokit_cleanup_intent_state")),
    {
        validate_uuid(intent_id, "photokit_cleanup_intent")?;
        let connection = self.database.connection()?;
        let changed = run(&connection, intent_complete_update(intent_id, now_ms))?;
        single_change(changed)
    }

    /// Records why deleting the key of a pending cleanup intent failed.
    pub fn fail_key_cleanup_intent(&self, intent_id: &str, failure_code: &str, now_ms: i64) -> (result:
        PlatformResult<()>)
        ensures
            !canonical_uuid(intent_id@) ==> result == Err::<(), PlatformError>(
                PlatformError::InvalidInput("photokit_cleanup_intent"),
            ),
            canonical_uuid(intent_id@) && !is_cleanup_failure_code(failure_code@) ==> result == Err::<
                (),
                PlatformError,
            >(PlatformError::InvalidInput("photokit_cleanup_failure_code")),
            canonical_uuid(intent_id@) && is_cleanup_failure_code(failure_code@) ==> (result matches Err(
                e,
            ) ==> e == PlatformError::Sqlite || e == PlatformError::Conflict(
                "photokit_cleanup_intent_state",
            )),
    {
        validate_uuid(intent_id, "photokit_cleanup_intent")?;
        validate_cleanup_failure_code(failure_code)?;
        let connection = self.database.connection()?;
        let changed = run(&connection, intent_fail_update(intent_id, failure_code, now_ms))?;
        single_change(changed)
    }

    /// Starts a reconcile operation for a request, or gives back the one the
    /// request already started, then with `true`. The request id is a
    /// canonical UUID; reusing it with another trigger is a conflict. A new
    /// operation takes the next fence of the active enrollment and proposes
    /// the next membership generation.
    pub fn begin_operation(
        &self,
        request_id: &str,
        trigger: PhotoKitReconcileTriggerV1,
        authorization: PhotoKitAuthorizationV1,
        now_ms: i64,
    ) -> (begun: PlatformResult<(PhotoKitOperation, bool)>)
        ensures
            !canonical_uuid(request_id@) ==> begun == Err::<(PhotoKitOperation, bool), PlatformError>(
                PlatformError::InvalidInput("photokit_request_id"),
            ),
            begun matches Ok((operation, _)) ==> operation.trigger == trigger,
            begun matches Ok((operation, false)) ==> operation.request_id@ == request_id@ && exists|
                b: Seq<u8>,
            | operation.operation_id@ == uuid_hyphenated(b) && is_version4(b),
            begun matches Ok((operation, false)) ==> exists|fence_row: Seq<SqlValue>, largest_row: Seq<SqlValue>|
                #[trigger] fence_and_generation_read(fence_row, largest_row, operation),
            canonical_uuid(request_id@) ==> (begun matches Err(e) ==> e == PlatformError::Sqlite || e
                == PlatformError::Keychain("random_unavailable") || e == PlatformError::Conflict(
                "photokit_request_reused",
            ) || e
                == PlatformError::Conflict("photokit_not_configured") || e == PlatformError::Corrupt(
                "photokit_fence",
            ) || e == PlatformError::Corrupt("photokit_generation")),
    {
        validate_uuid(request_id, "photokit_request_id")?;
        let connection = self.database.connection()?;
        begin_immediate(&connection)?;
        let existing = fetch(&connection, operation_by_request_query(request_id))?;
        if existing.len() > 0 {
            let operation = operation_from_row(&existing[0])?;
            if operation.trigger != trigger {
                return Err(PlatformError::Conflict("photokit_request_reused"));
            }
            commit(&connection)?;
            return Ok((operation, true));
        }
        let enrollments = fetch(&connection, active_fence_query())?;
        if enrollments.len() == 0 {
            return Err(PlatformError::Conflict("photokit_not_configured"));
        }
        let enrollment_epoch = text_column(&enrollments[0], 0)?;
        let current_fence = integer_column(&enrollments[0], 1)?;
        let fence = next_fence(current_fence)?;
        let largest = fetch(&connection, largest_generation_query(enrollment_epoch.as_str()))?;
        if largest.len() == 0 {
            return Err(PlatformError::Sqlite);
        }
        let largest_generation = integer_column(&largest[0], 0)?;
        let proposed_generation = next_membership_generation(largest_generation)?;
        let authority = fetch(&connection, authority_epoch_query())?;
        if authority.len() == 0 {
            return Err(PlatformError::Sqlite);
        }
        let store_authority_epoch = text_column(&authority[0], 0)?;
        let operation_id = fresh_uuid_text()?;
        run(&connection, fence_update(enrollment_epoch.as_str(), fence))?;
        run(&connection, operation_insert(operation_id.as_str(), request_id, enrollment_epoch.as_str(), store_authority_epoch.as_str(), fence, proposed_generation, trigger_to_db(trigger), now_ms))?;
        run(&connection, connector_reconciling_update(authorization_to_db(authorization), now_ms))?;
        commit(&connection)?;
        let operation = PhotoKitOperation {
            operation_id,
            request_id: request_id.to_owned(),
            enrollment_epoch,
            store_authority_epoch,
            reconciliation_fence: fence as u64,
            proposed_membership_generation: proposed_generation as u64,
            trigger,
        };
        assert(fence_and_generation_read(enrollments@[0]@, largest@[0]@, operation));
        Ok((operation, false))
    }

    /// Moves a current enumerating operation to materializing, once every
    /// observation it counted is recorded; a count that differs is
    /// `Corrupt("photokit_observation_count")`.
    pub fn mark_materializing(&self, operation: &PhotoKitOperation) -> (result: PlatformResult<()>)
        ensures
            operation.reconciliation_fence > i64::MAX ==> result is Err,
            result matches Err(e) ==> e == PlatformError::Sqlite || e == PlatformError::Corrupt(
                "photokit_fence",
            ) || e == PlatformError::Conflict("photokit_stale_fence") || e == PlatformError::Corrupt(
                "photokit_observation_count",
            ),
    {
        let connection = self.database.connection()?;
        begin_immediate(&connection)?;
        ensure_current_operation(&connection, operation, "enumerating")?;
        let counts = fetch(&connection, observation_count_query(operation.operation_id.as_str()))?;
        if counts.len() == 0 {
            return Err(PlatformError::Sqlite);
        }
        let observed = integer_column(&counts[0], 0)?;
        let recorded = integer_column(&counts[0], 1)?;
        if observed != recorded {
            return Err(PlatformError::Corrupt("photokit_observation_count"));
        }
        run(&connection, materializing_update(operation.operation_id.as_str()))?;
        commit(&connection)?;
        Ok(())
    }

    /// Records one transfer attempt of a materializing operation. The
    /// attempt must be one the repository accepts, else
    /// `InvalidInput("photokit_attempt")`.
    pub fn record_attempt(
        &self,
        operation: &PhotoKitOperation,
        ordinal: u16,
        attempt_ordinal: u8,
        network_access_allowed: bool,
        accepted_bytes: u64,
        result: &str,
        now_ms: i64,
    ) -> (recorded: PlatformResult<()>)
        ensures
            !attempt_fields_ok(attempt_ordinal, accepted_bytes, result@) ==> recorded == Err::<
                (),
                PlatformError,
            >(PlatformError::InvalidInput("photokit_attempt")),
            recorded matches Err(e) ==> e == PlatformError::InvalidInput("photokit_attempt") || e
                == PlatformError::Sqlite || e == PlatformError::Keychain("random_unavailable") || e
                == PlatformError::Corrupt("photokit_fence") || e == PlatformError::Conflict(
                "photokit_stale_fence",
            ),
    {
        validate_attempt(attempt_ordinal, accepted_bytes, result)?;
        let connection = self.database.connection()?;
        begin_immediate(&connection)?;
        ensure_current_operation(&connection, operation, "materializing")?;
        let network: i64 = if network_access_allowed {
            1
        } else {
            0
        };
        let attempt_id = fresh_uuid_text()?;
        run(&connection, attempt_insert(attempt_id.as_str(), operation.operation_id.as_str(), ordinal as i64, attempt_ordinal as i64, network, accepted_bytes as i64, result, now_ms))?;
        commit(&connection)?;
        Ok(())
    }

    /// Records what enumeration observed at `ordinal` of a current
    /// enumerating operation: the asset already known under the locator's
    /// lookup MAC, or else a new asset whose locator is encrypted under the
    /// root key. The ordinal is below 500, and a resource type is printable
    /// ASCII of at most 128 bytes.
    pub fn record_observation(
        &self,
        operation: &PhotoKitOperation,
        root_key: &PhotoKitRootKey,
        ordinal: u16,
        asset_locator: &str,
        resource_uti: Option<&str>,
        supported: bool,
        now_ms: i64,
    ) -> (recorded: PlatformResult<PhotoKitRecordedObservation>)
        ensures
            ordinal >= 500 ==> recorded == Err::<PhotoKitRecordedObservation, PlatformError>(
                PlatformError::InvalidInput("photokit_observation_ordinal"),
            ),
            ordinal < 500 && (resource_uti matches Some(u) && !printable_ascii_text(
                u.spec_bytes(),
                128,
            )) ==> recorded == Err::<PhotoKitRecordedObservation, PlatformError>(
                PlatformError::InvalidInput("photokit_resource_uti"),
            ),
            recorded matches Ok(o) ==> o.ordinal == ordinal && o.supported == supported && match resource_uti {
                Some(u) => o.resource_uti matches Some(r) && r@ == u@,
                None => o.resource_uti is None,
            },
    {
        if ordinal >= 500 {
            return Err(PlatformError::InvalidInput("photokit_observation_ordinal"));
        }
        match resource_uti {
            Some(uti) => validate_ascii(uti, 128, "photokit_resource_uti")?,
            None => {},
        }
        let lookup = locator_lookup(root_key, operation.enrollment_epoch.as_str(), "asset", asset_locator.as_bytes())?;
        let connection = self.database.connection()?;
        begin_immediate(&connection)?;
        ensure_current_operation(&connection, operation, "enumerating")?;
        let existing = fetch(&connection, known_asset_query(operation.enrollment_epoch.as_str(), bytes_to_vec(&lookup)))?;
        let (asset_id, locator_id) = if existing.len() > 0 {
            (text_column(&existing[0], 0)?, text_column(&existing[0], 1)?)
        } else {
            let asset_id = fresh_uuid_text()?;
            let locator_id = fresh_uuid_text()?;
            let protected = protect_locator(
                root_key,
                operation.enrollment_epoch.as_str(),
                "asset",
                asset_id.as_str(),
                asset_locator.as_bytes(),
            )?;
            if !bytes_equal(&protected.lookup_hmac, &lookup) {
                return Err(PlatformError::Corrupt("photokit_locator_lookup"));
            }
            run(&connection, asset_locator_insert(locator_id.as_str(), operation.enrollment_epoch.as_str(), operation.operation_id.as_str(), asset_id.as_str(), LOCATOR_KEY_VERSION, bytes_to_vec(&protected.lookup_hmac), bytes_to_vec(&protected.nonce), protected.ciphertext, now_ms))?;
            (asset_id, locator_id)
        };
        let state: &str = if supported {
            "supported"
        } else {
            "unsupported"
        };
        run(&connection, observation_insert(operation.operation_id.as_str(), ordinal as i64, asset_id.as_str(), locator_id.as_str(), resource_uti, state))?;
        run(&connection, observed_count_update(operation.operation_id.as_str()))?;
        commit(&connection)?;
        Ok(PhotoKitRecordedObservation {
            ordinal,
            asset_id,
            locator_id,
            resource_uti: match resource_uti {
                Some(uti) => Some(uti.to_owned()),
                None => None,
            },
            supported,
        })
    }
}

} // verus!
