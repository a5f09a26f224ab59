use crate::store::{bound_values, BoundValue, SqlParam, SqlStatement};
use vstd::prelude::*;

verus! {

/// Deletes the transfer attempts of an operation.
pub const CLEANUP_ATTEMPTS_DELETE_SQL: &'static str = "DELETE FROM photokit_materialization_attempts
         WHERE operation_id = ?1";

pub fn cleanup_attempts_delete(operation_id: &str) -> (statement: SqlStatement)
    ensures
        statement.sql@ == CLEANUP_ATTEMPTS_DELETE_SQL@,
        bound_values(statement.params@) == seq![BoundValue::Text(operation_id@)],
{
    let params = vec![SqlParam::Text(operation_id.to_owned())];
    SqlStatement { sql: CLEANUP_ATTEMPTS_DELETE_SQL, params }
}

/// Deletes the observations of an operation.
pub const CLEANUP_OBSERVATIONS_DELETE_SQL: &'static str = "DELETE FROM photokit_operation_observations
         WHERE operation_id = ?1";

pub fn cleanup_observations_delete(operation_id: &str) -> (statement: SqlStatement)
    ensures
        statement.sql@ == CLEANUP_OBSERVATIONS_DELETE_SQL@,
        bound_values(statement.params@) == seq![BoundValue::Text(operation_id@)],
{
    let params = vec![SqlParam::Text(operation_id.to_owned())];
    SqlStatement { sql: CLEANUP_OBSERVATIONS_DELETE_SQL, params }
}

/// Deletes the locator records that an operation left unfinalized.
pub const CLEANUP_LOCATORS_DELETE_SQL: &'static str = "DELETE FROM photokit_locator_records
         WHERE operation_id = ?1 AND finalized = 0";

pub fn cleanup_locators_delete(operation_id: &str) -> (statement: SqlStatement)
    ensures
        statement.sql@ == CLEANUP_LOCATORS_DELETE_SQL@,
        bound_values(statement.params@) == seq![BoundValue::Text(operation_id@)],
{
    let params = vec![SqlParam::Text(operation_id.to_owned())];
    SqlStatement { sql: CLEANUP_LOCATORS_DELETE_SQL, params }
}

/// Finds the operation in the expected state under the current fence of the active enrollment and store authority.
pub const CURRENT_OPERATION_QUERY_SQL: &'static str = "SELECT 1
         FROM photokit_operations operation
         JOIN photokit_enrollments enrollment
           ON enrollment.enrollment_epoch = operation.enrollment_epoch
         JOIN photokit_connector_state state
           ON state.active_enrollment_epoch = operation.enrollment_epoch
         JOIN store_authority_epoch authority
           ON authority.epoch = operation.store_authority_epoch
         WHERE operation.operation_id = ?1
           AND operation.state = ?2
           AND operation.reconciliation_fence = ?3
           AND enrollment.operation_fence = ?3
           AND enrollment.state = 'active'";

pub fn current_operation_query(operation_id: &str, expected_state: &str, fence: i64) -> (statement: SqlStatement)
    ensures
        statement.sql@ == CURRENT_OPERATION_QUERY_SQL@,
        bound_values(statement.params@) == seq![BoundValue::Text(operation_id@), BoundValue::Text(expected_state@), BoundValue::Integer(fence)],
{
    let params = vec![SqlParam::Text(operation_id.to_owned()), SqlParam::Text(expected_state.to_owned()), SqlParam::Integer(fence)];
    SqlStatement { sql: CURRENT_OPERATION_QUERY_SQL, params }
}

/// Inserts a pending enrollment.
pub const ENROLLMENT_INSERT_SQL: &'static str = "INSERT INTO photokit_enrollments(
                enrollment_epoch, key_reference, state, allow_icloud_downloads,
                operation_fence, active_membership_generation, created_at_ms
             ) VALUES (?1, ?2, 'pending', ?3, 0, NULL, ?4)";

pub fn enrollment_insert(enrollment_epoch: &str, key_reference: &str, allow_icloud_downloads: i64, now_ms: i64) -> (statement: SqlStatement)
    ensures
        statement.sql@ == ENROLLMENT_INSERT_SQL@,
        bound_values(statement.params@) == seq![BoundValue::Text(enrollment_epoch@), BoundValue::Text(key_reference@), BoundValue::Integer(allow_icloud_downloads), BoundValue::Integer(now_ms)],
{
    let params = vec![SqlParam::Text(enrollment_epoch.to_owned()), SqlParam::Text(key_reference.to_owned()), SqlParam::Integer(allow_icloud_downloads), SqlParam::Integer(now_ms)];
    SqlStatement { sql: ENROLLMENT_INSERT_SQL, params }
}

/// Reads the key reference of a pending enrollment.
pub const PENDING_KEY_QUERY_SQL: &'static str = "SELECT key_reference FROM photokit_enrollments
                 WHERE enrollment_epoch = ?1 AND state = 'pending'";

pub fn pending_key_query(enrollment_epoch: &str) -> (statement: SqlStatement)
    ensures
        statement.sql@ == PENDING_KEY_QUERY_SQL@,
        bound_values(statement.params@) == seq![BoundValue::Text(enrollment_epoch@)],
{
    let params = vec![SqlParam::Text(enrollment_epoch.to_owned())];
    SqlStatement { sql: PENDING_KEY_QUERY_SQL, params }
}

/// Records a pending key cleanup intent, unless the enrollment has one.
pub const CLEANUP_INTENT_INSERT_SQL: &'static str = "INSERT OR IGNORE INTO photokit_key_cleanup_intents(
                    intent_id, deletion_run_id, enrollment_epoch, key_reference,
                    reason, state, created_at_ms
                 ) VALUES (?1, NULL, ?2, ?3, ?4, 'pending', ?5)";

pub fn cleanup_intent_insert(intent_id: &str, enrollment_epoch: &str, key_reference: &str, cleanup_reason: &str, now_ms: i64) -> (statement: SqlStatement)
    ensures
        statement.sql@ == CLEANUP_INTENT_INSERT_SQL@,
        bound_values(statement.params@) == seq![BoundValue::Text(intent_id@), BoundValue::Text(enrollment_epoch@), BoundValue::Text(key_reference@), BoundValue::Text(cleanup_reason@), BoundValue::Integer(now_ms)],
{
    let params = vec![SqlParam::Text(intent_id.to_owned()), SqlParam::Text(enrollment_epoch.to_owned()), SqlParam::Text(key_reference.to_owned()), SqlParam::Text(cleanup_reason.to_owned()), SqlParam::Integer(now_ms)];
    SqlStatement { sql: CLEANUP_INTENT_INSERT_SQL, params }
}

/// Deletes the unfinalized locator records of an enrollment.
pub const PROVISIONAL_LOCATORS_DELETE_SQL: &'static str = "DELETE FROM photokit_locator_records
                 WHERE enrollment_epoch = ?1 AND finalized = 0";

pub fn provisional_locators_delete(enrollment_epoch: &str) -> (statement: SqlStatement)
    ensures
        statement.sql@ == PROVISIONAL_LOCATORS_DELETE_SQL@,
        bound_values(statement.params@) == seq![BoundValue::Text(enrollment_epoch@)],
{
    let params = vec![SqlParam::Text(enrollment_epoch.to_owned())];
    SqlStatement { sql: PROVISIONAL_LOCATORS_DELETE_SQL, params }
}

/// Deletes an enrollment that is still pending.
pub const PENDING_ENROLLMENT_DELETE_SQL: &'static str = "DELETE FROM photokit_enrollments
                 WHERE enrollment_epoch = ?1 AND state = 'pending'";

pub fn pending_enrollment_delete(enrollment_epoch: &str) -> (statement: SqlStatement)
    ensures
        statement.sql@ == PENDING_ENROLLMENT_DELETE_SQL@,
        bound_values(statement.params@) == seq![BoundValue::Text(enrollment_epoch@)],
{
    let params = vec![SqlParam::Text(enrollment_epoch.to_owned())];
    SqlStatement { sql: PENDING_ENROLLMENT_DELETE_SQL, params }
}

/// Completes the pending cleanup intents of a key reference.
pub const KEY_CLEANUP_COMPLETE_UPDATE_SQL: &'static str = "UPDATE photokit_key_cleanup_intents
             SET state = 'complete', failure_code = NULL,
                 last_attempt_at_ms = ?2, completed_at_ms = ?2
             WHERE key_reference = ?1 AND state = 'pending'";

pub fn key_cleanup_complete_update(key_reference: &str, now_ms: i64) -> (statement: SqlStatement)
    ensures
        statement.sql@ == KEY_CLEANUP_COMPLETE_UPDATE_SQL@,
        bound_values(statement.params@) == seq![BoundValue::Text(key_reference@), BoundValue::Integer(now_ms)],
{
    let params = vec![SqlParam::Text(key_reference.to_owned()), SqlParam::Integer(now_ms)];
    SqlStatement { sql: KEY_CLEANUP_COMPLETE_UPDATE_SQL, params }
}

/// Reads the active enrollment of the connector.
pub const ACTIVE_ENROLLMENT_QUERY_SQL: &'static str = "SELECT enrollment.enrollment_epoch, enrollment.key_reference,
                        enrollment.allow_icloud_downloads,
                        enrollment.operation_fence,
                        enrollment.active_membership_generation
                 FROM photokit_connector_state state
                 JOIN photokit_enrollments enrollment
                   ON enrollment.enrollment_epoch = state.active_enrollment_epoch
                 WHERE state.singleton = 1 AND enrollment.state = 'active'";

pub fn active_enrollment_query() -> (statement: SqlStatement)
    ensures
        statement.sql@ == ACTIVE_ENROLLMENT_QUERY_SQL@,
        statement.params@.len() == 0,
{
    SqlStatement { sql: ACTIVE_ENROLLMENT_QUERY_SQL, params: Vec::new() }
}

/// Reads the finalized album locator record of an enrollment.
pub const ALBUM_LOCATOR_QUERY_SQL: &'static str = "SELECT stable_row_id, lookup_hmac, nonce, ciphertext
                 FROM photokit_locator_records
                 WHERE enrollment_epoch = ?1 AND record_kind = 'album'
                   AND finalized = 1";

pub fn album_locator_query(enrollment_epoch: &str) -> (statement: SqlStatement)
    ensures
        statement.sql@ == ALBUM_LOCATOR_QUERY_SQL@,
        bound_values(statement.params@) == seq![BoundValue::Text(enrollment_epoch@)],
{
    let params = vec![SqlParam::Text(enrollment_epoch.to_owned())];
    SqlStatement { sql: ALBUM_LOCATOR_QUERY_SQL, params }
}

/// Reads the operations that were enumerating or materializing, oldest first.
pub const INTERRUPTED_OPERATIONS_QUERY_SQL: &'static str = "SELECT operation_id FROM photokit_operations
                 WHERE state IN ('enumerating', 'materializing')
                 ORDER BY started_at_ms, operation_id";

pub fn interrupted_operations_query() -> (statement: SqlStatement)
    ensures
        statement.sql@ == INTERRUPTED_OPERATIONS_QUERY_SQL@,
        statement.params@.len() == 0,
{
    SqlStatement { sql: INTERRUPTED_OPERATIONS_QUERY_SQL, params: Vec::new() }
}

/// Marks an enumerating or materializing operation interrupted.
pub const OPERATION_INTERRUPT_UPDATE_SQL: &'static str = "UPDATE photokit_operations
                 SET state = 'interrupted', terminal_reason = 'restore_interrupted',
                     finished_at_ms = ?2
                 WHERE operation_id = ?1
                   AND state IN ('enumerating', 'materializing')";

pub fn operation_interrupt_update(operation_id: &str, now_ms: i64) -> (statement: SqlStatement)
    ensures
        statement.sql@ == OPERATION_INTERRUPT_UPDATE_SQL@,
        bound_values(statement.params@) == seq![BoundValue::Text(operation_id@), BoundValue::Integer(now_ms)],
{
    let params = vec![SqlParam::Text(operation_id.to_owned()), SqlParam::Integer(now_ms)];
    SqlStatement { sql: OPERATION_INTERRUPT_UPDATE_SQL, params }
}

/// Returns a reconciling connector to rest: ready with an active enrollment, else unconfigured.
pub const CONNECTOR_REST_UPDATE_SQL: &'static str = "UPDATE photokit_connector_state
             SET state = CASE
                    WHEN active_enrollment_epoch IS NULL THEN 'unconfigured'
                    ELSE 'ready'
                 END,
                 updated_at_ms = ?1
             WHERE state = 'reconciling'";

pub fn connector_rest_update(now_ms: i64) -> (statement: SqlStatement)
    ensures
        statement.sql@ == CONNECTOR_REST_UPDATE_SQL@,
        bound_values(statement.params@) == seq![BoundValue::Integer(now_ms)],
{
    let params = vec![SqlParam::Integer(now_ms)];
    SqlStatement { sql: CONNECTOR_REST_UPDATE_SQL, params }
}

/// Reads the pending enrollments, oldest first.
pub const PENDING_ENROLLMENTS_QUERY_SQL: &'static str = "SELECT enrollment_epoch, key_reference, allow_icloud_downloads,
                    operation_fence, active_membership_generation
             FROM photokit_enrollments
             WHERE state = 'pending'
             ORDER BY created_at_ms, enrollment_epoch";

pub fn pending_enrollments_query() -> (statement: SqlStatement)
    ensures
        statement.sql@ == PENDING_ENROLLMENTS_QUERY_SQL@,
        statement.params@.len() == 0,
{
    SqlStatement { sql: PENDING_ENROLLMENTS_QUERY_SQL, params: Vec::new() }
}

/// Reads the pending key cleanup intents, oldest first.
pub const PENDING_INTENTS_QUERY_SQL: &'static str = "SELECT intent_id,key_reference
             FROM photokit_key_cleanup_intents
             WHERE state='pending'
             ORDER BY created_at_ms,intent_id";

pub fn pending_intents_query() -> (statement: SqlStatement)
    ensures
        statement.sql@ == PENDING_INTENTS_QUERY_SQL@,
        statement.params@.len() == 0,
{
    SqlStatement { sql: PENDING_INTENTS_QUERY_SQL, params: Vec::new() }
}

/// Completes a pending cleanup intent.
pub const INTENT_COMPLETE_UPDATE_SQL: &'static str = "UPDATE photokit_key_cleanup_intents
             SET state='complete',failure_code=NULL,last_attempt_at_ms=?2,
                 completed_at_ms=?2
             WHERE intent_id=?1 AND state='pending'";

pub fn intent_complete_update(intent_id: &str, now_ms: i64) -> (statement: SqlStatement)
    ensures
        statement.sql@ == INTENT_COMPLETE_UPDATE_SQL@,
        bound_values(statement.params@) == seq![BoundValue::Text(intent_id@), BoundValue::Integer(now_ms)],
{
    let params = vec![SqlParam::Text(intent_id.to_owned()), SqlParam::Integer(now_ms)];
    SqlStatement { sql: INTENT_COMPLETE_UPDATE_SQL, params }
}

/// Records the failure code of a pending cleanup intent.
pub const INTENT_FAIL_UPDATE_SQL: &'static str = "UPDATE photokit_key_cleanup_intents
             SET failure_code=?2,last_attempt_at_ms=?3
             WHERE intent_id=?1 AND state='pending'";

pub fn intent_fail_update(intent_id: &str, failure_code: &str, now_ms: i64) -> (statement: SqlStatement)
    ensures
        statement.sql@ == INTENT_FAIL_UPDATE_SQL@,
        bound_values(statement.params@) == seq![BoundValue::Text(intent_id@), BoundValue::Text(failure_code@), BoundValue::Integer(now_ms)],
{
    let params = vec![SqlParam::Text(intent_id.to_owned()), SqlParam::Text(failure_code.to_owned()), SqlParam::Integer(now_ms)];
    SqlStatement { sql: INTENT_FAIL_UPDATE_SQL, params }
}

/// Reads the operation that a request started.
pub const OPERATION_BY_REQUEST_QUERY_SQL: &'static str = "SELECT operation_id, request_id, enrollment_epoch,
                    store_authority_epoch, reconciliation_fence,
                    proposed_membership_generation, trigger_kind
             FROM photokit_operations WHERE request_id = ?1";

pub fn operation_by_request_query(request_id: &str) -> (statement: SqlStatement)
    ensures
        statement.sql@ == OPERATION_BY_REQUEST_QUERY_SQL@,
        bound_values(statement.params@) == seq![BoundValue::Text(request_id@)],
{
    let params = vec![SqlParam::Text(request_id.to_owned())];
    SqlStatement { sql: OPERATION_BY_REQUEST_QUERY_SQL, params }
}

/// Reads the epoch and operation fence of the active enrollment.
pub const ACTIVE_FENCE_QUERY_SQL: &'static str = "SELECT enrollment.enrollment_epoch, enrollment.operation_fence
                 FROM photokit_connector_state state
                 JOIN photokit_enrollments enrollment
                   ON enrollment.enrollment_epoch = state.active_enrollment_epoch
                 WHERE state.singleton = 1 AND enrollment.state = 'active'";

pub fn active_fence_query() -> (statement: SqlStatement)
    ensures
        statement.sql@ == ACTIVE_FENCE_QUERY_SQL@,
        statement.params@.len() == 0,
{
    SqlStatement { sql: ACTIVE_FENCE_QUERY_SQL, params: Vec::new() }
}

/// Reads the largest membership generation of an enrollment, 0 when it has none.
pub const LARGEST_GENERATION_QUERY_SQL: &'static str = "SELECT COALESCE(MAX(membership_generation), 0)
             FROM photokit_membership_generations
             WHERE enrollment_epoch = ?1";

pub fn largest_generation_query(enrollment_epoch: &str) -> (statement: SqlStatement)
    ensures
        statement.sql@ == LARGEST_GENERATION_QUERY_SQL@,
        bound_values(statement.params@) == seq![BoundValue::Text(enrollment_epoch@)],
{
    let params = vec![SqlParam::Text(enrollment_epoch.to_owned())];
    SqlStatement { sql: LARGEST_GENERATION_QUERY_SQL, params }
}

/// Reads the store authority epoch.
pub const AUTHORITY_EPOCH_QUERY_SQL: &'static str = "SELECT epoch FROM store_authority_epoch WHERE singleton = 1";

pub fn authority_epoch_query() -> (statement: SqlStatement)
    ensures
        statement.sql@ == AUTHORITY_EPOCH_QUERY_SQL@,
        statement.params@.len() == 0,
{
    SqlStatement { sql: AUTHORITY_EPOCH_QUERY_SQL, params: Vec::new() }
}

/// Sets the operation fence of the active enrollment.
pub const FENCE_UPDATE_SQL: &'static str = "UPDATE photokit_enrollments SET operation_fence = ?2
             WHERE enrollment_epoch = ?1 AND state = 'active'";

pub fn fence_update(enrollment_epoch: &str, fence: i64) -> (statement: SqlStatement)
    ensures
        statement.sql@ == FENCE_UPDATE_SQL@,
        bound_values(statement.params@) == seq![BoundValue::Text(enrollment_epoch@), BoundValue::Integer(fence)],
{
    let params = vec![SqlParam::Text(enrollment_epoch.to_owned()), SqlParam::Integer(fence)];
    SqlStatement { sql: FENCE_UPDATE_SQL, params }
}

/// Inserts an enumerating operation.
pub const OPERATION_INSERT_SQL: &'static str = "INSERT INTO photokit_operations(
                operation_id, request_id, enrollment_epoch,
                store_authority_epoch, reconciliation_fence,
                proposed_membership_generation, trigger_kind, state,
                started_at_ms
             ) VALUES (?1, ?2, ?3, ?4, ?5, ?6, ?7, 'enumerating', ?8)";

pub fn operation_insert(operation_id: &str, request_id: &str, enrollment_epoch: &str, store_authority_epoch: &str, fence: i64, proposed_generation: i64, trigger_kind: &str, now_ms: i64) -> (statement: SqlStatement)
    ensures
        statement.sql@ == OPERATION_INSERT_SQL@,
        bound_values(statement.params@) == seq![BoundValue::Text(operation_id@), BoundValue::Text(request_id@), BoundValue::Text(enrollment_epoch@), BoundValue::Text(store_authority_epoch@), BoundValue::Integer(fence), BoundValue::Integer(proposed_generation), BoundValue::Text(trigger_kind@), BoundValue::Integer(now_ms)],
{
    let params = vec![SqlParam::Text(operation_id.to_owned()), SqlParam::Text(request_id.to_owned()), SqlParam::Text(enrollment_epoch.to_owned()), SqlParam::Text(store_authority_epoch.to_owned()), SqlParam::Integer(fence), SqlParam::Integer(proposed_generation), SqlParam::Text(trigger_kind.to_owned()), SqlParam::Integer(now_ms)];
    SqlStatement { sql: OPERATION_INSERT_SQL, params }
}

/// Puts the connector in the reconciling state with the authorization seen.
pub const CONNECTOR_RECONCILING_UPDATE_SQL: &'static str = "UPDATE photokit_connector_state
             SET state = 'reconciling', authorization = ?1, updated_at_ms = ?2
             WHERE singleton = 1";

pub fn connector_reconciling_update(authorization: &str, now_ms: i64) -> (statement: SqlStatement)
    ensures
        statement.sql@ == CONNECTOR_RECONCILING_UPDATE_SQL@,
        bound_values(statement.params@) == seq![BoundValue::Text(authorization@), BoundValue::Integer(now_ms)],
{
    let params = vec![SqlParam::Text(authorization.to_owned()), SqlParam::Integer(now_ms)];
    SqlStatement { sql: CONNECTOR_RECONCILING_UPDATE_SQL, params }
}

/// Reads the observed count of an operation and how many observations it recorded.
pub const OBSERVATION_COUNT_QUERY_SQL: &'static str = "SELECT operation.observed_count, COUNT(observation.ordinal)
             FROM photokit_operations operation
             LEFT JOIN photokit_operation_observations observation
               ON observation.operation_id = operation.operation_id
             WHERE operation.operation_id = ?1
             GROUP BY operation.operation_id";

pub fn observation_count_query(operation_id: &str) -> (statement: SqlStatement)
    ensures
        statement.sql@ == OBSERVATION_COUNT_QUERY_SQL@,
        bound_values(statement.params@) == seq![BoundValue::Text(operation_id@)],
{
    let params = vec![SqlParam::Text(operation_id.to_owned())];
    SqlStatement { sql: OBSERVATION_COUNT_QUERY_SQL, params }
}

/// Moves an enumerating operation to materializing.
pub const MATERIALIZING_UPDATE_SQL: &'static str = "UPDATE photokit_operations SET state = 'materializing'
             WHERE operation_id = ?1 AND state = 'enumerating'";

pub fn materializing_update(operation_id: &str) -> (statement: SqlStatement)
    ensures
        statement.sql@ == MATERIALIZING_UPDATE_SQL@,
        bound_values(statement.params@) == seq![BoundValue::Text(operation_id@)],
{
    let params = vec![SqlParam::Text(operation_id.to_owned())];
    SqlStatement { sql: MATERIALIZING_UPDATE_SQL, params }
}

/// Inserts a transfer attempt.
pub const ATTEMPT_INSERT_SQL: &'static str = "INSERT INTO photokit_materialization_attempts(
                attempt_id, operation_id, observation_ordinal,
                attempt_ordinal, network_access_allowed, accepted_bytes,
                result, created_at_ms
             ) VALUES (?1, ?2, ?3, ?4, ?5, ?6, ?7, ?8)";

pub fn attempt_insert(attempt_id: &str, operation_id: &str, ordinal: i64, attempt_ordinal: i64, network_access_allowed: i64, accepted_bytes: i64, result: &str, now_ms: i64) -> (statement: SqlStatement)
    ensures
        statement.sql@ == ATTEMPT_INSERT_SQL@,
        bound_values(statement.params@) == seq![BoundValue::Text(attempt_id@), BoundValue::Text(operation_id@), BoundValue::Integer(ordinal), BoundValue::Integer(attempt_ordinal), BoundValue::Integer(network_access_allowed), BoundValue::Integer(accepted_bytes), BoundValue::Text(result@), BoundValue::Integer(now_ms)],
{
    let params = vec![SqlParam::Text(attempt_id.to_owned()), SqlParam::Text(operation_id.to_owned()), SqlParam::Integer(ordinal), SqlParam::Integer(attempt_ordinal), SqlParam::Integer(network_access_allowed), SqlParam::Integer(accepted_bytes), SqlParam::Text(result.to_owned()), SqlParam::Integer(now_ms)];
    SqlStatement { sql: ATTEMPT_INSERT_SQL, params }
}

/// Reads the asset and locator recorded under a lookup MAC of an enrollment.
pub const KNOWN_ASSET_QUERY_SQL: &'static str = "SELECT asset.asset_id, locator.locator_id
             FROM photokit_locator_records locator
             JOIN photokit_assets asset ON asset.locator_id = locator.locator_id
             WHERE locator.enrollment_epoch = ?1
               AND locator.record_kind = 'asset'
               AND locator.lookup_hmac = ?2
               AND locator.finalized = 1";

pub fn known_asset_query(enrollment_epoch: &str, lookup_hmac: Vec<u8>) -> (statement: SqlStatement)
    ensures
        statement.sql@ == KNOWN_ASSET_QUERY_SQL@,
        bound_values(statement.params@) == seq![BoundValue::Text(enrollment_epoch@), BoundValue::Blob(lookup_hmac@)],
{
    let params = vec![SqlParam::Text(enrollment_epoch.to_owned()), SqlParam::Blob(lookup_hmac)];
    SqlStatement { sql: KNOWN_ASSET_QUERY_SQL, params }
}

/// Inserts the unfinalized locator record of a new asset.
pub const ASSET_LOCATOR_INSERT_SQL: &'static str = "INSERT INTO photokit_locator_records(
                    locator_id, enrollment_epoch, operation_id, record_kind,
                    stable_row_id, key_version, lookup_hmac, nonce,
                    ciphertext, finalized, created_at_ms
                 ) VALUES (?1, ?2, ?3, 'asset', ?4, ?5, ?6, ?7, ?8, 0, ?9)";

pub fn asset_locator_insert(locator_id: &str, enrollment_epoch: &str, operation_id: &str, asset_id: &str, key_version: i64, lookup_hmac: Vec<u8>, nonce: Vec<u8>, ciphertext: Vec<u8>, now_ms: i64) -> (statement: SqlStatement)
    ensures
        statement.sql@ == ASSET_LOCATOR_INSERT_SQL@,
        bound_values(statement.params@) == seq![BoundValue::Text(locator_id@), BoundValue::Text(enrollment_epoch@), BoundValue::Text(operation_id@), BoundValue::Text(asset_id@), BoundValue::Integer(key_version), BoundValue::Blob(lookup_hmac@), BoundValue::Blob(nonce@), BoundValue::Blob(ciphertext@), BoundValue::Integer(now_ms)],
{
    let params = vec![SqlParam::Text(locator_id.to_owned()), SqlParam::Text(enrollment_epoch.to_owned()), SqlParam::Text(operation_id.to_owned()), SqlParam::Text(asset_id.to_owned()), SqlParam::Integer(key_version), SqlParam::Blob(lookup_hmac), SqlParam::Blob(nonce), SqlParam::Blob(ciphertext), SqlParam::Integer(now_ms)];
    SqlStatement { sql: ASSET_LOCATOR_INSERT_SQL, params }
}

/// Inserts an observation of an operation.
pub const OBSERVATION_INSERT_SQL: &'static str = "INSERT INTO photokit_operation_observations(
                operation_id, ordinal, asset_id, locator_id,
                resource_uti, resource_state
             ) VALUES (?1, ?2, ?3, ?4, ?5, ?6)";

pub fn observation_insert(operation_id: &str, ordinal: i64, asset_id: &str, locator_id: &str, resource_uti: Option<&str>, resource_state: &str) -> (statement: SqlStatement)
    ensures
        statement.sql@ == OBSERVATION_INSERT_SQL@,
        bound_values(statement.params@) == seq![BoundValue::Text(operation_id@), BoundValue::Integer(ordinal), BoundValue::Text(asset_id@), BoundValue::Text(locator_id@), match resource_uti { Some(t) => BoundValue::Text(t@), None => BoundValue::Null }, BoundValue::Text(resource_state@)],
{
    let params = vec![SqlParam::Text(operation_id.to_owned()), SqlParam::Integer(ordinal), SqlParam::Text(asset_id.to_owned()), SqlParam::Text(locator_id.to_owned()), match resource_uti { Some(t) => SqlParam::Text(t.to_owned()), None => SqlParam::Null }, SqlParam::Text(resource_state.to_owned())];
    SqlStatement { sql: OBSERVATION_INSERT_SQL, params }
}

/// Counts one more observation of an operation.
pub const OBSERVED_COUNT_UPDATE_SQL: &'static str = "UPDATE photokit_operations SET observed_count = observed_count + 1
             WHERE operation_id = ?1";

pub fn observed_count_update(operation_id: &str) -> (statement: SqlStatement)
    ensures
        statement.sql@ == OBSERVED_COUNT_UPDATE_SQL@,
        bound_values(statement.params@) == seq![BoundValue::Text(operation_id@)],
{
    let params = vec![SqlParam::Text(operation_id.to_owned())];
    SqlStatement { sql: OBSERVED_COUNT_UPDATE_SQL, params }
}

} // verus!
