use crate::person_codecs::PersonDetectionResultSummary;
use crate::photo_codecs::to_u64;
use crate::platform_error::{PlatformError, PlatformResult};
use crate::text::str_equal;
use vstd::prelude::*;

verus! {

/// How many times a person detection is attempted before a retryable
/// failure is left to the user.
pub const DETECTION_ATTEMPT_LIMIT: i64 = 3;

/// A retryable failure goes back to the queue while attempts remain.
pub open spec fn spec_requeues_detection(result: PersonDetectionResultSummary, attempt_count: i64) -> bool {
    result is RetryableFailure && attempt_count < DETECTION_ATTEMPT_LIMIT
}

/// Whether the worker queues a detection again instead of publishing its
/// result.
pub fn requeues_detection(result: PersonDetectionResultSummary, attempt_count: i64) -> (requeue: bool)
    ensures
        requeue == spec_requeues_detection(result, attempt_count),
{
    match result {
        PersonDetectionResultSummary::RetryableFailure => attempt_count < DETECTION_ATTEMPT_LIMIT,
        _ => false,
    }
}

/// A review the user may ask to detect again: a retryable failure whose
/// attempts are used up, or a permanently unavailable detection.
pub open spec fn retry_eligible(review_state: Seq<char>, attempt_count: i64) -> bool {
    (review_state == "retryable_failure"@ && attempt_count >= DETECTION_ATTEMPT_LIMIT) || review_state
        == "permanent_unavailable"@
}

/// The stored state a retry is checked against: the review's terminal
/// attempt and detection revision, the owner head's revision (0 without a
/// head), the review state and the attempt's count.
#[derive(Clone, Debug, PartialEq, Eq)]
pub struct DetectionRetryState {
    pub terminal_attempt_id: String,
    pub detection_revision: i64,
    pub owner_revision: i64,
    pub review_state: String,
    pub attempt_count: i64,
}

/// What a retry expects to find.
#[derive(Clone, Debug, PartialEq, Eq)]
pub struct DetectionRetryRequest {
    pub expected_terminal_attempt_id: String,
    pub expected_detection_revision: u64,
    pub expected_owner_head_revision: u64,
    pub expected_photo_revision: u64,
}

/// What a retry makes of the stored state: a negative revision is corrupt;
/// a retry made against another attempt or other revisions, of a review not
/// eligible, or of a photo whose owner was decided, is stale.
pub open spec fn spec_detection_retry_check(
    state: DetectionRetryState,
    photo_revision: u64,
    request: DetectionRetryRequest,
) -> PlatformResult<()> {
    if state.terminal_attempt_id@ != request.expected_terminal_attempt_id@ {
        Err(PlatformError::Conflict("person_retry_stale"))
    } else if state.detection_revision < 0 {
        Err(PlatformError::Corrupt("detection_revision"))
    } else if state.detection_revision != request.expected_detection_revision {
        Err(PlatformError::Conflict("person_retry_stale"))
    } else if state.owner_revision < 0 {
        Err(PlatformError::Corrupt("owner_revision"))
    } else if state.owner_revision != request.expected_owner_head_revision || photo_revision
        != request.expected_photo_revision || !retry_eligible(state.review_state@, state.attempt_count)
        || state.owner_revision != 0 {
        Err(PlatformError::Conflict("person_retry_stale"))
    } else {
        Ok(())
    }
}

/// Checks a retry of a person detection against the stored state.
pub fn check_detection_retry(
    state: &DetectionRetryState,
    photo_revision: u64,
    request: &DetectionRetryRequest,
) -> (result: PlatformResult<()>)
    ensures
        result == spec_detection_retry_check(*state, photo_revision, *request),
{
    let retryable = str_equal(state.review_state.as_str(), "retryable_failure") && state.attempt_count
        >= DETECTION_ATTEMPT_LIMIT;
    let unavailable = str_equal(state.review_state.as_str(), "permanent_unavailable");
    if !str_equal(state.terminal_attempt_id.as_str(), request.expected_terminal_attempt_id.as_str())
        || to_u64(state.detection_revision, "detection_revision")? != request.expected_detection_revision
        || to_u64(state.owner_revision, "owner_revision")? != request.expected_owner_head_revision
        || photo_revision != request.expected_photo_revision || (!retryable && !unavailable)
        || state.owner_revision != 0 {
        return Err(PlatformError::Conflict("person_retry_stale"));
    }
    Ok(())
}

/// A retryable failure is retried by exactly one side: the worker queues it
/// again while attempts remain, and only once they are used up may the user
/// ask for it again.
pub proof fn lemma_retry_follows_requeue(attempt_count: i64)
    ensures
        spec_requeues_detection(PersonDetectionResultSummary::RetryableFailure, attempt_count)
            == !retry_eligible("retryable_failure"@, attempt_count),
{
    assert("retryable_failure"@ != "permanent_unavailable"@) by {
        reveal_strlit("retryable_failure");
        reveal_strlit("permanent_unavailable");
        assert("retryable_failure"@.len() != "permanent_unavailable"@.len());
    }
}

} // verus!
