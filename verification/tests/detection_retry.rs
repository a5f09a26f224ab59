use wardrobe_platform::detection_retry::{
    check_detection_retry, requeues_detection, DetectionRetryRequest, DetectionRetryState,
};
use wardrobe_platform::person_codecs::PersonDetectionResultSummary;
use wardrobe_platform::platform_error::PlatformError;

fn state(review_state: &str, attempt_count: i64, owner_revision: i64) -> DetectionRetryState {
    DetectionRetryState {
        terminal_attempt_id: "attempt-3".to_owned(),
        detection_revision: 2,
        owner_revision,
        review_state: review_state.to_owned(),
        attempt_count,
    }
}

fn request() -> DetectionRetryRequest {
    DetectionRetryRequest {
        expected_terminal_attempt_id: "attempt-3".to_owned(),
        expected_detection_revision: 2,
        expected_owner_head_revision: 0,
        expected_photo_revision: 7,
    }
}

const STALE: PlatformError = PlatformError::Conflict("person_retry_stale");

#[test]
fn workers_requeue_retryable_failures_while_attempts_remain() {
    assert!(requeues_detection(PersonDetectionResultSummary::RetryableFailure, 1));
    assert!(requeues_detection(PersonDetectionResultSummary::RetryableFailure, 2));
    assert!(!requeues_detection(PersonDetectionResultSummary::RetryableFailure, 3));
    assert!(!requeues_detection(PersonDetectionResultSummary::SucceededZero, 1));
    assert!(!requeues_detection(
        PersonDetectionResultSummary::PermanentUnavailable { invalid_provider_output: false },
        1
    ));
}

#[test]
fn users_retry_only_exhausted_or_unavailable_detections() {
    assert_eq!(check_detection_retry(&state("retryable_failure", 3, 0), 7, &request()), Ok(()));
    assert_eq!(check_detection_retry(&state("permanent_unavailable", 1, 0), 7, &request()), Ok(()));
    assert_eq!(check_detection_retry(&state("retryable_failure", 2, 0), 7, &request()), Err(STALE));
    assert_eq!(check_detection_retry(&state("instances_available", 3, 0), 7, &request()), Err(STALE));
    assert_eq!(check_detection_retry(&state("permanent_unavailable", 1, 0), 8, &request()), Err(STALE));
    let owned = DetectionRetryRequest { expected_owner_head_revision: 1, ..request() };
    assert_eq!(check_detection_retry(&state("permanent_unavailable", 1, 1), 7, &owned), Err(STALE));
    let other = DetectionRetryRequest { expected_terminal_attempt_id: "attempt-2".to_owned(), ..request() };
    assert_eq!(check_detection_retry(&state("permanent_unavailable", 1, 0), 7, &other), Err(STALE));
    let mut corrupt = state("permanent_unavailable", 1, 0);
    corrupt.detection_revision = -1;
    assert_eq!(
        check_detection_retry(&corrupt, 7, &request()),
        Err(PlatformError::Corrupt("detection_revision"))
    );
}
