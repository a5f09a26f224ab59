use wardrobe_platform::person_codecs::{
    detection_storage_state, detection_terminal_state_db, detection_terminal_state_from_db,
    owner_action_db, owner_review_state_db, owner_review_state_from_db,
    PersonDetectionResultSummary, PersonDetectionTerminalStateV1, PhotoOwnerActionV1,
    PhotoOwnerReviewStateV1,
};

#[test]
fn stored_person_names_round_trip() {
    for value in [
        PhotoOwnerReviewStateV1::InstancesAvailable,
        PhotoOwnerReviewStateV1::NoPersonDetected,
        PhotoOwnerReviewStateV1::Overflow,
        PhotoOwnerReviewStateV1::RetryableFailure,
        PhotoOwnerReviewStateV1::PermanentUnavailable,
    ] {
        assert_eq!(owner_review_state_from_db(owner_review_state_db(value)), Ok(value));
    }
    for value in [
        PersonDetectionTerminalStateV1::SucceededZero,
        PersonDetectionTerminalStateV1::SucceededInstances,
        PersonDetectionTerminalStateV1::Overflow,
        PersonDetectionTerminalStateV1::RetryableFailure,
        PersonDetectionTerminalStateV1::PermanentUnavailable,
    ] {
        assert_eq!(detection_terminal_state_from_db(detection_terminal_state_db(value)), Ok(value));
    }
}

#[test]
fn person_names_are_the_stored_text() {
    assert_eq!(owner_review_state_db(PhotoOwnerReviewStateV1::NoPersonDetected), "no_person_detected");
    assert_eq!(
        detection_terminal_state_db(PersonDetectionTerminalStateV1::SucceededInstances),
        "succeeded_instances"
    );
    assert_eq!(owner_action_db(PhotoOwnerActionV1::SelectPerson), "select_person");
    assert_eq!(owner_action_db(PhotoOwnerActionV1::OwnerAbsent), "owner_absent");
}

#[test]
fn unknown_person_names_are_refused() {
    assert!(owner_review_state_from_db("Overflow").is_err());
    assert!(owner_review_state_from_db("").is_err());
    assert!(detection_terminal_state_from_db("succeeded").is_err());
}

#[test]
fn detection_results_store_consistent_states() {
    assert_eq!(
        detection_storage_state(PersonDetectionResultSummary::SucceededZero),
        ("succeeded_zero", "no_person_detected", Some(0), "vision_completed")
    );
    assert_eq!(
        detection_storage_state(PersonDetectionResultSummary::SucceededInstances { count: 3 }),
        ("succeeded_instances", "instances_available", Some(3), "vision_completed")
    );
    assert_eq!(
        detection_storage_state(PersonDetectionResultSummary::Overflow { detected_count: 40 }),
        ("overflow", "overflow", Some(40), "output_overflow")
    );
    assert_eq!(
        detection_storage_state(PersonDetectionResultSummary::RetryableFailure),
        ("retryable_failure", "retryable_failure", None, "vision_transient")
    );
    assert_eq!(
        detection_storage_state(PersonDetectionResultSummary::PermanentUnavailable {
            invalid_provider_output: true
        }),
        ("permanent_unavailable", "permanent_unavailable", None, "invalid_provider_output")
    );
    assert_eq!(
        detection_storage_state(PersonDetectionResultSummary::PermanentUnavailable {
            invalid_provider_output: false
        })
        .3,
        "vision_unavailable"
    );
    for result in [
        PersonDetectionResultSummary::SucceededZero,
        PersonDetectionResultSummary::SucceededInstances { count: 1 },
        PersonDetectionResultSummary::Overflow { detected_count: 9 },
        PersonDetectionResultSummary::RetryableFailure,
        PersonDetectionResultSummary::PermanentUnavailable { invalid_provider_output: false },
    ] {
        let (attempt, review, _, _) = detection_storage_state(result);
        assert!(detection_terminal_state_from_db(attempt).is_ok());
        assert!(owner_review_state_from_db(review).is_ok());
    }
}
