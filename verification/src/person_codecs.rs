use crate::platform_error::{PlatformError, PlatformResult};
use crate::text::str_equal;
use vstd::prelude::*;

verus! {

/// Where the owner review of a photo stands.
#[derive(Clone, Copy, Debug, PartialEq, Eq, Structural)]
pub enum PhotoOwnerReviewStateV1 {
    InstancesAvailable,
    NoPersonDetected,
    Overflow,
    RetryableFailure,
    PermanentUnavailable,
}

/// The name under which a value is stored.
pub open spec fn owner_review_state_name(value: PhotoOwnerReviewStateV1) -> Seq<char> {
    match value {
        PhotoOwnerReviewStateV1::InstancesAvailable => "instances_available"@,
        PhotoOwnerReviewStateV1::NoPersonDetected => "no_person_detected"@,
        PhotoOwnerReviewStateV1::Overflow => "overflow"@,
        PhotoOwnerReviewStateV1::RetryableFailure => "retryable_failure"@,
        PhotoOwnerReviewStateV1::PermanentUnavailable => "permanent_unavailable"@,
    }
}

pub fn owner_review_state_db(value: PhotoOwnerReviewStateV1) -> (name: &'static str)
    ensures
        name@ == owner_review_state_name(value),
{
    match value {
        PhotoOwnerReviewStateV1::InstancesAvailable => "instances_available",
        PhotoOwnerReviewStateV1::NoPersonDetected => "no_person_detected",
        PhotoOwnerReviewStateV1::Overflow => "overflow",
        PhotoOwnerReviewStateV1::RetryableFailure => "retryable_failure",
        PhotoOwnerReviewStateV1::PermanentUnavailable => "permanent_unavailable",
    }
}

/// The value stored under a name.
pub open spec fn owner_review_state_of_name(value: Seq<char>) -> Option<PhotoOwnerReviewStateV1> {
    if value == "instances_available"@ {
        Some(PhotoOwnerReviewStateV1::InstancesAvailable)
    } else if value == "no_person_detected"@ {
        Some(PhotoOwnerReviewStateV1::NoPersonDetected)
    } else if value == "overflow"@ {
        Some(PhotoOwnerReviewStateV1::Overflow)
    } else if value == "retryable_failure"@ {
        Some(PhotoOwnerReviewStateV1::RetryableFailure)
    } else if value == "permanent_unavailable"@ {
        Some(PhotoOwnerReviewStateV1::PermanentUnavailable)
    } else {
        None
    }
}

pub fn owner_review_state_from_db(value: &str) -> (result: PlatformResult<PhotoOwnerReviewStateV1>)
    ensures
        match result {
            Ok(v) => owner_review_state_of_name(value@) == Some(v),
            Err(e) => owner_review_state_of_name(value@) is None && e == PlatformError::Corrupt("owner_review_state"),
        },
{
    if str_equal(value, "instances_available") {
        Ok(PhotoOwnerReviewStateV1::InstancesAvailable)
    } else if str_equal(value, "no_person_detected") {
        Ok(PhotoOwnerReviewStateV1::NoPersonDetected)
    } else if str_equal(value, "overflow") {
        Ok(PhotoOwnerReviewStateV1::Overflow)
    } else if str_equal(value, "retryable_failure") {
        Ok(PhotoOwnerReviewStateV1::RetryableFailure)
    } else if str_equal(value, "permanent_unavailable") {
        Ok(PhotoOwnerReviewStateV1::PermanentUnavailable)
    } else {
        Err(PlatformError::Corrupt("owner_review_state"))
    }
}

/// How a person detection attempt ended.
#[derive(Clone, Copy, Debug, PartialEq, Eq, Structural)]
pub enum PersonDetectionTerminalStateV1 {
    SucceededZero,
    SucceededInstances,
    Overflow,
    RetryableFailure,
    PermanentUnavailable,
}

/// The name under which a value is stored.
pub open spec fn detection_terminal_state_name(value: PersonDetectionTerminalStateV1) -> Seq<char> {
    match value {
        PersonDetectionTerminalStateV1::SucceededZero => "succeeded_zero"@,
        PersonDetectionTerminalStateV1::SucceededInstances => "succeeded_instances"@,
        PersonDetectionTerminalStateV1::Overflow => "overflow"@,
        PersonDetectionTerminalStateV1::RetryableFailure => "retryable_failure"@,
        PersonDetectionTerminalStateV1::PermanentUnavailable => "permanent_unavailable"@,
    }
}

pub fn detection_terminal_state_db(value: PersonDetectionTerminalStateV1) -> (name: &'static str)
    ensures
        name@ == detection_terminal_state_name(value),
{
    match value {
        PersonDetectionTerminalStateV1::SucceededZero => "succeeded_zero",
        PersonDetectionTerminalStateV1::SucceededInstances => "succeeded_instances",
        PersonDetectionTerminalStateV1::Overflow => "overflow",
        PersonDetectionTerminalStateV1::RetryableFailure => "retryable_failure",
        PersonDetectionTerminalStateV1::PermanentUnavailable => "permanent_unavailable",
    }
}

/// The value stored under a name.
pub open spec fn detection_terminal_state_of_name(value: Seq<char>) -> Option<PersonDetectionTerminalStateV1> {
    if value == "succeeded_zero"@ {
        Some(PersonDetectionTerminalStateV1::SucceededZero)
    } else if value == "succeeded_instances"@ {
        Some(PersonDetectionTerminalStateV1::SucceededInstances)
    } else if value == "overflow"@ {
        Some(PersonDetectionTerminalStateV1::Overflow)
    } else if value == "retryable_failure"@ {
        Some(PersonDetectionTerminalStateV1::RetryableFailure)
    } else if value == "permanent_unavailable"@ {
        Some(PersonDetectionTerminalStateV1::PermanentUnavailable)
    } else {
        None
    }
}

pub fn detection_terminal_state_from_db(value: &str) -> (result: PlatformResult<PersonDetectionTerminalStateV1>)
    ensures
        match result {
            Ok(v) => detection_terminal_state_of_name(value@) == Some(v),
            Err(e) => detection_terminal_state_of_name(value@) is None && e == PlatformError::Corrupt("person_detection_state"),
        },
{
    if str_equal(value, "succeeded_zero") {
        Ok(PersonDetectionTerminalStateV1::SucceededZero)
    } else if str_equal(value, "succeeded_instances") {
        Ok(PersonDetectionTerminalStateV1::SucceededInstances)
    } else if str_equal(value, "overflow") {
        Ok(PersonDetectionTerminalStateV1::Overflow)
    } else if str_equal(value, "retryable_failure") {
        Ok(PersonDetectionTerminalStateV1::RetryableFailure)
    } else if str_equal(value, "permanent_unavailable") {
        Ok(PersonDetectionTerminalStateV1::PermanentUnavailable)
    } else {
        Err(PlatformError::Corrupt("person_detection_state"))
    }
}

/// What the owner decided about a photo.
#[derive(Clone, Copy, Debug, PartialEq, Eq, Structural)]
pub enum PhotoOwnerActionV1 {
    SelectPerson,
    OwnerAbsent,
}

/// The name under which a value is stored.
pub open spec fn owner_action_name(value: PhotoOwnerActionV1) -> Seq<char> {
    match value {
        PhotoOwnerActionV1::SelectPerson => "select_person"@,
        PhotoOwnerActionV1::OwnerAbsent => "owner_absent"@,
    }
}

pub fn owner_action_db(value: PhotoOwnerActionV1) -> (name: &'static str)
    ensures
        name@ == owner_action_name(value),
{
    match value {
        PhotoOwnerActionV1::SelectPerson => "select_person",
        PhotoOwnerActionV1::OwnerAbsent => "owner_absent",
    }
}

/// Reading back the stored name of a value gives the value.
pub proof fn lemma_person_names_round_trip()
    ensures
        forall|v: PhotoOwnerReviewStateV1| #[trigger] owner_review_state_of_name(owner_review_state_name(v)) == Some(v),
        forall|v: PersonDetectionTerminalStateV1| #[trigger] detection_terminal_state_of_name(detection_terminal_state_name(v)) == Some(v),
{
    reveal_strlit("instances_available");
    reveal_strlit("no_person_detected");
    reveal_strlit("overflow");
    reveal_strlit("retryable_failure");
    reveal_strlit("permanent_unavailable");
    assert forall|v: PhotoOwnerReviewStateV1| #[trigger] owner_review_state_of_name(owner_review_state_name(v)) == Some(v) by {
        match v {
        PhotoOwnerReviewStateV1::InstancesAvailable => {
        },
        PhotoOwnerReviewStateV1::NoPersonDetected => {
            assert("no_person_detected"@.len() != "instances_available"@.len());
        },
        PhotoOwnerReviewStateV1::Overflow => {
            assert("overflow"@.len() != "instances_available"@.len());
            assert("overflow"@.len() != "no_person_detected"@.len());
        },
        PhotoOwnerReviewStateV1::RetryableFailure => {
            assert("retryable_failure"@.len() != "instances_available"@.len());
            assert("retryable_failure"@.len() != "no_person_detected"@.len());
            assert("retryable_failure"@.len() != "overflow"@.len());
        },
        PhotoOwnerReviewStateV1::PermanentUnavailable => {
            assert("permanent_unavailable"@.len() != "instances_available"@.len());
            assert("permanent_unavailable"@.len() != "no_person_detected"@.len());
            assert("permanent_unavailable"@.len() != "overflow"@.len());
            assert("permanent_unavailable"@.len() != "retryable_failure"@.len());
        },
        }
    }
    reveal_strlit("succeeded_zero");
    reveal_strlit("succeeded_instances");
    reveal_strlit("overflow");
    reveal_strlit("retryable_failure");
    reveal_strlit("permanent_unavailable");
    assert forall|v: PersonDetectionTerminalStateV1| #[trigger] detection_terminal_state_of_name(detection_terminal_state_name(v)) == Some(v) by {
        match v {
        PersonDetectionTerminalStateV1::SucceededZero => {
        },
        PersonDetectionTerminalStateV1::SucceededInstances => {
            assert("succeeded_instances"@.len() != "succeeded_zero"@.len());
        },
        PersonDetectionTerminalStateV1::Overflow => {
            assert("overflow"@.len() != "succeeded_zero"@.len());
            assert("overflow"@.len() != "succeeded_instances"@.len());
        },
        PersonDetectionTerminalStateV1::RetryableFailure => {
            assert("retryable_failure"@.len() != "succeeded_zero"@.len());
            assert("retryable_failure"@.len() != "succeeded_instances"@.len());
            assert("retryable_failure"@.len() != "overflow"@.len());
        },
        PersonDetectionTerminalStateV1::PermanentUnavailable => {
            assert("permanent_unavailable"@.len() != "succeeded_zero"@.len());
            assert("permanent_unavailable"@.len() != "succeeded_instances"@.len());
            assert("permanent_unavailable"@.len() != "overflow"@.len());
            assert("permanent_unavailable"@.len() != "retryable_failure"@.len());
        },
        }
    }
}

/// What a person detection found, as far as its storage looks at it.
#[derive(Clone, Copy, Debug, PartialEq, Eq, Structural)]
pub enum PersonDetectionResultSummary {
    SucceededZero,
    SucceededInstances { count: usize },
    Overflow { detected_count: u32 },
    RetryableFailure,
    PermanentUnavailable { invalid_provider_output: bool },
}

/// How a detection result is stored: the attempt state, the review state,
/// the person count where one is known, and the reason code.
pub open spec fn spec_detection_storage_state(result: PersonDetectionResultSummary) -> (
    Seq<char>,
    Seq<char>,
    Option<int>,
    Seq<char>,
) {
    match result {
        PersonDetectionResultSummary::SucceededZero => (
            "succeeded_zero"@,
            "no_person_detected"@,
            Some(0int),
            "vision_completed"@,
        ),
        PersonDetectionResultSummary::SucceededInstances { count } => (
            "succeeded_instances"@,
            "instances_available"@,
            Some((count as i64) as int),
            "vision_completed"@,
        ),
        PersonDetectionResultSummary::Overflow { detected_count } => (
            "overflow"@,
            "overflow"@,
            Some(detected_count as int),
            "output_overflow"@,
        ),
        PersonDetectionResultSummary::RetryableFailure => (
            "retryable_failure"@,
            "retryable_failure"@,
            None,
            "vision_transient"@,
        ),
        PersonDetectionResultSummary::PermanentUnavailable { invalid_provider_output } => (
            "permanent_unavailable"@,
            "permanent_unavailable"@,
            None,
            if invalid_provider_output {
                "invalid_provider_output"@
            } else {
                "vision_unavailable"@
            },
        ),
    }
}

pub fn detection_storage_state(result: PersonDetectionResultSummary) -> (state: (
    &'static str,
    &'static str,
    Option<i64>,
    &'static str,
))
    ensures
        spec_detection_storage_state(result) == (
            state.0@,
            state.1@,
            match state.2 {
                Some(n) => Some(n as int),
                None => None,
            },
            state.3@,
        ),
{
    match result {
        PersonDetectionResultSummary::SucceededZero => (
            "succeeded_zero",
            "no_person_detected",
            Some(0),
            "vision_completed",
        ),
        PersonDetectionResultSummary::SucceededInstances { count } => (
            "succeeded_instances",
            "instances_available",
            Some(count as i64),
            "vision_completed",
        ),
        PersonDetectionResultSummary::Overflow { detected_count } => (
            "overflow",
            "overflow",
            Some(detected_count as i64),
            "output_overflow",
        ),
        PersonDetectionResultSummary::RetryableFailure => (
            "retryable_failure",
            "retryable_failure",
            None,
            "vision_transient",
        ),
        PersonDetectionResultSummary::PermanentUnavailable { invalid_provider_output } => (
            "permanent_unavailable",
            "permanent_unavailable",
            None,
            if invalid_provider_output {
                "invalid_provider_output"
            } else {
                "vision_unavailable"
            },
        ),
    }
}

/// The detection attempt state and the review state that a result is stored
/// under name the same outcome.
pub proof fn lemma_storage_state_consistent(result: PersonDetectionResultSummary)
    ensures
        detection_terminal_state_of_name(spec_detection_storage_state(result).0) is Some,
        owner_review_state_of_name(spec_detection_storage_state(result).1) is Some,
{
    lemma_person_names_round_trip();
    match result {
        PersonDetectionResultSummary::SucceededZero => {
            assert(detection_terminal_state_name(PersonDetectionTerminalStateV1::SucceededZero) == "succeeded_zero"@);
            assert(owner_review_state_name(PhotoOwnerReviewStateV1::NoPersonDetected) == "no_person_detected"@);
        },
        PersonDetectionResultSummary::SucceededInstances { .. } => {
            assert(detection_terminal_state_name(PersonDetectionTerminalStateV1::SucceededInstances) == "succeeded_instances"@);
            assert(owner_review_state_name(PhotoOwnerReviewStateV1::InstancesAvailable) == "instances_available"@);
        },
        PersonDetectionResultSummary::Overflow { .. } => {
            assert(detection_terminal_state_name(PersonDetectionTerminalStateV1::Overflow) == "overflow"@);
            assert(owner_review_state_name(PhotoOwnerReviewStateV1::Overflow) == "overflow"@);
        },
        PersonDetectionResultSummary::RetryableFailure => {
            assert(detection_terminal_state_name(PersonDetectionTerminalStateV1::RetryableFailure) == "retryable_failure"@);
            assert(owner_review_state_name(PhotoOwnerReviewStateV1::RetryableFailure) == "retryable_failure"@);
        },
        PersonDetectionResultSummary::PermanentUnavailable { .. } => {
            assert(detection_terminal_state_name(PersonDetectionTerminalStateV1::PermanentUnavailable) == "permanent_unavailable"@);
            assert(owner_review_state_name(PhotoOwnerReviewStateV1::PermanentUnavailable) == "permanent_unavailable"@);
        },
    }
}

} // verus!
