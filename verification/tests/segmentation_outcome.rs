use wardrobe_platform::photo_codecs::{
    PhotoSegmentationOutcomeCodeV1, SegmentationFailureCodeV1, SegmentationUnavailableReasonV1,
};
use wardrobe_platform::segmentation_outcome::{
    terminal_outcome, SegmentationProviderErrorKind, SegmentationResultSummary, TerminalOutcome,
};

const DIGEST: &str = "0123456789abcdef0123456789abcdef0123456789abcdef0123456789abcdef";

fn answered(result: SegmentationResultSummary) -> TerminalOutcome {
    terminal_outcome(Ok((result, DIGEST.to_owned())))
}

#[test]
fn provider_answers_are_recorded_with_their_detail() {
    let automatic = answered(SegmentationResultSummary::AutomaticMasks { mask_count: 3 });
    assert_eq!(automatic.code, PhotoSegmentationOutcomeCodeV1::AutomaticMasks);
    assert_eq!(automatic.mask_count, 3);
    assert_eq!(automatic.quality_gate_result, "rejected");
    assert_eq!(automatic.response_sha256.as_deref(), Some(DIGEST));
    let interactive = answered(SegmentationResultSummary::InteractiveMasks { mask_count: 1 });
    assert_eq!(interactive.code, PhotoSegmentationOutcomeCodeV1::InteractiveMasks);
    assert_eq!(interactive.quality_gate_result, "not_applicable");
    let none = answered(SegmentationResultSummary::NoGarment);
    assert_eq!((none.code, none.mask_count), (PhotoSegmentationOutcomeCodeV1::NoGarment, 0));
    let unavailable = answered(SegmentationResultSummary::Unavailable {
        reason: SegmentationUnavailableReasonV1::CapabilityDisabled,
    });
    assert_eq!(unavailable.code, PhotoSegmentationOutcomeCodeV1::Unavailable);
    assert_eq!(unavailable.unavailable_reason, Some(SegmentationUnavailableReasonV1::CapabilityDisabled));
    let failed = answered(SegmentationResultSummary::Failed { code: SegmentationFailureCodeV1::TimedOut });
    assert_eq!(failed.code, PhotoSegmentationOutcomeCodeV1::Failed);
    assert_eq!(failed.failure_code, Some(SegmentationFailureCodeV1::TimedOut));
    assert_eq!(failed.rejection_code, None);
}

#[test]
fn provider_failures_are_recorded_without_a_response() {
    let invalid = terminal_outcome(Err(SegmentationProviderErrorKind::InvalidRequest));
    assert_eq!(invalid.code, PhotoSegmentationOutcomeCodeV1::Failed);
    assert_eq!(invalid.failure_code, Some(SegmentationFailureCodeV1::InvalidInput));
    assert_eq!(invalid.response_sha256, None);
    let malformed = terminal_outcome(Err(SegmentationProviderErrorKind::MalformedOutput));
    assert_eq!(malformed.code, PhotoSegmentationOutcomeCodeV1::Rejected);
    assert_eq!(malformed.rejection_code, Some("provider_output_invalid"));
    assert_eq!(malformed.quality_gate_result, "disabled");
    let internal = terminal_outcome(Err(SegmentationProviderErrorKind::Internal));
    assert_eq!(internal.failure_code, Some(SegmentationFailureCodeV1::InferenceFailed));
    assert_eq!(internal.unavailable_reason, None);
}
