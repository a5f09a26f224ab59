use crate::photo_codecs::{
    PhotoSegmentationOutcomeCodeV1, SegmentationFailureCodeV1, SegmentationUnavailableReasonV1,
};
use vstd::prelude::*;

verus! {

/// What a segmentation provider reported, as far as storing it looks at it.
#[derive(Clone, Copy, Debug, PartialEq, Eq, Structural)]
pub enum SegmentationResultSummary {
    AutomaticMasks { mask_count: usize },
    InteractiveMasks { mask_count: usize },
    NoGarment,
    Unavailable { reason: SegmentationUnavailableReasonV1 },
    Failed { code: SegmentationFailureCodeV1 },
}

/// How a segmentation provider failed to answer.
#[derive(Clone, Copy, Debug, PartialEq, Eq, Structural)]
pub enum SegmentationProviderErrorKind {
    InvalidRequest,
    MalformedOutput,
    Internal,
}

/// How a segmentation attempt is recorded: its outcome code, the reason,
/// failure or rejection that goes with it, the number of masks, the result
/// of the quality gate, and the digest of the provider's response where
/// there was one.
#[derive(Clone, Debug, PartialEq, Eq)]
pub struct TerminalOutcome {
    pub code: PhotoSegmentationOutcomeCodeV1,
    pub unavailable_reason: Option<SegmentationUnavailableReasonV1>,
    pub failure_code: Option<SegmentationFailureCodeV1>,
    pub rejection_code: Option<&'static str>,
    pub mask_count: usize,
    pub quality_gate_result: &'static str,
    pub response_sha256: Option<String>,
}

/// The outcome recorded for an answer: its code and the one detail that
/// goes with it. Automatic masks wait for the quality gate ("rejected"
/// until it passes them); interactive masks and the other answers do not
/// go through it.
pub open spec fn answer_outcome(
    outcome: TerminalOutcome,
    result: SegmentationResultSummary,
    response_sha256: Seq<char>,
) -> bool {
    &&& outcome.rejection_code is None
    &&& outcome.response_sha256 matches Some(r) && r@ == response_sha256
    &&& match result {
        SegmentationResultSummary::AutomaticMasks { mask_count } => outcome.code
            == PhotoSegmentationOutcomeCodeV1::AutomaticMasks && outcome.unavailable_reason is None
            && outcome.failure_code is None && outcome.mask_count == mask_count
            && outcome.quality_gate_result@ == "rejected"@,
        SegmentationResultSummary::InteractiveMasks { mask_count } => outcome.code
            == PhotoSegmentationOutcomeCodeV1::InteractiveMasks && outcome.unavailable_reason is None
            && outcome.failure_code is None && outcome.mask_count == mask_count
            && outcome.quality_gate_result@ == "not_applicable"@,
        SegmentationResultSummary::NoGarment => outcome.code == PhotoSegmentationOutcomeCodeV1::NoGarment
            && outcome.unavailable_reason is None && outcome.failure_code is None && outcome.mask_count
            == 0 && outcome.quality_gate_result@ == "not_applicable"@,
        SegmentationResultSummary::Unavailable { reason } => outcome.code
            == PhotoSegmentationOutcomeCodeV1::Unavailable && outcome.unavailable_reason == Some(reason)
            && outcome.failure_code is None && outcome.mask_count == 0
            && outcome.quality_gate_result@ == "not_applicable"@,
        SegmentationResultSummary::Failed { code } => outcome.code
            == PhotoSegmentationOutcomeCodeV1::Failed && outcome.unavailable_reason is None
            && outcome.failure_code == Some(code) && outcome.mask_count == 0
            && outcome.quality_gate_result@ == "not_applicable"@,
    }
}

pub open spec fn rejected_as_invalid_output(rejection_code: Option<&'static str>) -> bool {
    rejection_code matches Some(r) && r@ == "provider_output_invalid"@
}

/// The outcome recorded for a provider that failed to answer: an invalid
/// request failed with `InvalidInput`, malformed output is rejected with the
/// quality gate disabled, an internal error failed in inference.
pub open spec fn error_outcome(outcome: TerminalOutcome, error: SegmentationProviderErrorKind) -> bool {
    &&& outcome.unavailable_reason is None
    &&& outcome.mask_count == 0
    &&& outcome.response_sha256 is None
    &&& match error {
        SegmentationProviderErrorKind::InvalidRequest => outcome.code
            == PhotoSegmentationOutcomeCodeV1::Failed && outcome.failure_code == Some(
            SegmentationFailureCodeV1::InvalidInput,
        ) && outcome.rejection_code is None && outcome.quality_gate_result@ == "not_applicable"@,
        SegmentationProviderErrorKind::MalformedOutput => outcome.code
            == PhotoSegmentationOutcomeCodeV1::Rejected && outcome.failure_code is None
            && rejected_as_invalid_output(outcome.rejection_code) && outcome.quality_gate_result@
            == "disabled"@,
        SegmentationProviderErrorKind::Internal => outcome.code
            == PhotoSegmentationOutcomeCodeV1::Failed && outcome.failure_code == Some(
            SegmentationFailureCodeV1::InferenceFailed,
        ) && outcome.rejection_code is None && outcome.quality_gate_result@ == "not_applicable"@,
    }
}

/// A recorded outcome carries the detail of its code and no other: an
/// unavailable reason exactly when unavailable, a failure code exactly when
/// failed, a rejection code exactly when rejected.
pub open spec fn outcome_consistent(outcome: TerminalOutcome) -> bool {
    &&& (outcome.unavailable_reason is Some) == (outcome.code == PhotoSegmentationOutcomeCodeV1::Unavailable)
    &&& (outcome.failure_code is Some) == (outcome.code == PhotoSegmentationOutcomeCodeV1::Failed)
    &&& (outcome.rejection_code is Some) == (outcome.code == PhotoSegmentationOutcomeCodeV1::Rejected)
}

/// The outcome recorded for a segmentation attempt, given the provider's
/// answer with the digest of its response, or how it failed to answer.
pub fn terminal_outcome(result: Result<(SegmentationResultSummary, String), SegmentationProviderErrorKind>) -> (outcome:
    TerminalOutcome)
    ensures
        match result {
            Ok((answer, digest)) => answer_outcome(outcome, answer, digest@),
            Err(error) => error_outcome(outcome, error),
        },
        outcome_consistent(outcome),
{
    match result {
        Ok((answer, response_sha256)) => match answer {
            SegmentationResultSummary::AutomaticMasks { mask_count } => TerminalOutcome {
                code: PhotoSegmentationOutcomeCodeV1::AutomaticMasks,
                unavailable_reason: None,
                failure_code: None,
                rejection_code: None,
                mask_count,
                quality_gate_result: "rejected",
                response_sha256: Some(response_sha256),
            },
            SegmentationResultSummary::InteractiveMasks { mask_count } => TerminalOutcome {
                code: PhotoSegmentationOutcomeCodeV1::InteractiveMasks,
                unavailable_reason: None,
                failure_code: None,
                rejection_code: None,
                mask_count,
                quality_gate_result: "not_applicable",
                response_sha256: Some(response_sha256),
            },
            SegmentationResultSummary::NoGarment => TerminalOutcome {
                code: PhotoSegmentationOutcomeCodeV1::NoGarment,
                unavailable_reason: None,
                failure_code: None,
                rejection_code: None,
                mask_count: 0,
                quality_gate_result: "not_applicable",
                response_sha256: Some(response_sha256),
            },
            SegmentationResultSummary::Unavailable { reason } => TerminalOutcome {
                code: PhotoSegmentationOutcomeCodeV1::Unavailable,
                unavailable_reason: Some(reason),
                failure_code: None,
                rejection_code: None,
                mask_count: 0,
                quality_gate_result: "not_applicable",
                response_sha256: Some(response_sha256),
            },
            SegmentationResultSummary::Failed { code } => TerminalOutcome {
                code: PhotoSegmentationOutcomeCodeV1::Failed,
                unavailable_reason: None,
                failure_code: Some(code),
                rejection_code: None,
                mask_count: 0,
                quality_gate_result: "not_applicable",
                response_sha256: Some(response_sha256),
            },
        },
        Err(SegmentationProviderErrorKind::InvalidRequest) => TerminalOutcome {
            code: PhotoSegmentationOutcomeCodeV1::Failed,
            unavailable_reason: None,
            failure_code: Some(SegmentationFailureCodeV1::InvalidInput),
            rejection_code: None,
            mask_count: 0,
            quality_gate_result: "not_applicable",
            response_sha256: None,
        },
        Err(SegmentationProviderErrorKind::MalformedOutput) => TerminalOutcome {
            code: PhotoSegmentationOutcomeCodeV1::Rejected,
            unavailable_reason: None,
            failure_code: None,
            rejection_code: Some("provider_output_invalid"),
            mask_count: 0,
            quality_gate_result: "disabled",
            response_sha256: None,
        },
        Err(SegmentationProviderErrorKind::Internal) => TerminalOutcome {
            code: PhotoSegmentationOutcomeCodeV1::Failed,
            unavailable_reason: None,
            failure_code: Some(SegmentationFailureCodeV1::InferenceFailed),
            rejection_code: None,
            mask_count: 0,
            quality_gate_result: "not_applicable",
            response_sha256: None,
        },
    }
}

} // verus!
