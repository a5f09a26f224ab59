use crate::platform_error::{IoFailureKind, PlatformError, PlatformResult};
use crate::text::str_equal;
use vstd::prelude::*;

verus! {

/// The disposition of an imported photo source.
#[derive(Clone, Copy, Debug, PartialEq, Eq, Structural)]
pub enum PhotoSourceDispositionV1 {
    Eligible,
    Quarantined,
}

/// The name under which a value is stored.
pub open spec fn disposition_name(value: PhotoSourceDispositionV1) -> Seq<char> {
    match value {
        PhotoSourceDispositionV1::Eligible => "eligible"@,
        PhotoSourceDispositionV1::Quarantined => "quarantined"@,
    }
}

pub fn disposition_db(value: PhotoSourceDispositionV1) -> (name: &'static str)
    ensures
        name@ == disposition_name(value),
{
    match value {
        PhotoSourceDispositionV1::Eligible => "eligible",
        PhotoSourceDispositionV1::Quarantined => "quarantined",
    }
}

/// Why a photo source was quarantined.
#[derive(Clone, Copy, Debug, PartialEq, Eq, Structural)]
pub enum PhotoQuarantineReasonV1 {
    SourceUnavailable,
    BlobUnavailable,
    BlobIntegrityFailed,
    MediaTypeRejected,
    ImageDecodeFailed,
    ImageAnimated,
    ImageDimensionLimit,
}

/// The name under which a value is stored.
pub open spec fn quarantine_reason_name(value: PhotoQuarantineReasonV1) -> Seq<char> {
    match value {
        PhotoQuarantineReasonV1::SourceUnavailable => "source_unavailable"@,
        PhotoQuarantineReasonV1::BlobUnavailable => "blob_unavailable"@,
        PhotoQuarantineReasonV1::BlobIntegrityFailed => "blob_integrity_failed"@,
        PhotoQuarantineReasonV1::MediaTypeRejected => "media_type_rejected"@,
        PhotoQuarantineReasonV1::ImageDecodeFailed => "image_decode_failed"@,
        PhotoQuarantineReasonV1::ImageAnimated => "image_animated"@,
        PhotoQuarantineReasonV1::ImageDimensionLimit => "image_dimension_limit"@,
    }
}

pub fn quarantine_reason_db(value: PhotoQuarantineReasonV1) -> (name: &'static str)
    ensures
        name@ == quarantine_reason_name(value),
{
    match value {
        PhotoQuarantineReasonV1::SourceUnavailable => "source_unavailable",
        PhotoQuarantineReasonV1::BlobUnavailable => "blob_unavailable",
        PhotoQuarantineReasonV1::BlobIntegrityFailed => "blob_integrity_failed",
        PhotoQuarantineReasonV1::MediaTypeRejected => "media_type_rejected",
        PhotoQuarantineReasonV1::ImageDecodeFailed => "image_decode_failed",
        PhotoQuarantineReasonV1::ImageAnimated => "image_animated",
        PhotoQuarantineReasonV1::ImageDimensionLimit => "image_dimension_limit",
    }
}

/// The media type of a photo source.
#[derive(Clone, Copy, Debug, PartialEq, Eq, Structural)]
pub enum PhotoMediaTypeV1 {
    ImageJpeg,
    ImagePng,
    ImageWebp,
}

/// The name under which a value is stored.
pub open spec fn media_type_name(value: PhotoMediaTypeV1) -> Seq<char> {
    match value {
        PhotoMediaTypeV1::ImageJpeg => "image/jpeg"@,
        PhotoMediaTypeV1::ImagePng => "image/png"@,
        PhotoMediaTypeV1::ImageWebp => "image/webp"@,
    }
}

pub fn media_type_db(value: PhotoMediaTypeV1) -> (name: &'static str)
    ensures
        name@ == media_type_name(value),
{
    match value {
        PhotoMediaTypeV1::ImageJpeg => "image/jpeg",
        PhotoMediaTypeV1::ImagePng => "image/png",
        PhotoMediaTypeV1::ImageWebp => "image/webp",
    }
}

/// The value stored under a name.
pub open spec fn media_type_of_name(value: Seq<char>) -> Option<PhotoMediaTypeV1> {
    if value == "image/jpeg"@ {
        Some(PhotoMediaTypeV1::ImageJpeg)
    } else if value == "image/png"@ {
        Some(PhotoMediaTypeV1::ImagePng)
    } else if value == "image/webp"@ {
        Some(PhotoMediaTypeV1::ImageWebp)
    } else {
        None
    }
}

pub fn media_type_from_db(value: &str) -> (result: PlatformResult<PhotoMediaTypeV1>)
    ensures
        match result {
            Ok(v) => media_type_of_name(value@) == Some(v),
            Err(e) => media_type_of_name(value@) is None && e == PlatformError::Corrupt("photo_media_type"),
        },
{
    if str_equal(value, "image/jpeg") {
        Ok(PhotoMediaTypeV1::ImageJpeg)
    } else if str_equal(value, "image/png") {
        Ok(PhotoMediaTypeV1::ImagePng)
    } else if str_equal(value, "image/webp") {
        Ok(PhotoMediaTypeV1::ImageWebp)
    } else {
        Err(PlatformError::Corrupt("photo_media_type"))
    }
}

/// How a segmentation was requested.
#[derive(Clone, Copy, Debug, PartialEq, Eq, Structural)]
pub enum SegmentationRequestModeKindV1 {
    Automatic,
    Interactive,
}

/// The name under which a value is stored.
pub open spec fn request_mode_name(value: SegmentationRequestModeKindV1) -> Seq<char> {
    match value {
        SegmentationRequestModeKindV1::Automatic => "automatic"@,
        SegmentationRequestModeKindV1::Interactive => "interactive"@,
    }
}

pub fn request_mode_db(value: SegmentationRequestModeKindV1) -> (name: &'static str)
    ensures
        name@ == request_mode_name(value),
{
    match value {
        SegmentationRequestModeKindV1::Automatic => "automatic",
        SegmentationRequestModeKindV1::Interactive => "interactive",
    }
}

/// The value stored under a name.
pub open spec fn request_mode_of_name(value: Seq<char>) -> Option<SegmentationRequestModeKindV1> {
    if value == "automatic"@ {
        Some(SegmentationRequestModeKindV1::Automatic)
    } else if value == "interactive"@ {
        Some(SegmentationRequestModeKindV1::Interactive)
    } else {
        None
    }
}

pub fn request_mode_from_db(value: &str) -> (result: PlatformResult<SegmentationRequestModeKindV1>)
    ensures
        match result {
            Ok(v) => request_mode_of_name(value@) == Some(v),
            Err(e) => request_mode_of_name(value@) is None && e == PlatformError::Corrupt("photo_request_mode"),
        },
{
    if str_equal(value, "automatic") {
        Ok(SegmentationRequestModeKindV1::Automatic)
    } else if str_equal(value, "interactive") {
        Ok(SegmentationRequestModeKindV1::Interactive)
    } else {
        Err(PlatformError::Corrupt("photo_request_mode"))
    }
}

/// How a segmentation attempt ended.
#[derive(Clone, Copy, Debug, PartialEq, Eq, Structural)]
pub enum PhotoSegmentationOutcomeCodeV1 {
    AutomaticMasks,
    InteractiveMasks,
    NoGarment,
    Unavailable,
    Failed,
    Rejected,
}

/// The name under which a value is stored.
pub open spec fn outcome_name(value: PhotoSegmentationOutcomeCodeV1) -> Seq<char> {
    match value {
        PhotoSegmentationOutcomeCodeV1::AutomaticMasks => "automatic_masks"@,
        PhotoSegmentationOutcomeCodeV1::InteractiveMasks => "interactive_masks"@,
        PhotoSegmentationOutcomeCodeV1::NoGarment => "no_garment"@,
        PhotoSegmentationOutcomeCodeV1::Unavailable => "unavailable"@,
        PhotoSegmentationOutcomeCodeV1::Failed => "failed"@,
        PhotoSegmentationOutcomeCodeV1::Rejected => "rejected"@,
    }
}

pub fn outcome_db(value: PhotoSegmentationOutcomeCodeV1) -> (name: &'static str)
    ensures
        name@ == outcome_name(value),
{
    match value {
        PhotoSegmentationOutcomeCodeV1::AutomaticMasks => "automatic_masks",
        PhotoSegmentationOutcomeCodeV1::InteractiveMasks => "interactive_masks",
        PhotoSegmentationOutcomeCodeV1::NoGarment => "no_garment",
        PhotoSegmentationOutcomeCodeV1::Unavailable => "unavailable",
        PhotoSegmentationOutcomeCodeV1::Failed => "failed",
        PhotoSegmentationOutcomeCodeV1::Rejected => "rejected",
    }
}

/// The value stored under a name.
pub open spec fn outcome_of_name(value: Seq<char>) -> Option<PhotoSegmentationOutcomeCodeV1> {
    if value == "automatic_masks"@ {
        Some(PhotoSegmentationOutcomeCodeV1::AutomaticMasks)
    } else if value == "interactive_masks"@ {
        Some(PhotoSegmentationOutcomeCodeV1::InteractiveMasks)
    } else if value == "no_garment"@ {
        Some(PhotoSegmentationOutcomeCodeV1::NoGarment)
    } else if value == "unavailable"@ {
        Some(PhotoSegmentationOutcomeCodeV1::Unavailable)
    } else if value == "failed"@ {
        Some(PhotoSegmentationOutcomeCodeV1::Failed)
    } else if value == "rejected"@ {
        Some(PhotoSegmentationOutcomeCodeV1::Rejected)
    } else {
        None
    }
}

pub fn outcome_from_db(value: &str) -> (result: PlatformResult<PhotoSegmentationOutcomeCodeV1>)
    ensures
        match result {
            Ok(v) => outcome_of_name(value@) == Some(v),
            Err(e) => outcome_of_name(value@) is None && e == PlatformError::Corrupt("photo_segmentation_outcome"),
        },
{
    if str_equal(value, "automatic_masks") {
        Ok(PhotoSegmentationOutcomeCodeV1::AutomaticMasks)
    } else if str_equal(value, "interactive_masks") {
        Ok(PhotoSegmentationOutcomeCodeV1::InteractiveMasks)
    } else if str_equal(value, "no_garment") {
        Ok(PhotoSegmentationOutcomeCodeV1::NoGarment)
    } else if str_equal(value, "unavailable") {
        Ok(PhotoSegmentationOutcomeCodeV1::Unavailable)
    } else if str_equal(value, "failed") {
        Ok(PhotoSegmentationOutcomeCodeV1::Failed)
    } else if str_equal(value, "rejected") {
        Ok(PhotoSegmentationOutcomeCodeV1::Rejected)
    } else {
        Err(PlatformError::Corrupt("photo_segmentation_outcome"))
    }
}

/// Why segmentation was unavailable.
#[derive(Clone, Copy, Debug, PartialEq, Eq, Structural)]
pub enum SegmentationUnavailableReasonV1 {
    ReviewedModelPackAbsent,
    CapabilityDisabled,
    ResourceUnavailable,
}

/// The name under which a value is stored.
pub open spec fn unavailable_reason_name(value: SegmentationUnavailableReasonV1) -> Seq<char> {
    match value {
        SegmentationUnavailableReasonV1::ReviewedModelPackAbsent => "reviewed_model_pack_absent"@,
        SegmentationUnavailableReasonV1::CapabilityDisabled => "capability_disabled"@,
        SegmentationUnavailableReasonV1::ResourceUnavailable => "resource_unavailable"@,
    }
}

pub fn unavailable_reason_db(value: SegmentationUnavailableReasonV1) -> (name: &'static str)
    ensures
        name@ == unavailable_reason_name(value),
{
    match value {
        SegmentationUnavailableReasonV1::ReviewedModelPackAbsent => "reviewed_model_pack_absent",
        SegmentationUnavailableReasonV1::CapabilityDisabled => "capability_disabled",
        SegmentationUnavailableReasonV1::ResourceUnavailable => "resource_unavailable",
    }
}

/// The value stored under a name.
pub open spec fn unavailable_reason_of_name(value: Seq<char>) -> Option<SegmentationUnavailableReasonV1> {
    if value == "reviewed_model_pack_absent"@ {
        Some(SegmentationUnavailableReasonV1::ReviewedModelPackAbsent)
    } else if value == "capability_disabled"@ {
        Some(SegmentationUnavailableReasonV1::CapabilityDisabled)
    } else if value == "resource_unavailable"@ {
        Some(SegmentationUnavailableReasonV1::ResourceUnavailable)
    } else {
        None
    }
}

pub fn unavailable_reason_from_db(value: &str) -> (result: PlatformResult<SegmentationUnavailableReasonV1>)
    ensures
        match result {
            Ok(v) => unavailable_reason_of_name(value@) == Some(v),
            Err(e) => unavailable_reason_of_name(value@) is None && e == PlatformError::Corrupt("photo_segmentation_unavailable_reason"),
        },
{
    if str_equal(value, "reviewed_model_pack_absent") {
        Ok(SegmentationUnavailableReasonV1::ReviewedModelPackAbsent)
    } else if str_equal(value, "capability_disabled") {
        Ok(SegmentationUnavailableReasonV1::CapabilityDisabled)
    } else if str_equal(value, "resource_unavailable") {
        Ok(SegmentationUnavailableReasonV1::ResourceUnavailable)
    } else {
        Err(PlatformError::Corrupt("photo_segmentation_unavailable_reason"))
    }
}

/// Why a segmentation failed.
#[derive(Clone, Copy, Debug, PartialEq, Eq, Structural)]
pub enum SegmentationFailureCodeV1 {
    InvalidInput,
    InferenceFailed,
    ResourceLimit,
    TimedOut,
}

/// The name under which a value is stored.
pub open spec fn failure_code_name(value: SegmentationFailureCodeV1) -> Seq<char> {
    match value {
        SegmentationFailureCodeV1::InvalidInput => "invalid_input"@,
        SegmentationFailureCodeV1::InferenceFailed => "inference_failed"@,
        SegmentationFailureCodeV1::ResourceLimit => "resource_limit"@,
        SegmentationFailureCodeV1::TimedOut => "timed_out"@,
    }
}

pub fn failure_code_db(value: SegmentationFailureCodeV1) -> (name: &'static str)
    ensures
        name@ == failure_code_name(value),
{
    match value {
        SegmentationFailureCodeV1::InvalidInput => "invalid_input",
        SegmentationFailureCodeV1::InferenceFailed => "inference_failed",
        SegmentationFailureCodeV1::ResourceLimit => "resource_limit",
        SegmentationFailureCodeV1::TimedOut => "timed_out",
    }
}

/// The value stored under a name.
pub open spec fn failure_code_of_name(value: Seq<char>) -> Option<SegmentationFailureCodeV1> {
    if value == "invalid_input"@ {
        Some(SegmentationFailureCodeV1::InvalidInput)
    } else if value == "inference_failed"@ {
        Some(SegmentationFailureCodeV1::InferenceFailed)
    } else if value == "resource_limit"@ {
        Some(SegmentationFailureCodeV1::ResourceLimit)
    } else if value == "timed_out"@ {
        Some(SegmentationFailureCodeV1::TimedOut)
    } else {
        None
    }
}

pub fn failure_code_from_db(value: &str) -> (result: PlatformResult<SegmentationFailureCodeV1>)
    ensures
        match result {
            Ok(v) => failure_code_of_name(value@) == Some(v),
            Err(e) => failure_code_of_name(value@) is None && e == PlatformError::Corrupt("photo_segmentation_failure_code"),
        },
{
    if str_equal(value, "invalid_input") {
        Ok(SegmentationFailureCodeV1::InvalidInput)
    } else if str_equal(value, "inference_failed") {
        Ok(SegmentationFailureCodeV1::InferenceFailed)
    } else if str_equal(value, "resource_limit") {
        Ok(SegmentationFailureCodeV1::ResourceLimit)
    } else if str_equal(value, "timed_out") {
        Ok(SegmentationFailureCodeV1::TimedOut)
    } else {
        Err(PlatformError::Corrupt("photo_segmentation_failure_code"))
    }
}

/// What a photo artifact is.
#[derive(Clone, Copy, Debug, PartialEq, Eq, Structural)]
pub enum PhotoArtifactKindV1 {
    RectangleSourceCrop,
    SourceImageReference,
}

/// The name under which a value is stored.
pub open spec fn artifact_kind_name(value: PhotoArtifactKindV1) -> Seq<char> {
    match value {
        PhotoArtifactKindV1::RectangleSourceCrop => "rectangle_source_crop"@,
        PhotoArtifactKindV1::SourceImageReference => "source_image_reference"@,
    }
}

pub fn artifact_kind_db(value: PhotoArtifactKindV1) -> (name: &'static str)
    ensures
        name@ == artifact_kind_name(value),
{
    match value {
        PhotoArtifactKindV1::RectangleSourceCrop => "rectangle_source_crop",
        PhotoArtifactKindV1::SourceImageReference => "source_image_reference",
    }
}

/// The value stored under a name.
pub open spec fn artifact_kind_of_name(value: Seq<char>) -> Option<PhotoArtifactKindV1> {
    if value == "rectangle_source_crop"@ {
        Some(PhotoArtifactKindV1::RectangleSourceCrop)
    } else if value == "source_image_reference"@ {
        Some(PhotoArtifactKindV1::SourceImageReference)
    } else {
        None
    }
}

pub fn artifact_kind_from_db(value: &str) -> (result: PlatformResult<PhotoArtifactKindV1>)
    ensures
        match result {
            Ok(v) => artifact_kind_of_name(value@) == Some(v),
            Err(e) => artifact_kind_of_name(value@) is None && e == PlatformError::Corrupt("photo_artifact_kind"),
        },
{
    if str_equal(value, "rectangle_source_crop") {
        Ok(PhotoArtifactKindV1::RectangleSourceCrop)
    } else if str_equal(value, "source_image_reference") {
        Ok(PhotoArtifactKindV1::SourceImageReference)
    } else {
        Err(PlatformError::Corrupt("photo_artifact_kind"))
    }
}

/// Where a garment observation stands in review.
#[derive(Clone, Copy, Debug, PartialEq, Eq, Structural)]
pub enum PhotoObservationStateV1 {
    NeedsReview,
    Confirmed,
    Replaced,
    Deferred,
    Rejected,
}

/// The name under which a value is stored.
pub open spec fn observation_state_name(value: PhotoObservationStateV1) -> Seq<char> {
    match value {
        PhotoObservationStateV1::NeedsReview => "needs_review"@,
        PhotoObservationStateV1::Confirmed => "confirmed"@,
        PhotoObservationStateV1::Replaced => "replaced"@,
        PhotoObservationStateV1::Deferred => "deferred"@,
        PhotoObservationStateV1::Rejected => "rejected"@,
    }
}

pub fn observation_state_db(value: PhotoObservationStateV1) -> (name: &'static str)
    ensures
        name@ == observation_state_name(value),
{
    match value {
        PhotoObservationStateV1::NeedsReview => "needs_review",
        PhotoObservationStateV1::Confirmed => "confirmed",
        PhotoObservationStateV1::Replaced => "replaced",
        PhotoObservationStateV1::Deferred => "deferred",
        PhotoObservationStateV1::Rejected => "rejected",
    }
}

/// The value stored under a name.
pub open spec fn observation_state_of_name(value: Seq<char>) -> Option<PhotoObservationStateV1> {
    if value == "needs_review"@ {
        Some(PhotoObservationStateV1::NeedsReview)
    } else if value == "confirmed"@ {
        Some(PhotoObservationStateV1::Confirmed)
    } else if value == "replaced"@ {
        Some(PhotoObservationStateV1::Replaced)
    } else if value == "deferred"@ {
        Some(PhotoObservationStateV1::Deferred)
    } else if value == "rejected"@ {
        Some(PhotoObservationStateV1::Rejected)
    } else {
        None
    }
}

pub fn observation_state_from_db(value: &str) -> (result: PlatformResult<PhotoObservationStateV1>)
    ensures
        match result {
            Ok(v) => observation_state_of_name(value@) == Some(v),
            Err(e) => observation_state_of_name(value@) is None && e == PlatformError::Corrupt("photo_observation_state"),
        },
{
    if str_equal(value, "needs_review") {
        Ok(PhotoObservationStateV1::NeedsReview)
    } else if str_equal(value, "confirmed") {
        Ok(PhotoObservationStateV1::Confirmed)
    } else if str_equal(value, "replaced") {
        Ok(PhotoObservationStateV1::Replaced)
    } else if str_equal(value, "deferred") {
        Ok(PhotoObservationStateV1::Deferred)
    } else if str_equal(value, "rejected") {
        Ok(PhotoObservationStateV1::Rejected)
    } else {
        Err(PlatformError::Corrupt("photo_observation_state"))
    }
}

/// The decision taken in the review of an observation.
#[derive(Clone, Copy, Debug, PartialEq, Eq, Structural)]
pub enum PhotoReviewActionV1 {
    ConfirmCrop,
    ReplaceCrop,
    Defer,
    Reject,
}

/// The name under which a value is stored.
pub open spec fn review_action_name(value: PhotoReviewActionV1) -> Seq<char> {
    match value {
        PhotoReviewActionV1::ConfirmCrop => "confirm_crop"@,
        PhotoReviewActionV1::ReplaceCrop => "replace_crop"@,
        PhotoReviewActionV1::Defer => "defer"@,
        PhotoReviewActionV1::Reject => "reject"@,
    }
}

pub fn review_action_db(value: PhotoReviewActionV1) -> (name: &'static str)
    ensures
        name@ == review_action_name(value),
{
    match value {
        PhotoReviewActionV1::ConfirmCrop => "confirm_crop",
        PhotoReviewActionV1::ReplaceCrop => "replace_crop",
        PhotoReviewActionV1::Defer => "defer",
        PhotoReviewActionV1::Reject => "reject",
    }
}

/// The value stored under a name.
pub open spec fn review_action_of_name(value: Seq<char>) -> Option<PhotoReviewActionV1> {
    if value == "confirm_crop"@ {
        Some(PhotoReviewActionV1::ConfirmCrop)
    } else if value == "replace_crop"@ {
        Some(PhotoReviewActionV1::ReplaceCrop)
    } else if value == "defer"@ {
        Some(PhotoReviewActionV1::Defer)
    } else if value == "reject"@ {
        Some(PhotoReviewActionV1::Reject)
    } else {
        None
    }
}

pub fn review_action_from_db(value: &str) -> (result: PlatformResult<PhotoReviewActionV1>)
    ensures
        match result {
            Ok(v) => review_action_of_name(value@) == Some(v),
            Err(e) => review_action_of_name(value@) is None && e == PlatformError::Corrupt("photo_review_action"),
        },
{
    if str_equal(value, "confirm_crop") {
        Ok(PhotoReviewActionV1::ConfirmCrop)
    } else if str_equal(value, "replace_crop") {
        Ok(PhotoReviewActionV1::ReplaceCrop)
    } else if str_equal(value, "defer") {
        Ok(PhotoReviewActionV1::Defer)
    } else if str_equal(value, "reject") {
        Ok(PhotoReviewActionV1::Reject)
    } else {
        Err(PlatformError::Corrupt("photo_review_action"))
    }
}

/// Reading back the stored name of a value gives the value.
pub proof fn lemma_photo_names_round_trip()
    ensures
        forall|v: PhotoMediaTypeV1| #[trigger] media_type_of_name(media_type_name(v)) == Some(v),
        forall|v: SegmentationRequestModeKindV1| #[trigger] request_mode_of_name(request_mode_name(v)) == Some(v),
        forall|v: PhotoSegmentationOutcomeCodeV1| #[trigger] outcome_of_name(outcome_name(v)) == Some(v),
        forall|v: SegmentationUnavailableReasonV1| #[trigger] unavailable_reason_of_name(unavailable_reason_name(v)) == Some(v),
        forall|v: SegmentationFailureCodeV1| #[trigger] failure_code_of_name(failure_code_name(v)) == Some(v),
        forall|v: PhotoArtifactKindV1| #[trigger] artifact_kind_of_name(artifact_kind_name(v)) == Some(v),
        forall|v: PhotoObservationStateV1| #[trigger] observation_state_of_name(observation_state_name(v)) == Some(v),
        forall|v: PhotoReviewActionV1| #[trigger] review_action_of_name(review_action_name(v)) == Some(v),
{
    reveal_strlit("image/jpeg");
    reveal_strlit("image/png");
    reveal_strlit("image/webp");
    assert forall|v: PhotoMediaTypeV1| #[trigger] media_type_of_name(media_type_name(v)) == Some(v) by {
        match v {
        PhotoMediaTypeV1::ImageJpeg => {
        },
        PhotoMediaTypeV1::ImagePng => {
            assert("image/png"@.len() != "image/jpeg"@.len());
        },
        PhotoMediaTypeV1::ImageWebp => {
            assert("image/webp"@[6] != "image/jpeg"@[6]);
            assert("image/webp"@.len() != "image/png"@.len());
        },
        }
    }
    reveal_strlit("automatic");
    reveal_strlit("interactive");
    assert forall|v: SegmentationRequestModeKindV1| #[trigger] request_mode_of_name(request_mode_name(v)) == Some(v) by {
        match v {
        SegmentationRequestModeKindV1::Automatic => {
        },
        SegmentationRequestModeKindV1::Interactive => {
            assert("interactive"@.len() != "automatic"@.len());
        },
        }
    }
    reveal_strlit("automatic_masks");
    reveal_strlit("interactive_masks");
    reveal_strlit("no_garment");
    reveal_strlit("unavailable");
    reveal_strlit("failed");
    reveal_strlit("rejected");
    assert forall|v: PhotoSegmentationOutcomeCodeV1| #[trigger] outcome_of_name(outcome_name(v)) == Some(v) by {
        match v {
        PhotoSegmentationOutcomeCodeV1::AutomaticMasks => {
        },
        PhotoSegmentationOutcomeCodeV1::InteractiveMasks => {
            assert("interactive_masks"@.len() != "automatic_masks"@.len());
        },
        PhotoSegmentationOutcomeCodeV1::NoGarment => {
            assert("no_garment"@.len() != "automatic_masks"@.len());
            assert("no_garment"@.len() != "interactive_masks"@.len());
        },
        PhotoSegmentationOutcomeCodeV1::Unavailable => {
            assert("unavailable"@.len() != "automatic_masks"@.len());
            assert("unavailable"@.len() != "interactive_masks"@.len());
            assert("unavailable"@.len() != "no_garment"@.len());
        },
        PhotoSegmentationOutcomeCodeV1::Failed => {
            assert("failed"@.len() != "automatic_masks"@.len());
            assert("failed"@.len() != "interactive_masks"@.len());
            assert("failed"@.len() != "no_garment"@.len());
            assert("failed"@.len() != "unavailable"@.len());
        },
        PhotoSegmentationOutcomeCodeV1::Rejected => {
            assert("rejected"@.len() != "automatic_masks"@.len());
            assert("rejected"@.len() != "interactive_masks"@.len());
            assert("rejected"@.len() != "no_garment"@.len());
            assert("rejected"@.len() != "unavailable"@.len());
            assert("rejected"@.len() != "failed"@.len());
        },
        }
    }
    reveal_strlit("reviewed_model_pack_absent");
    reveal_strlit("capability_disabled");
    reveal_strlit("resource_unavailable");
    assert forall|v: SegmentationUnavailableReasonV1| #[trigger] unavailable_reason_of_name(unavailable_reason_name(v)) == Some(v) by {
        match v {
        SegmentationUnavailableReasonV1::ReviewedModelPackAbsent => {
        },
        SegmentationUnavailableReasonV1::CapabilityDisabled => {
            assert("capability_disabled"@.len() != "reviewed_model_pack_absent"@.len());
        },
        SegmentationUnavailableReasonV1::ResourceUnavailable => {
            assert("resource_unavailable"@.len() != "reviewed_model_pack_absent"@.len());
            assert("resource_unavailable"@.len() != "capability_disabled"@.len());
        },
        }
    }
    reveal_strlit("invalid_input");
    reveal_strlit("inference_failed");
    reveal_strlit("resource_limit");
    reveal_strlit("timed_out");
    assert forall|v: SegmentationFailureCodeV1| #[trigger] failure_code_of_name(failure_code_name(v)) == Some(v) by {
        match v {
        SegmentationFailureCodeV1::InvalidInput => {
        },
        SegmentationFailureCodeV1::InferenceFailed => {
            assert("inference_failed"@.len() != "invalid_input"@.len());
        },
        SegmentationFailureCodeV1::ResourceLimit => {
            assert("resource_limit"@.len() != "invalid_input"@.len());
            assert("resource_limit"@.len() != "inference_failed"@.len());
        },
        SegmentationFailureCodeV1::TimedOut => {
            assert("timed_out"@.len() != "invalid_input"@.len());
            assert("timed_out"@.len() != "inference_failed"@.len());
            assert("timed_out"@.len() != "resource_limit"@.len());
        },
        }
    }
    reveal_strlit("rectangle_source_crop");
    reveal_strlit("source_image_reference");
    assert forall|v: PhotoArtifactKindV1| #[trigger] artifact_kind_of_name(artifact_kind_name(v)) == Some(v) by {
        match v {
        PhotoArtifactKindV1::RectangleSourceCrop => {
        },
        PhotoArtifactKindV1::SourceImageReference => {
            assert("source_image_reference"@.len() != "rectangle_source_crop"@.len());
        },
        }
    }
    reveal_strlit("needs_review");
    reveal_strlit("confirmed");
    reveal_strlit("replaced");
    reveal_strlit("deferred");
    reveal_strlit("rejected");
    assert forall|v: PhotoObservationStateV1| #[trigger] observation_state_of_name(observation_state_name(v)) == Some(v) by {
        match v {
        PhotoObservationStateV1::NeedsReview => {
        },
        PhotoObservationStateV1::Confirmed => {
            assert("confirmed"@.len() != "needs_review"@.len());
        },
        PhotoObservationStateV1::Replaced => {
            assert("replaced"@.len() != "needs_review"@.len());
            assert("replaced"@.len() != "confirmed"@.len());
        },
        PhotoObservationStateV1::Deferred => {
            assert("deferred"@.len() != "needs_review"@.len());
            assert("deferred"@.len() != "confirmed"@.len());
            assert("deferred"@[0] != "replaced"@[0]);
        },
        PhotoObservationStateV1::Rejected => {
            assert("rejected"@.len() != "needs_review"@.len());
            assert("rejected"@.len() != "confirmed"@.len());
            assert("rejected"@[2] != "replaced"@[2]);
            assert("rejected"@[0] != "deferred"@[0]);
        },
        }
    }
    reveal_strlit("confirm_crop");
    reveal_strlit("replace_crop");
    reveal_strlit("defer");
    reveal_strlit("reject");
    assert forall|v: PhotoReviewActionV1| #[trigger] review_action_of_name(review_action_name(v)) == Some(v) by {
        match v {
        PhotoReviewActionV1::ConfirmCrop => {
        },
        PhotoReviewActionV1::ReplaceCrop => {
            assert("replace_crop"@[0] != "confirm_crop"@[0]);
        },
        PhotoReviewActionV1::Defer => {
            assert("defer"@.len() != "confirm_crop"@.len());
            assert("defer"@.len() != "replace_crop"@.len());
        },
        PhotoReviewActionV1::Reject => {
            assert("reject"@.len() != "confirm_crop"@.len());
            assert("reject"@.len() != "replace_crop"@.len());
            assert("reject"@.len() != "defer"@.len());
        },
        }
    }
}

/// A stored integer as a `u64`; a negative one is corrupt.
pub fn to_u64(value: i64, field: &'static str) -> (converted: PlatformResult<u64>)
    ensures
        match converted {
            Ok(v) => value >= 0 && v == value,
            Err(e) => value < 0 && e == PlatformError::Corrupt(field),
        },
{
    if value < 0 {
        Err(PlatformError::Corrupt(field))
    } else {
        Ok(value as u64)
    }
}

/// A stored integer as a `u32`; one out of range is corrupt.
pub fn to_u32(value: i64, field: &'static str) -> (converted: PlatformResult<u32>)
    ensures
        match converted {
            Ok(v) => 0 <= value <= u32::MAX && v == value,
            Err(e) => !(0 <= value <= u32::MAX) && e == PlatformError::Corrupt(field),
        },
{
    if value < 0 || value > 4294967295 {
        Err(PlatformError::Corrupt(field))
    } else {
        Ok(value as u32)
    }
}

/// A stored integer as a `u16`; one out of range is corrupt.
pub fn to_u16(value: i64, field: &'static str) -> (converted: PlatformResult<u16>)
    ensures
        match converted {
            Ok(v) => 0 <= value <= u16::MAX && v == value,
            Err(e) => !(0 <= value <= u16::MAX) && e == PlatformError::Corrupt(field),
        },
{
    if value < 0 || value > 65535 {
        Err(PlatformError::Corrupt(field))
    } else {
        Ok(value as u16)
    }
}

/// The kinds of failure that the photo analysis port reports.
#[derive(Clone, Copy, Debug, PartialEq, Eq, Structural)]
pub enum PhotoAnalysisPortErrorKind {
    SnapshotExpired,
    Conflict,
    InvalidState,
    DataIntegrity,
    PermissionDenied,
    NotFound,
    Unavailable,
    Internal,
}

/// How the photo analysis port reports a platform failure.
pub open spec fn spec_photo_port_error(error: PlatformError) -> PhotoAnalysisPortErrorKind {
    match error {
        PlatformError::Conflict(field) => if field@ == "snapshot_expired"@ || field@
            == "photo_generation_stale"@ {
            PhotoAnalysisPortErrorKind::SnapshotExpired
        } else {
            PhotoAnalysisPortErrorKind::Conflict
        },
        PlatformError::LeaseLost => PhotoAnalysisPortErrorKind::Conflict,
        PlatformError::InvalidInput(_) => PhotoAnalysisPortErrorKind::InvalidState,
        PlatformError::Unsupported(_) => PhotoAnalysisPortErrorKind::InvalidState,
        PlatformError::Corrupt(_) => PhotoAnalysisPortErrorKind::DataIntegrity,
        PlatformError::Io(IoFailureKind::PermissionDenied) => PhotoAnalysisPortErrorKind::PermissionDenied,
        PlatformError::Io(IoFailureKind::NotFound) => PhotoAnalysisPortErrorKind::NotFound,
        PlatformError::Io(IoFailureKind::Other) => PhotoAnalysisPortErrorKind::Unavailable,
        _ => PhotoAnalysisPortErrorKind::Internal,
    }
}

pub fn photo_port_error(error: PlatformError) -> (kind: PhotoAnalysisPortErrorKind)
    ensures
        kind == spec_photo_port_error(error),
{
    match error {
        PlatformError::Conflict(field) => {
            if str_equal(field, "snapshot_expired") || str_equal(field, "photo_generation_stale") {
                PhotoAnalysisPortErrorKind::SnapshotExpired
            } else {
                PhotoAnalysisPortErrorKind::Conflict
            }
        },
        PlatformError::LeaseLost => PhotoAnalysisPortErrorKind::Conflict,
        PlatformError::InvalidInput(_) => PhotoAnalysisPortErrorKind::InvalidState,
        PlatformError::Unsupported(_) => PhotoAnalysisPortErrorKind::InvalidState,
        PlatformError::Corrupt(_) => PhotoAnalysisPortErrorKind::DataIntegrity,
        PlatformError::Io(IoFailureKind::PermissionDenied) => PhotoAnalysisPortErrorKind::PermissionDenied,
        PlatformError::Io(IoFailureKind::NotFound) => PhotoAnalysisPortErrorKind::NotFound,
        PlatformError::Io(IoFailureKind::Other) => PhotoAnalysisPortErrorKind::Unavailable,
        _ => PhotoAnalysisPortErrorKind::Internal,
    }
}

} // verus!
