use wardrobe_platform::photo_codecs::{
    artifact_kind_db, artifact_kind_from_db, disposition_db, failure_code_db,
    failure_code_from_db, media_type_db, media_type_from_db, observation_state_db,
    observation_state_from_db, outcome_db, outcome_from_db, photo_port_error,
    quarantine_reason_db, request_mode_db, request_mode_from_db, review_action_db,
    review_action_from_db, to_u16, to_u32, to_u64, unavailable_reason_db,
    unavailable_reason_from_db, PhotoAnalysisPortErrorKind, PhotoArtifactKindV1,
    PhotoMediaTypeV1, PhotoObservationStateV1, PhotoQuarantineReasonV1, PhotoReviewActionV1,
    PhotoSegmentationOutcomeCodeV1, PhotoSourceDispositionV1, SegmentationFailureCodeV1,
    SegmentationRequestModeKindV1, SegmentationUnavailableReasonV1,
};
use wardrobe_platform::platform_error::{IoFailureKind, PlatformError};

#[test]
fn stored_photo_names_round_trip() {
    for value in [
        PhotoMediaTypeV1::ImageJpeg,
        PhotoMediaTypeV1::ImagePng,
        PhotoMediaTypeV1::ImageWebp,
    ] {
        assert_eq!(media_type_from_db(media_type_db(value)), Ok(value));
    }
    for value in [SegmentationRequestModeKindV1::Automatic, SegmentationRequestModeKindV1::Interactive] {
        assert_eq!(request_mode_from_db(request_mode_db(value)), Ok(value));
    }
    for value in [
        PhotoSegmentationOutcomeCodeV1::AutomaticMasks,
        PhotoSegmentationOutcomeCodeV1::InteractiveMasks,
        PhotoSegmentationOutcomeCodeV1::NoGarment,
        PhotoSegmentationOutcomeCodeV1::Unavailable,
        PhotoSegmentationOutcomeCodeV1::Failed,
        PhotoSegmentationOutcomeCodeV1::Rejected,
    ] {
        assert_eq!(outcome_from_db(outcome_db(value)), Ok(value));
    }
    for value in [
        SegmentationUnavailableReasonV1::ReviewedModelPackAbsent,
        SegmentationUnavailableReasonV1::CapabilityDisabled,
        SegmentationUnavailableReasonV1::ResourceUnavailable,
    ] {
        assert_eq!(unavailable_reason_from_db(unavailable_reason_db(value)), Ok(value));
    }
    for value in [
        SegmentationFailureCodeV1::InvalidInput,
        SegmentationFailureCodeV1::InferenceFailed,
        SegmentationFailureCodeV1::ResourceLimit,
        SegmentationFailureCodeV1::TimedOut,
    ] {
        assert_eq!(failure_code_from_db(failure_code_db(value)), Ok(value));
    }
    for value in [PhotoArtifactKindV1::RectangleSourceCrop, PhotoArtifactKindV1::SourceImageReference] {
        assert_eq!(artifact_kind_from_db(artifact_kind_db(value)), Ok(value));
    }
    for value in [
        PhotoObservationStateV1::NeedsReview,
        PhotoObservationStateV1::Confirmed,
        PhotoObservationStateV1::Replaced,
        PhotoObservationStateV1::Deferred,
        PhotoObservationStateV1::Rejected,
    ] {
        assert_eq!(observation_state_from_db(observation_state_db(value)), Ok(value));
    }
    for value in [
        PhotoReviewActionV1::ConfirmCrop,
        PhotoReviewActionV1::ReplaceCrop,
        PhotoReviewActionV1::Defer,
        PhotoReviewActionV1::Reject,
    ] {
        assert_eq!(review_action_from_db(review_action_db(value)), Ok(value));
    }
    assert_eq!(media_type_db(PhotoMediaTypeV1::ImageWebp), "image/webp");
    assert_eq!(disposition_db(PhotoSourceDispositionV1::Quarantined), "quarantined");
    assert_eq!(
        quarantine_reason_db(PhotoQuarantineReasonV1::ImageDimensionLimit),
        "image_dimension_limit"
    );
    assert_eq!(media_type_from_db("image/gif"), Err(PlatformError::Corrupt("photo_media_type")));
    assert_eq!(
        review_action_from_db("approve"),
        Err(PlatformError::Corrupt("photo_review_action"))
    );
}

#[test]
fn stored_integers_convert_only_in_range() {
    assert_eq!(to_u64(0, "f"), Ok(0));
    assert_eq!(to_u64(i64::MAX, "f"), Ok(i64::MAX as u64));
    assert_eq!(to_u64(-1, "f"), Err(PlatformError::Corrupt("f")));
    assert_eq!(to_u32(4_294_967_295, "f"), Ok(u32::MAX));
    assert_eq!(to_u32(4_294_967_296, "f"), Err(PlatformError::Corrupt("f")));
    assert_eq!(to_u16(65_535, "g"), Ok(u16::MAX));
    assert_eq!(to_u16(65_536, "g"), Err(PlatformError::Corrupt("g")));
    assert_eq!(to_u16(-5, "g"), Err(PlatformError::Corrupt("g")));
}

#[test]
fn photo_port_errors_map_every_failure() {
    assert_eq!(
        photo_port_error(PlatformError::Conflict("snapshot_expired")),
        PhotoAnalysisPortErrorKind::SnapshotExpired
    );
    assert_eq!(
        photo_port_error(PlatformError::Conflict("photo_generation_stale")),
        PhotoAnalysisPortErrorKind::SnapshotExpired
    );
    assert_eq!(
        photo_port_error(PlatformError::Conflict("other")),
        PhotoAnalysisPortErrorKind::Conflict
    );
    assert_eq!(photo_port_error(PlatformError::LeaseLost), PhotoAnalysisPortErrorKind::Conflict);
    assert_eq!(
        photo_port_error(PlatformError::Unsupported("x")),
        PhotoAnalysisPortErrorKind::InvalidState
    );
    assert_eq!(
        photo_port_error(PlatformError::Io(IoFailureKind::PermissionDenied)),
        PhotoAnalysisPortErrorKind::PermissionDenied
    );
    assert_eq!(
        photo_port_error(PlatformError::Io(IoFailureKind::NotFound)),
        PhotoAnalysisPortErrorKind::NotFound
    );
    assert_eq!(
        photo_port_error(PlatformError::Io(IoFailureKind::Other)),
        PhotoAnalysisPortErrorKind::Unavailable
    );
    assert_eq!(photo_port_error(PlatformError::Sqlite), PhotoAnalysisPortErrorKind::Internal);
    assert_eq!(photo_port_error(PlatformError::Json), PhotoAnalysisPortErrorKind::Internal);
}
