use crate::photokit_records::{availability_result_ok, fingerprint_text, is_hex_digest, photokit_resource_fingerprint, printable_ascii_text};
use crate::photokit_types::{
    BlobRecord, PhotoKitAvailabilityReasonV1, PhotoKitAvailabilityV1, PhotoKitEnumerationTerminal,
    PhotoKitFinalizedObservation, PhotoKitMaterializationRecord, PhotoKitNativeAsset,
    PhotoKitNativeError, PhotoKitNativeResource, PhotoKitTransferTerminal, PhotoKitValidatedImage,
    PHOTOKIT_MAX_DIMENSION, PHOTOKIT_MAX_PIXELS, PHOTOKIT_MAX_RESOURCE_BYTES,
};
use crate::photokit_wire::{is_supported_uti, supported_uti};
use crate::platform_error::{PlatformError, PlatformResult};
use crate::text::str_equal;
use vstd::prelude::*;
use vstd::string::StringSliceAdditionalSpecFns;

verus! {

/// What is recorded of one transfer attempt: its ordinal, whether it could
/// use the network, the bytes it accepted and how it ended.
#[derive(Clone, Copy, Debug, PartialEq, Eq)]
pub struct MaterializationAttempt {
    pub attempt_ordinal: u8,
    pub network_access_allowed: bool,
    pub accepted_bytes: u64,
    pub outcome: &'static str,
}

/// What the coordinator does next with an enumerated asset.
#[derive(Clone, Copy, Debug, PartialEq, Eq)]
pub enum MaterializationStep {
    /// Record the attempt; the asset is unavailable for the reason.
    Unavailable { attempt: MaterializationAttempt, reason: PhotoKitAvailabilityReasonV1 },
    /// Record the attempt, then transfer again with network access.
    RetryWithNetwork { attempt: MaterializationAttempt },
    /// Validate the image that the attempt transferred.
    Validate { attempt_ordinal: u8, accepted_bytes: u64 },
}

/// How an attempt may end.
pub open spec fn is_attempt_outcome(value: Seq<char>) -> bool {
    value == "materialized"@ || value == "network_access_required"@ || value == "icloud_unavailable"@
        || value == "unsupported_resource"@ || value == "transfer_failed"@ || value
        == "blob_integrity_failed"@
}

/// An attempt that can be recorded: the first or the retry, at most 40 MiB
/// accepted, and one of the outcomes.
pub open spec fn attempt_fields_ok(attempt_ordinal: u8, accepted_bytes: u64, outcome: Seq<char>) -> bool {
    &&& attempt_ordinal <= 1
    &&& accepted_bytes <= PHOTOKIT_MAX_RESOURCE_BYTES
    &&& is_attempt_outcome(outcome)
}

pub open spec fn attempt_ok(attempt: MaterializationAttempt) -> bool {
    attempt_fields_ok(attempt.attempt_ordinal, attempt.accepted_bytes, attempt.outcome@)
}

/// Checks an attempt before it is recorded.
pub fn validate_attempt(attempt_ordinal: u8, accepted_bytes: u64, outcome: &str) -> (result: PlatformResult<()>)
    ensures
        result is Ok <==> attempt_fields_ok(attempt_ordinal, accepted_bytes, outcome@),
        result matches Err(e) ==> e == PlatformError::InvalidInput("photokit_attempt"),
{
    let known = str_equal(outcome, "materialized") || str_equal(outcome, "network_access_required")
        || str_equal(outcome, "icloud_unavailable") || str_equal(outcome, "unsupported_resource")
        || str_equal(outcome, "transfer_failed") || str_equal(outcome, "blob_integrity_failed");
    if attempt_ordinal > 1 || accepted_bytes > PHOTOKIT_MAX_RESOURCE_BYTES || !known {
        return Err(PlatformError::InvalidInput("photokit_attempt"));
    }
    Ok(())
}

/// The attempt a step records, or, for a validation, the ordinal and the
/// bytes that the recorded attempt will carry, are ones the repository
/// accepts.
pub open spec fn step_records_ok(step: MaterializationStep) -> bool {
    match step {
        MaterializationStep::Unavailable { attempt, .. } => attempt_ok(attempt),
        MaterializationStep::RetryWithNetwork { attempt } => attempt_ok(attempt),
        MaterializationStep::Validate { attempt_ordinal, accepted_bytes } => attempt_ordinal <= 1
            && accepted_bytes <= PHOTOKIT_MAX_RESOURCE_BYTES,
    }
}

pub open spec fn records(
    attempt: MaterializationAttempt,
    attempt_ordinal: u8,
    network_access_allowed: bool,
    accepted_bytes: u64,
    outcome: Seq<char>,
) -> bool {
    &&& attempt.attempt_ordinal == attempt_ordinal
    &&& attempt.network_access_allowed == network_access_allowed
    &&& attempt.accepted_bytes == accepted_bytes
    &&& attempt.outcome@ == outcome
}

/// The step records the attempt so and leaves the asset unavailable for
/// `reason`.
pub open spec fn unavailable_after(
    step: MaterializationStep,
    attempt_ordinal: u8,
    network_access_allowed: bool,
    accepted_bytes: u64,
    outcome: Seq<char>,
    reason: PhotoKitAvailabilityReasonV1,
) -> bool {
    step matches MaterializationStep::Unavailable { attempt, reason: r } && records(
        attempt,
        attempt_ordinal,
        network_access_allowed,
        accepted_bytes,
        outcome,
    ) && r == reason
}

/// The step for an asset before any transfer: one without a primary
/// resource, or with one of a type the connector does not materialize, is
/// unavailable; otherwise there is no step yet and the transfer begins.
pub fn resource_step(resource: &Option<PhotoKitNativeResource>) -> (step: Option<MaterializationStep>)
    ensures
        step is None <==> (resource matches Some(r) && is_supported_uti(r.resource_uti@)),
        step matches Some(s) ==> unavailable_after(
            s,
            0,
            false,
            0,
            "unsupported_resource"@,
            PhotoKitAvailabilityReasonV1::UnsupportedResource,
        ),
        step matches Some(s) ==> step_records_ok(s),
{
    let supported = match resource {
        Some(r) => supported_uti(r.resource_uti.as_str()),
        None => false,
    };
    if supported {
        None
    } else {
        Some(
            MaterializationStep::Unavailable {
                attempt: MaterializationAttempt {
                    attempt_ordinal: 0,
                    network_access_allowed: false,
                    accepted_bytes: 0,
                    outcome: "unsupported_resource",
                },
                reason: PhotoKitAvailabilityReasonV1::UnsupportedResource,
            },
        )
    }
}

/// The step after the first transfer, made without network access, which
/// ended as `transfer` after accepting `accepted_bytes`: a complete transfer
/// of some bytes is validated; one that needs the network and sent nothing
/// is retried with network access where the enrollment allows iCloud
/// downloads and is unavailable otherwise; anything else failed.
pub fn first_transfer_step(
    transfer: Result<PhotoKitTransferTerminal, PhotoKitNativeError>,
    accepted_bytes: u64,
    allow_icloud_downloads: bool,
) -> (step: MaterializationStep)
    ensures
        transfer == Ok::<PhotoKitTransferTerminal, PhotoKitNativeError>(
            PhotoKitTransferTerminal::Complete,
        ) && accepted_bytes > 0 ==> step == (MaterializationStep::Validate {
            attempt_ordinal: 0,
            accepted_bytes,
        }),
        transfer == Ok::<PhotoKitTransferTerminal, PhotoKitNativeError>(
            PhotoKitTransferTerminal::NetworkAccessRequired,
        ) && accepted_bytes == 0 && allow_icloud_downloads ==> (step matches MaterializationStep::RetryWithNetwork { attempt }
            && records(attempt, 0, false, 0, "network_access_required"@)),
        transfer == Ok::<PhotoKitTransferTerminal, PhotoKitNativeError>(
            PhotoKitTransferTerminal::NetworkAccessRequired,
        ) && accepted_bytes == 0 && !allow_icloud_downloads ==> unavailable_after(
            step,
            0,
            false,
            0,
            "network_access_required"@,
            PhotoKitAvailabilityReasonV1::IcloudUnavailable,
        ),
        !(transfer == Ok::<PhotoKitTransferTerminal, PhotoKitNativeError>(
            PhotoKitTransferTerminal::Complete,
        ) && accepted_bytes > 0) && !(transfer == Ok::<PhotoKitTransferTerminal, PhotoKitNativeError>(
            PhotoKitTransferTerminal::NetworkAccessRequired,
        ) && accepted_bytes == 0) ==> unavailable_after(
            step,
            0,
            false,
            accepted_bytes,
            "transfer_failed"@,
            PhotoKitAvailabilityReasonV1::TransferFailed,
        ),
        accepted_bytes <= PHOTOKIT_MAX_RESOURCE_BYTES ==> step_records_ok(step),
{
    match transfer {
        Ok(PhotoKitTransferTerminal::NetworkAccessRequired) if accepted_bytes == 0 => {
            let attempt = MaterializationAttempt {
                attempt_ordinal: 0,
                network_access_allowed: false,
                accepted_bytes: 0,
                outcome: "network_access_required",
            };
            if allow_icloud_downloads {
                MaterializationStep::RetryWithNetwork { attempt }
            } else {
                MaterializationStep::Unavailable {
                    attempt,
                    reason: PhotoKitAvailabilityReasonV1::IcloudUnavailable,
                }
            }
        },
        Ok(PhotoKitTransferTerminal::Complete) if accepted_bytes > 0 => {
            MaterializationStep::Validate { attempt_ordinal: 0, accepted_bytes }
        },
        _ => MaterializationStep::Unavailable {
            attempt: MaterializationAttempt {
                attempt_ordinal: 0,
                network_access_allowed: false,
                accepted_bytes,
                outcome: "transfer_failed",
            },
            reason: PhotoKitAvailabilityReasonV1::TransferFailed,
        },
    }
}

/// The step after the retry with network access: only a complete transfer
/// of some bytes is validated; anything else failed.
pub fn retry_transfer_step(
    transfer: Result<PhotoKitTransferTerminal, PhotoKitNativeError>,
    accepted_bytes: u64,
) -> (step: MaterializationStep)
    ensures
        transfer == Ok::<PhotoKitTransferTerminal, PhotoKitNativeError>(
            PhotoKitTransferTerminal::Complete,
        ) && accepted_bytes > 0 ==> step == (MaterializationStep::Validate {
            attempt_ordinal: 1,
            accepted_bytes,
        }),
        !(transfer == Ok::<PhotoKitTransferTerminal, PhotoKitNativeError>(
            PhotoKitTransferTerminal::Complete,
        ) && accepted_bytes > 0) ==> unavailable_after(
            step,
            1,
            true,
            accepted_bytes,
            "transfer_failed"@,
            PhotoKitAvailabilityReasonV1::TransferFailed,
        ),
        accepted_bytes <= PHOTOKIT_MAX_RESOURCE_BYTES ==> step_records_ok(step),
{
    match transfer {
        Ok(PhotoKitTransferTerminal::Complete) if accepted_bytes > 0 => {
            MaterializationStep::Validate { attempt_ordinal: 1, accepted_bytes }
        },
        _ => MaterializationStep::Unavailable {
            attempt: MaterializationAttempt {
                attempt_ordinal: 1,
                network_access_allowed: true,
                accepted_bytes,
                outcome: "transfer_failed",
            },
            reason: PhotoKitAvailabilityReasonV1::TransferFailed,
        },
    }
}

/// A validated image the connector keeps: one frame, each side from 1 to
/// 16384 pixels, at most 64 megapixels.
pub open spec fn image_within_limits(image: PhotoKitValidatedImage) -> bool {
    &&& image.frame_count == 1
    &&& 0 < image.pixel_width <= PHOTOKIT_MAX_DIMENSION
    &&& 0 < image.pixel_height <= PHOTOKIT_MAX_DIMENSION
    &&& image.pixel_width * image.pixel_height <= PHOTOKIT_MAX_PIXELS
}

pub fn image_within_limits_check(image: &PhotoKitValidatedImage) -> (within: bool)
    ensures
        within == image_within_limits(*image),
{
    if image.frame_count != 1 || image.pixel_width == 0 || image.pixel_width > PHOTOKIT_MAX_DIMENSION
        || image.pixel_height == 0 || image.pixel_height > PHOTOKIT_MAX_DIMENSION {
        return false;
    }
    let w = image.pixel_width as u64;
    let h = image.pixel_height as u64;
    assert(w * h <= 16384 * 16384) by (nonlinear_arith)
        requires
            w <= 16384,
            h <= 16384,
    ;
    w * h <= PHOTOKIT_MAX_PIXELS
}

/// What validating the transferred image of attempt `attempt_ordinal`
/// gives: the attempt as recorded, and the image where it is within the
/// limits, else `BlobIntegrityFailed`.
pub fn validation_outcome(
    validated: Result<PhotoKitValidatedImage, PhotoKitNativeError>,
    attempt_ordinal: u8,
    accepted_bytes: u64,
) -> (outcome: (MaterializationAttempt, Result<PhotoKitValidatedImage, PhotoKitAvailabilityReasonV1>))
    ensures
        match validated {
            Ok(image) => if image_within_limits(image) {
                records(outcome.0, attempt_ordinal, attempt_ordinal == 1, accepted_bytes, "materialized"@)
                    && outcome.1 == Ok::<PhotoKitValidatedImage, PhotoKitAvailabilityReasonV1>(image)
            } else {
                records(outcome.0, attempt_ordinal, attempt_ordinal == 1, accepted_bytes, "blob_integrity_failed"@)
                    && outcome.1 == Err::<PhotoKitValidatedImage, PhotoKitAvailabilityReasonV1>(
                    PhotoKitAvailabilityReasonV1::BlobIntegrityFailed,
                )
            },
            Err(_) => records(outcome.0, attempt_ordinal, attempt_ordinal == 1, accepted_bytes, "blob_integrity_failed"@)
                && outcome.1 == Err::<PhotoKitValidatedImage, PhotoKitAvailabilityReasonV1>(
                PhotoKitAvailabilityReasonV1::BlobIntegrityFailed,
            ),
        },
        attempt_ordinal <= 1 && accepted_bytes <= PHOTOKIT_MAX_RESOURCE_BYTES ==> attempt_ok(outcome.0),
{
    let kept = match validated {
        Ok(image) => {
            if image_within_limits_check(&image) {
                Some(image)
            } else {
                None
            }
        },
        Err(_) => None,
    };
    match kept {
        Some(image) => (
            MaterializationAttempt {
                attempt_ordinal,
                network_access_allowed: attempt_ordinal == 1,
                accepted_bytes,
                outcome: "materialized",
            },
            Ok(image),
        ),
        None => (
            MaterializationAttempt {
                attempt_ordinal,
                network_access_allowed: attempt_ordinal == 1,
                accepted_bytes,
                outcome: "blob_integrity_failed",
            },
            Err(PhotoKitAvailabilityReasonV1::BlobIntegrityFailed),
        ),
    }
}

/// The final observation of an asset that no transfer materialized.
pub fn unavailable_observation(ordinal: u16, reason: PhotoKitAvailabilityReasonV1) -> (observation:
    PhotoKitFinalizedObservation)
    ensures
        observation.ordinal == ordinal,
        observation.availability == PhotoKitAvailabilityV1::Unavailable,
        observation.reason == reason,
        observation.materialization is None,
{
    PhotoKitFinalizedObservation {
        ordinal,
        availability: PhotoKitAvailabilityV1::Unavailable,
        reason,
        materialization: None,
    }
}

/// The observation is available and materialized from `blob`, with the
/// resource type, the image's size and the fingerprint of these.
pub open spec fn materializes(
    o: PhotoKitFinalizedObservation,
    blob: BlobRecord,
    resource_uti: Seq<char>,
    validated: PhotoKitValidatedImage,
) -> bool {
    &&& o.availability == PhotoKitAvailabilityV1::Available
    &&& o.reason == PhotoKitAvailabilityReasonV1::Materialized
    &&& o.materialization matches Some(m)
    &&& m.blob == blob
    &&& m.resource_uti@ == resource_uti
    &&& m.pixel_width == validated.pixel_width
    &&& m.pixel_height == validated.pixel_height
    &&& m.resource_fingerprint@ == crate::digest_text::hex_text(
        crate::digest_text::sha256_digest(
            vstd::utf8::encode_utf8(
                fingerprint_text(blob.sha256@, resource_uti, validated.pixel_width, validated.pixel_height),
            ),
        ),
    )
}

/// The final observation of a materialized asset, given the blob that its
/// prepared bytes were promoted to, or `None` where the promotion failed:
/// then the asset is unavailable with `BlobIntegrityFailed`; else it is
/// available with a materialization of that blob and its fingerprint.
pub fn materialized_observation(
    ordinal: u16,
    resource_uti: String,
    validated: PhotoKitValidatedImage,
    promoted: Option<BlobRecord>,
) -> (observation: PlatformResult<PhotoKitFinalizedObservation>)
    ensures
        observation matches Ok(o) ==> o.ordinal == ordinal && availability_result_ok(o),
        promoted is None ==> (observation matches Ok(o) && o.availability
            == PhotoKitAvailabilityV1::Unavailable && o.reason
            == PhotoKitAvailabilityReasonV1::BlobIntegrityFailed),
        promoted matches Some(blob) ==> (!is_hex_digest(vstd::utf8::encode_utf8(blob.sha256@)) ==> observation
            == Err::<PhotoKitFinalizedObservation, PlatformError>(PlatformError::InvalidInput("sha256"))),
        promoted matches Some(blob) ==> (is_hex_digest(vstd::utf8::encode_utf8(blob.sha256@)) && !printable_ascii_text(
            vstd::utf8::encode_utf8(resource_uti@),
            128,
        ) ==> observation == Err::<PhotoKitFinalizedObservation, PlatformError>(
            PlatformError::InvalidInput("photokit_resource_uti"),
        )),
        promoted matches Some(blob) ==> (is_hex_digest(vstd::utf8::encode_utf8(blob.sha256@)) && printable_ascii_text(
            vstd::utf8::encode_utf8(resource_uti@),
            128,
        ) ==> (observation matches Ok(o) && materializes(o, blob, resource_uti@, validated))),
{
    match promoted {
        None => Ok(unavailable_observation(ordinal, PhotoKitAvailabilityReasonV1::BlobIntegrityFailed)),
        Some(blob) => {
            let resource_fingerprint = photokit_resource_fingerprint(
                blob.sha256.as_str(),
                resource_uti.as_str(),
                validated.pixel_width,
                validated.pixel_height,
            )?;
            Ok(
                PhotoKitFinalizedObservation {
                    ordinal,
                    availability: PhotoKitAvailabilityV1::Available,
                    reason: PhotoKitAvailabilityReasonV1::Materialized,
                    materialization: Some(
                        PhotoKitMaterializationRecord {
                            resource_fingerprint,
                            blob,
                            resource_uti,
                            pixel_width: validated.pixel_width,
                            pixel_height: validated.pixel_height,
                        },
                    ),
                },
            )
        },
    }
}

/// An asset as enumeration accepts it: a locator of 1 to 1024 bytes, and a
/// primary resource, where there is one, whose token and type are each 1 to
/// 128 ASCII bytes.
pub open spec fn native_asset_locator_ok(asset: PhotoKitNativeAsset) -> bool {
    0 < asset.asset_locator@.len() && vstd::utf8::encode_utf8(asset.asset_locator@).len() <= 1024
}

pub open spec fn native_resource_ok(resource: PhotoKitNativeResource) -> bool {
    &&& 0 < resource.operation_resource_token@.len()
    &&& vstd::utf8::encode_utf8(resource.operation_resource_token@).len() <= 128
    &&& vstd::utf8::is_ascii_chars(resource.operation_resource_token@)
    &&& 0 < resource.resource_uti@.len()
    &&& vstd::utf8::encode_utf8(resource.resource_uti@).len() <= 128
    &&& vstd::utf8::is_ascii_chars(resource.resource_uti@)
}

fn text_within(value: &str, maximum: usize) -> (within: bool)
    ensures
        within == (0 < value@.len() && vstd::utf8::encode_utf8(value@).len() <= maximum),
{
    let n = value.as_bytes().len();
    proof {
        if value@.len() == 0 {
            assert(value@ =~= Seq::<char>::empty());
            assert(vstd::utf8::encode_utf8(value@) =~= Seq::<u8>::empty());
        } else {
            vstd::utf8::encode_utf8_first_scalar(value@);
        }
    }
    0 < n && n <= maximum
}

/// Checks an asset that enumeration reports.
pub fn validate_native_asset(asset: &PhotoKitNativeAsset) -> (result: PlatformResult<()>)
    ensures
        !native_asset_locator_ok(*asset) ==> result == Err::<(), PlatformError>(
            PlatformError::InvalidInput("photokit_asset_locator"),
        ),
        native_asset_locator_ok(*asset) ==> match asset.primary_resource {
            Some(r) => if native_resource_ok(r) {
                result is Ok
            } else {
                result == Err::<(), PlatformError>(PlatformError::InvalidInput("photokit_resource"))
            },
            None => result is Ok,
        },
{
    if !text_within(asset.asset_locator.as_str(), 1024) {
        return Err(PlatformError::InvalidInput("photokit_asset_locator"));
    }
    match &asset.primary_resource {
        Some(resource) => {
            if !text_within(resource.operation_resource_token.as_str(), 128)
                || !resource.operation_resource_token.as_str().is_ascii() || !text_within(
                resource.resource_uti.as_str(),
                128,
            ) || !resource.resource_uti.as_str().is_ascii() {
                return Err(PlatformError::InvalidInput("photokit_resource"));
            }
            Ok(())
        },
        None => Ok(()),
    }
}

/// What a reconcile does once enumeration has ended.
#[derive(Clone, Copy, Debug, PartialEq, Eq)]
pub enum EnumerationStep {
    /// Record the operation as failed: the enumeration is incomplete.
    FailIncomplete,
    /// Publish the whole scope as unavailable for the reason.
    ScopeUnavailable { reason: PhotoKitAvailabilityReasonV1, terminal_reason: &'static str },
    /// Go on to materialize the enumerated assets.
    Materialize,
}

/// The step after enumeration: a bridge failure or an incomplete
/// enumeration fails the operation, an unavailable album makes the scope
/// unavailable, and a complete one is materialized.
pub fn enumeration_step(terminal: Result<PhotoKitEnumerationTerminal, PhotoKitNativeError>) -> (step:
    EnumerationStep)
    ensures
        match terminal {
            Ok(PhotoKitEnumerationTerminal::Complete) => step == EnumerationStep::Materialize,
            Ok(PhotoKitEnumerationTerminal::AlbumUnavailable) => step matches EnumerationStep::ScopeUnavailable {
                reason,
                terminal_reason,
            } && reason == PhotoKitAvailabilityReasonV1::ScopeUnavailable && terminal_reason@
                == "scope_unavailable"@,
            _ => step == EnumerationStep::FailIncomplete,
        },
{
    match terminal {
        Ok(PhotoKitEnumerationTerminal::Complete) => EnumerationStep::Materialize,
        Ok(PhotoKitEnumerationTerminal::AlbumUnavailable) => EnumerationStep::ScopeUnavailable {
            reason: PhotoKitAvailabilityReasonV1::ScopeUnavailable,
            terminal_reason: "scope_unavailable",
        },
        _ => EnumerationStep::FailIncomplete,
    }
}

} // verus!
