use crate::photokit_types::{
    PhotoKitAuthorizationV1, PhotoKitAvailabilityReasonV1, PhotoKitAvailabilityV1,
    PhotoKitConnectorStateV1, PhotoKitFinalizedObservation, PhotoKitMaterializationRecord,
    PhotoKitReconcileTriggerV1,
};
use crate::platform_error::{PlatformError, PlatformResult};
use crate::text::str_equal;
use crate::uuid_text::{canonical_uuid, parse_canonical_uuid};
use vstd::prelude::*;
use vstd::string::StringExecFns;
use vstd::string::StringSliceAdditionalSpecFns;

verus! {

broadcast use vstd::string::group_string_axioms;

pub const CONFIGURE_PHOTOKIT_COMMAND: &'static str = "configure_photokit_scope_v1";

pub const SYNC_PHOTOKIT_COMMAND: &'static str = "sync_photokit_v1";

pub const DISABLE_PHOTOKIT_COMMAND: &'static str = "disable_photokit_v1";

// ---------------------------------------------------------------------------
// Field checks
// ---------------------------------------------------------------------------

/// The commands whose receipts the connector keeps.
pub open spec fn is_command_name(value: Seq<char>) -> bool {
    value == "configure_photokit_scope_v1"@ || value == "sync_photokit_v1"@ || value
        == "disable_photokit_v1"@
}

pub fn validate_command_name(value: &str) -> (result: PlatformResult<()>)
    ensures
        result is Ok <==> is_command_name(value@),
        result matches Err(e) ==> e == PlatformError::InvalidInput("photokit_command_name"),
{
    if str_equal(value, "configure_photokit_scope_v1") || str_equal(value, "sync_photokit_v1")
        || str_equal(value, "disable_photokit_v1") {
        Ok(())
    } else {
        Err(PlatformError::InvalidInput("photokit_command_name"))
    }
}

/// A lower-case hexadecimal digit.
pub open spec fn is_lower_hex(b: u8) -> bool {
    (48 <= b <= 57) || (97 <= b <= 102)
}

/// A SHA-256 digest written as 64 lower-case hexadecimal digits.
pub open spec fn is_hex_digest(bytes: Seq<u8>) -> bool {
    bytes.len() == 64 && forall|i: int| 0 <= i < bytes.len() ==> is_lower_hex(#[trigger] bytes[i])
}

fn all_lower_hex(bytes: &[u8]) -> (hex: bool)
    ensures
        hex == (forall|i: int| 0 <= i < bytes@.len() ==> is_lower_hex(#[trigger] bytes@[i])),
{
    let mut i: usize = 0;
    while i < bytes.len()
        invariant
            i <= bytes@.len(),
            forall|j: int| 0 <= j < i ==> is_lower_hex(#[trigger] bytes@[j]),
        decreases bytes@.len() - i,
    {
        let b = bytes[i];
        if !((48 <= b && b <= 57) || (97 <= b && b <= 102)) {
            return false;
        }
        i = i + 1;
    }
    true
}

pub fn validate_envelope_hash(value: &str) -> (result: PlatformResult<()>)
    ensures
        result is Ok <==> is_hex_digest(value.spec_bytes()),
        result matches Err(e) ==> e == PlatformError::InvalidInput("photokit_envelope_hash"),
{
    let bytes = value.as_bytes();
    if bytes.len() == 64 && all_lower_hex(bytes) {
        Ok(())
    } else {
        Err(PlatformError::InvalidInput("photokit_envelope_hash"))
    }
}

pub fn validate_hash(value: &str) -> (result: PlatformResult<()>)
    ensures
        result is Ok <==> is_hex_digest(value.spec_bytes()),
        result matches Err(e) ==> e == PlatformError::InvalidInput("sha256"),
{
    let bytes = value.as_bytes();
    if bytes.len() != 64 || !all_lower_hex(bytes) {
        return Err(PlatformError::InvalidInput("sha256"));
    }
    Ok(())
}

/// A canonically written UUID, else `InvalidInput(field)`.
pub fn validate_uuid(value: &str, field: &'static str) -> (result: PlatformResult<()>)
    ensures
        result is Ok <==> canonical_uuid(value@),
        result matches Err(e) ==> e == PlatformError::InvalidInput(field),
{
    match parse_canonical_uuid(value) {
        Some(_) => Ok(()),
        None => Err(PlatformError::InvalidInput(field)),
    }
}

/// Printable ASCII: no control byte and nothing above 0x7E.
pub open spec fn is_printable_ascii(b: u8) -> bool {
    32 <= b < 127
}

/// Text that is not empty, at most `maximum` bytes, and printable ASCII.
pub open spec fn printable_ascii_text(bytes: Seq<u8>, maximum: int) -> bool {
    0 < bytes.len() <= maximum && forall|i: int|
        0 <= i < bytes.len() ==> is_printable_ascii(#[trigger] bytes[i])
}

#[verifier::loop_isolation(false)]
pub fn validate_ascii(value: &str, maximum: usize, field: &'static str) -> (result: PlatformResult<()>)
    ensures
        result is Ok <==> printable_ascii_text(value.spec_bytes(), maximum as int),
        result matches Err(e) ==> e == PlatformError::InvalidInput(field),
{
    let bytes = value.as_bytes();
    if bytes.len() == 0 || bytes.len() > maximum {
        return Err(PlatformError::InvalidInput(field));
    }
    let mut i: usize = 0;
    while i < bytes.len()
        invariant
            i <= bytes@.len(),
            forall|j: int| 0 <= j < i ==> is_printable_ascii(#[trigger] bytes@[j]),
        decreases bytes@.len() - i,
    {
        let b = bytes[i];
        if !(32 <= b && b < 127) {
            return Err(PlatformError::InvalidInput(field));
        }
        i = i + 1;
    }
    Ok(())
}

pub fn validate_key_reference(value: &str) -> (result: PlatformResult<()>)
    ensures
        result is Ok <==> printable_ascii_text(value.spec_bytes(), 128),
        result matches Err(e) ==> e == PlatformError::InvalidInput("photokit_key_reference"),
{
    validate_ascii(value, 128, "photokit_key_reference")
}

/// Why a reconcile operation ended without publishing availability.
pub open spec fn is_terminal_reason(value: Seq<char>) -> bool {
    value == "enumeration_incomplete"@ || value == "authorization_not_determined"@ || value
        == "authorization_restricted"@ || value == "authorization_denied"@ || value
        == "limited_access"@ || value == "scope_unavailable"@ || value
        == "locator_key_unavailable"@ || value == "internal"@
}

pub fn validate_terminal_reason(value: &str) -> (result: PlatformResult<()>)
    ensures
        result is Ok <==> is_terminal_reason(value@),
        result matches Err(e) ==> e == PlatformError::InvalidInput("photokit_terminal_reason"),
{
    if str_equal(value, "enumeration_incomplete") || str_equal(
        value,
        "authorization_not_determined",
    ) || str_equal(value, "authorization_restricted") || str_equal(value, "authorization_denied")
        || str_equal(value, "limited_access") || str_equal(value, "scope_unavailable") || str_equal(
        value,
        "locator_key_unavailable",
    ) || str_equal(value, "internal") {
        Ok(())
    } else {
        Err(PlatformError::InvalidInput("photokit_terminal_reason"))
    }
}

// ---------------------------------------------------------------------------
// Stored names of the connector's enumerations
// ---------------------------------------------------------------------------

pub open spec fn authorization_name(value: PhotoKitAuthorizationV1) -> Seq<char> {
    match value {
        PhotoKitAuthorizationV1::NotDetermined => "not_determined"@,
        PhotoKitAuthorizationV1::Restricted => "restricted"@,
        PhotoKitAuthorizationV1::Denied => "denied"@,
        PhotoKitAuthorizationV1::Limited => "limited"@,
        PhotoKitAuthorizationV1::Authorized => "authorized"@,
    }
}

pub fn authorization_to_db(value: PhotoKitAuthorizationV1) -> (name: &'static str)
    ensures
        name@ == authorization_name(value),
{
    match value {
        PhotoKitAuthorizationV1::NotDetermined => "not_determined",
        PhotoKitAuthorizationV1::Restricted => "restricted",
        PhotoKitAuthorizationV1::Denied => "denied",
        PhotoKitAuthorizationV1::Limited => "limited",
        PhotoKitAuthorizationV1::Authorized => "authorized",
    }
}

pub open spec fn authorization_of_name(value: Seq<char>) -> Option<PhotoKitAuthorizationV1> {
    if value == "not_determined"@ {
        Some(PhotoKitAuthorizationV1::NotDetermined)
    } else if value == "restricted"@ {
        Some(PhotoKitAuthorizationV1::Restricted)
    } else if value == "denied"@ {
        Some(PhotoKitAuthorizationV1::Denied)
    } else if value == "limited"@ {
        Some(PhotoKitAuthorizationV1::Limited)
    } else if value == "authorized"@ {
        Some(PhotoKitAuthorizationV1::Authorized)
    } else {
        None
    }
}

pub fn authorization_from_db(value: &str) -> (result: PlatformResult<PhotoKitAuthorizationV1>)
    ensures
        match result {
            Ok(a) => authorization_of_name(value@) == Some(a),
            Err(e) => authorization_of_name(value@) is None && e == PlatformError::Corrupt("photokit_authorization"),
        },
{
    if str_equal(value, "not_determined") {
        Ok(PhotoKitAuthorizationV1::NotDetermined)
    } else if str_equal(value, "restricted") {
        Ok(PhotoKitAuthorizationV1::Restricted)
    } else if str_equal(value, "denied") {
        Ok(PhotoKitAuthorizationV1::Denied)
    } else if str_equal(value, "limited") {
        Ok(PhotoKitAuthorizationV1::Limited)
    } else if str_equal(value, "authorized") {
        Ok(PhotoKitAuthorizationV1::Authorized)
    } else {
        Err(PlatformError::Corrupt("photokit_authorization"))
    }
}

pub open spec fn trigger_name(value: PhotoKitReconcileTriggerV1) -> Seq<char> {
    match value {
        PhotoKitReconcileTriggerV1::Startup => "startup"@,
        PhotoKitReconcileTriggerV1::User => "user"@,
        PhotoKitReconcileTriggerV1::LibraryChange => "library_change"@,
    }
}

pub fn trigger_to_db(value: PhotoKitReconcileTriggerV1) -> (name: &'static str)
    ensures
        name@ == trigger_name(value),
{
    match value {
        PhotoKitReconcileTriggerV1::Startup => "startup",
        PhotoKitReconcileTriggerV1::User => "user",
        PhotoKitReconcileTriggerV1::LibraryChange => "library_change",
    }
}

pub open spec fn trigger_of_name(value: Seq<char>) -> Option<PhotoKitReconcileTriggerV1> {
    if value == "startup"@ {
        Some(PhotoKitReconcileTriggerV1::Startup)
    } else if value == "user"@ {
        Some(PhotoKitReconcileTriggerV1::User)
    } else if value == "library_change"@ {
        Some(PhotoKitReconcileTriggerV1::LibraryChange)
    } else {
        None
    }
}

pub fn trigger_from_db(value: &str) -> (result: PlatformResult<PhotoKitReconcileTriggerV1>)
    ensures
        match result {
            Ok(t) => trigger_of_name(value@) == Some(t),
            Err(e) => trigger_of_name(value@) is None && e == PlatformError::Corrupt("photokit_trigger"),
        },
{
    if str_equal(value, "startup") {
        Ok(PhotoKitReconcileTriggerV1::Startup)
    } else if str_equal(value, "user") {
        Ok(PhotoKitReconcileTriggerV1::User)
    } else if str_equal(value, "library_change") {
        Ok(PhotoKitReconcileTriggerV1::LibraryChange)
    } else {
        Err(PlatformError::Corrupt("photokit_trigger"))
    }
}

pub open spec fn connector_state_name(value: PhotoKitConnectorStateV1) -> Seq<char> {
    match value {
        PhotoKitConnectorStateV1::Unconfigured => "unconfigured"@,
        PhotoKitConnectorStateV1::Ready => "ready"@,
        PhotoKitConnectorStateV1::Reconciling => "reconciling"@,
        PhotoKitConnectorStateV1::NeedsAttention => "needs_attention"@,
    }
}

pub open spec fn connector_state_of_name(value: Seq<char>) -> Option<PhotoKitConnectorStateV1> {
    if value == "unconfigured"@ {
        Some(PhotoKitConnectorStateV1::Unconfigured)
    } else if value == "ready"@ {
        Some(PhotoKitConnectorStateV1::Ready)
    } else if value == "reconciling"@ {
        Some(PhotoKitConnectorStateV1::Reconciling)
    } else if value == "needs_attention"@ {
        Some(PhotoKitConnectorStateV1::NeedsAttention)
    } else {
        None
    }
}

pub fn connector_state_from_db(value: &str) -> (result: PlatformResult<PhotoKitConnectorStateV1>)
    ensures
        match result {
            Ok(s) => connector_state_of_name(value@) == Some(s),
            Err(e) => connector_state_of_name(value@) is None && e == PlatformError::Corrupt("photokit_connector_state"),
        },
{
    if str_equal(value, "unconfigured") {
        Ok(PhotoKitConnectorStateV1::Unconfigured)
    } else if str_equal(value, "ready") {
        Ok(PhotoKitConnectorStateV1::Ready)
    } else if str_equal(value, "reconciling") {
        Ok(PhotoKitConnectorStateV1::Reconciling)
    } else if str_equal(value, "needs_attention") {
        Ok(PhotoKitConnectorStateV1::NeedsAttention)
    } else {
        Err(PlatformError::Corrupt("photokit_connector_state"))
    }
}

pub open spec fn availability_name(value: PhotoKitAvailabilityV1) -> Seq<char> {
    match value {
        PhotoKitAvailabilityV1::Available => "available"@,
        PhotoKitAvailabilityV1::Unavailable => "unavailable"@,
    }
}

pub fn availability_to_db(value: PhotoKitAvailabilityV1) -> (name: &'static str)
    ensures
        name@ == availability_name(value),
{
    match value {
        PhotoKitAvailabilityV1::Available => "available",
        PhotoKitAvailabilityV1::Unavailable => "unavailable",
    }
}

pub open spec fn availability_of_name(value: Seq<char>) -> Option<PhotoKitAvailabilityV1> {
    if value == "available"@ {
        Some(PhotoKitAvailabilityV1::Available)
    } else if value == "unavailable"@ {
        Some(PhotoKitAvailabilityV1::Unavailable)
    } else {
        None
    }
}

pub fn availability_from_db(value: &str) -> (result: PlatformResult<PhotoKitAvailabilityV1>)
    ensures
        match result {
            Ok(a) => availability_of_name(value@) == Some(a),
            Err(e) => availability_of_name(value@) is None && e == PlatformError::Corrupt("photokit_availability"),
        },
{
    if str_equal(value, "available") {
        Ok(PhotoKitAvailabilityV1::Available)
    } else if str_equal(value, "unavailable") {
        Ok(PhotoKitAvailabilityV1::Unavailable)
    } else {
        Err(PlatformError::Corrupt("photokit_availability"))
    }
}

pub open spec fn reason_name(value: PhotoKitAvailabilityReasonV1) -> Seq<char> {
    match value {
        PhotoKitAvailabilityReasonV1::Materialized => "materialized"@,
        PhotoKitAvailabilityReasonV1::Accessible => "accessible"@,
        PhotoKitAvailabilityReasonV1::AuthorizationNotDetermined => "authorization_not_determined"@,
        PhotoKitAvailabilityReasonV1::AuthorizationRestricted => "authorization_restricted"@,
        PhotoKitAvailabilityReasonV1::AuthorizationDenied => "authorization_denied"@,
        PhotoKitAvailabilityReasonV1::LimitedAccess => "limited_access"@,
        PhotoKitAvailabilityReasonV1::ScopeUnavailable => "scope_unavailable"@,
        PhotoKitAvailabilityReasonV1::AssetNotInScope => "asset_not_in_scope"@,
        PhotoKitAvailabilityReasonV1::IcloudUnavailable => "icloud_unavailable"@,
        PhotoKitAvailabilityReasonV1::UnsupportedResource => "unsupported_resource"@,
        PhotoKitAvailabilityReasonV1::TransferFailed => "transfer_failed"@,
        PhotoKitAvailabilityReasonV1::BlobIntegrityFailed => "blob_integrity_failed"@,
    }
}

pub fn reason_to_db(value: PhotoKitAvailabilityReasonV1) -> (name: &'static str)
    ensures
        name@ == reason_name(value),
{
    match value {
        PhotoKitAvailabilityReasonV1::Materialized => "materialized",
        PhotoKitAvailabilityReasonV1::Accessible => "accessible",
        PhotoKitAvailabilityReasonV1::AuthorizationNotDetermined => "authorization_not_determined",
        PhotoKitAvailabilityReasonV1::AuthorizationRestricted => "authorization_restricted",
        PhotoKitAvailabilityReasonV1::AuthorizationDenied => "authorization_denied",
        PhotoKitAvailabilityReasonV1::LimitedAccess => "limited_access",
        PhotoKitAvailabilityReasonV1::ScopeUnavailable => "scope_unavailable",
        PhotoKitAvailabilityReasonV1::AssetNotInScope => "asset_not_in_scope",
        PhotoKitAvailabilityReasonV1::IcloudUnavailable => "icloud_unavailable",
        PhotoKitAvailabilityReasonV1::UnsupportedResource => "unsupported_resource",
        PhotoKitAvailabilityReasonV1::TransferFailed => "transfer_failed",
        PhotoKitAvailabilityReasonV1::BlobIntegrityFailed => "blob_integrity_failed",
    }
}

pub open spec fn reason_of_name(value: Seq<char>) -> Option<PhotoKitAvailabilityReasonV1> {
    if value == "materialized"@ {
        Some(PhotoKitAvailabilityReasonV1::Materialized)
    } else if value == "accessible"@ {
        Some(PhotoKitAvailabilityReasonV1::Accessible)
    } else if value == "authorization_not_determined"@ {
        Some(PhotoKitAvailabilityReasonV1::AuthorizationNotDetermined)
    } else if value == "authorization_restricted"@ {
        Some(PhotoKitAvailabilityReasonV1::AuthorizationRestricted)
    } else if value == "authorization_denied"@ {
        Some(PhotoKitAvailabilityReasonV1::AuthorizationDenied)
    } else if value == "limited_access"@ {
        Some(PhotoKitAvailabilityReasonV1::LimitedAccess)
    } else if value == "scope_unavailable"@ {
        Some(PhotoKitAvailabilityReasonV1::ScopeUnavailable)
    } else if value == "asset_not_in_scope"@ {
        Some(PhotoKitAvailabilityReasonV1::AssetNotInScope)
    } else if value == "icloud_unavailable"@ {
        Some(PhotoKitAvailabilityReasonV1::IcloudUnavailable)
    } else if value == "unsupported_resource"@ {
        Some(PhotoKitAvailabilityReasonV1::UnsupportedResource)
    } else if value == "transfer_failed"@ {
        Some(PhotoKitAvailabilityReasonV1::TransferFailed)
    } else if value == "blob_integrity_failed"@ {
        Some(PhotoKitAvailabilityReasonV1::BlobIntegrityFailed)
    } else {
        None
    }
}

pub fn reason_from_db(value: &str) -> (result: PlatformResult<PhotoKitAvailabilityReasonV1>)
    ensures
        match result {
            Ok(r) => reason_of_name(value@) == Some(r),
            Err(e) => reason_of_name(value@) is None && e == PlatformError::Corrupt("photokit_availability_reason"),
        },
{
    if str_equal(value, "materialized") {
        Ok(PhotoKitAvailabilityReasonV1::Materialized)
    } else if str_equal(value, "accessible") {
        Ok(PhotoKitAvailabilityReasonV1::Accessible)
    } else if str_equal(value, "authorization_not_determined") {
        Ok(PhotoKitAvailabilityReasonV1::AuthorizationNotDetermined)
    } else if str_equal(value, "authorization_restricted") {
        Ok(PhotoKitAvailabilityReasonV1::AuthorizationRestricted)
    } else if str_equal(value, "authorization_denied") {
        Ok(PhotoKitAvailabilityReasonV1::AuthorizationDenied)
    } else if str_equal(value, "limited_access") {
        Ok(PhotoKitAvailabilityReasonV1::LimitedAccess)
    } else if str_equal(value, "scope_unavailable") {
        Ok(PhotoKitAvailabilityReasonV1::ScopeUnavailable)
    } else if str_equal(value, "asset_not_in_scope") {
        Ok(PhotoKitAvailabilityReasonV1::AssetNotInScope)
    } else if str_equal(value, "icloud_unavailable") {
        Ok(PhotoKitAvailabilityReasonV1::IcloudUnavailable)
    } else if str_equal(value, "unsupported_resource") {
        Ok(PhotoKitAvailabilityReasonV1::UnsupportedResource)
    } else if str_equal(value, "transfer_failed") {
        Ok(PhotoKitAvailabilityReasonV1::TransferFailed)
    } else if str_equal(value, "blob_integrity_failed") {
        Ok(PhotoKitAvailabilityReasonV1::BlobIntegrityFailed)
    } else {
        Err(PlatformError::Corrupt("photokit_availability_reason"))
    }
}

/// Distinct values have distinct stored names.
pub proof fn lemma_photokit_names_distinct()
    ensures
        forall|a: PhotoKitAuthorizationV1, b: PhotoKitAuthorizationV1|
            #[trigger] authorization_name(a) == #[trigger] authorization_name(b) ==> a == b,
        forall|a: PhotoKitReconcileTriggerV1, b: PhotoKitReconcileTriggerV1|
            #[trigger] trigger_name(a) == #[trigger] trigger_name(b) ==> a == b,
        forall|a: PhotoKitAvailabilityV1, b: PhotoKitAvailabilityV1|
            #[trigger] availability_name(a) == #[trigger] availability_name(b) ==> a == b,
        forall|a: PhotoKitAvailabilityReasonV1, b: PhotoKitAvailabilityReasonV1|
            #[trigger] reason_name(a) == #[trigger] reason_name(b) ==> a == b,
{
    reveal_strlit("not_determined");
    reveal_strlit("restricted");
    reveal_strlit("denied");
    reveal_strlit("limited");
    reveal_strlit("authorized");
    assert("not_determined"@.len() == 14);
    assert("restricted"@.len() == 10);
    assert("denied"@.len() == 6);
    assert("limited"@.len() == 7);
    assert("authorized"@.len() == 10);
    assert("restricted"@[0] != "authorized"@[0]);
    reveal_strlit("startup");
    reveal_strlit("user");
    reveal_strlit("library_change");
    assert("startup"@.len() == 7);
    assert("user"@.len() == 4);
    assert("library_change"@.len() == 14);
    reveal_strlit("available");
    reveal_strlit("unavailable");
    assert("available"@.len() == 9);
    assert("unavailable"@.len() == 11);
    reveal_strlit("materialized");
    reveal_strlit("accessible");
    reveal_strlit("authorization_not_determined");
    reveal_strlit("authorization_restricted");
    reveal_strlit("authorization_denied");
    reveal_strlit("limited_access");
    reveal_strlit("scope_unavailable");
    reveal_strlit("asset_not_in_scope");
    reveal_strlit("icloud_unavailable");
    reveal_strlit("unsupported_resource");
    reveal_strlit("transfer_failed");
    reveal_strlit("blob_integrity_failed");
    assert("materialized"@.len() == 12);
    assert("accessible"@.len() == 10);
    assert("authorization_not_determined"@.len() == 28);
    assert("authorization_restricted"@.len() == 24);
    assert("authorization_denied"@.len() == 20);
    assert("limited_access"@.len() == 14);
    assert("scope_unavailable"@.len() == 17);
    assert("asset_not_in_scope"@.len() == 18);
    assert("icloud_unavailable"@.len() == 18);
    assert("unsupported_resource"@.len() == 20);
    assert("transfer_failed"@.len() == 15);
    assert("blob_integrity_failed"@.len() == 21);
    assert("asset_not_in_scope"@[0] != "icloud_unavailable"@[0]);
    assert("authorization_denied"@[0] != "unsupported_resource"@[0]);
}

/// Reading back the stored name of a value gives the value: the names are
/// distinct, so the decoder of each enumeration inverts its encoder.
pub proof fn lemma_photokit_names_round_trip()
    ensures
        forall|a: PhotoKitAuthorizationV1| #[trigger] authorization_of_name(authorization_name(a)) == Some(a),
        forall|t: PhotoKitReconcileTriggerV1| #[trigger] trigger_of_name(trigger_name(t)) == Some(t),
        forall|s: PhotoKitConnectorStateV1| #[trigger] connector_state_of_name(connector_state_name(s)) == Some(s),
        forall|a: PhotoKitAvailabilityV1| #[trigger] availability_of_name(availability_name(a)) == Some(a),
        forall|r: PhotoKitAvailabilityReasonV1| #[trigger] reason_of_name(reason_name(r)) == Some(r),
{
    lemma_photokit_names_distinct();
    reveal_strlit("unconfigured");
    reveal_strlit("ready");
    reveal_strlit("reconciling");
    reveal_strlit("needs_attention");
    assert("unconfigured"@.len() == 12);
    assert("ready"@.len() == 5);
    assert("reconciling"@.len() == 11);
    assert("needs_attention"@.len() == 15);
    assert forall|a: PhotoKitAuthorizationV1| #[trigger] authorization_of_name(authorization_name(a)) == Some(a) by {
        match a {
            PhotoKitAuthorizationV1::NotDetermined => {},
            PhotoKitAuthorizationV1::Restricted => {
                assert(authorization_name(a) != authorization_name(PhotoKitAuthorizationV1::NotDetermined));
            },
            PhotoKitAuthorizationV1::Denied => {
                assert(authorization_name(a) != authorization_name(PhotoKitAuthorizationV1::NotDetermined));
                assert(authorization_name(a) != authorization_name(PhotoKitAuthorizationV1::Restricted));
            },
            PhotoKitAuthorizationV1::Limited => {
                assert(authorization_name(a) != authorization_name(PhotoKitAuthorizationV1::NotDetermined));
                assert(authorization_name(a) != authorization_name(PhotoKitAuthorizationV1::Restricted));
                assert(authorization_name(a) != authorization_name(PhotoKitAuthorizationV1::Denied));
            },
            PhotoKitAuthorizationV1::Authorized => {
                assert(authorization_name(a) != authorization_name(PhotoKitAuthorizationV1::NotDetermined));
                assert(authorization_name(a) != authorization_name(PhotoKitAuthorizationV1::Restricted));
                assert(authorization_name(a) != authorization_name(PhotoKitAuthorizationV1::Denied));
                assert(authorization_name(a) != authorization_name(PhotoKitAuthorizationV1::Limited));
            },
        }
    }
    assert forall|t: PhotoKitReconcileTriggerV1| #[trigger] trigger_of_name(trigger_name(t)) == Some(t) by {
        match t {
            PhotoKitReconcileTriggerV1::Startup => {},
            PhotoKitReconcileTriggerV1::User => {
                assert(trigger_name(t) != trigger_name(PhotoKitReconcileTriggerV1::Startup));
            },
            PhotoKitReconcileTriggerV1::LibraryChange => {
                assert(trigger_name(t) != trigger_name(PhotoKitReconcileTriggerV1::Startup));
                assert(trigger_name(t) != trigger_name(PhotoKitReconcileTriggerV1::User));
            },
        }
    }
    assert(availability_name(PhotoKitAvailabilityV1::Unavailable) != availability_name(
        PhotoKitAvailabilityV1::Available,
    ));
    assert forall|r: PhotoKitAvailabilityReasonV1| #[trigger] reason_of_name(reason_name(r)) == Some(r) by {
        assert forall|q: PhotoKitAvailabilityReasonV1| q != r implies reason_name(q) != reason_name(r) by {
            if reason_name(q) == reason_name(r) {
                assert(q == r);
            }
        }
        assert(reason_name(r) != reason_name(PhotoKitAvailabilityReasonV1::Materialized) || r == PhotoKitAvailabilityReasonV1::Materialized);
        assert(reason_name(r) != reason_name(PhotoKitAvailabilityReasonV1::Accessible) || r == PhotoKitAvailabilityReasonV1::Accessible);
        assert(reason_name(r) != reason_name(PhotoKitAvailabilityReasonV1::AuthorizationNotDetermined) || r == PhotoKitAvailabilityReasonV1::AuthorizationNotDetermined);
        assert(reason_name(r) != reason_name(PhotoKitAvailabilityReasonV1::AuthorizationRestricted) || r == PhotoKitAvailabilityReasonV1::AuthorizationRestricted);
        assert(reason_name(r) != reason_name(PhotoKitAvailabilityReasonV1::AuthorizationDenied) || r == PhotoKitAvailabilityReasonV1::AuthorizationDenied);
        assert(reason_name(r) != reason_name(PhotoKitAvailabilityReasonV1::LimitedAccess) || r == PhotoKitAvailabilityReasonV1::LimitedAccess);
        assert(reason_name(r) != reason_name(PhotoKitAvailabilityReasonV1::ScopeUnavailable) || r == PhotoKitAvailabilityReasonV1::ScopeUnavailable);
        assert(reason_name(r) != reason_name(PhotoKitAvailabilityReasonV1::AssetNotInScope) || r == PhotoKitAvailabilityReasonV1::AssetNotInScope);
        assert(reason_name(r) != reason_name(PhotoKitAvailabilityReasonV1::IcloudUnavailable) || r == PhotoKitAvailabilityReasonV1::IcloudUnavailable);
        assert(reason_name(r) != reason_name(PhotoKitAvailabilityReasonV1::UnsupportedResource) || r == PhotoKitAvailabilityReasonV1::UnsupportedResource);
        assert(reason_name(r) != reason_name(PhotoKitAvailabilityReasonV1::TransferFailed) || r == PhotoKitAvailabilityReasonV1::TransferFailed);
    }
}

// ---------------------------------------------------------------------------
// Results of a reconcile
// ---------------------------------------------------------------------------

/// A finalized observation is consistent: an available asset is materialized
/// or accessible, an unavailable one is neither, and it carries a
/// materialization exactly when it is materialized.
pub open spec fn availability_result_ok(value: PhotoKitFinalizedObservation) -> bool {
    let reason_available = value.reason == PhotoKitAvailabilityReasonV1::Materialized || value.reason
        == PhotoKitAvailabilityReasonV1::Accessible;
    &&& (value.availability == PhotoKitAvailabilityV1::Available) == reason_available
    &&& (value.reason == PhotoKitAvailabilityReasonV1::Materialized) == (value.materialization is Some)
}

pub fn validate_availability_result(value: &PhotoKitFinalizedObservation) -> (result: PlatformResult<()>)
    ensures
        result is Ok <==> availability_result_ok(*value),
        result matches Err(e) ==> e == PlatformError::InvalidInput("photokit_availability_result"),
{
    let reason_available = match value.reason {
        PhotoKitAvailabilityReasonV1::Materialized | PhotoKitAvailabilityReasonV1::Accessible => true,
        _ => false,
    };
    let valid_reason = match value.availability {
        PhotoKitAvailabilityV1::Available => reason_available,
        PhotoKitAvailabilityV1::Unavailable => !reason_available,
    };
    let materialized = match value.reason {
        PhotoKitAvailabilityReasonV1::Materialized => true,
        _ => false,
    };
    if !valid_reason || materialized != value.materialization.is_some() {
        return Err(PlatformError::InvalidInput("photokit_availability_result"));
    }
    Ok(())
}

/// A materialization within the connector's limits: 1 byte to 40 MiB, sides of
/// 1 to 16384 pixels, at most 64 megapixels, and a supported resource type.
pub open spec fn materialization_ok(value: PhotoKitMaterializationRecord) -> bool {
    &&& 0 < value.blob.byte_length <= 41943040
    &&& 0 < value.pixel_width <= 16384
    &&& 0 < value.pixel_height <= 16384
    &&& value.pixel_width * value.pixel_height <= 64000000
    &&& crate::photokit_wire::is_supported_uti(value.resource_uti@)
}

pub fn validate_materialization(value: &PhotoKitMaterializationRecord) -> (result: PlatformResult<()>)
    ensures
        result is Ok <==> materialization_ok(*value),
        result matches Err(e) ==> e == PlatformError::InvalidInput("photokit_materialization"),
{
    let w = value.pixel_width as u64;
    let h = value.pixel_height as u64;
    if value.blob.byte_length == 0 || value.blob.byte_length > 41943040 || value.pixel_width == 0
        || value.pixel_width > 16384 || value.pixel_height == 0 || value.pixel_height > 16384 {
        return Err(PlatformError::InvalidInput("photokit_materialization"));
    }
    assert(w * h <= 16384 * 16384) by (nonlinear_arith)
        requires
            w <= 16384,
            h <= 16384,
    ;
    if w * h > 64000000 || !crate::photokit_wire::supported_uti(value.resource_uti.as_str()) {
        return Err(PlatformError::InvalidInput("photokit_materialization"));
    }
    Ok(())
}

/// The associated data that binds a locator ciphertext to its enrollment,
/// record kind and row: the three texts with a zero byte between them.
pub open spec fn locator_aad_bytes(enrollment_epoch: Seq<u8>, record_kind: Seq<u8>, stable_row_id: Seq<u8>) -> Seq<u8> {
    enrollment_epoch + seq![0u8] + record_kind + seq![0u8] + stable_row_id
}

fn append_bytes(out: &mut Vec<u8>, bytes: &[u8])
    ensures
        final(out)@ == old(out)@ + bytes@,
{
    let mut i: usize = 0;
    while i < bytes.len()
        invariant
            i <= bytes@.len(),
            out@ == old(out)@ + bytes@.subrange(0, i as int),
        decreases bytes@.len() - i,
    {
        out.push(bytes[i]);
        assert(bytes@.subrange(0, i + 1) =~= bytes@.subrange(0, i as int).push(bytes@[i as int]));
        i = i + 1;
    }
    assert(bytes@.subrange(0, bytes@.len() as int) =~= bytes@);
}

pub fn locator_aad(enrollment_epoch: &str, record_kind: &str, stable_row_id: &str) -> (aad: Vec<u8>)
    ensures
        aad@ == locator_aad_bytes(
            enrollment_epoch.spec_bytes(),
            record_kind.spec_bytes(),
            stable_row_id.spec_bytes(),
        ),
{
    let mut aad: Vec<u8> = Vec::new();
    append_bytes(&mut aad, enrollment_epoch.as_bytes());
    aad.push(0);
    append_bytes(&mut aad, record_kind.as_bytes());
    aad.push(0);
    append_bytes(&mut aad, stable_row_id.as_bytes());
    assert(aad@ =~= locator_aad_bytes(
        enrollment_epoch.spec_bytes(),
        record_kind.spec_bytes(),
        stable_row_id.spec_bytes(),
    ));
    aad
}

/// The text whose SHA-256 digest identifies a materialized resource: the
/// blob digest, the resource type, the width and the height in decimal, and
/// the selection policy, a NUL character between each.
pub open spec fn fingerprint_text(blob_sha256: Seq<char>, resource_uti: Seq<char>, pixel_width: u32, pixel_height: u32) -> Seq<char> {
    blob_sha256 + seq!['\0'] + resource_uti + seq!['\0'] + crate::digest_text::decimal_text(
        pixel_width as nat,
    ) + seq!['\0'] + crate::digest_text::decimal_text(pixel_height as nat) + seq!['\0']
        + crate::photokit_types::PHOTOKIT_SELECTION_POLICY_REVISION@
}

/// The fingerprint of a materialized resource: the lower-case hexadecimal
/// SHA-256 digest of its fingerprint text.
pub fn photokit_resource_fingerprint(blob_sha256: &str, resource_uti: &str, pixel_width: u32, pixel_height: u32) -> (fingerprint:
    PlatformResult<String>)
    ensures
        !is_hex_digest(blob_sha256.spec_bytes()) ==> fingerprint == Err::<String, PlatformError>(
            PlatformError::InvalidInput("sha256"),
        ),
        is_hex_digest(blob_sha256.spec_bytes()) && !printable_ascii_text(resource_uti.spec_bytes(), 128)
            ==> fingerprint == Err::<String, PlatformError>(
            PlatformError::InvalidInput("photokit_resource_uti"),
        ),
        is_hex_digest(blob_sha256.spec_bytes()) && printable_ascii_text(resource_uti.spec_bytes(), 128)
            ==> (fingerprint matches Ok(f) && f@ == crate::digest_text::hex_text(
            crate::digest_text::sha256_digest(
                vstd::utf8::encode_utf8(
                    fingerprint_text(blob_sha256@, resource_uti@, pixel_width, pixel_height),
                ),
            ),
        )),
{
    validate_hash(blob_sha256)?;
    validate_ascii(resource_uti, 128, "photokit_resource_uti")?;
    let mut text = String::from_str(blob_sha256);
    text.append("\0");
    text.append(resource_uti);
    text.append("\0");
    crate::digest_text::append_decimal(&mut text, pixel_width);
    text.append("\0");
    crate::digest_text::append_decimal(&mut text, pixel_height);
    text.append("\0");
    text.append(crate::photokit_types::PHOTOKIT_SELECTION_POLICY_REVISION);
    proof {
        reveal_strlit("\0");
        assert(text@ =~= fingerprint_text(blob_sha256@, resource_uti@, pixel_width, pixel_height));
    }
    let digest = crate::digest_text::sha256(text.as_str().as_bytes());
    Ok(crate::digest_text::hex_lower(&digest))
}

} // verus!
