use crate::photokit_types::{PhotoKitNativeError, PhotoKitOperation, PHOTOKIT_MAX_CALLBACK_CHUNK_BYTES};
use crate::uuid_text::{canonical_uuid, parse_canonical_uuid, uuid_parse};
use crate::text::{bytes_equal, contains_byte, str_equal};
use vstd::prelude::*;
use vstd::string::StringSliceAdditionalSpecFns;

verus! {

pub const ABI_VERSION: u32 = 1;

pub const MAX_CONTROL_BYTES: usize = 65536;

pub const MAX_BINARY_BYTES: usize = 1048576;

pub const BINARY_HEADER_BYTES: usize = 80;

pub const STATUS_OK: i32 = 0;

pub const STATUS_TIMEOUT: i32 = 1;

pub const STATUS_CLOSED: i32 = 2;

pub const STATUS_INVALID: i32 = 3;

pub const STATUS_BUSY: i32 = 4;

pub const FRAME_CONTROL: u32 = 1;

pub const FRAME_BINARY: u32 = 2;

/// The commands that the bridge understands.
#[derive(Clone, Copy, Debug, PartialEq, Eq, Structural)]
pub enum CommandKind {
    InspectAuthorization,
    RequestAuthorization,
    ListAlbums,
    EnumerateAlbum,
    StreamResource,
}

impl CommandKind {
    pub open spec fn spec_wire_name(self) -> Seq<char> {
        match self {
            CommandKind::InspectAuthorization => "inspect_authorization"@,
            CommandKind::RequestAuthorization => "request_authorization"@,
            CommandKind::ListAlbums => "list_albums"@,
            CommandKind::EnumerateAlbum => "enumerate_album"@,
            CommandKind::StreamResource => "stream_resource"@,
        }
    }

    /// The name of the command on the wire.
    pub fn wire_name(self) -> (name: &'static str)
        ensures
            name@ == self.spec_wire_name(),
    {
        match self {
            CommandKind::InspectAuthorization => "inspect_authorization",
            CommandKind::RequestAuthorization => "request_authorization",
            CommandKind::ListAlbums => "list_albums",
            CommandKind::EnumerateAlbum => "enumerate_album",
            CommandKind::StreamResource => "stream_resource",
        }
    }
}

/// The error that a non-OK bridge status stands for: a closed bridge is
/// unavailable, an invalid or busy one answered wrongly, anything else is
/// unavailable.
pub fn status_error(status: i32) -> (error: PhotoKitNativeError)
    ensures
        error == (if status == STATUS_INVALID || status == STATUS_BUSY {
            PhotoKitNativeError::InvalidResponse
        } else {
            PhotoKitNativeError::Unavailable
        }),
{
    if status == STATUS_CLOSED {
        PhotoKitNativeError::Unavailable
    } else if status == STATUS_INVALID || status == STATUS_BUSY {
        PhotoKitNativeError::InvalidResponse
    } else {
        PhotoKitNativeError::Unavailable
    }
}

/// The little-endian value of the four bytes at `offset`.
pub open spec fn le_u32_at(bytes: Seq<u8>, offset: int) -> int {
    bytes[offset] + bytes[offset + 1] * 256 + bytes[offset + 2] * 65536 + bytes[offset + 3]
        * 16777216
}

/// The little-endian value of the eight bytes at `offset`.
pub open spec fn le_u64_at(bytes: Seq<u8>, offset: int) -> int {
    le_u32_at(bytes, offset) + le_u32_at(bytes, offset + 4) * 4294967296
}

/// Reads a little-endian `u32` at `offset`, if the bytes hold it.
pub fn read_u32(bytes: &[u8], offset: usize) -> (value: Option<u32>)
    ensures
        match value {
            Some(v) => offset + 4 <= bytes@.len() && v == le_u32_at(bytes@, offset as int),
            None => offset + 4 > bytes@.len(),
        },
{
    if offset > bytes.len() || bytes.len() - offset < 4 {
        return None;
    }
    Some(bytes[offset] as u32 + (bytes[offset + 1] as u32) * 256 + (bytes[offset + 2] as u32)
        * 65536 + (bytes[offset + 3] as u32) * 16777216)
}

/// Reads a little-endian `u64` at `offset`, if the bytes hold it.
pub fn read_u64(bytes: &[u8], offset: usize) -> (value: Option<u64>)
    ensures
        match value {
            Some(v) => offset + 8 <= bytes@.len() && v == le_u64_at(bytes@, offset as int),
            None => offset + 8 > bytes@.len(),
        },
{
    if offset > bytes.len() || bytes.len() - offset < 8 {
        return None;
    }
    let low = bytes[offset] as u64 + (bytes[offset + 1] as u64) * 256 + (bytes[offset + 2] as u64)
        * 65536 + (bytes[offset + 3] as u64) * 16777216;
    let high = bytes[offset + 4] as u64 + (bytes[offset + 5] as u64) * 256 + (bytes[offset + 6]
        as u64) * 65536 + (bytes[offset + 7] as u64) * 16777216;
    assert(high * 4294967296 <= 0xffff_ffffu64 * 4294967296) by (nonlinear_arith)
        requires
            high <= 0xffff_ffffu64,
    ;
    Some(low + high * 4294967296)
}

/// Text that the bridge may send or receive: not empty, at most `maximum`
/// bytes, and without a NUL byte.
pub open spec fn bounded_text(bytes: Seq<u8>, maximum: int) -> bool {
    0 < bytes.len() <= maximum && !bytes.contains(0u8)
}

pub fn validate_bounded_text(value: &str, maximum: usize) -> (result: Result<(), PhotoKitNativeError>)
    ensures
        result is Ok <==> bounded_text(value.spec_bytes(), maximum as int),
        result matches Err(e) ==> e == PhotoKitNativeError::InvalidResponse,
{
    let bytes = value.as_bytes();
    if bytes.len() == 0 || bytes.len() > maximum || contains_byte(bytes, 0) {
        proof {
            if bytes@.contains(0u8) {
                let i = choose|i: int| 0 <= i < bytes@.len() && bytes@[i] == 0u8;
                assert(bytes@[i] == 0u8);
            }
        }
        return Err(PhotoKitNativeError::InvalidResponse);
    }
    proof {
        assert forall|i: int| 0 <= i < bytes@.len() implies bytes@[i] != 0u8 by {}
    }
    Ok(())
}

/// A byte of a resource token: lower-case letter, digit or hyphen.
pub open spec fn is_token_byte(b: u8) -> bool {
    (97 <= b <= 122) || (48 <= b <= 57) || b == 45
}

/// A resource token: bounded text of at most 128 bytes, made of token bytes.
pub open spec fn resource_token_ok(bytes: Seq<u8>) -> bool {
    bounded_text(bytes, 128) && forall|i: int| 0 <= i < bytes.len() ==> is_token_byte(
        #[trigger] bytes[i],
    )
}

pub fn validate_resource_token(value: &str) -> (result: Result<(), PhotoKitNativeError>)
    ensures
        result is Ok <==> resource_token_ok(value.spec_bytes()),
        result matches Err(e) ==> e == PhotoKitNativeError::InvalidResponse,
{
    validate_bounded_text(value, 128)?;
    let bytes = value.as_bytes();
    let mut i: usize = 0;
    while i < bytes.len()
        invariant
            i <= bytes@.len(),
            bytes@ == value.spec_bytes(),
            forall|j: int| 0 <= j < i ==> is_token_byte(#[trigger] bytes@[j]),
        decreases bytes@.len() - i,
    {
        let b = bytes[i];
        if !((97 <= b && b <= 122) || (48 <= b && b <= 57) || b == 45) {
            return Err(PhotoKitNativeError::InvalidResponse);
        }
        i = i + 1;
    }
    Ok(())
}

pub const NATIVE_REASON_COUNT: usize = 23;

/// The failure reasons that the bridge may report.
pub open spec fn native_reason(i: int) -> Seq<char> {
    if i == 0 {
        "authorization_unavailable"@
    } else if i == 1 {
        "scope_unavailable"@
    } else if i == 2 {
        "scope_too_large"@
    } else if i == 3 {
        "invalid"@
    } else if i == 4 {
        "invalid_album"@
    } else if i == 5 {
        "invalid_asset"@
    } else if i == 6 {
        "internal"@
    } else if i == 7 {
        "resource_limit"@
    } else if i == 8 {
        "resource_unavailable"@
    } else if i == 9 {
        "network_access_required"@
    } else if i == 10 {
        "partial_transfer"@
    } else if i == 11 {
        "transfer_failed"@
    } else if i == 12 {
        "empty_resource"@
    } else if i == 13 {
        "cancelled"@
    } else if i == 14 {
        "queue_limit"@
    } else if i == 15 {
        "invalid_progress"@
    } else if i == 16 {
        "not_still_image"@
    } else if i == 17 {
        "live_photo"@
    } else if i == 18 {
        "burst"@
    } else if i == 19 {
        "empty_resource_set"@
    } else if i == 20 {
        "ambiguous_resource_set"@
    } else if i == 21 {
        "unsupported_resource"@
    } else {
        "unsupported_type"@
    }
}

fn native_reason_text(i: usize) -> (text: &'static str)
    requires
        i < NATIVE_REASON_COUNT,
    ensures
        text@ == native_reason(i as int),
{
    if i == 0 {
        "authorization_unavailable"
    } else if i == 1 {
        "scope_unavailable"
    } else if i == 2 {
        "scope_too_large"
    } else if i == 3 {
        "invalid"
    } else if i == 4 {
        "invalid_album"
    } else if i == 5 {
        "invalid_asset"
    } else if i == 6 {
        "internal"
    } else if i == 7 {
        "resource_limit"
    } else if i == 8 {
        "resource_unavailable"
    } else if i == 9 {
        "network_access_required"
    } else if i == 10 {
        "partial_transfer"
    } else if i == 11 {
        "transfer_failed"
    } else if i == 12 {
        "empty_resource"
    } else if i == 13 {
        "cancelled"
    } else if i == 14 {
        "queue_limit"
    } else if i == 15 {
        "invalid_progress"
    } else if i == 16 {
        "not_still_image"
    } else if i == 17 {
        "live_photo"
    } else if i == 18 {
        "burst"
    } else if i == 19 {
        "empty_resource_set"
    } else if i == 20 {
        "ambiguous_resource_set"
    } else if i == 21 {
        "unsupported_resource"
    } else {
        "unsupported_type"
    }
}

pub open spec fn is_native_reason(value: Seq<char>) -> bool {
    exists|i: int| 0 <= i < NATIVE_REASON_COUNT && #[trigger] native_reason(i) == value
}

pub fn validate_reason(value: &str) -> (result: Result<(), PhotoKitNativeError>)
    ensures
        result is Ok <==> is_native_reason(value@),
        result matches Err(e) ==> e == PhotoKitNativeError::InvalidResponse,
{
    let mut i: usize = 0;
    while i < NATIVE_REASON_COUNT
        invariant
            i <= NATIVE_REASON_COUNT,
            forall|j: int| 0 <= j < i ==> #[trigger] native_reason(j) != value@,
        decreases NATIVE_REASON_COUNT - i,
    {
        if str_equal(value, native_reason_text(i)) {
            return Ok(());
        }
        i = i + 1;
    }
    Err(PhotoKitNativeError::InvalidResponse)
}

/// The resource types that the connector materializes.
pub open spec fn is_supported_uti(value: Seq<char>) -> bool {
    value == "public.jpeg"@ || value == "public.png"@ || value == "public.heic"@ || value
        == "public.heif"@
}

pub fn supported_uti(value: &str) -> (supported: bool)
    ensures
        supported == is_supported_uti(value@),
{
    str_equal(value, "public.jpeg") || str_equal(value, "public.png") || str_equal(
        value,
        "public.heic",
    ) || str_equal(value, "public.heif")
}

/// Who a bridge request is for: the operation and enrollment (as UUID bytes),
/// its fence, the membership generation, and the request's sequence number.
#[derive(Clone, Copy, Debug)]
pub struct RequestIdentity {
    pub operation_id: [u8; 16],
    pub enrollment_epoch: [u8; 16],
    pub reconciliation_fence: u64,
    pub generation: u64,
    pub request_sequence: u64,
}

impl RequestIdentity {
    /// The identity of request `request_sequence` of an operation: its
    /// operation id and enrollment epoch must be canonical UUIDs, and its
    /// fence and proposed generation must be positive.
    pub fn for_operation(operation: &PhotoKitOperation, request_sequence: u64) -> (identity: Result<
        Self,
        PhotoKitNativeError,
    >)
        ensures
            identity is Ok <==> (canonical_uuid(operation.operation_id@) && canonical_uuid(
                operation.enrollment_epoch@,
            ) && operation.reconciliation_fence != 0 && operation.proposed_membership_generation != 0),
            identity matches Err(e) ==> e == PhotoKitNativeError::InvalidResponse,
            identity matches Ok(i) ==> {
                &&& uuid_parse(operation.operation_id@) == Some(i.operation_id@)
                &&& uuid_parse(operation.enrollment_epoch@) == Some(i.enrollment_epoch@)
                &&& i.reconciliation_fence == operation.reconciliation_fence
                &&& i.generation == operation.proposed_membership_generation
                &&& i.request_sequence == request_sequence
            },
    {
        let operation_id = match parse_canonical_uuid(operation.operation_id.as_str()) {
            Some(bytes) => bytes,
            None => {
                return Err(PhotoKitNativeError::InvalidResponse);
            },
        };
        let enrollment_epoch = match parse_canonical_uuid(operation.enrollment_epoch.as_str()) {
            Some(bytes) => bytes,
            None => {
                return Err(PhotoKitNativeError::InvalidResponse);
            },
        };
        if operation.reconciliation_fence == 0 || operation.proposed_membership_generation == 0 {
            return Err(PhotoKitNativeError::InvalidResponse);
        }
        Ok(RequestIdentity {
            operation_id,
            enrollment_epoch,
            reconciliation_fence: operation.reconciliation_fence,
            generation: operation.proposed_membership_generation,
            request_sequence,
        })
    }
}

/// A binary frame of a resource transfer: `WKPB`, ABI 1, an 80-byte header,
/// a zero word, then the request's sequence, fence and generation, the
/// expected chunk index, the operation and enrollment UUIDs, and a payload of
/// at most 1 MiB; the frame is at most 1 MiB in all.
pub open spec fn binary_frame_ok(bytes: Seq<u8>, identity: RequestIdentity, chunk_index: u64) -> bool {
    &&& BINARY_HEADER_BYTES < bytes.len() <= MAX_BINARY_BYTES
    &&& bytes.subrange(0, 4) == seq![0x57u8, 0x4bu8, 0x50u8, 0x42u8]
    &&& le_u32_at(bytes, 4) == ABI_VERSION
    &&& le_u32_at(bytes, 8) == BINARY_HEADER_BYTES
    &&& le_u32_at(bytes, 12) == 0
    &&& le_u64_at(bytes, 16) == identity.request_sequence
    &&& le_u64_at(bytes, 24) == identity.reconciliation_fence
    &&& le_u64_at(bytes, 32) == identity.generation
    &&& le_u64_at(bytes, 40) == chunk_index
    &&& bytes.subrange(48, 64) == identity.operation_id@
    &&& bytes.subrange(64, 80) == identity.enrollment_epoch@
    &&& bytes.len() - BINARY_HEADER_BYTES <= PHOTOKIT_MAX_CALLBACK_CHUNK_BYTES
}

/// The payload of a binary frame, which must belong to the request and carry
/// the expected chunk.
pub fn decode_binary(bytes: &[u8], identity: &RequestIdentity, expected_chunk_index: u64) -> (result: Result<Vec<u8>, PhotoKitNativeError>)
    ensures
        match result {
            Ok(payload) => binary_frame_ok(bytes@, *identity, expected_chunk_index) && payload@
                == bytes@.subrange(BINARY_HEADER_BYTES as int, bytes@.len() as int),
            Err(e) => !binary_frame_ok(bytes@, *identity, expected_chunk_index) && e
                == PhotoKitNativeError::InvalidResponse,
        },
{
    let magic: [u8; 4] = [0x57, 0x4b, 0x50, 0x42];
    if bytes.len() <= BINARY_HEADER_BYTES || bytes.len() > MAX_BINARY_BYTES {
        return Err(PhotoKitNativeError::InvalidResponse);
    }
    let same_magic = bytes_equal(&bytes[0..4], &magic);
    let same_operation = bytes_equal(&bytes[48..64], &identity.operation_id);
    let same_epoch = bytes_equal(&bytes[64..80], &identity.enrollment_epoch);
    proof {
        assert(magic@ =~= seq![0x57u8, 0x4bu8, 0x50u8, 0x42u8]);
    }
    if !same_magic || read_u32(bytes, 4) != Some(ABI_VERSION) || read_u32(bytes, 8) != Some(
        BINARY_HEADER_BYTES as u32,
    ) || read_u32(bytes, 12) != Some(0u32) || read_u64(bytes, 16) != Some(
        identity.request_sequence,
    ) || read_u64(bytes, 24) != Some(identity.reconciliation_fence) || read_u64(bytes, 32) != Some(
        identity.generation,
    ) || read_u64(bytes, 40) != Some(expected_chunk_index) || !same_operation || !same_epoch {
        return Err(PhotoKitNativeError::InvalidResponse);
    }
    let payload_len = bytes.len() - BINARY_HEADER_BYTES;
    if payload_len == 0 || payload_len > PHOTOKIT_MAX_CALLBACK_CHUNK_BYTES {
        return Err(PhotoKitNativeError::InvalidResponse);
    }
    let mut payload: Vec<u8> = Vec::new();
    let mut i: usize = BINARY_HEADER_BYTES;
    while i < bytes.len()
        invariant
            BINARY_HEADER_BYTES <= i <= bytes@.len(),
            payload@ =~= bytes@.subrange(BINARY_HEADER_BYTES as int, i as int),
        decreases bytes@.len() - i,
    {
        payload.push(bytes[i]);
        i = i + 1;
    }
    Ok(payload)
}

} // verus!
