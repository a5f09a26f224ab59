use crate::platform_error::{PlatformError, PlatformResult};
use vstd::prelude::*;

verus! {

pub const PHOTOKIT_MAX_ASSETS: usize = 500;

pub const PHOTOKIT_MAX_RESOURCE_BYTES: u64 = 41943040;

pub const PHOTOKIT_MAX_RUN_BYTES: u64 = 536870912;

pub const PHOTOKIT_MAX_PENDING_CALLBACK_BYTES: u64 = 8388608;

pub const PHOTOKIT_MAX_CALLBACK_CHUNK_BYTES: usize = 1048576;

pub const PHOTOKIT_MAX_CONCURRENT_TRANSFERS: usize = 2;

pub const PHOTOKIT_MAX_PIXELS: u64 = 64000000;

pub const PHOTOKIT_MAX_DIMENSION: u32 = 16384;

pub const PHOTOKIT_MAX_ALBUMS: usize = 100;

pub const PHOTOKIT_SELECTION_POLICY_REVISION: &'static str = "original-primary-v1";

/// How the native PhotoKit bridge failed.
#[derive(Clone, Copy, Debug, PartialEq, Eq, Structural)]
pub enum PhotoKitNativeError {
    Unavailable,
    InvalidResponse,
    Cancelled,
    SinkRejected,
    ImageValidation,
}

/// The primary resource that PhotoKit offers for an asset.
#[derive(Clone, Debug, PartialEq, Eq)]
pub struct PhotoKitNativeResource {
    pub operation_resource_token: String,
    pub resource_uti: String,
}

/// A regular album as PhotoKit lists it.
#[derive(Clone, Debug, PartialEq, Eq)]
pub struct PhotoKitNativeAlbum {
    pub album_locator: String,
    pub label: String,
}

/// An asset of the enrolled album.
#[derive(Clone, Debug, PartialEq, Eq)]
pub struct PhotoKitNativeAsset {
    pub asset_locator: String,
    pub primary_resource: Option<PhotoKitNativeResource>,
}

/// How enumerating the enrolled album ended.
#[derive(Clone, Copy, Debug, PartialEq, Eq, Structural)]
pub enum PhotoKitEnumerationTerminal {
    Complete,
    Incomplete,
    AlbumUnavailable,
}

/// How transferring a resource ended.
#[derive(Clone, Copy, Debug, PartialEq, Eq, Structural)]
pub enum PhotoKitTransferTerminal {
    Complete,
    NetworkAccessRequired,
    Failed,
}

/// What the native image validation measured.
#[derive(Clone, Copy, Debug, PartialEq, Eq, Structural)]
pub struct PhotoKitValidatedImage {
    pub pixel_width: u32,
    pub pixel_height: u32,
    pub frame_count: u32,
}

/// Photo library access as PhotoKit reports it.
#[derive(Clone, Copy, Debug, PartialEq, Eq, Structural)]
pub enum PhotoKitAuthorizationV1 {
    NotDetermined,
    Restricted,
    Denied,
    Limited,
    Authorized,
}

/// Whether an enrolled asset is available.
#[derive(Clone, Copy, Debug, PartialEq, Eq, Structural)]
pub enum PhotoKitAvailabilityV1 {
    Available,
    Unavailable,
}

/// Why an enrolled asset is or is not available.
#[derive(Clone, Copy, Debug, PartialEq, Eq, Structural)]
pub enum PhotoKitAvailabilityReasonV1 {
    Materialized,
    Accessible,
    AuthorizationNotDetermined,
    AuthorizationRestricted,
    AuthorizationDenied,
    LimitedAccess,
    ScopeUnavailable,
    AssetNotInScope,
    IcloudUnavailable,
    UnsupportedResource,
    TransferFailed,
    BlobIntegrityFailed,
}

/// What started a reconcile.
#[derive(Clone, Copy, Debug, PartialEq, Eq, Structural)]
pub enum PhotoKitReconcileTriggerV1 {
    Startup,
    User,
    LibraryChange,
}

/// The state of the PhotoKit connector.
#[derive(Clone, Copy, Debug, PartialEq, Eq, Structural)]
pub enum PhotoKitConnectorStateV1 {
    Unconfigured,
    Ready,
    Reconciling,
    NeedsAttention,
}

/// How a keychain operation on a locator root key failed.
#[derive(Clone, Copy, Debug, PartialEq, Eq, Structural)]
pub enum PhotoKitKeyError {
    NotFound,
    Locked,
    Unavailable,
    Integrity,
    Internal,
}

/// The 32-byte root key from which the locator keys derive.
pub struct PhotoKitRootKey {
    bytes: [u8; 32],
}

impl PhotoKitRootKey {
    pub closed spec fn key_bytes(&self) -> Seq<u8> {
        self.bytes@
    }

    pub fn from_bytes(bytes: [u8; 32]) -> (key: Self)
        ensures
            key.key_bytes() == bytes@,
    {
        PhotoKitRootKey { bytes }
    }

    /// A fresh key from the operating system's random source; a source that
    /// fails is `Unavailable`.
    pub fn generate() -> (key: Result<Self, PhotoKitKeyError>)
        ensures
            key matches Err(e) ==> e == PhotoKitKeyError::Unavailable,
    {
        match crate::photokit_locator::random_bytes(32) {
            Some(bytes) => Ok(PhotoKitRootKey::from_bytes(copy32(bytes.as_slice()))),
            None => Err(PhotoKitKeyError::Unavailable),
        }
    }

    pub fn expose(&self) -> (bytes: &[u8; 32])
        ensures
            bytes@ == self.key_bytes(),
    {
        &self.bytes
    }
}

/// The 32 bytes of `bytes` as an array.
pub(crate) fn copy32(bytes: &[u8]) -> (out: [u8; 32])
    requires
        bytes@.len() == 32,
    ensures
        out@ == bytes@,
{
    let mut out = [0u8; 32];
    let mut i: usize = 0;
    while i < 32
        invariant
            i <= 32,
            bytes@.len() == 32,
            forall|j: int| 0 <= j < i ==> out@[j] == bytes@[j],
        decreases 32 - i,
    {
        out[i] = bytes[i];
        i = i + 1;
    }
    assert(out@ =~= bytes@);
    out
}

/// A locator as stored: its lookup MAC, the AEAD nonce and the ciphertext.
#[derive(Clone, Debug, PartialEq, Eq)]
pub struct ProtectedPhotoKitLocator {
    pub lookup_hmac: [u8; 32],
    pub nonce: [u8; 24],
    pub ciphertext: Vec<u8>,
}

/// An enrollment of the connector.
#[derive(Clone, Debug, PartialEq, Eq)]
pub struct PhotoKitEnrollment {
    pub enrollment_epoch: String,
    pub key_reference: String,
    pub allow_icloud_downloads: bool,
    pub operation_fence: u64,
    pub membership_generation: Option<u64>,
}

/// A root key that still has to be deleted from the keychain.
#[derive(Clone, Debug, PartialEq, Eq)]
pub struct PhotoKitKeyCleanupIntent {
    pub intent_id: String,
    pub key_reference: String,
}

/// A reconcile operation.
#[derive(Clone, Debug, PartialEq, Eq)]
pub struct PhotoKitOperation {
    pub operation_id: String,
    pub request_id: String,
    pub enrollment_epoch: String,
    pub store_authority_epoch: String,
    pub reconciliation_fence: u64,
    pub proposed_membership_generation: u64,
    pub trigger: PhotoKitReconcileTriggerV1,
}

/// An observation recorded during enumeration.
#[derive(Clone, Debug, PartialEq, Eq)]
pub struct PhotoKitRecordedObservation {
    pub ordinal: u16,
    pub asset_id: String,
    pub locator_id: String,
    pub resource_uti: Option<String>,
    pub supported: bool,
}

/// A stored blob by its digest and size.
#[derive(Clone, Debug, PartialEq, Eq)]
pub struct BlobRecord {
    pub sha256: String,
    pub byte_length: u64,
}

/// A materialized resource.
#[derive(Clone, Debug, PartialEq, Eq)]
pub struct PhotoKitMaterializationRecord {
    pub resource_fingerprint: String,
    pub blob: BlobRecord,
    pub resource_uti: String,
    pub pixel_width: u32,
    pub pixel_height: u32,
}

/// The final availability of an observation.
#[derive(Clone, Debug, PartialEq, Eq)]
pub struct PhotoKitFinalizedObservation {
    pub ordinal: u16,
    pub availability: PhotoKitAvailabilityV1,
    pub reason: PhotoKitAvailabilityReasonV1,
    pub materialization: Option<PhotoKitMaterializationRecord>,
}

/// How the deletion of an account removes one PhotoKit table.
#[derive(Clone, Copy, Debug, PartialEq, Eq)]
pub struct PhotoKitDeletionSchemaEntry {
    pub table: &'static str,
    pub key_expression: &'static str,
    pub delete_rank: i64,
}

/// The failure of a coordinator operation.
#[derive(Debug)]
pub enum PhotoKitCoordinatorError {
    Platform(PlatformError),
    Key(PhotoKitKeyError),
    Native(PhotoKitNativeError),
}

/// Receives the assets of an album as the native bridge enumerates them.
pub trait PhotoKitEnumerationSink {
    fn observe(&mut self, asset: PhotoKitNativeAsset) -> PlatformResult<()>;
}

/// Receives the bytes of a resource as the native bridge transfers them.
pub trait PhotoKitNativeByteSink {
    fn write_chunk(&mut self, bytes: &[u8]) -> PlatformResult<()>;

    fn accepted_bytes(&self) -> u64;
}

/// Keeps the locator root keys: creates, loads and deletes them by reference.
pub trait PhotoKitKeyPort {
    fn create_root_key(&self, key_reference: &str) -> Result<PhotoKitRootKey, PhotoKitKeyError>;

    fn load_root_key(&self, key_reference: &str, allow_authentication_ui: bool) -> Result<
        PhotoKitRootKey,
        PhotoKitKeyError,
    >;

    fn delete_root_key(&self, key_reference: &str) -> Result<(), PhotoKitKeyError>;
}

} // verus!
