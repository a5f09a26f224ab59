use crate::photokit_types::{PhotoKitKeyError, PhotoKitKeyPort, PhotoKitRootKey};
use vstd::prelude::*;
use vstd::string::StringSliceAdditionalSpecFns;

verus! {

pub const PHOTOKIT_KEYCHAIN_SERVICE: &'static str = "com.devrai.wardrobe.photokit.locator.v1";

/// The Security framework's status for an item that is not there.
pub const ERR_SEC_ITEM_NOT_FOUND: i32 = -25300;

/// The Security framework's status for a failed authentication.
pub const ERR_SEC_AUTH_FAILED: i32 = -25293;

/// The Security framework's status for a keychain that is not available.
pub const ERR_SEC_NOT_AVAILABLE: i32 = -25291;

/// The Security framework's status for a keychain that may not ask the user.
pub const ERR_SEC_INTERACTION_NOT_ALLOWED: i32 = -25308;

/// The keychain port for systems without the macOS keychain: no key can be
/// created, loaded or deleted, and every operation is `Unavailable`.
#[derive(Clone, Copy, Debug, Default)]
pub struct MacOsPhotoKitKeychain;

impl PhotoKitKeyPort for MacOsPhotoKitKeychain {
    fn create_root_key(&self, key_reference: &str) -> (key: Result<PhotoKitRootKey, PhotoKitKeyError>)
        ensures
            key matches Err(e) && e == PhotoKitKeyError::Unavailable,
    {
        Err(PhotoKitKeyError::Unavailable)
    }

    fn load_root_key(&self, key_reference: &str, allow_authentication_ui: bool) -> (key: Result<
        PhotoKitRootKey,
        PhotoKitKeyError,
    >)
        ensures
            key matches Err(e) && e == PhotoKitKeyError::Unavailable,
    {
        Err(PhotoKitKeyError::Unavailable)
    }

    fn delete_root_key(&self, key_reference: &str) -> (deleted: Result<(), PhotoKitKeyError>)
        ensures
            deleted == Err::<(), PhotoKitKeyError>(PhotoKitKeyError::Unavailable),
    {
        Err(PhotoKitKeyError::Unavailable)
    }
}

/// A keychain account name: 1 to 128 bytes, each printable ASCII.
pub open spec fn keychain_reference(bytes: Seq<u8>) -> bool {
    0 < bytes.len() <= 128 && forall|i: int| 0 <= i < bytes.len() ==> 0x20 <= #[trigger] bytes[i] <= 0x7e
}

/// A key reference that is no keychain account name is an `Integrity`
/// failure.
#[verifier::loop_isolation(false)]
pub fn validate_key_reference(value: &str) -> (result: Result<(), PhotoKitKeyError>)
    ensures
        result is Ok <==> keychain_reference(value.spec_bytes()),
        result matches Err(e) ==> e == PhotoKitKeyError::Integrity,
{
    let bytes = value.as_bytes();
    if bytes.len() == 0 || bytes.len() > 128 {
        return Err(PhotoKitKeyError::Integrity);
    }
    let mut i: usize = 0;
    while i < bytes.len()
        invariant
            i <= bytes@.len(),
            forall|j: int| 0 <= j < i ==> 0x20 <= #[trigger] bytes@[j] <= 0x7e,
        decreases bytes@.len() - i,
    {
        let b = bytes[i];
        if b < 0x20 || b > 0x7e {
            return Err(PhotoKitKeyError::Integrity);
        }
        i = i + 1;
    }
    Ok(())
}

/// How a Security framework status reads as a key failure.
pub open spec fn spec_keychain_error(code: i32) -> PhotoKitKeyError {
    if code == ERR_SEC_ITEM_NOT_FOUND {
        PhotoKitKeyError::NotFound
    } else if code == ERR_SEC_AUTH_FAILED || code == ERR_SEC_INTERACTION_NOT_ALLOWED {
        PhotoKitKeyError::Locked
    } else if code == ERR_SEC_NOT_AVAILABLE {
        PhotoKitKeyError::Unavailable
    } else {
        PhotoKitKeyError::Internal
    }
}

pub fn map_keychain_error(code: i32) -> (error: PhotoKitKeyError)
    ensures
        error == spec_keychain_error(code),
{
    if code == ERR_SEC_ITEM_NOT_FOUND {
        PhotoKitKeyError::NotFound
    } else if code == ERR_SEC_AUTH_FAILED || code == ERR_SEC_INTERACTION_NOT_ALLOWED {
        PhotoKitKeyError::Locked
    } else if code == ERR_SEC_NOT_AVAILABLE {
        PhotoKitKeyError::Unavailable
    } else {
        PhotoKitKeyError::Internal
    }
}

} // verus!
