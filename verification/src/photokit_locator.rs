use crate::photokit_records::{locator_aad, locator_aad_bytes};
use crate::photokit_types::{PhotoKitRootKey, ProtectedPhotoKitLocator};
use crate::platform_error::{PlatformError, PlatformResult};
use crate::text::bytes_equal;
use chacha20poly1305::aead::{Aead, Payload};
use chacha20poly1305::KeyInit;
use vstd::prelude::*;
use vstd::string::StringSliceAdditionalSpecFns;

verus! {

pub const LOCATOR_KEY_VERSION: i64 = 1;

pub const LOCATOR_AEAD_INFO: &'static str = "locator-aead-v1";

pub const LOCATOR_LOOKUP_INFO: &'static str = "locator-lookup-v1";

pub const LOCATOR_HKDF_SALT: &'static str = "wardrobe-photokit-locator-root-v1";

pub const MAX_LOCATOR_BYTES: usize = 1024;

/// The HMAC-SHA256 tag of `message` under `key`.
pub uninterp spec fn hmac_sha256_tag(key: Seq<u8>, message: Seq<u8>) -> Seq<u8>;

/// What XChaCha20-Poly1305 seals `plaintext` into under `key`, `nonce` and
/// the associated data `aad`.
pub uninterp spec fn xchacha_seal(key: Seq<u8>, nonce: Seq<u8>, aad: Seq<u8>, plaintext: Seq<u8>) -> Option<Seq<u8>>;

/// What XChaCha20-Poly1305 opens `ciphertext` into, or `None` when it does
/// not authenticate.
pub uninterp spec fn xchacha_open(key: Seq<u8>, nonce: Seq<u8>, aad: Seq<u8>, ciphertext: Seq<u8>) -> Option<Seq<u8>>;

/// `hmac::Hmac<sha2::Sha256>`: `new_from_slice`, `update`, `finalize`. HMAC
/// takes a key of any length, so the tag is always there.
#[verifier::external_body]
fn hmac_sha256(key: &[u8], message: &[u8]) -> (tag: Option<[u8; 32]>)
    ensures
        tag is Some,
        tag matches Some(t) ==> t@ == hmac_sha256_tag(key@, message@),
{
    let mut mac = <hmac::Hmac<sha2::Sha256> as hmac::Mac>::new_from_slice(key).ok()?;
    hmac::Mac::update(&mut mac, message);
    Some(hmac::Mac::finalize(mac).into_bytes().into())
}

/// `hmac::Mac::verify_slice` after `new_from_slice` and `update`: whether
/// `tag` is the whole HMAC-SHA256 tag of `message` under `key`.
#[verifier::external_body]
fn hmac_sha256_verify(key: &[u8], message: &[u8], tag: &[u8]) -> (valid: bool)
    ensures
        valid == (tag@ == hmac_sha256_tag(key@, message@)),
{
    match <hmac::Hmac<sha2::Sha256> as hmac::Mac>::new_from_slice(key) {
        Ok(mut mac) => {
            hmac::Mac::update(&mut mac, message);
            hmac::Mac::verify_slice(mac, tag).is_ok()
        },
        Err(_) => false,
    }
}

/// `chacha20poly1305::XChaCha20Poly1305::encrypt` with a `Payload` of the
/// plaintext and associated data. The ciphertext carries a 16-byte tag after
/// the encrypted bytes, and opening it with the same key, nonce and data gives
/// the plaintext back.
#[verifier::external_body]
fn seal(key: &[u8; 32], nonce: &[u8; 24], aad: &[u8], plaintext: &[u8]) -> (sealed: Option<Vec<u8>>)
    ensures
        match sealed {
            Some(c) => {
                &&& xchacha_seal(key@, nonce@, aad@, plaintext@) == Some(c@)
                &&& c@.len() == plaintext@.len() + 16
                &&& xchacha_open(key@, nonce@, aad@, c@) == Some(plaintext@)
            },
            None => xchacha_seal(key@, nonce@, aad@, plaintext@) is None,
        },
{
    let cipher = chacha20poly1305::XChaCha20Poly1305::new(key.into());
    cipher.encrypt(nonce.into(), Payload { msg: plaintext, aad }).ok()
}

/// `chacha20poly1305::XChaCha20Poly1305::decrypt` with a `Payload` of the
/// ciphertext and associated data.
#[verifier::external_body]
fn open(key: &[u8; 32], nonce: &[u8; 24], aad: &[u8], ciphertext: &[u8]) -> (opened: Option<Vec<u8>>)
    ensures
        match opened {
            Some(p) => xchacha_open(key@, nonce@, aad@, ciphertext@) == Some(p@),
            None => xchacha_open(key@, nonce@, aad@, ciphertext@) is None,
        },
{
    let cipher = chacha20poly1305::XChaCha20Poly1305::new(key.into());
    cipher.decrypt(nonce.into(), Payload { msg: ciphertext, aad }).ok()
}

/// A locator key derived from the root key: HKDF-SHA256 with the locator
/// salt, one block of output for `info`.
pub open spec fn hkdf_key(root: Seq<u8>, info: Seq<u8>) -> Seq<u8> {
    hmac_sha256_tag(hmac_sha256_tag(LOCATOR_HKDF_SALT.spec_bytes(), root), info + seq![1u8])
}

fn copy24(bytes: &[u8]) -> (out: [u8; 24])
    requires
        bytes@.len() == 24,
    ensures
        out@ == bytes@,
{
    let mut out = [0u8; 24];
    let mut i: usize = 0;
    while i < 24
        invariant
            i <= 24,
            bytes@.len() == 24,
            forall|j: int| 0 <= j < i ==> out@[j] == bytes@[j],
        decreases 24 - i,
    {
        out[i] = bytes[i];
        i = i + 1;
    }
    assert(out@ =~= bytes@);
    out
}

/// `info` followed by the HKDF block counter 1.
fn with_counter(info: &[u8]) -> (out: Vec<u8>)
    ensures
        out@ == info@ + seq![1u8],
{
    let mut out: Vec<u8> = Vec::new();
    let mut i: usize = 0;
    while i < info.len()
        invariant
            i <= info@.len(),
            out@ == info@.subrange(0, i as int),
        decreases info@.len() - i,
    {
        out.push(info[i]);
        assert(out@ =~= info@.subrange(0, i + 1));
        i = i + 1;
    }
    out.push(1u8);
    assert(out@ =~= info@ + seq![1u8]);
    out
}

/// `zeroize::Zeroize::zeroize` on a 32-byte key: every byte becomes zero.
#[verifier::external_body]
fn wipe_key(key: &mut [u8; 32])
    ensures
        final(key)@ == Seq::new(32, |i: int| 0u8),
{
    zeroize::Zeroize::zeroize(key);
}

/// Derives a locator key from the root key.
pub fn hkdf_expand(root_key: &[u8; 32], info: &[u8]) -> (key: PlatformResult<[u8; 32]>)
    ensures
        key matches Ok(k) && k@ == hkdf_key(root_key@, info@),
{
    let prk = match hmac_sha256(LOCATOR_HKDF_SALT.as_bytes(), root_key) {
        Some(t) => t,
        None => {
            return Err(PlatformError::Corrupt("photokit_locator_key"));
        },
    };
    let block = with_counter(info);
    match hmac_sha256(&prk, block.as_slice()) {
        Some(t) => Ok(t),
        None => Err(PlatformError::Corrupt("photokit_locator_key")),
    }
}

/// The lookup MAC of a locator under the lookup key: it binds the locator
/// to its enrollment and record kind.
pub fn locator_lookup_with_key(key: &[u8; 32], enrollment_epoch: &str, record_kind: &str, plaintext: &[u8]) -> (mac:
    PlatformResult<[u8; 32]>)
    ensures
        mac matches Ok(m) && m@ == hmac_sha256_tag(
            key@,
            locator_aad_bytes(enrollment_epoch.spec_bytes(), record_kind.spec_bytes(), plaintext@),
        ),
{
    let message = lookup_message(enrollment_epoch, record_kind, plaintext);
    match hmac_sha256(key, message.as_slice()) {
        Some(t) => Ok(t),
        None => Err(PlatformError::Corrupt("photokit_locator_key")),
    }
}

/// The bytes a lookup MAC covers: the epoch, the record kind and the
/// locator, a zero byte between each.
fn lookup_message(enrollment_epoch: &str, record_kind: &str, plaintext: &[u8]) -> (message: Vec<u8>)
    ensures
        message@ == locator_aad_bytes(enrollment_epoch.spec_bytes(), record_kind.spec_bytes(), plaintext@),
{
    let mut message = locator_aad(enrollment_epoch, record_kind, "");
    let ghost prefix = message@;
    let mut i: usize = 0;
    while i < plaintext.len()
        invariant
            i <= plaintext@.len(),
            message@ == prefix + plaintext@.subrange(0, i as int),
        decreases plaintext@.len() - i,
    {
        message.push(plaintext[i]);
        assert(message@ =~= prefix + plaintext@.subrange(0, i + 1));
        i = i + 1;
    }
    proof {
        assert("".spec_bytes() =~= Seq::<u8>::empty()) by {
            reveal_strlit("");
        }
        assert(message@ =~= locator_aad_bytes(
            enrollment_epoch.spec_bytes(),
            record_kind.spec_bytes(),
            plaintext@,
        ));
    }
    message
}

/// The lookup MAC of a locator under the root key.
pub fn locator_lookup(root_key: &PhotoKitRootKey, enrollment_epoch: &str, record_kind: &str, plaintext: &[u8]) -> (mac:
    PlatformResult<[u8; 32]>)
    ensures
        mac matches Ok(m) && m@ == hmac_sha256_tag(
            hkdf_key(root_key.key_bytes(), LOCATOR_LOOKUP_INFO.spec_bytes()),
            locator_aad_bytes(enrollment_epoch.spec_bytes(), record_kind.spec_bytes(), plaintext@),
        ),
{
    let mut key = hkdf_expand(root_key.expose(), LOCATOR_LOOKUP_INFO.as_bytes())?;
    let mac = locator_lookup_with_key(&key, enrollment_epoch, record_kind, plaintext);
    wipe_key(&mut key);
    mac
}

/// `getrandom::getrandom` on a buffer of `length` bytes: random bytes, or
/// `None` when the source fails. Nothing is stated of the bytes.
#[verifier::external_body]
pub(crate) fn random_bytes(length: usize) -> (bytes: Option<Vec<u8>>)
    requires
        length <= 1024,
    ensures
        bytes matches Some(b) ==> b@.len() == length,
{
    let mut bytes = vec![0u8; length];
    getrandom::getrandom(&mut bytes).ok().map(|()| bytes)
}

/// The associated data of a locator ciphertext.
pub open spec fn locator_aad_of(enrollment_epoch: &str, record_kind: &str, stable_row_id: &str) -> Seq<u8> {
    locator_aad_bytes(enrollment_epoch.spec_bytes(), record_kind.spec_bytes(), stable_row_id.spec_bytes())
}

/// Encrypts a locator of 1 to 1024 bytes under a fresh random nonce and
/// records its lookup MAC.
pub fn protect_locator(
    root_key: &PhotoKitRootKey,
    enrollment_epoch: &str,
    record_kind: &str,
    stable_row_id: &str,
    plaintext: &[u8],
) -> (protected: PlatformResult<ProtectedPhotoKitLocator>)
    ensures
        !(0 < plaintext@.len() <= MAX_LOCATOR_BYTES) ==> protected == Err::<
            ProtectedPhotoKitLocator,
            PlatformError,
        >(PlatformError::InvalidInput("photokit_locator")),
        match protected {
            Ok(p) => {
                let aead_key = hkdf_key(root_key.key_bytes(), LOCATOR_AEAD_INFO.spec_bytes());
                let aad = locator_aad_of(enrollment_epoch, record_kind, stable_row_id);
                &&& 0 < plaintext@.len() <= MAX_LOCATOR_BYTES
                &&& p.lookup_hmac@ == hmac_sha256_tag(
                    hkdf_key(root_key.key_bytes(), LOCATOR_LOOKUP_INFO.spec_bytes()),
                    locator_aad_bytes(enrollment_epoch.spec_bytes(), record_kind.spec_bytes(), plaintext@),
                )
                &&& xchacha_seal(aead_key, p.nonce@, aad, plaintext@) == Some(p.ciphertext@)
                &&& xchacha_open(aead_key, p.nonce@, aad, p.ciphertext@) == Some(plaintext@)
                &&& p.ciphertext@.len() == plaintext@.len() + 16
            },
            Err(e) => !(0 < plaintext@.len() <= MAX_LOCATOR_BYTES) || e == PlatformError::Keychain(
                "random_unavailable",
            ) || e == PlatformError::Corrupt("photokit_locator_encrypt"),
        },
{
    if plaintext.len() == 0 || plaintext.len() > MAX_LOCATOR_BYTES {
        return Err(PlatformError::InvalidInput("photokit_locator"));
    }
    let mut aead_key = hkdf_expand(root_key.expose(), LOCATOR_AEAD_INFO.as_bytes())?;
    let mut lookup_key = hkdf_expand(root_key.expose(), LOCATOR_LOOKUP_INFO.as_bytes())?;
    let lookup_hmac = locator_lookup_with_key(&lookup_key, enrollment_epoch, record_kind, plaintext)?;
    let nonce = match random_bytes(24) {
        Some(bytes) => copy24(bytes.as_slice()),
        None => {
            return Err(PlatformError::Keychain("random_unavailable"));
        },
    };
    let aad = locator_aad(enrollment_epoch, record_kind, stable_row_id);
    let ciphertext = match seal(&aead_key, &nonce, aad.as_slice(), plaintext) {
        Some(c) => c,
        None => {
            return Err(PlatformError::Corrupt("photokit_locator_encrypt"));
        },
    };
    wipe_key(&mut aead_key);
    wipe_key(&mut lookup_key);
    Ok(ProtectedPhotoKitLocator { lookup_hmac, nonce, ciphertext })
}

/// What decrypting a stored locator gives: the record must have a 32-byte
/// MAC, a 24-byte nonce and a ciphertext longer than its tag; the ciphertext
/// must open, and the MAC must match what it opens to.
pub open spec fn spec_decrypt_locator(
    root: Seq<u8>,
    enrollment_epoch: Seq<u8>,
    record_kind: Seq<u8>,
    stable_row_id: Seq<u8>,
    lookup_hmac: Seq<u8>,
    nonce: Seq<u8>,
    ciphertext: Seq<u8>,
) -> PlatformResult<Seq<u8>> {
    if lookup_hmac.len() != 32 || nonce.len() != 24 || ciphertext.len() < 17 {
        Err(PlatformError::Corrupt("photokit_locator_record"))
    } else {
        match xchacha_open(
            hkdf_key(root, LOCATOR_AEAD_INFO.spec_bytes()),
            nonce,
            locator_aad_bytes(enrollment_epoch, record_kind, stable_row_id),
            ciphertext,
        ) {
            None => Err(PlatformError::Corrupt("photokit_locator_decrypt")),
            Some(plaintext) => if lookup_hmac == hmac_sha256_tag(
                hkdf_key(root, LOCATOR_LOOKUP_INFO.spec_bytes()),
                locator_aad_bytes(enrollment_epoch, record_kind, plaintext),
            ) {
                Ok(plaintext)
            } else {
                Err(PlatformError::Corrupt("photokit_locator_lookup"))
            },
        }
    }
}

/// Decrypts a stored locator and checks its lookup MAC.
pub fn decrypt_locator(
    root_key: &PhotoKitRootKey,
    enrollment_epoch: &str,
    record_kind: &str,
    stable_row_id: &str,
    lookup_hmac: &[u8],
    nonce: &[u8],
    ciphertext: &[u8],
) -> (plaintext: PlatformResult<Vec<u8>>)
    ensures
        match (
            plaintext,
            spec_decrypt_locator(
                root_key.key_bytes(),
                enrollment_epoch.spec_bytes(),
                record_kind.spec_bytes(),
                stable_row_id.spec_bytes(),
                lookup_hmac@,
                nonce@,
                ciphertext@,
            ),
        ) {
            (Ok(p), Ok(q)) => p@ == q,
            (Err(e), Err(f)) => e == f,
            _ => false,
        },
{
    if lookup_hmac.len() != 32 || nonce.len() != 24 || ciphertext.len() < 17 {
        return Err(PlatformError::Corrupt("photokit_locator_record"));
    }
    let mut aead_key = hkdf_expand(root_key.expose(), LOCATOR_AEAD_INFO.as_bytes())?;
    let mut lookup_key = hkdf_expand(root_key.expose(), LOCATOR_LOOKUP_INFO.as_bytes())?;
    let aad = locator_aad(enrollment_epoch, record_kind, stable_row_id);
    let nonce_bytes = copy24(nonce);
    let opened = match open(&aead_key, &nonce_bytes, aad.as_slice(), ciphertext) {
        Some(p) => p,
        None => {
            return Err(PlatformError::Corrupt("photokit_locator_decrypt"));
        },
    };
    let message = lookup_message(enrollment_epoch, record_kind, opened.as_slice());
    if !hmac_sha256_verify(&lookup_key, message.as_slice(), lookup_hmac) {
        return Err(PlatformError::Corrupt("photokit_locator_lookup"));
    }
    wipe_key(&mut aead_key);
    wipe_key(&mut lookup_key);
    Ok(opened)
}

/// A protected locator decrypts to what was protected: what
/// `protect_locator` returns for a plaintext, `decrypt_locator` gives back
/// under the same root key, enrollment, record kind and row.
pub proof fn lemma_locator_round_trip(
    root: Seq<u8>,
    enrollment_epoch: Seq<u8>,
    record_kind: Seq<u8>,
    stable_row_id: Seq<u8>,
    plaintext: Seq<u8>,
    lookup_hmac: Seq<u8>,
    nonce: Seq<u8>,
    ciphertext: Seq<u8>,
)
    requires
        0 < plaintext.len() <= MAX_LOCATOR_BYTES,
        lookup_hmac.len() == 32,
        nonce.len() == 24,
        lookup_hmac == hmac_sha256_tag(
            hkdf_key(root, LOCATOR_LOOKUP_INFO.spec_bytes()),
            locator_aad_bytes(enrollment_epoch, record_kind, plaintext),
        ),
        xchacha_open(
            hkdf_key(root, LOCATOR_AEAD_INFO.spec_bytes()),
            nonce,
            locator_aad_bytes(enrollment_epoch, record_kind, stable_row_id),
            ciphertext,
        ) == Some(plaintext),
        ciphertext.len() == plaintext.len() + 16,
    ensures
        spec_decrypt_locator(
            root,
            enrollment_epoch,
            record_kind,
            stable_row_id,
            lookup_hmac,
            nonce,
            ciphertext,
        ) == Ok::<Seq<u8>, PlatformError>(plaintext),
{
}

} // verus!
