use wardrobe_platform::digest_text::{append_decimal, hex_lower};
use wardrobe_platform::photokit_locator::{
    decrypt_locator, hkdf_expand, locator_lookup, protect_locator, LOCATOR_AEAD_INFO,
};
use wardrobe_platform::photokit_records::photokit_resource_fingerprint;
use wardrobe_platform::photokit_repository::PhotoKitRepository;
use wardrobe_platform::photokit_types::PhotoKitRootKey;
use wardrobe_platform::platform_error::PlatformError;
use wardrobe_platform::store::Database;

const EPOCH: &str = "22222222-2222-4222-8222-222222222222";

#[test]
fn protected_locators_decrypt_to_what_was_protected() {
    let root = PhotoKitRootKey::from_bytes([3; 32]);
    let protected = protect_locator(&root, EPOCH, "album", EPOCH, b"native-album-private").unwrap();
    assert_eq!(protected.ciphertext.len(), b"native-album-private".len() + 16);
    let plaintext = decrypt_locator(
        &root,
        EPOCH,
        "album",
        EPOCH,
        &protected.lookup_hmac,
        &protected.nonce,
        &protected.ciphertext,
    )
    .unwrap();
    assert_eq!(plaintext, b"native-album-private");
    assert_eq!(
        locator_lookup(&root, EPOCH, "album", b"native-album-private").unwrap(),
        protected.lookup_hmac
    );
}

#[test]
fn locators_are_bound_to_key_row_and_mac() {
    let root = PhotoKitRootKey::from_bytes([3; 32]);
    let other = PhotoKitRootKey::from_bytes([4; 32]);
    let protected = protect_locator(&root, EPOCH, "album", "row-1", b"locator").unwrap();
    assert_eq!(
        decrypt_locator(
            &other,
            EPOCH,
            "album",
            "row-1",
            &protected.lookup_hmac,
            &protected.nonce,
            &protected.ciphertext
        ),
        Err(PlatformError::Corrupt("photokit_locator_decrypt"))
    );
    assert_eq!(
        decrypt_locator(
            &root,
            EPOCH,
            "album",
            "row-2",
            &protected.lookup_hmac,
            &protected.nonce,
            &protected.ciphertext
        ),
        Err(PlatformError::Corrupt("photokit_locator_decrypt"))
    );
    let mut wrong_mac = protected.lookup_hmac;
    wrong_mac[0] ^= 1;
    assert_eq!(
        decrypt_locator(
            &root,
            EPOCH,
            "album",
            "row-1",
            &wrong_mac,
            &protected.nonce,
            &protected.ciphertext
        ),
        Err(PlatformError::Corrupt("photokit_locator_lookup"))
    );
    assert_eq!(
        decrypt_locator(&root, EPOCH, "album", "row-1", &wrong_mac, &protected.nonce, &[0; 16]),
        Err(PlatformError::Corrupt("photokit_locator_record"))
    );
    assert_eq!(
        protect_locator(&root, EPOCH, "album", "row-1", b""),
        Err(PlatformError::InvalidInput("photokit_locator"))
    );
    assert_eq!(
        protect_locator(&root, EPOCH, "album", "row-1", &[b'x'; 1025]),
        Err(PlatformError::InvalidInput("photokit_locator"))
    );
}

#[test]
fn derived_keys_differ_by_purpose_and_root() {
    let aead = hkdf_expand(&[3; 32], LOCATOR_AEAD_INFO.as_bytes()).unwrap();
    let lookup = hkdf_expand(&[3; 32], b"locator-lookup-v1").unwrap();
    let other_root = hkdf_expand(&[4; 32], LOCATOR_AEAD_INFO.as_bytes()).unwrap();
    assert_ne!(aead, lookup);
    assert_ne!(aead, other_root);
    assert_eq!(aead, hkdf_expand(&[3; 32], LOCATOR_AEAD_INFO.as_bytes()).unwrap());
}

#[test]
fn resource_fingerprint_is_the_digest_of_its_text() {
    assert_eq!(
        photokit_resource_fingerprint(&"a".repeat(64), "public.png", 100, 200).unwrap(),
        "f96d5cabec617c15326d6b1a5b0c7d90dc592d6e170af444e7e262aa7916b62d"
    );
    assert_eq!(
        photokit_resource_fingerprint("bad", "public.png", 1, 1),
        Err(PlatformError::InvalidInput("sha256"))
    );
    assert_eq!(
        photokit_resource_fingerprint(&"a".repeat(64), "", 1, 1),
        Err(PlatformError::InvalidInput("photokit_resource_uti"))
    );
}

#[test]
fn hex_and_decimal_text() {
    assert_eq!(hex_lower(&[0x00, 0x0f, 0xa0, 0xff]), "000fa0ff");
    assert_eq!(hex_lower(&[]), "");
    let mut text = String::from("n=");
    append_decimal(&mut text, 0);
    append_decimal(&mut text, 4_294_967_295);
    assert_eq!(text, "n=04294967295");
}

#[test]
fn repository_decrypts_the_stored_album_locator() {
    let path = "file:photokit_album_locator?mode=memory&cache=shared".to_owned();
    let keeper = rusqlite::Connection::open(&path).unwrap();
    keeper
        .execute_batch(
            "CREATE TABLE photokit_locator_records(
                locator_id TEXT, enrollment_epoch TEXT, record_kind TEXT, stable_row_id TEXT,
                lookup_hmac BLOB, nonce BLOB, ciphertext BLOB, finalized INTEGER);",
        )
        .unwrap();
    let root = PhotoKitRootKey::from_bytes([9; 32]);
    let protected = protect_locator(&root, EPOCH, "album", EPOCH, "Album Ø".as_bytes()).unwrap();
    let repository = PhotoKitRepository::new(Database::new(path));
    assert_eq!(
        repository.decrypt_album_locator(EPOCH, &root),
        Err(PlatformError::Corrupt("photokit_album_locator_missing"))
    );
    keeper
        .execute(
            "INSERT INTO photokit_locator_records VALUES ('l1', ?1, 'album', ?1, ?2, ?3, ?4, 1)",
            (
                EPOCH,
                protected.lookup_hmac.to_vec(),
                protected.nonce.to_vec(),
                protected.ciphertext.clone(),
            ),
        )
        .unwrap();
    assert_eq!(repository.decrypt_album_locator(EPOCH, &root), Ok("Album Ø".to_owned()));
    let stranger = PhotoKitRootKey::from_bytes([8; 32]);
    assert_eq!(
        repository.decrypt_album_locator(EPOCH, &stranger),
        Err(PlatformError::Corrupt("photokit_locator_decrypt"))
    );
}
