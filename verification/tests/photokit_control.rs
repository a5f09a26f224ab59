use serde_json::Value;
use wardrobe_platform::photokit_control::{decode_control, NativeEvent, TerminalEvent};
use wardrobe_platform::photokit_types::{PhotoKitAuthorizationV1, PhotoKitNativeError};
use wardrobe_platform::photokit_wire::{CommandKind, RequestIdentity};

const OPERATION: [u8; 16] = [
    0x11, 0x11, 0x11, 0x11, 0x11, 0x11, 0x41, 0x11, 0x81, 0x11, 0x11, 0x11, 0x11, 0x11, 0x11, 0x11,
];
const EPOCH: [u8; 16] = [
    0x22, 0x22, 0x22, 0x22, 0x22, 0x22, 0x42, 0x22, 0x82, 0x22, 0x22, 0x22, 0x22, 0x22, 0x22, 0x22,
];

fn identity() -> RequestIdentity {
    RequestIdentity {
        operation_id: OPERATION,
        enrollment_epoch: EPOCH,
        reconciliation_fence: 7,
        generation: 9,
        request_sequence: 11,
    }
}

fn event(name: &str) -> serde_json::Map<String, Value> {
    let mut object = serde_json::Map::new();
    object.insert("protocol_version".to_owned(), Value::from(1));
    object.insert("event".to_owned(), Value::from(name));
    object.insert(
        "operation_id".to_owned(),
        Value::from("11111111-1111-4111-8111-111111111111"),
    );
    object.insert(
        "enrollment_epoch".to_owned(),
        Value::from("22222222-2222-4222-8222-222222222222"),
    );
    object.insert("reconciliation_fence".to_owned(), Value::from(7));
    object.insert("generation".to_owned(), Value::from(9));
    object.insert("sequence".to_owned(), Value::from(11));
    object
}

fn asset_event() -> serde_json::Map<String, Value> {
    let mut object = event("asset");
    object.insert("asset_identifier".to_owned(), Value::from("asset-private-id"));
    object.insert("selection_policy".to_owned(), Value::from("original-primary-v1"));
    object.insert("supported".to_owned(), Value::from(true));
    object.insert(
        "resource_token".to_owned(),
        Value::from("aaaaaaaa-1111-4111-8111-111111111111"),
    );
    object.insert("uti".to_owned(), Value::from("public.heic"));
    object
}

fn bytes(object: &serde_json::Map<String, Value>) -> Vec<u8> {
    serde_json::to_vec(&Value::Object(object.clone())).unwrap()
}

#[test]
fn strict_asset_decoder_accepts_only_tokenized_frozen_policy() {
    let event = decode_control(&bytes(&asset_event()), CommandKind::EnumerateAlbum, &identity())
        .unwrap();
    match event {
        NativeEvent::Asset { primary_resource, .. } => {
            let (token, uti) = primary_resource.unwrap();
            assert_eq!(token, "aaaaaaaa-1111-4111-8111-111111111111");
            assert_eq!(uti, "public.heic");
        }
        _ => panic!("unexpected event"),
    }

    let mut wrong_policy = asset_event();
    wrong_policy.insert("selection_policy".to_owned(), Value::from("original_primary_v1"));
    assert!(decode_control(&bytes(&wrong_policy), CommandKind::EnumerateAlbum, &identity())
        .is_err());

    let mut avif = asset_event();
    avif.insert("uti".to_owned(), Value::from("public.avif"));
    assert!(decode_control(&bytes(&avif), CommandKind::EnumerateAlbum, &identity()).is_err());
}

#[test]
fn strict_control_decoder_rejects_unknown_fields_and_identity_drift() {
    let mut unknown = asset_event();
    unknown.insert("framework_error".to_owned(), Value::from("private"));
    assert!(decode_control(&bytes(&unknown), CommandKind::EnumerateAlbum, &identity()).is_err());

    let mut stale = asset_event();
    stale.insert("generation".to_owned(), Value::from(10));
    assert!(decode_control(&bytes(&stale), CommandKind::EnumerateAlbum, &identity()).is_err());
}

#[test]
fn control_decoder_reads_every_event_kind() {
    let mut authorization = event("authorization");
    authorization.insert("status".to_owned(), Value::from("limited"));
    assert_eq!(
        decode_control(&bytes(&authorization), CommandKind::InspectAuthorization, &identity()),
        Ok(NativeEvent::Authorization(PhotoKitAuthorizationV1::Limited))
    );
    assert_eq!(
        decode_control(&bytes(&authorization), CommandKind::ListAlbums, &identity()),
        Err(PhotoKitNativeError::InvalidResponse)
    );

    let mut album = event("album");
    album.insert("album_identifier".to_owned(), Value::from("native-album"));
    album.insert("label".to_owned(), Value::from("Private Album"));
    assert_eq!(
        decode_control(&bytes(&album), CommandKind::ListAlbums, &identity()),
        Ok(NativeEvent::Album {
            album_locator: "native-album".to_owned(),
            label: "Private Album".to_owned()
        })
    );

    let mut unsupported = asset_event();
    unsupported.remove("resource_token");
    unsupported.remove("uti");
    unsupported.insert("supported".to_owned(), Value::from(false));
    unsupported.insert("reason".to_owned(), Value::from("live_photo"));
    assert_eq!(
        decode_control(&bytes(&unsupported), CommandKind::EnumerateAlbum, &identity()),
        Ok(NativeEvent::Asset { asset_locator: "asset-private-id".to_owned(), primary_resource: None })
    );

    let mut progress = event("resource_progress");
    progress.insert("percent".to_owned(), Value::from(100));
    assert_eq!(
        decode_control(&bytes(&progress), CommandKind::StreamResource, &identity()),
        Ok(NativeEvent::Progress)
    );
    progress.insert("percent".to_owned(), Value::from(101));
    assert!(decode_control(&bytes(&progress), CommandKind::StreamResource, &identity()).is_err());
}

#[test]
fn terminal_messages_carry_exactly_their_counts() {
    let mut assets = event("operation_terminal");
    assets.insert("status".to_owned(), Value::from("completed"));
    assets.insert("asset_count".to_owned(), Value::from(500));
    assert_eq!(
        decode_control(&bytes(&assets), CommandKind::EnumerateAlbum, &identity()),
        Ok(NativeEvent::Terminal(TerminalEvent::Assets { count: 500 }))
    );
    assets.insert("asset_count".to_owned(), Value::from(501));
    assert!(decode_control(&bytes(&assets), CommandKind::EnumerateAlbum, &identity()).is_err());

    let mut resource = event("operation_terminal");
    resource.insert("status".to_owned(), Value::from("completed"));
    resource.insert("bytes".to_owned(), Value::from(10));
    resource.insert("materialization".to_owned(), Value::from("cloud"));
    resource.insert("resource_token".to_owned(), Value::from("token-1"));
    assert_eq!(
        decode_control(&bytes(&resource), CommandKind::StreamResource, &identity()),
        Ok(NativeEvent::Terminal(TerminalEvent::Resource {
            bytes: 10,
            resource_token: "token-1".to_owned()
        }))
    );
    resource.insert("materialization".to_owned(), Value::from("disk"));
    assert!(decode_control(&bytes(&resource), CommandKind::StreamResource, &identity()).is_err());

    let mut failed = event("operation_terminal");
    failed.insert("status".to_owned(), Value::from("failed"));
    failed.insert("reason".to_owned(), Value::from("transfer_failed"));
    assert_eq!(
        decode_control(&bytes(&failed), CommandKind::StreamResource, &identity()),
        Ok(NativeEvent::Terminal(TerminalEvent::Failed("transfer_failed".to_owned())))
    );

    assert!(decode_control(b"[1, 2]", CommandKind::ListAlbums, &identity()).is_err());
    assert!(decode_control(b"not json", CommandKind::ListAlbums, &identity()).is_err());
}
