use wardrobe_platform::photokit_setup::{
    map_coordinator_error, map_key_error, map_native_error, map_platform_error, trigger_name,
    PhotoKitConnectorPortErrorKind, SetupMemory, MAX_BEGIN_REPLAYS, MAX_SETUP_SESSIONS,
    SETUP_SESSION_MILLIS,
};
use wardrobe_platform::photokit_types::{
    PhotoKitCoordinatorError, PhotoKitKeyError, PhotoKitNativeError, PhotoKitReconcileTriggerV1,
};
use wardrobe_platform::platform_error::{IoFailureKind, PlatformError};

fn albums(token: &str) -> Vec<(String, String)> {
    vec![(token.to_owned(), "native-album-private".to_owned())]
}

/// A begun setup at 10 000 ms: its replay and its session, both lasting the
/// setup lifetime.
fn begun(memory: &mut SetupMemory<&'static str>) {
    let expires_at_ms = 10_000 + SETUP_SESSION_MILLIS;
    memory.expire(10_000);
    memory.insert_session("session-1".to_owned(), expires_at_ms, albums("token-1"));
    memory.insert_begin_replay(
        "request-1".to_owned(),
        "envelope-1".to_owned(),
        expires_at_ms,
        "response-1",
    );
}

#[test]
fn setup_replay_is_bounded_and_sessions_expire() {
    let mut memory = SetupMemory::new();
    begun(&mut memory);
    assert_eq!(memory.begin_replay("request-1", "envelope-1"), Ok(Some(&"response-1")));

    let now_ms = 10_000 + SETUP_SESSION_MILLIS + 1;
    memory.expire(now_ms);
    assert_eq!(
        memory.select("session-1", "token-1", now_ms),
        Err(PhotoKitConnectorPortErrorKind::SessionExpired)
    );
    assert_eq!(memory.begin_replay("request-1", "envelope-1"), Ok(None));
}

#[test]
fn configure_consumes_tokens_replays_exactly_and_rejects_changed_envelopes() {
    let mut memory = SetupMemory::new();
    begun(&mut memory);
    assert_eq!(
        memory.begin_replay("request-1", "envelope-2"),
        Err(PhotoKitConnectorPortErrorKind::Conflict)
    );
    assert_eq!(memory.select("session-1", "token-1", 11_000), Ok(()));
    assert_eq!(memory.take("session-1", "token-1"), Ok("native-album-private".to_owned()));
    assert!(memory.token_consumed("token-1"));
    assert_eq!(
        memory.select("session-1", "token-1", 11_000),
        Err(PhotoKitConnectorPortErrorKind::SelectionTokenConsumed)
    );
    assert_eq!(
        memory.take("session-1", "token-1"),
        Err(PhotoKitConnectorPortErrorKind::SessionExpired)
    );
}

#[test]
fn authorization_change_invalidates_setup_without_prompting() {
    let mut memory = SetupMemory::new();
    begun(&mut memory);
    memory.invalidate_sessions();
    assert_eq!(
        memory.select("session-1", "token-1", 11_000),
        Err(PhotoKitConnectorPortErrorKind::SessionExpired)
    );
    assert_eq!(memory.begin_replay("request-1", "envelope-1"), Ok(Some(&"response-1")));
}

#[test]
fn selection_needs_an_offered_token_and_an_open_session() {
    let mut memory: SetupMemory<()> = SetupMemory::new();
    memory.insert_session("s".to_owned(), 500, albums("t"));
    assert_eq!(
        memory.select("s", "other", 100),
        Err(PhotoKitConnectorPortErrorKind::NotFound)
    );
    assert_eq!(
        memory.select("missing", "t", 100),
        Err(PhotoKitConnectorPortErrorKind::SessionExpired)
    );
    assert_eq!(
        memory.select("s", "t", 500),
        Err(PhotoKitConnectorPortErrorKind::SessionExpired)
    );
    assert_eq!(
        memory.select("s", "t", 100),
        Err(PhotoKitConnectorPortErrorKind::SessionExpired)
    );
}

#[test]
fn sessions_and_replays_evict_the_oldest_past_their_bounds() {
    let mut memory: SetupMemory<u32> = SetupMemory::new();
    for index in 0..=MAX_SETUP_SESSIONS {
        memory.insert_session(format!("s{index}"), 1_000, albums(&format!("t{index}")));
    }
    assert_eq!(
        memory.select("s0", "t0", 0),
        Err(PhotoKitConnectorPortErrorKind::SessionExpired)
    );
    assert_eq!(memory.select("s1", "t1", 0), Ok(()));
    assert_eq!(memory.select(&format!("s{MAX_SETUP_SESSIONS}"), &format!("t{MAX_SETUP_SESSIONS}"), 0), Ok(()));

    for index in 0..=MAX_BEGIN_REPLAYS {
        memory.insert_begin_replay(format!("r{index}"), "h".to_owned(), 1_000, index as u32);
    }
    assert_eq!(memory.begin_replay("r0", "h"), Ok(None));
    assert_eq!(memory.begin_replay("r1", "h"), Ok(Some(&1)));
    assert_eq!(
        memory.begin_replay(&format!("r{MAX_BEGIN_REPLAYS}"), "h"),
        Ok(Some(&(MAX_BEGIN_REPLAYS as u32)))
    );
}

#[test]
fn used_tokens_lapse_with_their_session() {
    let mut memory: SetupMemory<()> = SetupMemory::new();
    memory.insert_session("s".to_owned(), 2_000, albums("t"));
    assert!(memory.take("s", "t").is_ok());
    memory.expire(1_999);
    assert!(memory.token_consumed("t"));
    memory.expire(2_000);
    assert!(!memory.token_consumed("t"));
}

#[test]
fn port_errors_map_every_failure() {
    assert_eq!(
        map_platform_error(PlatformError::Conflict("photokit_not_configured")),
        PhotoKitConnectorPortErrorKind::InvalidState
    );
    assert_eq!(
        map_platform_error(PlatformError::Conflict("photokit_stale_fence")),
        PhotoKitConnectorPortErrorKind::Conflict
    );
    assert_eq!(
        map_platform_error(PlatformError::InvalidInput("photokit_scope_too_large")),
        PhotoKitConnectorPortErrorKind::ScopeTooLarge
    );
    assert_eq!(
        map_platform_error(PlatformError::InvalidInput("photokit_observation_ordinal")),
        PhotoKitConnectorPortErrorKind::ScopeTooLarge
    );
    assert_eq!(
        map_platform_error(PlatformError::InvalidInput("other")),
        PhotoKitConnectorPortErrorKind::DataIntegrity
    );
    assert_eq!(
        map_platform_error(PlatformError::Corrupt("x")),
        PhotoKitConnectorPortErrorKind::DataIntegrity
    );
    assert_eq!(
        map_platform_error(PlatformError::Keychain("x")),
        PhotoKitConnectorPortErrorKind::CredentialUnavailable
    );
    assert_eq!(
        map_platform_error(PlatformError::Unsupported("x")),
        PhotoKitConnectorPortErrorKind::Unavailable
    );
    for internal in [
        PlatformError::Io(IoFailureKind::Other),
        PlatformError::Json,
        PlatformError::LeaseLost,
        PlatformError::Sqlite,
    ] {
        assert_eq!(map_platform_error(internal), PhotoKitConnectorPortErrorKind::Internal);
    }
    assert_eq!(
        map_key_error(PhotoKitKeyError::Locked),
        PhotoKitConnectorPortErrorKind::CredentialUnavailable
    );
    assert_eq!(
        map_key_error(PhotoKitKeyError::Integrity),
        PhotoKitConnectorPortErrorKind::DataIntegrity
    );
    assert_eq!(
        map_native_error(PhotoKitNativeError::SinkRejected),
        PhotoKitConnectorPortErrorKind::ScopeTooLarge
    );
    assert_eq!(
        map_native_error(PhotoKitNativeError::Cancelled),
        PhotoKitConnectorPortErrorKind::Unavailable
    );
    assert_eq!(
        map_coordinator_error(PhotoKitCoordinatorError::Native(
            PhotoKitNativeError::ImageValidation
        )),
        PhotoKitConnectorPortErrorKind::DataIntegrity
    );
    assert_eq!(
        map_coordinator_error(PhotoKitCoordinatorError::Key(PhotoKitKeyError::Internal)),
        PhotoKitConnectorPortErrorKind::Internal
    );
    assert_eq!(trigger_name(PhotoKitReconcileTriggerV1::LibraryChange), "library_change");
    assert_eq!(trigger_name(PhotoKitReconcileTriggerV1::Startup), "startup");
}
