use crate::expiring_table::{
    bounded_insert, distinct_keys, other_key, unexpired, Expiring, ExpiringTable,
};
use crate::photokit_types::{
    PhotoKitCoordinatorError, PhotoKitKeyError, PhotoKitNativeError, PhotoKitReconcileTriggerV1,
};
use crate::platform_error::PlatformError;
use crate::text::str_equal;
use vstd::prelude::*;

verus! {

/// How long a setup session and a begin replay last.
pub const SETUP_SESSION_MILLIS: i64 = 600000;

pub const MAX_SETUP_SESSIONS: usize = 16;

pub const MAX_BEGIN_REPLAYS: usize = 64;

/// The kinds of failure that the connector port reports.
#[derive(Clone, Copy, Debug, PartialEq, Eq, Structural)]
pub enum PhotoKitConnectorPortErrorKind {
    InvalidState,
    Conflict,
    DataIntegrity,
    ScopeTooLarge,
    CredentialUnavailable,
    Unavailable,
    Internal,
    SelectionTokenConsumed,
    SessionExpired,
    NotFound,
    PermissionDenied,
}

/// A begun setup that may be replayed: the hash of the request envelope and
/// the response it got.
pub struct BeginReplay<R> {
    pub envelope_hash: String,
    pub response: R,
}

/// The albums offered by a setup session, by their selection token.
pub type AlbumsByToken = Vec<(String, String)>;

/// The state of the setup memory, as the contracts see it.
pub struct SetupState<R> {
    pub sessions: Seq<Expiring<AlbumsByToken>>,
    pub replays: Seq<Expiring<BeginReplay<R>>>,
    pub consumed: Seq<Expiring<()>>,
}

/// What the connector remembers between the steps of a setup: open setup
/// sessions, begin requests that may be replayed, and selection tokens that
/// were used.
pub struct SetupMemory<R> {
    sessions: ExpiringTable<AlbumsByToken>,
    begin_replays: ExpiringTable<BeginReplay<R>>,
    consumed_tokens: ExpiringTable<()>,
}

pub open spec fn has_key<T>(entries: Seq<Expiring<T>>, key: Seq<char>) -> bool {
    exists|i: int| 0 <= i < entries.len() && (#[trigger] entries[i]).key@ == key
}

/// The album locator offered under `token`: the first pair with that token.
pub open spec fn album_for(albums: Seq<(String, String)>, token: Seq<char>) -> Option<Seq<char>>
    decreases albums.len(),
{
    if albums.len() == 0 {
        None
    } else if albums[0].0@ == token {
        Some(albums[0].1@)
    } else {
        album_for(albums.drop_first(), token)
    }
}

pub open spec fn setup_state_wf<R>(state: SetupState<R>) -> bool {
    &&& distinct_keys(state.sessions)
    &&& distinct_keys(state.replays)
    &&& distinct_keys(state.consumed)
    &&& state.sessions.len() <= MAX_SETUP_SESSIONS
    &&& state.replays.len() <= MAX_BEGIN_REPLAYS
}

/// The state once everything that lapsed at `now_ms` is dropped.
pub open spec fn spec_expire<R>(state: SetupState<R>, now_ms: i64) -> SetupState<R> {
    SetupState {
        sessions: state.sessions.filter(unexpired(now_ms)),
        replays: state.replays.filter(unexpired(now_ms)),
        consumed: state.consumed.filter(unexpired(now_ms)),
    }
}

/// The checks that a selection passes before PhotoKit is asked anything: the
/// token is unused, its session is open, and the session offered the token.
pub open spec fn spec_select<R>(state: SetupState<R>, session_id: Seq<char>, token: Seq<char>, now_ms: i64) -> (
    Result<(), PhotoKitConnectorPortErrorKind>,
    SetupState<R>,
) {
    if has_key(state.consumed, token) {
        (Err(PhotoKitConnectorPortErrorKind::SelectionTokenConsumed), state)
    } else if !has_key(state.sessions, session_id) {
        (Err(PhotoKitConnectorPortErrorKind::SessionExpired), state)
    } else {
        let i = choose|i: int| 0 <= i < state.sessions.len() && (#[trigger] state.sessions[i]).key@ == session_id;
        let session = state.sessions[i];
        if session.expires_at_ms <= now_ms {
            (
                Err(PhotoKitConnectorPortErrorKind::SessionExpired),
                SetupState { sessions: state.sessions.filter(other_key(session_id)), ..state },
            )
        } else if album_for(session.value@, token) is None {
            (Err(PhotoKitConnectorPortErrorKind::NotFound), state)
        } else {
            (Ok(()), state)
        }
    }
}

/// Taking a selection closes its session, and the token is used from then
/// on, until the session would have lapsed.
pub open spec fn spec_take<R>(state: SetupState<R>, session_id: Seq<char>, token: Seq<char>) -> (
    Result<Seq<char>, PhotoKitConnectorPortErrorKind>,
    SetupState<R>,
) {
    if !has_key(state.sessions, session_id) {
        (Err(PhotoKitConnectorPortErrorKind::SessionExpired), state)
    } else {
        let i = choose|i: int| 0 <= i < state.sessions.len() && (#[trigger] state.sessions[i]).key@ == session_id;
        let session = state.sessions[i];
        let closed = SetupState { sessions: state.sessions.filter(other_key(session_id)), ..state };
        match album_for(session.value@, token) {
            None => (Err(PhotoKitConnectorPortErrorKind::NotFound), closed),
            Some(album) => (Ok(album), closed),
        }
    }
}

proof fn lemma_key_unique<T>(entries: Seq<Expiring<T>>, key: Seq<char>, i: int)
    requires
        distinct_keys(entries),
        0 <= i < entries.len(),
        entries[i].key@ == key,
    ensures
        (choose|j: int| 0 <= j < entries.len() && (#[trigger] entries[j]).key@ == key) == i,
{
}

/// Finds the album offered under `token`.
fn find_album(albums: &AlbumsByToken, token: &str) -> (album: Option<String>)
    ensures
        match album {
            Some(a) => album_for(albums@, token@) == Some(a@),
            None => album_for(albums@, token@) is None,
        },
{
    let mut i: usize = 0;
    assert(albums@.skip(0) =~= albums@);
    while i < albums.len()
        invariant
            i <= albums@.len(),
            album_for(albums@, token@) == album_for(albums@.skip(i as int), token@),
        decreases albums@.len() - i,
    {
        assert(albums@.skip(i as int)[0] == albums@[i as int]);
        if str_equal(albums[i].0.as_str(), token) {
            return Some(albums[i].1.clone());
        }
        assert(albums@.skip(i as int).drop_first() =~= albums@.skip(i + 1));
        i = i + 1;
    }
    None
}

impl<R> SetupMemory<R> {
    pub closed spec fn state(&self) -> SetupState<R> {
        SetupState {
            sessions: self.sessions.entries(),
            replays: self.begin_replays.entries(),
            consumed: self.consumed_tokens.entries(),
        }
    }

    pub open spec fn wf(&self) -> bool {
        setup_state_wf(self.state())
    }

    pub fn new() -> (memory: Self)
        ensures
            memory.wf(),
            memory.state().sessions.len() == 0,
            memory.state().replays.len() == 0,
            memory.state().consumed.len() == 0,
    {
        SetupMemory {
            sessions: ExpiringTable::new(),
            begin_replays: ExpiringTable::new(),
            consumed_tokens: ExpiringTable::new(),
        }
    }

    /// Drops the sessions, replays and used tokens that lapsed at `now_ms`.
    pub fn expire(&mut self, now_ms: i64)
        requires
            old(self).wf(),
        ensures
            final(self).wf(),
            final(self).state() == spec_expire(old(self).state(), now_ms),
    {
        proof {
            self.sessions.entries().lemma_filter_len(unexpired(now_ms));
            self.begin_replays.entries().lemma_filter_len(unexpired(now_ms));
        }
        self.sessions.retain_unexpired(now_ms);
        self.begin_replays.retain_unexpired(now_ms);
        self.consumed_tokens.retain_unexpired(now_ms);
    }

    /// Closes every setup session; replays and used tokens stay.
    pub fn invalidate_sessions(&mut self)
        requires
            old(self).wf(),
        ensures
            final(self).wf(),
            final(self).state().sessions.len() == 0,
            final(self).state().replays == old(self).state().replays,
            final(self).state().consumed == old(self).state().consumed,
    {
        self.sessions.clear();
    }

    /// Opens a session; past the bound the oldest session closes.
    pub fn insert_session(&mut self, id: String, expires_at_ms: i64, albums: AlbumsByToken)
        requires
            old(self).wf(),
        ensures
            final(self).wf(),
            final(self).state().sessions == bounded_insert(
                old(self).state().sessions,
                Expiring { key: id, expires_at_ms, value: albums },
                MAX_SETUP_SESSIONS as int,
            ),
            final(self).state().replays == old(self).state().replays,
            final(self).state().consumed == old(self).state().consumed,
    {
        self.sessions.insert_bounded(Expiring { key: id, expires_at_ms, value: albums }, MAX_SETUP_SESSIONS);
    }

    /// Remembers a begun setup for replay; past the bound the oldest goes.
    pub fn insert_begin_replay(&mut self, request_id: String, envelope_hash: String, expires_at_ms: i64, response: R)
        requires
            old(self).wf(),
        ensures
            final(self).wf(),
            final(self).state().replays == bounded_insert(
                old(self).state().replays,
                Expiring { key: request_id, expires_at_ms, value: BeginReplay { envelope_hash, response } },
                MAX_BEGIN_REPLAYS as int,
            ),
            final(self).state().sessions == old(self).state().sessions,
            final(self).state().consumed == old(self).state().consumed,
    {
        self.begin_replays.insert_bounded(
            Expiring { key: request_id, expires_at_ms, value: BeginReplay { envelope_hash, response } },
            MAX_BEGIN_REPLAYS,
        );
    }

    /// The response of a begun setup with the same request id: `None` when
    /// there is none, `Conflict` when its envelope differs.
    pub fn begin_replay(&self, request_id: &str, envelope_hash: &str) -> (replay: Result<
        Option<&R>,
        PhotoKitConnectorPortErrorKind,
    >)
        ensures
            match replay {
                Ok(None) => !has_key(self.state().replays, request_id@),
                Ok(Some(r)) => exists|i: int|
                    0 <= i < self.state().replays.len() && (#[trigger] self.state().replays[i]).key@
                        == request_id@ && self.state().replays[i].value.envelope_hash@
                        == envelope_hash@ && self.state().replays[i].value.response == *r,
                Err(e) => e == PhotoKitConnectorPortErrorKind::Conflict && exists|i: int|
                    0 <= i < self.state().replays.len() && (#[trigger] self.state().replays[i]).key@
                        == request_id@ && self.state().replays[i].value.envelope_hash@
                        != envelope_hash@,
            },
    {
        match self.begin_replays.get(request_id) {
            None => {
                assert(!has_key(self.state().replays, request_id@));
                Ok(None)
            },
            Some(entry) => {
                proof {
                    let i = choose|i: int|
                        0 <= i < self.begin_replays.entries().len() && self.begin_replays.entries()[i]
                            == *entry && entry.key@ == request_id@;
                    assert(self.state().replays[i] == *entry);
                }
                if str_equal(entry.value.envelope_hash.as_str(), envelope_hash) {
                    Ok(Some(&entry.value.response))
                } else {
                    Err(PhotoKitConnectorPortErrorKind::Conflict)
                }
            },
        }
    }

    /// Whether a selection token was used.
    pub fn token_consumed(&self, token: &str) -> (consumed: bool)
        ensures
            consumed == has_key(self.state().consumed, token@),
    {
        self.consumed_tokens.find(token).is_some()
    }

    /// The checks that a selection passes before PhotoKit is asked anything.
    /// A session found lapsed is closed.
    pub fn select(&mut self, session_id: &str, token: &str, now_ms: i64) -> (result: Result<
        (),
        PhotoKitConnectorPortErrorKind,
    >)
        requires
            old(self).wf(),
        ensures
            final(self).wf(),
            (result, final(self).state()) == spec_select(old(self).state(), session_id@, token@, now_ms),
    {
        let ghost before = self.state();
        if self.consumed_tokens.find(token).is_some() {
            return Err(PhotoKitConnectorPortErrorKind::SelectionTokenConsumed);
        }
        let index = match self.sessions.find(session_id) {
            Some(i) => i,
            None => {
                return Err(PhotoKitConnectorPortErrorKind::SessionExpired);
            },
        };
        proof {
            lemma_key_unique(before.sessions, session_id@, index as int);
        }
        let lapsed = match self.sessions.get(session_id) {
            Some(session) => session.expires_at_ms <= now_ms,
            None => true,
        };
        if lapsed {
            proof {
                before.sessions.lemma_filter_len(other_key(session_id@));
            }
            self.sessions.remove_key(session_id);
            return Err(PhotoKitConnectorPortErrorKind::SessionExpired);
        }
        let offered = match self.sessions.get(session_id) {
            Some(session) => find_album(&session.value, token).is_some(),
            None => false,
        };
        if !offered {
            return Err(PhotoKitConnectorPortErrorKind::NotFound);
        }
        Ok(())
    }

    /// Takes the selected album: closes the session and marks the token used
    /// until the session would have lapsed.
    pub fn take(&mut self, session_id: &str, token: &str) -> (album: Result<
        String,
        PhotoKitConnectorPortErrorKind,
    >)
        requires
            old(self).wf(),
        ensures
            final(self).wf(),
            match album {
                Ok(a) => {
                    &&& spec_take(old(self).state(), session_id@, token@).0 == Ok::<
                        Seq<char>,
                        PhotoKitConnectorPortErrorKind,
                    >(a@)
                    &&& final(self).state().sessions == spec_take(
                        old(self).state(),
                        session_id@,
                        token@,
                    ).1.sessions
                    &&& final(self).state().replays == old(self).state().replays
                    &&& final(self).state().consumed.len() > 0
                    &&& final(self).state().consumed.drop_last() == old(self).state().consumed.filter(
                        other_key(token@),
                    )
                    &&& final(self).state().consumed.last().key@ == token@
                    &&& exists|i: int|
                        0 <= i < old(self).state().sessions.len()
                            && (#[trigger] old(self).state().sessions[i]).key@ == session_id@
                            && final(self).state().consumed.last().expires_at_ms == old(
                            self,
                        ).state().sessions[i].expires_at_ms
                    &&& has_key(final(self).state().consumed, token@)
                },
                Err(e) => (Err::<Seq<char>, PhotoKitConnectorPortErrorKind>(e), final(self).state())
                    == spec_take(old(self).state(), session_id@, token@),
            },
    {
        let ghost before = self.state();
        proof {
            before.sessions.lemma_filter_len(other_key(session_id@));
        }
        let session = match self.sessions.remove_key(session_id) {
            Some(s) => s,
            None => {
                return Err(PhotoKitConnectorPortErrorKind::SessionExpired);
            },
        };
        proof {
            let i = choose|i: int| 0 <= i < before.sessions.len() && before.sessions[i] == session;
            lemma_key_unique(before.sessions, session_id@, i);
        }
        let album = match find_album(&session.value, token) {
            Some(a) => a,
            None => {
                return Err(PhotoKitConnectorPortErrorKind::NotFound);
            },
        };
        let used = Expiring { key: token.to_owned(), expires_at_ms: session.expires_at_ms, value: () };
        self.consumed_tokens.insert(used);
        proof {
            let consumed = self.consumed_tokens.entries();
            assert(consumed[consumed.len() - 1].key@ == token@);
            assert(consumed.drop_last() =~= before.consumed.filter(other_key(token@)));
        }
        Ok(album)
    }
}

/// A selection with a used token is refused as used, whatever its session.
pub proof fn lemma_consumed_token_refused<R>(state: SetupState<R>, session_id: Seq<char>, token: Seq<char>, now_ms: i64)
    requires
        has_key(state.consumed, token),
    ensures
        spec_select(state, session_id, token, now_ms).0 == Err::<(), PhotoKitConnectorPortErrorKind>(
            PhotoKitConnectorPortErrorKind::SelectionTokenConsumed,
        ),
{
}

/// After expiring at `now_ms`, nothing lapsed remains, and everything current
/// does.
pub proof fn lemma_expire_keeps_exactly_current<R>(state: SetupState<R>, now_ms: i64)
    ensures
        forall|i: int|
            0 <= i < spec_expire(state, now_ms).sessions.len() ==> (#[trigger] spec_expire(
                state,
                now_ms,
            ).sessions[i]).expires_at_ms > now_ms,
        forall|i: int|
            0 <= i < spec_expire(state, now_ms).consumed.len() ==> (#[trigger] spec_expire(
                state,
                now_ms,
            ).consumed[i]).expires_at_ms > now_ms,
        forall|e: Expiring<AlbumsByToken>|
            state.sessions.contains(e) && e.expires_at_ms > now_ms ==> #[trigger] spec_expire(
                state,
                now_ms,
            ).sessions.contains(e),
        forall|e: Expiring<()>|
            state.consumed.contains(e) && e.expires_at_ms > now_ms ==> #[trigger] spec_expire(
                state,
                now_ms,
            ).consumed.contains(e),
{
    broadcast use vstd::seq_lib::group_filter_ensures;

    assert forall|i: int|
        0 <= i < spec_expire(state, now_ms).sessions.len() implies (#[trigger] spec_expire(
        state,
        now_ms,
    ).sessions[i]).expires_at_ms > now_ms by {
        state.sessions.lemma_filter_pred(unexpired(now_ms), i);
    }
    assert forall|i: int|
        0 <= i < spec_expire(state, now_ms).consumed.len() implies (#[trigger] spec_expire(
        state,
        now_ms,
    ).consumed[i]).expires_at_ms > now_ms by {
        state.consumed.lemma_filter_pred(unexpired(now_ms), i);
    }
    assert forall|e: Expiring<AlbumsByToken>|
        state.sessions.contains(e) && e.expires_at_ms > now_ms implies #[trigger] spec_expire(
        state,
        now_ms,
    ).sessions.contains(e) by {
        let i = choose|i: int| 0 <= i < state.sessions.len() && state.sessions[i] == e;
        state.sessions.lemma_filter_contains(unexpired(now_ms), i);
    }
    assert forall|e: Expiring<()>|
        state.consumed.contains(e) && e.expires_at_ms > now_ms implies #[trigger] spec_expire(
        state,
        now_ms,
    ).consumed.contains(e) by {
        let i = choose|i: int| 0 <= i < state.consumed.len() && state.consumed[i] == e;
        state.consumed.lemma_filter_contains(unexpired(now_ms), i);
    }
}

/// Opening a session keeps at most the bound of sessions, the new one among
/// them as the newest.
pub proof fn lemma_insert_session_bounded<R>(state: SetupState<R>, session: Expiring<AlbumsByToken>)
    ensures
        bounded_insert(state.sessions, session, MAX_SETUP_SESSIONS as int).len() <= MAX_SETUP_SESSIONS,
        bounded_insert(state.sessions, session, MAX_SETUP_SESSIONS as int).last() == session,
{
}

/// The name under which a reconcile trigger is recorded.
pub open spec fn spec_trigger_name(trigger: PhotoKitReconcileTriggerV1) -> Seq<char> {
    match trigger {
        PhotoKitReconcileTriggerV1::Startup => "startup"@,
        PhotoKitReconcileTriggerV1::User => "user"@,
        PhotoKitReconcileTriggerV1::LibraryChange => "library_change"@,
    }
}

pub fn trigger_name(trigger: PhotoKitReconcileTriggerV1) -> (name: &'static str)
    ensures
        name@ == spec_trigger_name(trigger),
{
    match trigger {
        PhotoKitReconcileTriggerV1::Startup => "startup",
        PhotoKitReconcileTriggerV1::User => "user",
        PhotoKitReconcileTriggerV1::LibraryChange => "library_change",
    }
}

/// How the port reports a platform failure.
pub open spec fn spec_platform_error_kind(error: PlatformError) -> PhotoKitConnectorPortErrorKind {
    match error {
        PlatformError::Conflict(field) => if field@ == "photokit_not_configured"@ {
            PhotoKitConnectorPortErrorKind::InvalidState
        } else {
            PhotoKitConnectorPortErrorKind::Conflict
        },
        PlatformError::Corrupt(_) => PhotoKitConnectorPortErrorKind::DataIntegrity,
        PlatformError::InvalidInput(field) => if field@ == "photokit_scope_too_large"@ || field@
            == "photokit_observation_ordinal"@ {
            PhotoKitConnectorPortErrorKind::ScopeTooLarge
        } else {
            PhotoKitConnectorPortErrorKind::DataIntegrity
        },
        PlatformError::Keychain(_) => PhotoKitConnectorPortErrorKind::CredentialUnavailable,
        PlatformError::Unsupported(_) => PhotoKitConnectorPortErrorKind::Unavailable,
        PlatformError::Io(_) => PhotoKitConnectorPortErrorKind::Internal,
        PlatformError::Json => PhotoKitConnectorPortErrorKind::Internal,
        PlatformError::LeaseLost => PhotoKitConnectorPortErrorKind::Internal,
        PlatformError::Sqlite => PhotoKitConnectorPortErrorKind::Internal,
    }
}

pub fn map_platform_error(error: PlatformError) -> (kind: PhotoKitConnectorPortErrorKind)
    ensures
        kind == spec_platform_error_kind(error),
{
    match error {
        PlatformError::Conflict(field) => {
            if str_equal(field, "photokit_not_configured") {
                PhotoKitConnectorPortErrorKind::InvalidState
            } else {
                PhotoKitConnectorPortErrorKind::Conflict
            }
        },
        PlatformError::Corrupt(_) => PhotoKitConnectorPortErrorKind::DataIntegrity,
        PlatformError::InvalidInput(field) => {
            if str_equal(field, "photokit_scope_too_large") || str_equal(
                field,
                "photokit_observation_ordinal",
            ) {
                PhotoKitConnectorPortErrorKind::ScopeTooLarge
            } else {
                PhotoKitConnectorPortErrorKind::DataIntegrity
            }
        },
        PlatformError::Keychain(_) => PhotoKitConnectorPortErrorKind::CredentialUnavailable,
        PlatformError::Unsupported(_) => PhotoKitConnectorPortErrorKind::Unavailable,
        PlatformError::Io(_) => PhotoKitConnectorPortErrorKind::Internal,
        PlatformError::Json => PhotoKitConnectorPortErrorKind::Internal,
        PlatformError::LeaseLost => PhotoKitConnectorPortErrorKind::Internal,
        PlatformError::Sqlite => PhotoKitConnectorPortErrorKind::Internal,
    }
}

/// How the port reports a keychain failure.
pub open spec fn spec_key_error_kind(error: PhotoKitKeyError) -> PhotoKitConnectorPortErrorKind {
    match error {
        PhotoKitKeyError::NotFound => PhotoKitConnectorPortErrorKind::CredentialUnavailable,
        PhotoKitKeyError::Locked => PhotoKitConnectorPortErrorKind::CredentialUnavailable,
        PhotoKitKeyError::Unavailable => PhotoKitConnectorPortErrorKind::CredentialUnavailable,
        PhotoKitKeyError::Integrity => PhotoKitConnectorPortErrorKind::DataIntegrity,
        PhotoKitKeyError::Internal => PhotoKitConnectorPortErrorKind::Internal,
    }
}

pub fn map_key_error(error: PhotoKitKeyError) -> (kind: PhotoKitConnectorPortErrorKind)
    ensures
        kind == spec_key_error_kind(error),
{
    match error {
        PhotoKitKeyError::NotFound => PhotoKitConnectorPortErrorKind::CredentialUnavailable,
        PhotoKitKeyError::Locked => PhotoKitConnectorPortErrorKind::CredentialUnavailable,
        PhotoKitKeyError::Unavailable => PhotoKitConnectorPortErrorKind::CredentialUnavailable,
        PhotoKitKeyError::Integrity => PhotoKitConnectorPortErrorKind::DataIntegrity,
        PhotoKitKeyError::Internal => PhotoKitConnectorPortErrorKind::Internal,
    }
}

/// How the port reports a native bridge failure.
pub open spec fn spec_native_error_kind(error: PhotoKitNativeError) -> PhotoKitConnectorPortErrorKind {
    match error {
        PhotoKitNativeError::Unavailable => PhotoKitConnectorPortErrorKind::Unavailable,
        PhotoKitNativeError::Cancelled => PhotoKitConnectorPortErrorKind::Unavailable,
        PhotoKitNativeError::InvalidResponse => PhotoKitConnectorPortErrorKind::DataIntegrity,
        PhotoKitNativeError::ImageValidation => PhotoKitConnectorPortErrorKind::DataIntegrity,
        PhotoKitNativeError::SinkRejected => PhotoKitConnectorPortErrorKind::ScopeTooLarge,
    }
}

pub fn map_native_error(error: PhotoKitNativeError) -> (kind: PhotoKitConnectorPortErrorKind)
    ensures
        kind == spec_native_error_kind(error),
{
    match error {
        PhotoKitNativeError::Unavailable => PhotoKitConnectorPortErrorKind::Unavailable,
        PhotoKitNativeError::Cancelled => PhotoKitConnectorPortErrorKind::Unavailable,
        PhotoKitNativeError::InvalidResponse => PhotoKitConnectorPortErrorKind::DataIntegrity,
        PhotoKitNativeError::ImageValidation => PhotoKitConnectorPortErrorKind::DataIntegrity,
        PhotoKitNativeError::SinkRejected => PhotoKitConnectorPortErrorKind::ScopeTooLarge,
    }
}

pub fn map_coordinator_error(error: PhotoKitCoordinatorError) -> (kind: PhotoKitConnectorPortErrorKind)
    ensures
        kind == match error {
            PhotoKitCoordinatorError::Platform(e) => spec_platform_error_kind(e),
            PhotoKitCoordinatorError::Key(e) => spec_key_error_kind(e),
            PhotoKitCoordinatorError::Native(e) => spec_native_error_kind(e),
        },
{
    match error {
        PhotoKitCoordinatorError::Platform(e) => map_platform_error(e),
        PhotoKitCoordinatorError::Key(e) => map_key_error(e),
        PhotoKitCoordinatorError::Native(e) => map_native_error(e),
    }
}

} // verus!
