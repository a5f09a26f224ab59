use crate::photokit_records::authorization_of_name;
use crate::photokit_types::{
    PhotoKitAuthorizationV1, PhotoKitNativeError, PHOTOKIT_MAX_ALBUMS, PHOTOKIT_MAX_ASSETS,
    PHOTOKIT_MAX_RESOURCE_BYTES, PHOTOKIT_SELECTION_POLICY_REVISION,
};
use crate::photokit_wire::{
    bounded_text, is_native_reason, is_supported_uti, resource_token_ok, supported_uti,
    validate_bounded_text, validate_reason, validate_resource_token, CommandKind,
    RequestIdentity,
};
use crate::text::str_equal;
use crate::uuid_text::{hyphenated_text, uuid_hyphenated};
use vstd::prelude::*;
use vstd::string::StringSliceAdditionalSpecFns;
use vstd::utf8::encode_utf8;

verus! {

/// A member value of a control message, by its JSON kind: text, a number
/// (with its value when it is an unsigned integer), a boolean, or anything
/// else.
#[derive(Clone, Debug)]
pub enum JsonScalar {
    Str(String),
    Number(Option<u64>),
    Bool(bool),
    Other,
}

/// A member value as the contracts see it.
pub enum JsonScalarView {
    Str(Seq<char>),
    Number(Option<u64>),
    Bool(bool),
    Other,
}

pub open spec fn scalar_view(value: JsonScalar) -> JsonScalarView {
    match value {
        JsonScalar::Str(s) => JsonScalarView::Str(s@),
        JsonScalar::Number(n) => JsonScalarView::Number(n),
        JsonScalar::Bool(b) => JsonScalarView::Bool(b),
        JsonScalar::Other => JsonScalarView::Other,
    }
}

pub open spec fn members_view(members: Seq<(String, JsonScalar)>) -> Seq<(Seq<char>, JsonScalarView)> {
    members.map_values(|m: (String, JsonScalar)| (m.0@, scalar_view(m.1)))
}

/// The members of the JSON object that `serde_json` reads from `bytes`, or
/// `None` when they are no JSON object.
pub uninterp spec fn json_object_members(bytes: Seq<u8>) -> Option<Seq<(Seq<char>, JsonScalarView)>>;

/// `serde_json::from_slice` into a `serde_json::Value`: when it is an object,
/// its members, each value kept by its kind; `None` for anything else. The
/// keys of a `serde_json::Map` are distinct.
#[verifier::external_body]
fn parse_json_object(bytes: &[u8]) -> (members: Option<Vec<(String, JsonScalar)>>)
    ensures
        match members {
            Some(m) => json_object_members(bytes@) == Some(members_view(m@)) && distinct_member_keys(
                members_view(m@),
            ),
            None => json_object_members(bytes@) is None,
        },
{
    match serde_json::from_slice::<serde_json::Value>(bytes).ok()? {
        serde_json::Value::Object(map) => Some(map.into_iter().map(|(key, value)| (key, match value {
            serde_json::Value::String(s) => JsonScalar::Str(s),
            serde_json::Value::Number(n) => JsonScalar::Number(n.as_u64()),
            serde_json::Value::Bool(b) => JsonScalar::Bool(b),
            _ => JsonScalar::Other,
        })).collect()),
        _ => None,
    }
}

pub open spec fn distinct_member_keys(m: Seq<(Seq<char>, JsonScalarView)>) -> bool {
    forall|i: int, j: int| 0 <= i < j < m.len() ==> (#[trigger] m[i]).0 != (#[trigger] m[j]).0
}

/// An event reported by the bridge.
#[derive(Clone, Debug, PartialEq, Eq)]
pub enum NativeEvent {
    Authorization(PhotoKitAuthorizationV1),
    Album { album_locator: String, label: String },
    Asset { asset_locator: String, primary_resource: Option<(String, String)> },
    Binary(Vec<u8>),
    Progress,
    Terminal(TerminalEvent),
}

/// How a bridge request ended.
#[derive(Clone, Debug, PartialEq, Eq)]
pub enum TerminalEvent {
    Completed,
    Albums { count: usize, truncated: bool },
    Assets { count: usize },
    Resource { bytes: u64, resource_token: String },
    Failed(String),
}

pub enum TerminalView {
    Completed,
    Albums { count: usize, truncated: bool },
    Assets { count: usize },
    Resource { bytes: u64, resource_token: Seq<char> },
    Failed(Seq<char>),
}

pub enum EventView {
    Authorization(PhotoKitAuthorizationV1),
    Album { album_locator: Seq<char>, label: Seq<char> },
    Asset { asset_locator: Seq<char>, primary_resource: Option<(Seq<char>, Seq<char>)> },
    Progress,
    Terminal(TerminalView),
}

pub open spec fn terminal_view(t: TerminalEvent) -> TerminalView {
    match t {
        TerminalEvent::Completed => TerminalView::Completed,
        TerminalEvent::Albums { count, truncated } => TerminalView::Albums { count, truncated },
        TerminalEvent::Assets { count } => TerminalView::Assets { count },
        TerminalEvent::Resource { bytes, resource_token } => TerminalView::Resource {
            bytes,
            resource_token: resource_token@,
        },
        TerminalEvent::Failed(reason) => TerminalView::Failed(reason@),
    }
}

/// The view of a decoded control event; a binary payload never comes from a
/// control message.
pub open spec fn event_view(e: NativeEvent) -> Option<EventView> {
    match e {
        NativeEvent::Authorization(a) => Some(EventView::Authorization(a)),
        NativeEvent::Album { album_locator, label } => Some(
            EventView::Album { album_locator: album_locator@, label: label@ },
        ),
        NativeEvent::Asset { asset_locator, primary_resource } => Some(
            EventView::Asset {
                asset_locator: asset_locator@,
                primary_resource: match primary_resource {
                    Some((token, uti)) => Some((token@, uti@)),
                    None => None,
                },
            },
        ),
        NativeEvent::Binary(_) => None,
        NativeEvent::Progress => Some(EventView::Progress),
        NativeEvent::Terminal(t) => Some(EventView::Terminal(terminal_view(t))),
    }
}

/// The value of the first member named `key`.
pub open spec fn member_of(m: Seq<(Seq<char>, JsonScalarView)>, key: Seq<char>) -> Option<JsonScalarView>
    decreases m.len(),
{
    if m.len() == 0 {
        None
    } else if m[0].0 == key {
        Some(m[0].1)
    } else {
        member_of(m.drop_first(), key)
    }
}

/// A text member of at most `maximum` bytes, without a NUL byte.
pub open spec fn text_member(m: Seq<(Seq<char>, JsonScalarView)>, key: Seq<char>, maximum: int) -> Option<Seq<char>> {
    match member_of(m, key) {
        Some(JsonScalarView::Str(s)) => if bounded_text(encode_utf8(s), maximum) {
            Some(s)
        } else {
            None
        },
        _ => None,
    }
}

pub open spec fn u64_member(m: Seq<(Seq<char>, JsonScalarView)>, key: Seq<char>) -> Option<u64> {
    match member_of(m, key) {
        Some(JsonScalarView::Number(Some(v))) => Some(v),
        _ => None,
    }
}

pub open spec fn bool_member(m: Seq<(Seq<char>, JsonScalarView)>, key: Seq<char>) -> Option<bool> {
    match member_of(m, key) {
        Some(JsonScalarView::Bool(b)) => Some(b),
        _ => None,
    }
}

/// The member names every control message carries.
pub open spec fn is_identity_key(key: Seq<char>) -> bool {
    key == "protocol_version"@ || key == "event"@ || key == "operation_id"@ || key
        == "enrollment_epoch"@ || key == "reconciliation_fence"@ || key == "generation"@ || key
        == "sequence"@
}

/// The message has exactly the identity members and `fields`.
pub open spec fn exact_members(m: Seq<(Seq<char>, JsonScalarView)>, fields: Seq<Seq<char>>) -> bool {
    &&& forall|i: int|
        0 <= i < m.len() ==> is_identity_key(#[trigger] m[i].0) || fields.contains(m[i].0)
    &&& forall|key: Seq<char>|
        #![trigger is_identity_key(key)]
        #![trigger fields.contains(key)]
        (is_identity_key(key) || fields.contains(key)) ==> exists|i: int|
            0 <= i < m.len() && (#[trigger] m[i]).0 == key
}

/// The message belongs to the request: protocol 1, and its operation,
/// enrollment, fence, generation and sequence.
pub open spec fn identity_matches(m: Seq<(Seq<char>, JsonScalarView)>, identity: RequestIdentity) -> bool {
    &&& u64_member(m, "protocol_version"@) == Some(1u64)
    &&& text_member(m, "operation_id"@, 36) == Some(uuid_hyphenated(identity.operation_id@))
    &&& text_member(m, "enrollment_epoch"@, 36) == Some(uuid_hyphenated(identity.enrollment_epoch@))
    &&& u64_member(m, "reconciliation_fence"@) == Some(identity.reconciliation_fence)
    &&& u64_member(m, "generation"@) == Some(identity.generation)
    &&& u64_member(m, "sequence"@) == Some(identity.request_sequence)
}

/// The terminal event that a well-formed `operation_terminal` message
/// reports for a command of `kind`.
pub open spec fn spec_terminal(m: Seq<(Seq<char>, JsonScalarView)>, kind: CommandKind) -> Option<TerminalView> {
    match text_member(m, "status"@, 16) {
        None => None,
        Some(status) => if status == "failed"@ {
            match text_member(m, "reason"@, 64) {
                Some(reason) => if exact_members(m, seq!["status"@, "reason"@]) && is_native_reason(
                    reason,
                ) {
                    Some(TerminalView::Failed(reason))
                } else {
                    None
                },
                None => None,
            }
        } else if status != "completed"@ {
            None
        } else {
            match kind {
                CommandKind::InspectAuthorization | CommandKind::RequestAuthorization => if exact_members(
                    m,
                    seq!["status"@],
                ) {
                    Some(TerminalView::Completed)
                } else {
                    None
                },
                CommandKind::ListAlbums => match (
                    u64_member(m, "album_count"@),
                    bool_member(m, "truncated"@),
                ) {
                    (Some(count), Some(truncated)) => if exact_members(
                        m,
                        seq!["status"@, "album_count"@, "truncated"@],
                    ) && count <= PHOTOKIT_MAX_ALBUMS {
                        Some(TerminalView::Albums { count: count as usize, truncated })
                    } else {
                        None
                    },
                    _ => None,
                },
                CommandKind::EnumerateAlbum => match u64_member(m, "asset_count"@) {
                    Some(count) => if exact_members(m, seq!["status"@, "asset_count"@]) && count
                        <= PHOTOKIT_MAX_ASSETS {
                        Some(TerminalView::Assets { count: count as usize })
                    } else {
                        None
                    },
                    None => None,
                },
                CommandKind::StreamResource => match (
                    u64_member(m, "bytes"@),
                    text_member(m, "materialization"@, 16),
                    text_member(m, "resource_token"@, 128),
                ) {
                    (Some(bytes), Some(materialization), Some(token)) => if exact_members(
                        m,
                        seq!["status"@, "bytes"@, "materialization"@, "resource_token"@],
                    ) && 0 < bytes <= PHOTOKIT_MAX_RESOURCE_BYTES && (materialization == "local"@
                        || materialization == "cloud"@) && resource_token_ok(encode_utf8(token)) {
                        Some(TerminalView::Resource { bytes, resource_token: token })
                    } else {
                        None
                    },
                    _ => None,
                },
            }
        }
    }
}

/// The event that a well-formed control message for a command of `kind`
/// reports; `None` for anything else.
pub open spec fn spec_control_event(m: Seq<(Seq<char>, JsonScalarView)>, kind: CommandKind, identity: RequestIdentity) -> Option<EventView> {
    if !identity_matches(m, identity) {
        None
    } else {
        match text_member(m, "event"@, 64) {
            None => None,
            Some(event) => if event == "authorization"@ {
                match text_member(m, "status"@, 32) {
                    Some(status) => match authorization_of_name(status) {
                        Some(a) => if exact_members(m, seq!["status"@]) && (kind
                            == CommandKind::InspectAuthorization || kind
                            == CommandKind::RequestAuthorization) {
                            Some(EventView::Authorization(a))
                        } else {
                            None
                        },
                        None => None,
                    },
                    None => None,
                }
            } else if event == "album"@ {
                match (text_member(m, "album_identifier"@, 512), text_member(m, "label"@, 512)) {
                    (Some(album), Some(label)) => if exact_members(
                        m,
                        seq!["album_identifier"@, "label"@],
                    ) && kind == CommandKind::ListAlbums {
                        Some(EventView::Album { album_locator: album, label })
                    } else {
                        None
                    },
                    _ => None,
                }
            } else if event == "asset"@ {
                match (
                    bool_member(m, "supported"@),
                    text_member(m, "asset_identifier"@, 512),
                    text_member(m, "selection_policy"@, 64),
                ) {
                    (Some(supported), Some(asset), Some(policy)) => if kind
                        != CommandKind::EnumerateAlbum || policy
                        != PHOTOKIT_SELECTION_POLICY_REVISION@ {
                        None
                    } else if supported {
                        match (text_member(m, "resource_token"@, 128), text_member(m, "uti"@, 128)) {
                            (Some(token), Some(uti)) => if exact_members(
                                m,
                                seq![
                                    "asset_identifier"@,
                                    "selection_policy"@,
                                    "supported"@,
                                    "resource_token"@,
                                    "uti"@,
                                ],
                            ) && resource_token_ok(encode_utf8(token)) && is_supported_uti(uti) {
                                Some(
                                    EventView::Asset {
                                        asset_locator: asset,
                                        primary_resource: Some((token, uti)),
                                    },
                                )
                            } else {
                                None
                            },
                            _ => None,
                        }
                    } else {
                        match text_member(m, "reason"@, 64) {
                            Some(reason) => if exact_members(
                                m,
                                seq![
                                    "asset_identifier"@,
                                    "selection_policy"@,
                                    "supported"@,
                                    "reason"@,
                                ],
                            ) && is_native_reason(reason) {
                                Some(EventView::Asset { asset_locator: asset, primary_resource: None })
                            } else {
                                None
                            },
                            None => None,
                        }
                    },
                    _ => None,
                }
            } else if event == "resource_progress"@ {
                match u64_member(m, "percent"@) {
                    Some(percent) => if exact_members(m, seq!["percent"@]) && kind
                        == CommandKind::StreamResource && percent <= 100 {
                        Some(EventView::Progress)
                    } else {
                        None
                    },
                    None => None,
                }
            } else if event == "operation_terminal"@ {
                match spec_terminal(m, kind) {
                    Some(t) => Some(EventView::Terminal(t)),
                    None => None,
                }
            } else {
                None
            },
        }
    }
}

fn member<'a>(m: &'a Vec<(String, JsonScalar)>, key: &str) -> (value: Option<&'a JsonScalar>)
    ensures
        match value {
            Some(v) => member_of(members_view(m@), key@) == Some(scalar_view(*v)),
            None => member_of(members_view(m@), key@) is None,
        },
{
    let ghost mv = members_view(m@);
    let mut i: usize = 0;
    assert(mv.skip(0) =~= mv);
    while i < m.len()
        invariant
            i <= m@.len(),
            mv == members_view(m@),
            member_of(mv, key@) == member_of(mv.skip(i as int), key@),
        decreases m@.len() - i,
    {
        assert(mv.skip(i as int)[0] == mv[i as int]);
        if str_equal(m[i].0.as_str(), key) {
            return Some(&m[i].1);
        }
        assert(mv.skip(i as int).drop_first() =~= mv.skip(i + 1));
        i = i + 1;
    }
    None
}

fn text_of<'a>(m: &'a Vec<(String, JsonScalar)>, key: &str, maximum: usize) -> (value: Result<
    &'a str,
    PhotoKitNativeError,
>)
    ensures
        match value {
            Ok(s) => text_member(members_view(m@), key@, maximum as int) == Some(s@),
            Err(e) => text_member(members_view(m@), key@, maximum as int) is None && e
                == PhotoKitNativeError::InvalidResponse,
        },
{
    match member(m, key) {
        Some(JsonScalar::Str(s)) => {
            validate_bounded_text(s.as_str(), maximum)?;
            Ok(s.as_str())
        },
        _ => Err(PhotoKitNativeError::InvalidResponse),
    }
}

fn u64_of(m: &Vec<(String, JsonScalar)>, key: &str) -> (value: Option<u64>)
    ensures
        value == u64_member(members_view(m@), key@),
{
    match member(m, key) {
        Some(JsonScalar::Number(Some(v))) => Some(*v),
        _ => None,
    }
}

fn bool_of(m: &Vec<(String, JsonScalar)>, key: &str) -> (value: Option<bool>)
    ensures
        value == bool_member(members_view(m@), key@),
{
    match member(m, key) {
        Some(JsonScalar::Bool(b)) => Some(*b),
        _ => None,
    }
}

fn identity_key(key: &str) -> (is_key: bool)
    ensures
        is_key == is_identity_key(key@),
{
    str_equal(key, "protocol_version") || str_equal(key, "event") || str_equal(key, "operation_id")
        || str_equal(key, "enrollment_epoch") || str_equal(key, "reconciliation_fence") || str_equal(
        key,
        "generation",
    ) || str_equal(key, "sequence")
}

fn listed(fields: &[&'static str], key: &str) -> (found: bool)
    ensures
        found == fields@.map_values(|f: &'static str| f@).contains(key@),
{
    let ghost names = fields@.map_values(|f: &'static str| f@);
    let mut i: usize = 0;
    while i < fields.len()
        invariant
            i <= fields@.len(),
            names == fields@.map_values(|f: &'static str| f@),
            forall|j: int| 0 <= j < i ==> names[j] != key@,
        decreases fields@.len() - i,
    {
        if str_equal(fields[i], key) {
            assert(names[i as int] == key@);
            return true;
        }
        i = i + 1;
    }
    false
}

fn has_member(m: &Vec<(String, JsonScalar)>, key: &str) -> (found: bool)
    ensures
        found == exists|i: int| 0 <= i < m@.len() && (#[trigger] members_view(m@)[i]).0 == key@,
{
    let mut i: usize = 0;
    while i < m.len()
        invariant
            i <= m@.len(),
            forall|j: int| 0 <= j < i ==> (#[trigger] members_view(m@)[j]).0 != key@,
        decreases m@.len() - i,
    {
        if str_equal(m[i].0.as_str(), key) {
            assert(members_view(m@)[i as int].0 == key@);
            return true;
        }
        i = i + 1;
    }
    false
}

/// Whether the message has exactly the identity members and `fields`.
#[verifier::loop_isolation(false)]
fn exact_keys(m: &Vec<(String, JsonScalar)>, fields: &[&'static str]) -> (result: Result<
    (),
    PhotoKitNativeError,
>)
    ensures
        result is Ok <==> exact_members(members_view(m@), fields@.map_values(|f: &'static str| f@)),
        result matches Err(e) ==> e == PhotoKitNativeError::InvalidResponse,
{
    let ghost mv = members_view(m@);
    let ghost names = fields@.map_values(|f: &'static str| f@);
    let mut i: usize = 0;
    while i < m.len()
        invariant
            i <= m@.len(),
            mv == members_view(m@),
            names == fields@.map_values(|f: &'static str| f@),
            forall|j: int| 0 <= j < i ==> is_identity_key(#[trigger] mv[j].0) || names.contains(mv[j].0),
        decreases m@.len() - i,
    {
        let key = m[i].0.as_str();
        if !identity_key(key) && !listed(fields, key) {
            assert(mv[i as int].0 == key@);
            assert(!(is_identity_key(mv[i as int].0) || names.contains(mv[i as int].0)));
            return Err(PhotoKitNativeError::InvalidResponse);
        }
        i = i + 1;
    }
    let identity_keys: [&'static str; 7] = [
        "protocol_version",
        "event",
        "operation_id",
        "enrollment_epoch",
        "reconciliation_fence",
        "generation",
        "sequence",
    ];
    let mut k: usize = 0;
    while k < 7
        invariant
            k <= 7,
            mv == members_view(m@),
            identity_keys@.len() == 7,
            forall|j: int| 0 <= j < k ==> exists|i: int| 0 <= i < m@.len() && (#[trigger] mv[i]).0 == (
                #[trigger] identity_keys@[j])@,
        decreases 7 - k,
    {
        if !has_member(m, identity_keys[k]) {
            proof {
                let key = identity_keys@[k as int]@;
                assert(is_identity_key(key)) by {
                    if k == 0 {
                        assert(identity_keys@[0] == "protocol_version");
                    } else if k == 1 {
                        assert(identity_keys@[1] == "event");
                    } else if k == 2 {
                        assert(identity_keys@[2] == "operation_id");
                    } else if k == 3 {
                        assert(identity_keys@[3] == "enrollment_epoch");
                    } else if k == 4 {
                        assert(identity_keys@[4] == "reconciliation_fence");
                    } else if k == 5 {
                        assert(identity_keys@[5] == "generation");
                    } else {
                        assert(identity_keys@[6] == "sequence");
                    }
                }
                assert(!exists|i: int| 0 <= i < m@.len() && (#[trigger] mv[i]).0 == key);
            }
            return Err(PhotoKitNativeError::InvalidResponse);
        }
        k = k + 1;
    }
    let mut f: usize = 0;
    while f < fields.len()
        invariant
            f <= fields@.len(),
            mv == members_view(m@),
            names == fields@.map_values(|x: &'static str| x@),
            forall|j: int| 0 <= j < f ==> exists|i: int| 0 <= i < m@.len() && (#[trigger] mv[i]).0 == (
                #[trigger] names[j]),
        decreases fields@.len() - f,
    {
        if !has_member(m, fields[f]) {
            proof {
                let key = names[f as int];
                assert(key == fields@[f as int]@);
                assert(names.contains(key));
                assert(!exists|i: int| 0 <= i < m@.len() && (#[trigger] mv[i]).0 == key);
                assert(!exact_members(mv, names)) by {
                    if exact_members(mv, names) {
                        assert(is_identity_key(key) || names.contains(key));
                        assert(exists|i: int| 0 <= i < mv.len() && (#[trigger] mv[i]).0 == key);
                    }
                }
            }
            return Err(PhotoKitNativeError::InvalidResponse);
        }
        f = f + 1;
    }
    proof {
        reveal_strlit("protocol_version");
        reveal_strlit("event");
        reveal_strlit("operation_id");
        reveal_strlit("enrollment_epoch");
        reveal_strlit("reconciliation_fence");
        reveal_strlit("generation");
        reveal_strlit("sequence");
        assert forall|key: Seq<char>| (is_identity_key(key) || names.contains(key)) implies exists|i: int|
            0 <= i < m@.len() && (#[trigger] mv[i]).0 == key by {
            if names.contains(key) {
                let j = choose|j: int| 0 <= j < names.len() && names[j] == key;
                assert(exists|i: int| 0 <= i < m@.len() && (#[trigger] mv[i]).0 == names[j]);
            } else if key == "protocol_version"@ {
                assert(identity_keys@[0]@ == key);
            } else if key == "event"@ {
                assert(identity_keys@[1]@ == key);
            } else if key == "operation_id"@ {
                assert(identity_keys@[2]@ == key);
            } else if key == "enrollment_epoch"@ {
                assert(identity_keys@[3]@ == key);
            } else if key == "reconciliation_fence"@ {
                assert(identity_keys@[4]@ == key);
            } else if key == "generation"@ {
                assert(identity_keys@[5]@ == key);
            } else {
                assert(identity_keys@[6]@ == key);
            }
        }
    }
    Ok(())
}

fn u64_at_most(m: &Vec<(String, JsonScalar)>, key: &str, maximum: u64) -> (value: Result<
    u64,
    PhotoKitNativeError,
>)
    ensures
        match value {
            Ok(v) => u64_member(members_view(m@), key@) == Some(v) && v <= maximum,
            Err(e) => !(u64_member(members_view(m@), key@) matches Some(v) && v <= maximum) && e
                == PhotoKitNativeError::InvalidResponse,
        },
{
    match u64_of(m, key) {
        Some(v) => {
            if v <= maximum {
                Ok(v)
            } else {
                Err(PhotoKitNativeError::InvalidResponse)
            }
        },
        None => Err(PhotoKitNativeError::InvalidResponse),
    }
}

/// The terminal event of an `operation_terminal` message for a command of
/// `kind`.
pub fn decode_terminal(m: &Vec<(String, JsonScalar)>, kind: CommandKind) -> (terminal: Result<
    TerminalEvent,
    PhotoKitNativeError,
>)
    ensures
        match terminal {
            Ok(t) => spec_terminal(members_view(m@), kind) == Some(terminal_view(t)),
            Err(e) => spec_terminal(members_view(m@), kind) is None && e
                == PhotoKitNativeError::InvalidResponse,
        },
{
    let status = text_of(m, "status", 16)?;
    if str_equal(status, "failed") {
        let fields: [&'static str; 2] = ["status", "reason"];
        assert(fields@.map_values(|f: &'static str| f@) =~= seq!["status"@, "reason"@]);
        exact_keys(m, fields.as_slice())?;
        let reason = text_of(m, "reason", 64)?;
        validate_reason(reason)?;
        return Ok(TerminalEvent::Failed(reason.to_owned()));
    }
    if !str_equal(status, "completed") {
        return Err(PhotoKitNativeError::InvalidResponse);
    }
    match kind {
        CommandKind::InspectAuthorization | CommandKind::RequestAuthorization => {
            let fields: [&'static str; 1] = ["status"];
            assert(fields@.map_values(|f: &'static str| f@) =~= seq!["status"@]);
            exact_keys(m, fields.as_slice())?;
            Ok(TerminalEvent::Completed)
        },
        CommandKind::ListAlbums => {
            let fields: [&'static str; 3] = ["status", "album_count", "truncated"];
            assert(fields@.map_values(|f: &'static str| f@) =~= seq![
                "status"@,
                "album_count"@,
                "truncated"@,
            ]);
            exact_keys(m, fields.as_slice())?;
            let count = u64_at_most(m, "album_count", PHOTOKIT_MAX_ALBUMS as u64)?;
            let truncated = match bool_of(m, "truncated") {
                Some(t) => t,
                None => {
                    return Err(PhotoKitNativeError::InvalidResponse);
                },
            };
            Ok(TerminalEvent::Albums { count: count as usize, truncated })
        },
        CommandKind::EnumerateAlbum => {
            let fields: [&'static str; 2] = ["status", "asset_count"];
            assert(fields@.map_values(|f: &'static str| f@) =~= seq!["status"@, "asset_count"@]);
            exact_keys(m, fields.as_slice())?;
            let count = u64_at_most(m, "asset_count", PHOTOKIT_MAX_ASSETS as u64)?;
            Ok(TerminalEvent::Assets { count: count as usize })
        },
        CommandKind::StreamResource => {
            let fields: [&'static str; 4] = ["status", "bytes", "materialization", "resource_token"];
            assert(fields@.map_values(|f: &'static str| f@) =~= seq![
                "status"@,
                "bytes"@,
                "materialization"@,
                "resource_token"@,
            ]);
            exact_keys(m, fields.as_slice())?;
            let bytes = u64_at_most(m, "bytes", PHOTOKIT_MAX_RESOURCE_BYTES)?;
            if bytes == 0 {
                return Err(PhotoKitNativeError::InvalidResponse);
            }
            let materialization = text_of(m, "materialization", 16)?;
            if !str_equal(materialization, "local") && !str_equal(materialization, "cloud") {
                return Err(PhotoKitNativeError::InvalidResponse);
            }
            let token = text_of(m, "resource_token", 128)?;
            validate_resource_token(token)?;
            Ok(TerminalEvent::Resource { bytes, resource_token: token.to_owned() })
        },
    }
}

/// Whether a message belongs to the request.
pub fn validate_control_identity(m: &Vec<(String, JsonScalar)>, identity: &RequestIdentity) -> (result:
    Result<(), PhotoKitNativeError>)
    ensures
        result is Ok <==> identity_matches(members_view(m@), *identity),
        result matches Err(e) ==> e == PhotoKitNativeError::InvalidResponse,
{
    if u64_of(m, "protocol_version") != Some(1u64) {
        return Err(PhotoKitNativeError::InvalidResponse);
    }
    let operation = text_of(m, "operation_id", 36)?;
    if !str_equal(operation, hyphenated_text(identity.operation_id).as_str()) {
        return Err(PhotoKitNativeError::InvalidResponse);
    }
    let epoch = text_of(m, "enrollment_epoch", 36)?;
    if !str_equal(epoch, hyphenated_text(identity.enrollment_epoch).as_str()) {
        return Err(PhotoKitNativeError::InvalidResponse);
    }
    if u64_of(m, "reconciliation_fence") != Some(identity.reconciliation_fence) || u64_of(
        m,
        "generation",
    ) != Some(identity.generation) || u64_of(m, "sequence") != Some(identity.request_sequence) {
        return Err(PhotoKitNativeError::InvalidResponse);
    }
    Ok(())
}

/// The event of a control message, given its members.
pub fn decode_control_members(m: &Vec<(String, JsonScalar)>, kind: CommandKind, identity: &RequestIdentity) -> (event:
    Result<NativeEvent, PhotoKitNativeError>)
    ensures
        match event {
            Ok(e) => event_view(e) is Some && spec_control_event(members_view(m@), kind, *identity)
                == event_view(e),
            Err(err) => spec_control_event(members_view(m@), kind, *identity) is None && err
                == PhotoKitNativeError::InvalidResponse,
        },
{
    validate_control_identity(m, identity)?;
    let event = text_of(m, "event", 64)?;
    if str_equal(event, "authorization") {
        let fields: [&'static str; 1] = ["status"];
        assert(fields@.map_values(|f: &'static str| f@) =~= seq!["status"@]);
        exact_keys(m, fields.as_slice())?;
        match kind {
            CommandKind::InspectAuthorization | CommandKind::RequestAuthorization => {},
            _ => {
                return Err(PhotoKitNativeError::InvalidResponse);
            },
        }
        let status = text_of(m, "status", 32)?;
        match crate::photokit_records::authorization_from_db(status) {
            Ok(a) => Ok(NativeEvent::Authorization(a)),
            Err(_) => Err(PhotoKitNativeError::InvalidResponse),
        }
    } else if str_equal(event, "album") {
        let fields: [&'static str; 2] = ["album_identifier", "label"];
        assert(fields@.map_values(|f: &'static str| f@) =~= seq!["album_identifier"@, "label"@]);
        exact_keys(m, fields.as_slice())?;
        if kind != CommandKind::ListAlbums {
            return Err(PhotoKitNativeError::InvalidResponse);
        }
        let album = text_of(m, "album_identifier", 512)?;
        let label = text_of(m, "label", 512)?;
        Ok(NativeEvent::Album { album_locator: album.to_owned(), label: label.to_owned() })
    } else if str_equal(event, "asset") {
        if kind != CommandKind::EnumerateAlbum {
            return Err(PhotoKitNativeError::InvalidResponse);
        }
        let supported = match bool_of(m, "supported") {
            Some(b) => b,
            None => {
                return Err(PhotoKitNativeError::InvalidResponse);
            },
        };
        let asset = text_of(m, "asset_identifier", 512)?;
        let policy = text_of(m, "selection_policy", 64)?;
        if !str_equal(policy, PHOTOKIT_SELECTION_POLICY_REVISION) {
            return Err(PhotoKitNativeError::InvalidResponse);
        }
        if supported {
            let fields: [&'static str; 5] = [
                "asset_identifier",
                "selection_policy",
                "supported",
                "resource_token",
                "uti",
            ];
            assert(fields@.map_values(|f: &'static str| f@) =~= seq![
                "asset_identifier"@,
                "selection_policy"@,
                "supported"@,
                "resource_token"@,
                "uti"@,
            ]);
            exact_keys(m, fields.as_slice())?;
            let token = text_of(m, "resource_token", 128)?;
            validate_resource_token(token)?;
            let uti = text_of(m, "uti", 128)?;
            if !supported_uti(uti) {
                return Err(PhotoKitNativeError::InvalidResponse);
            }
            Ok(
                NativeEvent::Asset {
                    asset_locator: asset.to_owned(),
                    primary_resource: Some((token.to_owned(), uti.to_owned())),
                },
            )
        } else {
            let fields: [&'static str; 4] = [
                "asset_identifier",
                "selection_policy",
                "supported",
                "reason",
            ];
            assert(fields@.map_values(|f: &'static str| f@) =~= seq![
                "asset_identifier"@,
                "selection_policy"@,
                "supported"@,
                "reason"@,
            ]);
            exact_keys(m, fields.as_slice())?;
            let reason = text_of(m, "reason", 64)?;
            validate_reason(reason)?;
            Ok(NativeEvent::Asset { asset_locator: asset.to_owned(), primary_resource: None })
        }
    } else if str_equal(event, "resource_progress") {
        let fields: [&'static str; 1] = ["percent"];
        assert(fields@.map_values(|f: &'static str| f@) =~= seq!["percent"@]);
        exact_keys(m, fields.as_slice())?;
        if kind != CommandKind::StreamResource {
            return Err(PhotoKitNativeError::InvalidResponse);
        }
        u64_at_most(m, "percent", 100)?;
        Ok(NativeEvent::Progress)
    } else if str_equal(event, "operation_terminal") {
        let terminal = decode_terminal(m, kind)?;
        Ok(NativeEvent::Terminal(terminal))
    } else {
        Err(PhotoKitNativeError::InvalidResponse)
    }
}

/// Decodes a control message of the bridge: a JSON object that belongs to
/// the request and reports an event that a command of `kind` may report,
/// with exactly the members of that event.
pub fn decode_control(bytes: &[u8], kind: CommandKind, identity: &RequestIdentity) -> (event: Result<
    NativeEvent,
    PhotoKitNativeError,
>)
    ensures
        match json_object_members(bytes@) {
            None => event == Err::<NativeEvent, PhotoKitNativeError>(
                PhotoKitNativeError::InvalidResponse,
            ),
            Some(m) => match event {
                Ok(e) => event_view(e) is Some && spec_control_event(m, kind, *identity) == event_view(
                    e,
                ),
                Err(err) => spec_control_event(m, kind, *identity) is None && err
                    == PhotoKitNativeError::InvalidResponse,
            },
        },
{
    match parse_json_object(bytes) {
        Some(members) => decode_control_members(&members, kind, identity),
        None => Err(PhotoKitNativeError::InvalidResponse),
    }
}

/// An authorization command, inspecting or requesting access, ends with
/// the completed terminal: a `completed` status that is the message's only
/// member besides the identity ones is that command's completed terminal,
/// and an `operation_terminal` message of the request carrying it is the
/// completed terminal event.
pub proof fn lemma_authorization_commands_complete(
    m: Seq<(Seq<char>, JsonScalarView)>,
    kind: CommandKind,
    identity: RequestIdentity,
)
    requires
        kind == CommandKind::InspectAuthorization || kind == CommandKind::RequestAuthorization,
        text_member(m, "status"@, 16) == Some("completed"@),
        exact_members(m, seq!["status"@]),
    ensures
        spec_terminal(m, kind) == Some(TerminalView::Completed),
        identity_matches(m, identity) && text_member(m, "event"@, 64) == Some("operation_terminal"@)
            ==> spec_control_event(m, kind, identity) == Some(EventView::Terminal(TerminalView::Completed)),
{
    reveal_strlit("completed");
    reveal_strlit("failed");
    reveal_strlit("operation_terminal");
    reveal_strlit("authorization");
    reveal_strlit("album");
    reveal_strlit("asset");
    reveal_strlit("resource_progress");
    assert("completed"@.len() != "failed"@.len());
    assert("operation_terminal"@.len() != "authorization"@.len());
    assert("operation_terminal"@.len() != "album"@.len());
    assert("operation_terminal"@.len() != "asset"@.len());
    assert("operation_terminal"@.len() != "resource_progress"@.len());
}

} // verus!
