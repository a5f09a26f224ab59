use crate::digest_text::decimal_text;
use crate::number_text::{
    append_decimal_u64, append_i64, i64_text, is_digit, lemma_decimal_text_digits,
    lemma_i64_text_round_trip, parse_i64, parse_i64_text, all_digits, digits_value,
};
use crate::person_codecs::{owner_review_state_db, owner_review_state_name, PhotoOwnerReviewStateV1};
use crate::photo_codecs::{observation_state_db, observation_state_name, PhotoObservationStateV1};
use crate::platform_error::{PlatformError, PlatformResult};
use crate::uuid_text::{parse_uuid_bytes, uuid_parse};
use vstd::prelude::*;
use vstd::string::{StrSliceExecFns, StringExecFns};

verus! {

/// `text` begins with `prefix`.
pub open spec fn starts_with(text: Seq<char>, prefix: Seq<char>) -> bool {
    prefix.len() <= text.len() && text.take(prefix.len() as int) == prefix
}

/// The rest of `text` after `prefix`, where it begins with it.
pub open spec fn after_prefix(text: Seq<char>, prefix: Seq<char>) -> Option<Seq<char>> {
    if starts_with(text, prefix) {
        Some(text.skip(prefix.len() as int))
    } else {
        None
    }
}

/// `k` is where the first `.` of `s` stands.
pub open spec fn first_dot_at(s: Seq<char>, k: int) -> bool {
    &&& 0 <= k < s.len()
    &&& s[k] == '.'
    &&& forall|j: int| 0 <= j < k ==> s[j] != '.'
}

/// `s` cut at its first `.`, as `str::split_once('.')` cuts it.
pub open spec fn split_first_dot(s: Seq<char>) -> Option<(Seq<char>, Seq<char>)> {
    if exists|k: int| first_dot_at(s, k) {
        let k = choose|k: int| first_dot_at(s, k);
        Some((s.take(k), s.skip(k + 1)))
    } else {
        None
    }
}

proof fn lemma_first_dot_unique(s: Seq<char>, k1: int, k2: int)
    requires
        first_dot_at(s, k1),
        first_dot_at(s, k2),
    ensures
        k1 == k2,
{
    if k1 < k2 {
        assert(s[k1] != '.');
    }
    if k2 < k1 {
        assert(s[k2] != '.');
    }
}

proof fn lemma_split_at(s: Seq<char>, k: int)
    requires
        first_dot_at(s, k),
    ensures
        split_first_dot(s) == Some((s.take(k), s.skip(k + 1))),
{
    let c = choose|c: int| first_dot_at(s, c);
    lemma_first_dot_unique(s, c, k);
}

/// The rest of `text` after `prefix`, where it begins with it.
fn strip_text_prefix<'a>(text: &'a str, prefix: &str) -> (rest: Option<&'a str>)
    ensures
        match rest {
            Some(r) => after_prefix(text@, prefix@) == Some(r@),
            None => after_prefix(text@, prefix@) is None,
        },
{
    let n = prefix.unicode_len();
    let m = text.unicode_len();
    if n > m {
        return None;
    }
    let mut i: usize = 0;
    while i < n
        invariant
            n == prefix@.len(),
            m == text@.len(),
            n <= m,
            i <= n,
            forall|j: int| 0 <= j < i ==> text@[j] == prefix@[j],
        decreases n - i,
    {
        if text.get_char(i) != prefix.get_char(i) {
            assert(text@.take(n as int)[i as int] != prefix@[i as int]);
            return None;
        }
        i = i + 1;
    }
    assert(text@.take(n as int) =~= prefix@);
    Some(text.substring_char(n, m))
}

/// `text` cut at its first `.`.
fn split_at_first_dot<'a>(text: &'a str) -> (parts: Option<(&'a str, &'a str)>)
    ensures
        match parts {
            Some((a, b)) => split_first_dot(text@) == Some((a@, b@)),
            None => split_first_dot(text@) is None,
        },
{
    let m = text.unicode_len();
    let mut k: usize = 0;
    while k < m
        invariant
            m == text@.len(),
            k <= m,
            forall|j: int| 0 <= j < k ==> text@[j] != '.',
        decreases m - k,
    {
        if text.get_char(k) == '.' {
            proof {
                lemma_split_at(text@, k as int);
            }
            return Some((text.substring_char(0, k), text.substring_char(k + 1, m)));
        }
        k = k + 1;
    }
    assert(!exists|j: int| first_dot_at(text@, j));
    None
}

/// Text that begins with the same head begins with the rest of a prefix
/// exactly when it does after the head.
proof fn lemma_starts_with_after_head(head: Seq<char>, text: Seq<char>, prefix: Seq<char>)
    ensures
        starts_with(head + text, head + prefix) == starts_with(text, prefix),
{
    if starts_with(head + text, head + prefix) {
        assert forall|i: int| 0 <= i < prefix.len() implies text.take(prefix.len() as int)[i] == prefix[i] by {
            assert((head + text).take((head + prefix).len() as int)[head.len() + i] == (head
                + prefix)[head.len() + i]);
        }
        assert(text.take(prefix.len() as int) =~= prefix);
    }
    if starts_with(text, prefix) {
        assert((head + text).take((head + prefix).len() as int) =~= head + prefix) by {
            assert forall|i: int| 0 <= i < (head + prefix).len() implies (head + text).take(
                (head + prefix).len() as int,
            )[i] == (head + prefix)[i] by {
                if i >= head.len() {
                    assert(text.take(prefix.len() as int)[i - head.len()] == prefix[i - head.len()]);
                }
            }
        }
    }
}

/// Where a number field ended by a `.` begins a text that has a number
/// field ended by a `.` too, the numbers are equal and what follows each
/// begins the same way.
proof fn lemma_number_fields_agree(a: nat, b: nat, r1: Seq<char>, r2: Seq<char>)
    requires
        starts_with(decimal_text(b) + seq!['.'] + r2, decimal_text(a) + seq!['.'] + r1),
    ensures
        a == b,
        starts_with(r2, r1),
{
    let da = decimal_text(a);
    let db = decimal_text(b);
    let p = da + seq!['.'] + r1;
    let t = db + seq!['.'] + r2;
    lemma_decimal_text_digits(a);
    lemma_decimal_text_digits(b);
    assert forall|i: int| 0 <= i < p.len() implies t[i] == p[i] by {
        assert(t.take(p.len() as int)[i] == p[i]);
    }
    if da.len() < db.len() {
        assert(p[da.len() as int] == '.');
        assert(t[da.len() as int] == db[da.len() as int]);
        assert(is_digit(db[da.len() as int]));
    } else if da.len() > db.len() {
        assert(t[db.len() as int] == '.');
        assert(p[db.len() as int] == da[db.len() as int]);
        assert(is_digit(da[db.len() as int]));
    } else {
        assert forall|i: int| 0 <= i < da.len() implies da[i] == db[i] by {
            assert(p[i] == t[i]);
        }
        assert(da =~= db);
        assert forall|i: int| 0 <= i < r1.len() implies r2.take(r1.len() as int)[i] == r1[i] by {
            assert(p[da.len() + 1 + i] == t[da.len() + 1 + i]);
        }
        assert(r2.take(r1.len() as int) =~= r1);
    }
}

// ---------------------------------------------------------------------------
// Owner review pages
// ---------------------------------------------------------------------------

/// What every owner review cursor of a snapshot begins with: the list, the
/// review state, the photo and owner revisions.
pub open spec fn owner_review_cursor_prefix(
    state: PhotoOwnerReviewStateV1,
    photo_revision: u64,
    owner_revision: u64,
) -> Seq<char> {
    "photo-owner-reviews."@ + owner_review_state_name(state) + "."@ + decimal_text(
        photo_revision as nat,
    ) + "."@ + decimal_text(owner_revision as nat) + "."@
}

/// The cursor after the review `review_id` updated at `updated_at_ms`.
pub open spec fn owner_review_cursor_text(
    state: PhotoOwnerReviewStateV1,
    photo_revision: u64,
    owner_revision: u64,
    updated_at_ms: i64,
    review_id: Seq<char>,
) -> Seq<char> {
    owner_review_cursor_prefix(state, photo_revision, owner_revision) + i64_text(updated_at_ms) + "."@
        + review_id
}

/// What a cursor gives back under a snapshot: one of another snapshot has
/// expired; the rest must be a time, a `.`, and a review id.
pub open spec fn spec_parse_owner_review_cursor(
    cursor: Seq<char>,
    state: PhotoOwnerReviewStateV1,
    photo_revision: u64,
    owner_revision: u64,
) -> PlatformResult<(i64, Seq<char>)> {
    match after_prefix(cursor, owner_review_cursor_prefix(state, photo_revision, owner_revision)) {
        None => Err(PlatformError::Conflict("snapshot_expired")),
        Some(rest) => match split_first_dot(rest) {
            None => Err(PlatformError::InvalidInput("owner_review_cursor")),
            Some((time, review_id)) => match parse_i64_text(time) {
                None => Err(PlatformError::InvalidInput("owner_review_cursor")),
                Some(t) => if uuid_parse(review_id) is None {
                    Err(PlatformError::Corrupt("owner_review_id"))
                } else {
                    Ok((t, review_id))
                },
            },
        },
    }
}

fn owner_review_prefix(state: PhotoOwnerReviewStateV1, photo_revision: u64, owner_revision: u64) -> (prefix: String)
    ensures
        prefix@ == owner_review_cursor_prefix(state, photo_revision, owner_revision),
{
    let mut prefix = String::from_str("photo-owner-reviews.");
    prefix.append(owner_review_state_db(state));
    prefix.append(".");
    append_decimal_u64(&mut prefix, photo_revision);
    prefix.append(".");
    append_decimal_u64(&mut prefix, owner_revision);
    prefix.append(".");
    prefix
}

/// The cursor that continues a page of owner reviews after the review
/// `review_id`, updated at `updated_at_ms`.
pub fn make_owner_review_cursor(
    state: PhotoOwnerReviewStateV1,
    photo_revision: u64,
    owner_revision: u64,
    updated_at_ms: i64,
    review_id: &str,
) -> (cursor: String)
    ensures
        cursor@ == owner_review_cursor_text(state, photo_revision, owner_revision, updated_at_ms, review_id@),
{
    let mut cursor = owner_review_prefix(state, photo_revision, owner_revision);
    append_i64(&mut cursor, updated_at_ms);
    cursor.append(".");
    cursor.append(review_id);
    cursor
}

/// Where a page of owner reviews continues: nowhere without a cursor, else
/// after the time and review that the cursor names.
pub fn parse_owner_review_cursor(
    cursor: Option<&str>,
    state: PhotoOwnerReviewStateV1,
    photo_revision: u64,
    owner_revision: u64,
) -> (after: PlatformResult<Option<(i64, String)>>)
    ensures
        match cursor {
            None => after == Ok::<Option<(i64, String)>, PlatformError>(None),
            Some(c) => match (after, spec_parse_owner_review_cursor(c@, state, photo_revision, owner_revision)) {
                (Ok(Some((t, id))), Ok((st, sid))) => t == st && id@ == sid,
                (Err(e), Err(f)) => e == f,
                _ => false,
            },
        },
{
    let cursor = match cursor {
        Some(c) => c,
        None => {
            return Ok(None);
        },
    };
    let prefix = owner_review_prefix(state, photo_revision, owner_revision);
    let rest = match strip_text_prefix(cursor, prefix.as_str()) {
        Some(r) => r,
        None => {
            return Err(PlatformError::Conflict("snapshot_expired"));
        },
    };
    let (time, review_id) = match split_at_first_dot(rest) {
        Some(parts) => parts,
        None => {
            return Err(PlatformError::InvalidInput("owner_review_cursor"));
        },
    };
    let updated_at = match parse_i64(time) {
        Some(t) => t,
        None => {
            return Err(PlatformError::InvalidInput("owner_review_cursor"));
        },
    };
    if parse_uuid_bytes(review_id).is_none() {
        return Err(PlatformError::Corrupt("owner_review_id"));
    }
    Ok(Some((updated_at, review_id.to_owned())))
}

/// A cursor read back under the snapshot it was made in names the review it
/// was made after.
pub proof fn lemma_owner_review_cursor_round_trip(
    state: PhotoOwnerReviewStateV1,
    photo_revision: u64,
    owner_revision: u64,
    updated_at_ms: i64,
    review_id: Seq<char>,
)
    requires
        uuid_parse(review_id) is Some,
    ensures
        spec_parse_owner_review_cursor(
            owner_review_cursor_text(state, photo_revision, owner_revision, updated_at_ms, review_id),
            state,
            photo_revision,
            owner_revision,
        ) == Ok::<(i64, Seq<char>), PlatformError>((updated_at_ms, review_id)),
{
    let prefix = owner_review_cursor_prefix(state, photo_revision, owner_revision);
    let tail = i64_text(updated_at_ms) + "."@ + review_id;
    let text = owner_review_cursor_text(state, photo_revision, owner_revision, updated_at_ms, review_id);
    assert(text =~= prefix + tail);
    assert(text.take(prefix.len() as int) =~= prefix);
    assert(text.skip(prefix.len() as int) =~= tail);
    lemma_tail_splits(updated_at_ms, review_id);
}

proof fn lemma_tail_splits(updated_at_ms: i64, rest: Seq<char>)
    ensures
        split_first_dot(i64_text(updated_at_ms) + "."@ + rest) == Some((i64_text(updated_at_ms), rest)),
        parse_i64_text(i64_text(updated_at_ms)) == Some(updated_at_ms),
{
    reveal_strlit(".");
    let time = i64_text(updated_at_ms);
    let tail = time + "."@ + rest;
    lemma_i64_text_round_trip(updated_at_ms);
    assert forall|j: int| 0 <= j < time.len() implies tail[j] != '.' by {
        assert(tail[j] == time[j]);
        if time[j] == '.' {
            assert(time.contains('.'));
        }
    }
    assert(first_dot_at(tail, time.len() as int));
    lemma_split_at(tail, time.len() as int);
    assert(tail.take(time.len() as int) =~= time);
    assert(tail.skip(time.len() as int + 1) =~= rest);
}

/// A cursor made in one snapshot is refused in another: once the photo or
/// owner revision has moved, reading it back says that the snapshot expired.
pub proof fn lemma_owner_review_cursor_expires(
    state: PhotoOwnerReviewStateV1,
    photo_revision: u64,
    owner_revision: u64,
    updated_at_ms: i64,
    review_id: Seq<char>,
    current_photo_revision: u64,
    current_owner_revision: u64,
)
    requires
        photo_revision != current_photo_revision || owner_revision != current_owner_revision,
    ensures
        spec_parse_owner_review_cursor(
            owner_review_cursor_text(state, photo_revision, owner_revision, updated_at_ms, review_id),
            state,
            current_photo_revision,
            current_owner_revision,
        ) == Err::<(i64, Seq<char>), PlatformError>(PlatformError::Conflict("snapshot_expired")),
{
    reveal_strlit(".");
    let head = "photo-owner-reviews."@ + owner_review_state_name(state) + "."@;
    let text = owner_review_cursor_text(state, photo_revision, owner_revision, updated_at_ms, review_id);
    let current = owner_review_cursor_prefix(state, current_photo_revision, current_owner_revision);
    let tail = i64_text(updated_at_ms) + "."@ + review_id;
    let text_rest = decimal_text(photo_revision as nat) + seq!['.'] + (decimal_text(owner_revision as nat)
        + seq!['.'] + tail);
    let current_rest = decimal_text(current_photo_revision as nat) + seq!['.'] + (decimal_text(
        current_owner_revision as nat,
    ) + seq!['.']);
    assert(text =~= head + text_rest);
    assert(current =~= head + current_rest);
    if starts_with(text, current) {
        lemma_starts_with_after_head(head, text_rest, current_rest);
        lemma_number_fields_agree(
            current_photo_revision as nat,
            photo_revision as nat,
            decimal_text(current_owner_revision as nat) + seq!['.'],
            decimal_text(owner_revision as nat) + seq!['.'] + tail,
        );
        assert(decimal_text(current_owner_revision as nat) + seq!['.'] =~= decimal_text(
            current_owner_revision as nat,
        ) + seq!['.'] + Seq::<char>::empty());
        lemma_number_fields_agree(
            current_owner_revision as nat,
            owner_revision as nat,
            Seq::<char>::empty(),
            tail,
        );
    }
}

// ---------------------------------------------------------------------------
// Import root pages
// ---------------------------------------------------------------------------

pub open spec fn roots_cursor_prefix(evidence_generation: u64) -> Seq<char> {
    "photo-roots."@ + decimal_text(evidence_generation as nat) + "."@
}

pub open spec fn roots_cursor_text(evidence_generation: u64, root_id: Seq<char>) -> Seq<char> {
    roots_cursor_prefix(evidence_generation) + root_id
}

/// What a roots cursor gives back under an evidence generation: one of
/// another generation has expired; the rest must be a root id.
pub open spec fn spec_parse_roots_cursor(cursor: Seq<char>, evidence_generation: u64) -> PlatformResult<Seq<char>> {
    match after_prefix(cursor, roots_cursor_prefix(evidence_generation)) {
        None => Err(PlatformError::Conflict("snapshot_expired")),
        Some(root_id) => if uuid_parse(root_id) is None {
            Err(PlatformError::Corrupt("import_root_id"))
        } else {
            Ok(root_id)
        },
    }
}

fn roots_prefix(evidence_generation: u64) -> (prefix: String)
    ensures
        prefix@ == roots_cursor_prefix(evidence_generation),
{
    let mut prefix = String::from_str("photo-roots.");
    append_decimal_u64(&mut prefix, evidence_generation);
    prefix.append(".");
    prefix
}

/// The cursor that continues a page of import roots after `root_id`.
pub fn make_roots_cursor(evidence_generation: u64, root_id: &str) -> (cursor: String)
    ensures
        cursor@ == roots_cursor_text(evidence_generation, root_id@),
{
    let mut cursor = roots_prefix(evidence_generation);
    cursor.append(root_id);
    cursor
}

/// Where a page of import roots continues.
pub fn parse_roots_cursor(cursor: Option<&str>, evidence_generation: u64) -> (after: PlatformResult<
    Option<String>,
>)
    ensures
        match cursor {
            None => after == Ok::<Option<String>, PlatformError>(None),
            Some(c) => match (after, spec_parse_roots_cursor(c@, evidence_generation)) {
                (Ok(Some(id)), Ok(sid)) => id@ == sid,
                (Err(e), Err(f)) => e == f,
                _ => false,
            },
        },
{
    let cursor = match cursor {
        Some(c) => c,
        None => {
            return Ok(None);
        },
    };
    let prefix = roots_prefix(evidence_generation);
    let root_id = match strip_text_prefix(cursor, prefix.as_str()) {
        Some(r) => r,
        None => {
            return Err(PlatformError::Conflict("snapshot_expired"));
        },
    };
    if parse_uuid_bytes(root_id).is_none() {
        return Err(PlatformError::Corrupt("import_root_id"));
    }
    Ok(Some(root_id.to_owned()))
}

/// A roots cursor read back under its generation names its root; under
/// another generation it has expired.
pub proof fn lemma_roots_cursor_round_trip(evidence_generation: u64, root_id: Seq<char>, current_generation: u64)
    requires
        uuid_parse(root_id) is Some,
    ensures
        spec_parse_roots_cursor(roots_cursor_text(evidence_generation, root_id), evidence_generation)
            == Ok::<Seq<char>, PlatformError>(root_id),
        current_generation != evidence_generation ==> spec_parse_roots_cursor(
            roots_cursor_text(evidence_generation, root_id),
            current_generation,
        ) == Err::<Seq<char>, PlatformError>(PlatformError::Conflict("snapshot_expired")),
{
    reveal_strlit(".");
    let prefix = roots_cursor_prefix(evidence_generation);
    let text = roots_cursor_text(evidence_generation, root_id);
    assert(text.take(prefix.len() as int) =~= prefix);
    assert(text.skip(prefix.len() as int) =~= root_id);
    let head = "photo-roots."@;
    let current = roots_cursor_prefix(current_generation);
    let text_rest = decimal_text(evidence_generation as nat) + seq!['.'] + root_id;
    let current_rest = decimal_text(current_generation as nat) + seq!['.'] + Seq::<char>::empty();
    assert(text =~= head + text_rest);
    assert(current =~= head + current_rest);
    if current_generation != evidence_generation && starts_with(text, current) {
        lemma_starts_with_after_head(head, text_rest, current_rest);
        lemma_number_fields_agree(
            current_generation as nat,
            evidence_generation as nat,
            Seq::<char>::empty(),
            root_id,
        );
    }
}

// ---------------------------------------------------------------------------
// Observation pages
// ---------------------------------------------------------------------------

pub open spec fn observation_cursor_prefix(
    state: PhotoObservationStateV1,
    photo_revision: u64,
    evidence_generation: u64,
) -> Seq<char> {
    "photo-observations."@ + observation_state_name(state) + "."@ + decimal_text(photo_revision as nat)
        + "."@ + decimal_text(evidence_generation as nat) + "."@
}

pub open spec fn observation_cursor_text(
    state: PhotoObservationStateV1,
    photo_revision: u64,
    evidence_generation: u64,
    observation_id: Seq<char>,
) -> Seq<char> {
    observation_cursor_prefix(state, photo_revision, evidence_generation) + observation_id
}

/// What an observation cursor gives back under a snapshot: one of another
/// snapshot has expired; the rest must be an observation id.
pub open spec fn spec_parse_observation_cursor(
    cursor: Seq<char>,
    state: PhotoObservationStateV1,
    photo_revision: u64,
    evidence_generation: u64,
) -> PlatformResult<Seq<char>> {
    match after_prefix(cursor, observation_cursor_prefix(state, photo_revision, evidence_generation)) {
        None => Err(PlatformError::Conflict("snapshot_expired")),
        Some(observation_id) => if uuid_parse(observation_id) is None {
            Err(PlatformError::Corrupt("photo_observation_id"))
        } else {
            Ok(observation_id)
        },
    }
}

fn observation_prefix(state: PhotoObservationStateV1, photo_revision: u64, evidence_generation: u64) -> (prefix:
    String)
    ensures
        prefix@ == observation_cursor_prefix(state, photo_revision, evidence_generation),
{
    let mut prefix = String::from_str("photo-observations.");
    prefix.append(observation_state_db(state));
    prefix.append(".");
    append_decimal_u64(&mut prefix, photo_revision);
    prefix.append(".");
    append_decimal_u64(&mut prefix, evidence_generation);
    prefix.append(".");
    prefix
}

/// The cursor that continues a page of observations after
/// `observation_id`.
pub fn make_observation_cursor(
    state: PhotoObservationStateV1,
    photo_revision: u64,
    evidence_generation: u64,
    observation_id: &str,
) -> (cursor: String)
    ensures
        cursor@ == observation_cursor_text(state, photo_revision, evidence_generation, observation_id@),
{
    let mut cursor = observation_prefix(state, photo_revision, evidence_generation);
    cursor.append(observation_id);
    cursor
}

/// Where a page of observations continues.
pub fn parse_observation_cursor(
    cursor: Option<&str>,
    state: PhotoObservationStateV1,
    photo_revision: u64,
    evidence_generation: u64,
) -> (after: PlatformResult<Option<String>>)
    ensures
        match cursor {
            None => after == Ok::<Option<String>, PlatformError>(None),
            Some(c) => match (after, spec_parse_observation_cursor(c@, state, photo_revision, evidence_generation)) {
                (Ok(Some(id)), Ok(sid)) => id@ == sid,
                (Err(e), Err(f)) => e == f,
                _ => false,
            },
        },
{
    let cursor = match cursor {
        Some(c) => c,
        None => {
            return Ok(None);
        },
    };
    let prefix = observation_prefix(state, photo_revision, evidence_generation);
    let observation_id = match strip_text_prefix(cursor, prefix.as_str()) {
        Some(r) => r,
        None => {
            return Err(PlatformError::Conflict("snapshot_expired"));
        },
    };
    if parse_uuid_bytes(observation_id).is_none() {
        return Err(PlatformError::Corrupt("photo_observation_id"));
    }
    Ok(Some(observation_id.to_owned()))
}

/// An observation cursor read back under its snapshot names its
/// observation; once the photo revision or the evidence generation moved,
/// it has expired.
pub proof fn lemma_observation_cursor_round_trip(
    state: PhotoObservationStateV1,
    photo_revision: u64,
    evidence_generation: u64,
    observation_id: Seq<char>,
    current_photo_revision: u64,
    current_generation: u64,
)
    requires
        uuid_parse(observation_id) is Some,
    ensures
        spec_parse_observation_cursor(
            observation_cursor_text(state, photo_revision, evidence_generation, observation_id),
            state,
            photo_revision,
            evidence_generation,
        ) == Ok::<Seq<char>, PlatformError>(observation_id),
        photo_revision != current_photo_revision || evidence_generation != current_generation
            ==> spec_parse_observation_cursor(
            observation_cursor_text(state, photo_revision, evidence_generation, observation_id),
            state,
            current_photo_revision,
            current_generation,
        ) == Err::<Seq<char>, PlatformError>(PlatformError::Conflict("snapshot_expired")),
{
    reveal_strlit(".");
    let prefix = observation_cursor_prefix(state, photo_revision, evidence_generation);
    let text = observation_cursor_text(state, photo_revision, evidence_generation, observation_id);
    assert(text.take(prefix.len() as int) =~= prefix);
    assert(text.skip(prefix.len() as int) =~= observation_id);
    let head = "photo-observations."@ + observation_state_name(state) + "."@;
    let current = observation_cursor_prefix(state, current_photo_revision, current_generation);
    let text_rest = decimal_text(photo_revision as nat) + seq!['.'] + (decimal_text(
        evidence_generation as nat,
    ) + seq!['.'] + observation_id);
    let current_rest = decimal_text(current_photo_revision as nat) + seq!['.'] + (decimal_text(
        current_generation as nat,
    ) + seq!['.']);
    assert(text =~= head + text_rest);
    assert(current =~= head + current_rest);
    if (photo_revision != current_photo_revision || evidence_generation != current_generation)
        && starts_with(text, current) {
        lemma_starts_with_after_head(head, text_rest, current_rest);
        lemma_number_fields_agree(
            current_photo_revision as nat,
            photo_revision as nat,
            decimal_text(current_generation as nat) + seq!['.'],
            decimal_text(evidence_generation as nat) + seq!['.'] + observation_id,
        );
        assert(decimal_text(current_generation as nat) + seq!['.'] =~= decimal_text(
            current_generation as nat,
        ) + seq!['.'] + Seq::<char>::empty());
        lemma_number_fields_agree(
            current_generation as nat,
            evidence_generation as nat,
            Seq::<char>::empty(),
            observation_id,
        );
    }
}

} // verus!
