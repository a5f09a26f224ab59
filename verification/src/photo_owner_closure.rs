use crate::platform_error::{PlatformError, PlatformResult};
use crate::store::{query, text_at, text_column, SqlStatement, SqlValue};
use crate::text::str_equal;
use vstd::prelude::*;

verus! {

/// The tag of request ids among the tagged ids; entity kinds are tagged 0 to 7.
pub const REQUEST_TAG: u8 = 8;

/// A row of `photo_owner_command_entities`: a command request and an entity
/// that it touched.
#[derive(Clone, Debug)]
pub struct OwnerEntityRow {
    pub request_id: String,
    pub entity_kind: String,
    pub entity_id: String,
}

/// Ids of the owner-decision graph, each tagged with its kind: detection run
/// 0, detection attempt 1, owner preview 2, owner review 3, detection
/// correction 4, person instance 5, owner decision 6, observation 7, and
/// request `REQUEST_TAG`.
pub struct TaggedIds {
    items: Vec<(u8, String)>,
}

/// The tag of an entity kind; owner work is kept with the owner decision it
/// belongs to.
pub open spec fn entity_tag(kind: Seq<char>) -> Option<u8> {
    if kind == "detection_run"@ {
        Some(0u8)
    } else if kind == "detection_attempt"@ {
        Some(1u8)
    } else if kind == "owner_preview"@ {
        Some(2u8)
    } else if kind == "owner_review"@ {
        Some(3u8)
    } else if kind == "detection_correction"@ {
        Some(4u8)
    } else if kind == "person_instance"@ {
        Some(5u8)
    } else if kind == "owner_decision"@ || kind == "owner_work"@ {
        Some(6u8)
    } else if kind == "observation_owner_link"@ {
        Some(7u8)
    } else {
        None
    }
}

pub fn entity_kind_tag(kind: &str) -> (tag: Option<u8>)
    ensures
        tag == entity_tag(kind@),
{
    if str_equal(kind, "detection_run") {
        Some(0)
    } else if str_equal(kind, "detection_attempt") {
        Some(1)
    } else if str_equal(kind, "owner_preview") {
        Some(2)
    } else if str_equal(kind, "owner_review") {
        Some(3)
    } else if str_equal(kind, "detection_correction") {
        Some(4)
    } else if str_equal(kind, "person_instance") {
        Some(5)
    } else if str_equal(kind, "owner_decision") || str_equal(kind, "owner_work") {
        Some(6)
    } else if str_equal(kind, "observation_owner_link") {
        Some(7)
    } else {
        None
    }
}

pub open spec fn row_request(row: OwnerEntityRow) -> (u8, Seq<char>) {
    (REQUEST_TAG, row.request_id@)
}

pub open spec fn row_entity(row: OwnerEntityRow) -> (u8, Seq<char>) {
    (entity_tag(row.entity_kind@).unwrap(), row.entity_id@)
}

/// Closed under the rows: for a row of a known kind, its entity is in the set
/// exactly when its request is.
pub open spec fn closed_under(ids: Set<(u8, Seq<char>)>, rows: Seq<OwnerEntityRow>) -> bool {
    forall|i: int|
        0 <= i < rows.len() && entity_tag(rows[i].entity_kind@) is Some ==> (ids.contains(
            row_entity(#[trigger] rows[i]),
        ) <==> ids.contains(row_request(rows[i])))
}

/// In every set that holds `start` and is closed under the rows.
pub open spec fn forced(start: Set<(u8, Seq<char>)>, rows: Seq<OwnerEntityRow>, id: (u8, Seq<char>)) -> bool {
    forall|ids: Set<(u8, Seq<char>)>|
        #[trigger] closed_under(ids, rows) && start.subset_of(ids) ==> ids.contains(id)
}

/// A row of an unknown kind whose request is in `ids`.
pub open spec fn unknown_kind_reached(ids: Set<(u8, Seq<char>)>, rows: Seq<OwnerEntityRow>) -> bool {
    exists|i: int|
        0 <= i < rows.len() && entity_tag(rows[i].entity_kind@) is None && ids.contains(
            row_request(#[trigger] rows[i]),
        )
}

pub open spec fn row_weight(ids: Set<(u8, Seq<char>)>, row: OwnerEntityRow) -> nat {
    if entity_tag(row.entity_kind@) is Some {
        (if ids.contains(row_request(row)) {
            0nat
        } else {
            1nat
        }) + (if ids.contains(row_entity(row)) {
            0nat
        } else {
            1nat
        })
    } else {
        0nat
    }
}

/// How far `ids` is from holding both ends of every row.
pub open spec fn closure_measure(ids: Set<(u8, Seq<char>)>, rows: Seq<OwnerEntityRow>) -> nat
    decreases rows.len(),
{
    if rows.len() == 0 {
        0
    } else {
        closure_measure(ids, rows.drop_last()) + row_weight(ids, rows.last())
    }
}

proof fn lemma_measure_monotone(a: Set<(u8, Seq<char>)>, b: Set<(u8, Seq<char>)>, rows: Seq<OwnerEntityRow>)
    requires
        a.subset_of(b),
    ensures
        closure_measure(b, rows) <= closure_measure(a, rows),
    decreases rows.len(),
{
    if rows.len() > 0 {
        lemma_measure_monotone(a, b, rows.drop_last());
    }
}

proof fn lemma_measure_strict(a: Set<(u8, Seq<char>)>, b: Set<(u8, Seq<char>)>, rows: Seq<OwnerEntityRow>, i: int)
    requires
        a.subset_of(b),
        0 <= i < rows.len(),
        row_weight(b, rows[i]) < row_weight(a, rows[i]),
    ensures
        closure_measure(b, rows) < closure_measure(a, rows),
    decreases rows.len(),
{
    let rest = rows.drop_last();
    if i == rows.len() - 1 {
        lemma_measure_monotone(a, b, rest);
    } else {
        assert(rest[i] == rows[i]);
        lemma_measure_strict(a, b, rest, i);
    }
}

impl TaggedIds {
    pub closed spec fn view(&self) -> Set<(u8, Seq<char>)> {
        Set::new(
            |id: (u8, Seq<char>)|
                exists|i: int|
                    0 <= i < self.items@.len() && self.items@[i].0 == id.0 && (#[trigger] self.items@[i]).1@
                        == id.1,
        )
    }

    pub fn new() -> (ids: Self)
        ensures
            ids.view() == Set::<(u8, Seq<char>)>::empty(),
    {
        let ids = TaggedIds { items: Vec::new() };
        assert(ids.view() =~= Set::<(u8, Seq<char>)>::empty());
        ids
    }

    pub fn contains(&self, tag: u8, id: &str) -> (found: bool)
        ensures
            found == self.view().contains((tag, id@)),
    {
        let mut i: usize = 0;
        while i < self.items.len()
            invariant
                i <= self.items@.len(),
                forall|j: int|
                    0 <= j < i ==> !((#[trigger] self.items@[j]).0 == tag && self.items@[j].1@ == id@),
            decreases self.items@.len() - i,
        {
            if self.items[i].0 == tag && str_equal(self.items[i].1.as_str(), id) {
                return true;
            }
            i = i + 1;
        }
        false
    }

    /// Adds an id unless it is there already; the set of ids grows by exactly
    /// it.
    pub fn insert(&mut self, tag: u8, id: String)
        ensures
            final(self).view() == old(self).view().insert((tag, id@)),
    {
        if self.contains(tag, id.as_str()) {
            assert(self.view() =~= self.view().insert((tag, id@)));
            return;
        }
        let ghost before = self.items@;
        let ghost view_id = id@;
        self.items.push((tag, id));
        proof {
            assert forall|x: (u8, Seq<char>)|
                #![auto]
                final(self).view().contains(x) <==> old(self).view().insert((tag, view_id)).contains(x) by {
                if final(self).view().contains(x) {
                    let i = choose|i: int|
                        0 <= i < self.items@.len() && self.items@[i].0 == x.0 && (#[trigger] self.items@[i]).1@
                            == x.1;
                    if i < before.len() {
                        assert(before[i] == self.items@[i]);
                    }
                }
                if old(self).view().contains(x) {
                    let i = choose|i: int|
                        0 <= i < before.len() && before[i].0 == x.0 && (#[trigger] before[i]).1@ == x.1;
                    assert(self.items@[i] == before[i]);
                }
                if x == (tag, view_id) {
                    assert(self.items@[before.len() as int].1@ == view_id);
                }
            }
            assert(final(self).view() =~= old(self).view().insert((tag, view_id)));
        }
    }

    /// The ids under `tag`, in the order in which they were added.
    pub fn ids(&self, tag: u8) -> (ids: Vec<String>)
        ensures
            forall|k: int| 0 <= k < ids@.len() ==> self.view().contains((tag, (#[trigger] ids@[k])@)),
            forall|id: Seq<char>|
                #[trigger] self.view().contains((tag, id)) ==> exists|k: int|
                    0 <= k < ids@.len() && (#[trigger] ids@[k])@ == id,
    {
        let mut out: Vec<String> = Vec::new();
        let mut i: usize = 0;
        while i < self.items.len()
            invariant
                i <= self.items@.len(),
                forall|k: int|
                    0 <= k < out@.len() ==> self.view().contains((tag, (#[trigger] out@[k])@)),
                forall|j: int|
                    0 <= j < i && (#[trigger] self.items@[j]).0 == tag ==> exists|k: int|
                        0 <= k < out@.len() && (#[trigger] out@[k])@ == self.items@[j].1@,
            decreases self.items@.len() - i,
        {
            if self.items[i].0 == tag {
                let id = self.items[i].1.clone();
                let ghost prev = out@;
                proof {
                    assert(self.items@[i as int].0 == tag && self.items@[i as int].1@ == id@);
                    assert(self.view().contains((tag, id@)));
                }
                out.push(id);
                proof {
                    assert forall|j: int|
                        0 <= j < i + 1 && (#[trigger] self.items@[j]).0 == tag implies exists|k: int|
                            0 <= k < out@.len() && (#[trigger] out@[k])@ == self.items@[j].1@ by {
                        if j == i {
                            assert(out@[prev.len() as int]@ == self.items@[j].1@);
                        } else {
                            let k = choose|k: int|
                                0 <= k < prev.len() && (#[trigger] prev[k])@ == self.items@[j].1@;
                            assert(out@[k] == prev[k]);
                        }
                    }
                }
            }
            i = i + 1;
        }
        proof {
            assert forall|id: Seq<char>|
                #[trigger] self.view().contains((tag, id)) implies exists|k: int|
                    0 <= k < out@.len() && (#[trigger] out@[k])@ == id by {
                let j = choose|j: int|
                    0 <= j < self.items@.len() && self.items@[j].0 == tag && (#[trigger] self.items@[j]).1@
                        == id;
                assert(self.items@[j].0 == tag);
            }
        }
        out
    }
}

/// Grows `ids` to the least set that holds them and is closed under the
/// rows: entities reach the requests that touched them, and requests reach
/// every entity that they touched. A request that touched an entity of an
/// unknown kind is corrupt.
pub fn close_over_rows(rows: &Vec<OwnerEntityRow>, ids: &mut TaggedIds) -> (result: PlatformResult<()>)
    ensures
        old(ids).view().subset_of(final(ids).view()),
        forall|id: (u8, Seq<char>)|
            final(ids).view().contains(id) ==> forced(old(ids).view(), rows@, id),
        match result {
            Ok(()) => closed_under(final(ids).view(), rows@) && !unknown_kind_reached(
                final(ids).view(),
                rows@,
            ),
            Err(e) => e == PlatformError::Corrupt("photo_owner_command_entity_kind")
                && unknown_kind_reached(final(ids).view(), rows@),
        },
{
    let ghost start = ids.view();
    loop
        invariant
            start.subset_of(ids.view()),
            start == old(ids).view(),
            forall|id: (u8, Seq<char>)| ids.view().contains(id) ==> forced(start, rows@, id),
        decreases closure_measure(ids.view(), rows@),
    {
        let ghost pass_start = ids.view();
        let mut changed = false;
        let mut i: usize = 0;
        while i < rows.len()
            invariant
                i <= rows@.len(),
                start == old(ids).view(),
                start.subset_of(pass_start),
                pass_start.subset_of(ids.view()),
                forall|id: (u8, Seq<char>)| ids.view().contains(id) ==> forced(start, rows@, id),
                changed ==> closure_measure(ids.view(), rows@) < closure_measure(pass_start, rows@),
                !changed ==> ids.view() == pass_start,
                !changed ==> forall|j: int|
                    0 <= j < i && entity_tag(rows@[j].entity_kind@) is Some ==> (ids.view().contains(
                        row_entity(#[trigger] rows@[j]),
                    ) <==> ids.view().contains(row_request(rows@[j]))),
                !changed ==> forall|j: int|
                    0 <= j < i && entity_tag(rows@[j].entity_kind@) is None ==> !ids.view().contains(
                        row_request(#[trigger] rows@[j]),
                    ),
            decreases rows@.len() - i,
        {
            let row = &rows[i];
            let ghost row_view = rows@[i as int];
            match entity_kind_tag(row.entity_kind.as_str()) {
                None => {
                    if ids.contains(REQUEST_TAG, row.request_id.as_str()) {
                        return Err(PlatformError::Corrupt("photo_owner_command_entity_kind"));
                    }
                },
                Some(tag) => {
                    let has_entity = ids.contains(tag, row.entity_id.as_str());
                    let has_request = ids.contains(REQUEST_TAG, row.request_id.as_str());
                    if has_entity && !has_request {
                        let ghost before = ids.view();
                        ids.insert(REQUEST_TAG, row.request_id.clone());
                        proof {
                            lemma_forced_step(start, rows@, before, i as int, row_request(row_view));
                            assert(row_weight(ids.view(), row_view) < row_weight(before, row_view));
                            lemma_measure_strict(before, ids.view(), rows@, i as int);
                            lemma_measure_monotone(pass_start, before, rows@);
                        }
                        changed = true;
                    } else if has_request && !has_entity {
                        let ghost before = ids.view();
                        ids.insert(tag, row.entity_id.clone());
                        proof {
                            lemma_forced_step(start, rows@, before, i as int, row_entity(row_view));
                            assert(row_weight(ids.view(), row_view) < row_weight(before, row_view));
                            lemma_measure_strict(before, ids.view(), rows@, i as int);
                            lemma_measure_monotone(pass_start, before, rows@);
                        }
                        changed = true;
                    }
                },
            }
            i = i + 1;
        }
        if !changed {
            return Ok(());
        }
    }
}

/// Adding the other end of a row to a set of forced ids adds a forced id.
proof fn lemma_forced_step(
    start: Set<(u8, Seq<char>)>,
    rows: Seq<OwnerEntityRow>,
    current: Set<(u8, Seq<char>)>,
    i: int,
    added: (u8, Seq<char>),
)
    requires
        0 <= i < rows.len(),
        entity_tag(rows[i].entity_kind@) is Some,
        forall|id: (u8, Seq<char>)| current.contains(id) ==> forced(start, rows, id),
        (added == row_request(rows[i]) && current.contains(row_entity(rows[i]))) || (added
            == row_entity(rows[i]) && current.contains(row_request(rows[i]))),
    ensures
        forced(start, rows, added),
{
    assert forall|ids: Set<(u8, Seq<char>)>|
        #[trigger] closed_under(ids, rows) && start.subset_of(ids) implies ids.contains(added) by {
        if added == row_request(rows[i]) {
            assert(forced(start, rows, row_entity(rows[i])));
            assert(ids.contains(row_entity(rows[i])));
        } else {
            assert(forced(start, rows, row_request(rows[i])));
            assert(ids.contains(row_request(rows[i])));
        }
    }
}

/// The rows of `photo_owner_command_entities`, each column read as text.
pub fn owner_entity_rows(rows: &Vec<Vec<SqlValue>>) -> (entities: PlatformResult<Vec<OwnerEntityRow>>)
    ensures
        match entities {
            Ok(v) => v@.len() == rows@.len() && forall|i: int|
                0 <= i < rows@.len() ==> text_at(rows@[i]@, 0) == Some((#[trigger] v@[i]).request_id@)
                    && text_at(rows@[i]@, 1) == Some(v@[i].entity_kind@) && text_at(rows@[i]@, 2)
                    == Some(v@[i].entity_id@),
            Err(e) => e == PlatformError::Sqlite,
        },
{
    let mut out: Vec<OwnerEntityRow> = Vec::new();
    let mut i: usize = 0;
    while i < rows.len()
        invariant
            i <= rows@.len(),
            out@.len() == i,
            forall|j: int|
                0 <= j < i ==> text_at(rows@[j]@, 0) == Some((#[trigger] out@[j]).request_id@)
                    && text_at(rows@[j]@, 1) == Some(out@[j].entity_kind@) && text_at(rows@[j]@, 2)
                    == Some(out@[j].entity_id@),
        decreases rows@.len() - i,
    {
        let request_id = text_column(&rows[i], 0)?;
        let entity_kind = text_column(&rows[i], 1)?;
        let entity_id = text_column(&rows[i], 2)?;
        out.push(OwnerEntityRow { request_id, entity_kind, entity_id });
        i = i + 1;
    }
    Ok(out)
}

/// Every row of the command entity table: request, entity kind, entity id.
pub const OWNER_COMMAND_ENTITIES_SQL: &'static str = "SELECT request_id, entity_kind, entity_id FROM photo_owner_command_entities";

/// The query that reads the whole command entity table, with no parameters.
pub fn owner_command_entities_query() -> (statement: SqlStatement)
    ensures
        statement.sql@ == OWNER_COMMAND_ENTITIES_SQL@,
        statement.params@.len() == 0,
{
    SqlStatement { sql: OWNER_COMMAND_ENTITIES_SQL, params: Vec::new() }
}

/// The ids after closing `start` over `rows` are the least closed set: each
/// is forced from `start`, and together they are closed under the rows.
pub open spec fn least_closure_over(
    start: Set<(u8, Seq<char>)>,
    rows: Seq<OwnerEntityRow>,
    closure: Set<(u8, Seq<char>)>,
) -> bool {
    &&& start.subset_of(closure)
    &&& forall|id: (u8, Seq<char>)| closure.contains(id) ==> forced(start, rows, id)
    &&& closed_under(closure, rows)
    &&& !unknown_kind_reached(closure, rows)
}

/// Closes the owner-decision ids over the command entity table: an entity
/// brings in every request that touched it, and a request every entity that
/// it touched, until nothing more is added. Which rows the table holds is
/// the database's; on success the ids are the least closure over them.
pub fn close_photo_owner_command_entities(connection: &rusqlite::Connection, ids: &mut TaggedIds) -> (result:
    PlatformResult<()>)
    ensures
        old(ids).view().subset_of(final(ids).view()),
        result is Ok ==> exists|rows: Seq<OwnerEntityRow>|
            least_closure_over(old(ids).view(), rows, final(ids).view()),
        result matches Err(e) ==> e == PlatformError::Sqlite || e == PlatformError::Corrupt(
            "photo_owner_command_entity_kind",
        ),
{
    let statement = owner_command_entities_query();
    let rows = query(connection, statement.sql, statement.params.as_slice())?;
    let entities = owner_entity_rows(&rows)?;
    let result = close_over_rows(&entities, ids);
    proof {
        if result is Ok {
            assert(least_closure_over(old(ids).view(), entities@, ids.view()));
        }
    }
    result
}

/// The closure is the least closed set: every set that holds the starting
/// ids and is closed under the rows holds all of it.
pub proof fn lemma_closure_is_least(
    start: Set<(u8, Seq<char>)>,
    rows: Seq<OwnerEntityRow>,
    closure: Set<(u8, Seq<char>)>,
    other: Set<(u8, Seq<char>)>,
)
    requires
        forall|id: (u8, Seq<char>)| closure.contains(id) ==> forced(start, rows, id),
        closed_under(other, rows),
        start.subset_of(other),
    ensures
        closure.subset_of(other),
{
    assert forall|id: (u8, Seq<char>)| closure.contains(id) implies other.contains(id) by {
        assert(forced(start, rows, id));
    }
}

/// The entity kinds that commands record in `photo_owner_command_entities`,
/// in the order of their tags.
pub open spec fn command_entity_kinds() -> Seq<Seq<char>> {
    seq![
        "detection_run"@,
        "detection_attempt"@,
        "owner_preview"@,
        "owner_review"@,
        "detection_correction"@,
        "person_instance"@,
        "owner_decision"@,
        "observation_owner_link"@,
    ]
}

/// Every entity kind that commands record has a tag, its place among the
/// kinds; owner work is tagged as the owner decision it belongs to; and no
/// other kind has a tag.
pub proof fn lemma_every_recorded_kind_is_tagged(kind: Seq<char>)
    ensures
        forall|i: int| 0 <= i < 8 ==> entity_tag(#[trigger] command_entity_kinds()[i]) == Some(i as u8),
        entity_tag("owner_work"@) == Some(6u8),
        entity_tag(kind) is Some ==> command_entity_kinds().contains(kind) || kind == "owner_work"@,
{
    reveal_strlit("detection_run");
    reveal_strlit("detection_attempt");
    reveal_strlit("owner_preview");
    reveal_strlit("owner_review");
    reveal_strlit("detection_correction");
    reveal_strlit("person_instance");
    reveal_strlit("owner_decision");
    reveal_strlit("owner_work");
    reveal_strlit("observation_owner_link");
    let kinds = command_entity_kinds();
    assert(kinds[0] == "detection_run"@);
    assert(kinds[1] == "detection_attempt"@);
    assert(kinds[2] == "owner_preview"@);
    assert(kinds[3] == "owner_review"@);
    assert(kinds[4] == "detection_correction"@);
    assert(kinds[5] == "person_instance"@);
    assert(kinds[6] == "owner_decision"@);
    assert(kinds[7] == "observation_owner_link"@);
    assert("detection_run"@.len() == 13);
    assert("detection_attempt"@.len() == 17);
    assert("owner_preview"@.len() == 13);
    assert("owner_review"@.len() == 12);
    assert("detection_correction"@.len() == 20);
    assert("person_instance"@.len() == 15);
    assert("owner_decision"@.len() == 14);
    assert("owner_work"@.len() == 10);
    assert("observation_owner_link"@.len() == 22);
    assert("owner_preview"@[0] != "detection_run"@[0]);
    assert forall|i: int| 0 <= i < 8 implies entity_tag(#[trigger] kinds[i]) == Some(i as u8) by {
        if i == 0 {
        } else if i == 1 {
        } else if i == 2 {
        } else if i == 3 {
        } else if i == 4 {
        } else if i == 5 {
        } else if i == 6 {
        } else {
        }
    }
    if entity_tag(kind) is Some {
        if kind == "owner_work"@ {
        } else {
            let i: int = entity_tag(kind).unwrap() as int;
            assert(kinds[i] == kind);
        }
    }
}

} // verus!
