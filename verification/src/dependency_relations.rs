//! Canonical direct dependency relations of a task: its readiness and the
//! live tasks of its project that depend on it exactly.

use vstd::prelude::*;

use crate::dependency_readiness::{DependencyReadinessView, TaskDependencyReadiness};
use crate::errors::PropertiesErr;
use crate::status_transition::opt_seq;
use crate::ids::{parse_uuid, text_equals, uuid_parse_str, uuid_text};
use crate::json::{get_member, json_has_entity_id, member, mentions_entity, Json};
use crate::property_value::{decode_value, value_from_json, EntityReference, PropertyValue, ValueView};
use crate::subtask_hierarchy::{all_distinct, contains_id};
use crate::task_status::{reference_targets, references_to_targets, TaskReadiness};

verus! {

/// Most successor candidates that are read for one task.
pub const SUCCESSOR_ROWS_MAX: usize = 200;

/// The member `key` of a JSON object row.
pub open spec fn field(row: Json, key: Seq<char>) -> Option<Json> {
    match row {
        Json::Object(entries) => member(entries@, key),
        _ => None,
    }
}

/// The text of the member `key` of a row, when it is a text.
pub open spec fn text_field(row: Json, key: Seq<char>) -> Option<Seq<char>> {
    match field(row, key) {
        Some(Json::Text(s)) => Some(s@),
        _ => None,
    }
}

/// The boolean member `key` of a row, when it is a boolean.
pub open spec fn bool_field(row: Json, key: Seq<char>) -> Option<bool> {
    match field(row, key) {
        Some(Json::Bool(b)) => Some(b),
        _ => None,
    }
}

/// Whether a stored Depends On value of task `candidate` is a valid list of
/// distinct task references that names `source`.
pub open spec fn names_source_exactly(value: Json, candidate: u128, source: u128) -> bool {
    match decode_value(value) {
        Some(ValueView::EntityRef(refs)) => match reference_targets(refs, candidate) {
            Some(ids) => ids.no_duplicates() && ids.contains(source),
            None => false,
        },
        _ => false,
    }
}

/// Whether a reverse candidate row's Depends On value mentions `source` at all.
pub open spec fn reverse_row_mentions(row: Json, source: u128) -> bool {
    match field(row, "dependencyValues"@) {
        Some(values) => mentions_entity(values, uuid_text(source)),
        None => false,
    }
}

/// The successor a reverse candidate row stands for: a live task of the same
/// project (`project`) whose Depends On names `source` exactly.
pub open spec fn reverse_row_successor(row: Json, source: u128, project: Option<Seq<char>>) -> Option<
    u128,
> {
    match (text_field(row, "id"@), field(row, "dependencyValues"@)) {
        (Some(text), Some(values)) => match uuid_parse_str(text) {
            Some(candidate) => if bool_field(row, "liveTask"@) == Some(true) && text_field(
                row,
                "projectId"@,
            ) == project && names_source_exactly(values, candidate, source) {
                Some(candidate)
            } else {
                None
            },
            None => None,
        },
        _ => None,
    }
}

/// The successors of `source` named by the rows that mention it.
pub open spec fn successor_set(rows: Seq<Json>, source: u128, project: Option<Seq<char>>) -> Set<
    u128,
> {
    Set::new(
        |c: u128|
            exists|i: int|
                0 <= i < rows.len() && reverse_row_mentions(rows[i], source)
                    && reverse_row_successor(rows[i], source, project) == Some(c),
    )
}

/// Whether some row mentions `source` without being an exact successor.
pub open spec fn successor_missing(rows: Seq<Json>, source: u128, project: Option<Seq<char>>) -> bool {
    exists|i: int|
        0 <= i < rows.len() && reverse_row_mentions(rows[i], source) && reverse_row_successor(
            rows[i],
            source,
            project,
        ) is None
}

/// Whether ids are in strictly ascending order.
pub open spec fn strictly_ascending(ids: Seq<u128>) -> bool {
    forall|a: int, b: int| 0 <= a < b < ids.len() ==> ids[a] < ids[b]
}

/// What the successor reading of `source` in project `project` yields from
/// its reverse candidate rows: the successors in ascending order, each once,
/// and whether some mentioning row is not an exact successor; for a value that
/// is not an array, or more than 200 rows, no successors and the flag.
pub open spec fn successors_read(
    source: u128,
    project: Option<Seq<char>>,
    rows: Json,
    ids: Seq<u128>,
    unavailable: bool,
) -> bool {
    match rows {
        Json::Array(items) => if items@.len() <= SUCCESSOR_ROWS_MAX {
            &&& strictly_ascending(ids)
            &&& ids.to_set() == successor_set(items@, source, project)
            &&& unavailable == successor_missing(items@, source, project)
        } else {
            ids.len() == 0 && unavailable
        },
        _ => ids.len() == 0 && unavailable,
    }
}

/// The text option a project id stands for.
pub open spec fn opt_text(value: Option<&str>) -> Option<Seq<char>> {
    match value {
        Some(s) => Some(s@),
        None => None,
    }
}

fn row_field<'a>(row: &'a Json, key: &str) -> (found: Option<&'a Json>)
    ensures
        match found {
            Some(v) => field(*row, key@) == Some(*v),
            None => field(*row, key@) is None,
        },
{
    match row {
        Json::Object(entries) => get_member(entries, key),
        _ => None,
    }
}

fn row_text<'a>(row: &'a Json, key: &str) -> (found: Option<&'a String>)
    ensures
        match found {
            Some(s) => text_field(*row, key@) == Some(s@),
            None => text_field(*row, key@) is None,
        },
{
    match row_field(row, key) {
        Some(Json::Text(s)) => Some(s),
        _ => None,
    }
}

fn names_source_exactly_exec(value: &Json, candidate: u128, source: u128) -> (exact: bool)
    ensures
        exact == names_source_exactly(*value, candidate, source),
{
    match value_from_json(value) {
        Some(PropertyValue::EntityRef(refs)) => match references_to_targets(&refs, candidate) {
            Ok(ids) => all_distinct(&ids) && contains_id(&ids, source),
            Err(()) => false,
        },
        _ => false,
    }
}

/// Reads one reverse candidate row: whether it mentions `source`, and the
/// successor it stands for.
fn read_reverse_row(row: &Json, source: u128, project_id: Option<&str>) -> (read: (bool, Option<u128>))
    ensures
        read.0 == reverse_row_mentions(*row, source),
        read.1 == reverse_row_successor(*row, source, opt_text(project_id)),
{
    let values = row_field(row, "dependencyValues");
    let mentions = match values {
        Some(v) => json_has_entity_id(v, source),
        None => false,
    };
    let live = match row_field(row, "liveTask") {
        Some(Json::Bool(b)) => *b,
        _ => false,
    };
    let same_project = match (row_text(row, "projectId"), project_id) {
        (Some(text), Some(project)) => text_equals(text.as_str(), project),
        (None, None) => true,
        _ => false,
    };
    let successor = match (row_text(row, "id"), values) {
        (Some(text), Some(v)) => match parse_uuid(text.as_str()) {
            Some(candidate) => if live && same_project && names_source_exactly_exec(
                v,
                candidate,
                source,
            ) {
                Some(candidate)
            } else {
                None
            },
            None => None,
        },
        _ => None,
    };
    (mentions, successor)
}

/// Inserts `id` into a strictly ascending list, keeping it strictly ascending.
pub(crate) fn insert_ascending(ids: &mut Vec<u128>, id: u128)
    requires
        strictly_ascending(old(ids)@),
    ensures
        strictly_ascending(final(ids)@),
        final(ids)@.to_set() == old(ids)@.to_set().insert(id),
        final(ids)@.len() <= old(ids)@.len() + 1,
{
    let mut pos: usize = 0;
    while pos < ids.len() && ids[pos] < id
        invariant
            0 <= pos <= ids.len(),
            forall|a: int| 0 <= a < pos ==> ids@[a] < id,
        decreases ids.len() - pos,
    {
        pos = pos + 1;
    }
    if pos < ids.len() && ids[pos] == id {
        assert(ids@.to_set().insert(id) =~= ids@.to_set());
        return;
    }
    let ghost before = ids@;
    ids.insert(pos, id);
    assert(ids@ == before.insert(pos as int, id));
    assert forall|a: int, b: int| 0 <= a < b < ids@.len() implies ids@[a] < ids@[b] by {
        if b < pos {
        } else if b == pos {
        } else if a < pos {
            assert(before[a] < id);
            assert(id <= before[pos as int]);
            assert(before[pos as int] <= before[b - 1]);
        } else if a == pos {
            assert(id <= before[pos as int]);
            assert(before[pos as int] <= before[b - 1]);
        } else {
        }
    }
    assert(ids@.to_set() =~= before.to_set().insert(id)) by {
        assert forall|x: u128| ids@.to_set().contains(x) implies before.to_set().insert(id).contains(
            x,
        ) by {
            let k = choose|k: int| 0 <= k < ids@.len() && ids@[k] == x;
            if k < pos {
                assert(before[k] == x);
            } else if k > pos {
                assert(before[k - 1] == x);
            }
        }
        assert forall|x: u128| before.to_set().insert(id).contains(x) implies ids@.to_set().contains(
            x,
        ) by {
            if x == id {
                assert(ids@[pos as int] == id);
            } else {
                let k = choose|k: int| 0 <= k < before.len() && before[k] == x;
                if k < pos {
                    assert(ids@[k] == x);
                } else {
                    assert(ids@[k + 1] == x);
                }
            }
        }
    }
}

/// The successors of `source` from its reverse candidate rows, a JSON array of
/// objects with `id`, `projectId`, `liveTask` and `dependencyValues`. Rows that
/// do not mention `source` are skipped; a mentioning row counts when it is a
/// live task of project `project_id` whose Depends On names `source` exactly,
/// and marks the successors unavailable otherwise. The successors come out in
/// ascending order, each once. A value that is not an array, or more than 200
/// rows, yields no successors and the unavailable flag.
pub fn successors_from_rows(source: u128, project_id: Option<&str>, rows: &Json) -> (read: (
    Vec<u128>,
    bool,
))
    ensures
        successors_read(source, opt_text(project_id), *rows, read.0@, read.1),
{
    let items = match rows {
        Json::Array(items) => items,
        _ => {
            return (Vec::new(), true);
        },
    };
    if items.len() > SUCCESSOR_ROWS_MAX {
        return (Vec::new(), true);
    }
    let ghost project = opt_text(project_id);
    let mut successors: Vec<u128> = Vec::new();
    let mut unavailable = false;
    let mut i: usize = 0;
    while i < items.len()
        invariant
            0 <= i <= items.len(),
            items.len() <= SUCCESSOR_ROWS_MAX,
            project == opt_text(project_id),
            successors@.len() <= i,
            strictly_ascending(successors@),
            forall|c: u128|
                successors@.to_set().contains(c) <==> exists|j: int|
                    0 <= j < i && reverse_row_mentions(items@[j], source) && reverse_row_successor(
                        items@[j],
                        source,
                        project,
                    ) == Some(c),
            unavailable <==> exists|j: int|
                0 <= j < i && reverse_row_mentions(items@[j], source) && reverse_row_successor(
                    items@[j],
                    source,
                    project,
                ) is None,
        decreases items.len() - i,
    {
        let (mentions, successor) = read_reverse_row(&items[i], source, project_id);
        let ghost before = successors@;
        if mentions {
            match successor {
                Some(candidate) => {
                    insert_ascending(&mut successors, candidate);
                },
                None => {
                    unavailable = true;
                },
            }
        }
        proof {
            assert forall|c: u128|
                successors@.to_set().contains(c) <==> exists|j: int|
                    0 <= j < i + 1 && reverse_row_mentions(items@[j], source)
                        && reverse_row_successor(items@[j], source, project) == Some(c) by {
                if successors@.to_set().contains(c) {
                    if !before.to_set().contains(c) {
                        assert(mentions && successor == Some(c));
                    } else {
                        let j = choose|j: int|
                            0 <= j < i && reverse_row_mentions(items@[j], source)
                                && reverse_row_successor(items@[j], source, project) == Some(c);
                        assert(0 <= j < i + 1);
                    }
                }
                if exists|j: int|
                    0 <= j < i + 1 && reverse_row_mentions(items@[j], source)
                        && reverse_row_successor(items@[j], source, project) == Some(c) {
                    let j = choose|j: int|
                        0 <= j < i + 1 && reverse_row_mentions(items@[j], source)
                            && reverse_row_successor(items@[j], source, project) == Some(c);
                    if j < i {
                        assert(before.to_set().contains(c));
                    }
                }
            }
        }
        i = i + 1;
    }
    if successors.len() > SUCCESSOR_ROWS_MAX {
        return (Vec::new(), true);
    }
    proof {
        assert(successors@.to_set() =~= successor_set(items@, source, project));
    }
    (successors, unavailable)
}

/// What the snapshot query reports of one task: its dependency readiness and
/// its direct successors.
#[derive(Debug)]
pub struct TaskDependencyRelationsSnapshot {
    pub readiness: TaskDependencyReadiness,
    pub successor_task_ids: Vec<u128>,
    pub has_unavailable_successors: bool,
}

/// Direct dependency relations of a task as shown to a caller.
#[derive(Debug)]
pub struct TaskDependencyRelations {
    pub task_id: u128,
    pub readiness: TaskReadiness,
    pub depends_on_task_ids: Vec<u128>,
    pub blocking_task_ids: Vec<u128>,
    pub has_unavailable_dependencies: bool,
    pub successor_task_ids: Vec<u128>,
    pub has_unavailable_successors: bool,
}

/// Projects a relations snapshot for a caller. `forward_visible` is whether
/// the caller was granted a view receipt for every predecessor, and
/// `successors_visible` the same for every successor. A side that is
/// unavailable or partly hidden is redacted to no ids with its unavailable
/// flag set, and hidden or unavailable predecessors block the task.
pub fn project_dependency_relations(
    snapshot: TaskDependencyRelationsSnapshot,
    forward_visible: bool,
    successors_visible: bool,
) -> (relations: TaskDependencyRelations)
    ensures
        relations.task_id == snapshot.readiness.task_id,
        relations.has_unavailable_dependencies == (snapshot.readiness.has_unavailable_dependencies
            || !forward_visible),
        relations.has_unavailable_dependencies ==> {
            &&& relations.readiness == TaskReadiness::Blocked
            &&& relations.depends_on_task_ids@.len() == 0
            &&& relations.blocking_task_ids@.len() == 0
        },
        !relations.has_unavailable_dependencies ==> {
            &&& relations.readiness == snapshot.readiness.readiness
            &&& relations.depends_on_task_ids@ == snapshot.readiness.depends_on_task_ids@
            &&& relations.blocking_task_ids@ == snapshot.readiness.blocking_task_ids@
        },
        relations.has_unavailable_successors == (snapshot.has_unavailable_successors
            || !successors_visible),
        relations.has_unavailable_successors ==> relations.successor_task_ids@.len() == 0,
        !relations.has_unavailable_successors ==> relations.successor_task_ids@
            == snapshot.successor_task_ids@,
{
    let mut readiness = snapshot.readiness;
    if readiness.has_unavailable_dependencies || !forward_visible {
        readiness.readiness = TaskReadiness::Blocked;
        readiness.depends_on_task_ids.clear();
        readiness.blocking_task_ids.clear();
        readiness.has_unavailable_dependencies = true;
    }
    let successor_unavailable = snapshot.has_unavailable_successors || !successors_visible;
    let successor_ids = if successor_unavailable {
        Vec::new()
    } else {
        snapshot.successor_task_ids
    };
    TaskDependencyRelations {
        task_id: readiness.task_id,
        readiness: readiness.readiness,
        depends_on_task_ids: readiness.depends_on_task_ids,
        blocking_task_ids: readiness.blocking_task_ids,
        has_unavailable_dependencies: readiness.has_unavailable_dependencies,
        successor_task_ids: successor_ids,
        has_unavailable_successors: successor_unavailable,
    }
}

/// One row of the relations snapshot query.
#[derive(Debug)]
pub struct RelationsRow {
    pub task_id: u128,
    /// Whether the task is a live task.
    pub source_available: bool,
    pub project_id: Option<String>,
    /// `ready` or `blocked`.
    pub readiness: String,
    pub depends_on_task_ids: Vec<u128>,
    pub blocking_task_ids: Vec<u128>,
    pub has_unavailable_dependencies: bool,
    /// The reverse candidate rows, a JSON array.
    pub reverse_rows: Json,
}

/// The readiness a row reports: `ready`, or blocked for any other text.
pub open spec fn row_readiness(text: Seq<char>) -> TaskReadiness {
    if text == "ready"@ {
        TaskReadiness::Ready
    } else {
        TaskReadiness::Blocked
    }
}

/// Whether a snapshot is the one a row describes.
pub open spec fn relations_snapshot_of(row: RelationsRow, snapshot: TaskDependencyRelationsSnapshot) -> bool {
    &&& snapshot.readiness@ == (DependencyReadinessView {
        task_id: row.task_id,
        readiness: row_readiness(row.readiness@),
        depends_on_task_ids: row.depends_on_task_ids@,
        blocking_task_ids: row.blocking_task_ids@,
        has_unavailable_dependencies: row.has_unavailable_dependencies,
    })
    &&& successors_read(
        row.task_id,
        opt_seq(row.project_id),
        row.reverse_rows,
        snapshot.successor_task_ids@,
        snapshot.has_unavailable_successors,
    )
}

fn relations_snapshot_from_row(row: &RelationsRow) -> (snapshot: TaskDependencyRelationsSnapshot)
    ensures
        relations_snapshot_of(*row, snapshot),
{
    let readiness = if text_equals(row.readiness.as_str(), "ready") {
        TaskReadiness::Ready
    } else {
        TaskReadiness::Blocked
    };
    let project_id: Option<&str> = match &row.project_id {
        Some(p) => Some(p.as_str()),
        None => None,
    };
    let (successor_task_ids, has_unavailable_successors) = successors_from_rows(
        row.task_id,
        project_id,
        &row.reverse_rows,
    );
    TaskDependencyRelationsSnapshot {
        readiness: TaskDependencyReadiness {
            task_id: row.task_id,
            readiness,
            depends_on_task_ids: row.depends_on_task_ids.clone(),
            blocking_task_ids: row.blocking_task_ids.clone(),
            has_unavailable_dependencies: row.has_unavailable_dependencies,
        },
        successor_task_ids,
        has_unavailable_successors,
    }
}

/// The relations snapshots of the query rows, in order; none when some
/// requested task is not a live task.
pub fn relations_snapshots_from_rows(rows: &Vec<RelationsRow>) -> (snapshots: Option<
    Vec<TaskDependencyRelationsSnapshot>,
>)
    ensures
        (exists|i: int| 0 <= i < rows@.len() && !(#[trigger] rows@[i]).source_available) ==> snapshots
            is None,
        (forall|i: int| 0 <= i < rows@.len() ==> (#[trigger] rows@[i]).source_available) ==> (
        snapshots matches Some(s) && s@.len() == rows@.len() && forall|i: int|
            0 <= i < rows@.len() ==> relations_snapshot_of(#[trigger] rows@[i], s@[i])),
{
    let mut k: usize = 0;
    while k < rows.len()
        invariant
            0 <= k <= rows.len(),
            forall|i: int| 0 <= i < k ==> (#[trigger] rows@[i]).source_available,
        decreases rows.len() - k,
    {
        if !rows[k].source_available {
            return None;
        }
        k = k + 1;
    }
    let mut snapshots: Vec<TaskDependencyRelationsSnapshot> = Vec::new();
    let mut i: usize = 0;
    while i < rows.len()
        invariant
            0 <= i <= rows.len(),
            snapshots@.len() == i,
            forall|j: int| 0 <= j < i ==> relations_snapshot_of(#[trigger] rows@[j], snapshots@[j]),
        decreases rows.len() - i,
    {
        snapshots.push(relations_snapshot_from_row(&rows[i]));
        i = i + 1;
    }
    Some(snapshots)
}

/// The relations snapshots of a batch read, which must come back one per
/// requested task in request order; anything else (or no snapshot at all) is
/// not found.
pub fn relations_in_request_order(
    read: Option<Vec<TaskDependencyRelationsSnapshot>>,
    task_ids: &Vec<u128>,
) -> (ordered: Result<Vec<TaskDependencyRelationsSnapshot>, PropertiesErr>)
    ensures
        match read {
            None => ordered matches Err(PropertiesErr::NotFound),
            Some(s) => if s@.map_values(|r: TaskDependencyRelationsSnapshot| r.readiness.task_id)
                == task_ids@ {
                ordered == Ok::<Vec<TaskDependencyRelationsSnapshot>, PropertiesErr>(s)
            } else {
                ordered matches Err(PropertiesErr::NotFound)
            },
        },
{
    let snapshots = match read {
        Some(s) => s,
        None => {
            return Err(PropertiesErr::NotFound);
        },
    };
    if snapshots.len() != task_ids.len() {
        return Err(PropertiesErr::NotFound);
    }
    let ghost ids = snapshots@.map_values(|r: TaskDependencyRelationsSnapshot| r.readiness.task_id);
    let mut i: usize = 0;
    while i < snapshots.len()
        invariant
            0 <= i <= snapshots.len(),
            snapshots@.len() == task_ids@.len(),
            read == Some(snapshots),
            ids == snapshots@.map_values(|r: TaskDependencyRelationsSnapshot| r.readiness.task_id),
            forall|j: int| 0 <= j < i ==> ids[j] == task_ids@[j],
        decreases snapshots.len() - i,
    {
        if snapshots[i].readiness.task_id != task_ids[i] {
            assert(ids[i as int] != task_ids@[i as int]);
            return Err(PropertiesErr::NotFound);
        }
        i = i + 1;
    }
    assert(ids =~= task_ids@);
    Ok(snapshots)
}

} // verus!
