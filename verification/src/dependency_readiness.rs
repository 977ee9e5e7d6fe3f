//! Direct dependency readiness of a task, from the guarded snapshot of its predecessors.

use vstd::prelude::*;

use crate::ids::{parse_uuid, text_equals, uuid_parse_str};
use crate::json::Json;
use crate::property_value::opt_json;
use crate::task_status::{json_selects_only, selects_only, TaskReadiness};

verus! {

/// Direct dependency readiness of one task.
#[derive(Debug)]
pub struct TaskDependencyReadiness {
    pub task_id: u128,
    pub readiness: TaskReadiness,
    pub depends_on_task_ids: Vec<u128>,
    pub blocking_task_ids: Vec<u128>,
    pub has_unavailable_dependencies: bool,
}

/// Mathematical form of a dependency readiness.
pub struct DependencyReadinessView {
    pub task_id: u128,
    pub readiness: TaskReadiness,
    pub depends_on_task_ids: Seq<u128>,
    pub blocking_task_ids: Seq<u128>,
    pub has_unavailable_dependencies: bool,
}

impl View for TaskDependencyReadiness {
    type V = DependencyReadinessView;

    open spec fn view(&self) -> DependencyReadinessView {
        DependencyReadinessView {
            task_id: self.task_id,
            readiness: self.readiness,
            depends_on_task_ids: self.depends_on_task_ids@,
            blocking_task_ids: self.blocking_task_ids@,
            has_unavailable_dependencies: self.has_unavailable_dependencies,
        }
    }
}

/// The readiness reported when a task's dependencies cannot be read: blocked,
/// with no ids disclosed.
pub open spec fn malformed_readiness_view(task_id: u128) -> DependencyReadinessView {
    DependencyReadinessView {
        task_id,
        readiness: TaskReadiness::Blocked,
        depends_on_task_ids: Seq::empty(),
        blocking_task_ids: Seq::empty(),
        has_unavailable_dependencies: true,
    }
}

/// The readiness reported when a task's dependencies cannot be read: blocked,
/// with no ids disclosed.
pub fn malformed_dependency_readiness(task_id: u128) -> (readiness: TaskDependencyReadiness)
    ensures
        readiness@ == malformed_readiness_view(task_id),
{
    TaskDependencyReadiness {
        task_id,
        readiness: TaskReadiness::Blocked,
        depends_on_task_ids: Vec::new(),
        blocking_task_ids: Vec::new(),
        has_unavailable_dependencies: true,
    }
}

/// One row of the predecessor snapshot: the live task id if the candidate is a
/// live task of the same project, and that task's stored Status value.
#[derive(Debug)]
pub struct PredecessorRow {
    pub live_id: Option<String>,
    pub status_values: Option<Json>,
}

/// Mathematical form of a predecessor row.
pub struct PredecessorRowView {
    pub live_id: Option<Seq<char>>,
    pub status_values: Option<Json>,
}

impl View for PredecessorRow {
    type V = PredecessorRowView;

    open spec fn view(&self) -> PredecessorRowView {
        PredecessorRowView {
            live_id: match self.live_id {
                Some(s) => Some(s@),
                None => None,
            },
            status_values: self.status_values,
        }
    }
}

/// The live predecessor a row describes, and whether its Status is exactly Completed.
pub open spec fn row_predecessor(row: PredecessorRowView, completed: u128) -> Option<(u128, bool)> {
    match row.live_id {
        Some(text) => match uuid_parse_str(text) {
            Some(id) => Some((id, selects_only(row.status_values, completed))),
            None => None,
        },
        None => None,
    }
}

/// Whether predecessor `id` is live, and if so whether it is completed (the
/// last row naming it decides).
pub open spec fn predecessor_state(rows: Seq<PredecessorRowView>, id: u128, completed: u128) -> Option<
    bool,
>
    decreases rows.len(),
{
    if rows.len() == 0 {
        None
    } else {
        match row_predecessor(rows.last(), completed) {
            Some((found, done)) => if found == id {
                Some(done)
            } else {
                predecessor_state(rows.drop_last(), id, completed)
            },
            None => predecessor_state(rows.drop_last(), id, completed),
        }
    }
}

/// The dependencies that are live, in stored order.
pub open spec fn live_dependencies(
    dependencies: Seq<u128>,
    rows: Seq<PredecessorRowView>,
    completed: u128,
) -> Seq<u128>
    decreases dependencies.len(),
{
    if dependencies.len() == 0 {
        Seq::empty()
    } else {
        let prefix = live_dependencies(dependencies.drop_last(), rows, completed);
        if predecessor_state(rows, dependencies.last(), completed) is Some {
            prefix.push(dependencies.last())
        } else {
            prefix
        }
    }
}

/// The live dependencies that are not completed, in stored order.
pub open spec fn blocking_dependencies(
    dependencies: Seq<u128>,
    rows: Seq<PredecessorRowView>,
    completed: u128,
) -> Seq<u128>
    decreases dependencies.len(),
{
    if dependencies.len() == 0 {
        Seq::empty()
    } else {
        let prefix = blocking_dependencies(dependencies.drop_last(), rows, completed);
        if predecessor_state(rows, dependencies.last(), completed) == Some(false) {
            prefix.push(dependencies.last())
        } else {
            prefix
        }
    }
}

/// Readiness discloses only the task's own dependencies: every live
/// dependency is one of them, and every blocking dependency is a live one.
pub proof fn lemma_readiness_lists_only_dependencies(
    dependencies: Seq<u128>,
    rows: Seq<PredecessorRowView>,
    completed: u128,
)
    ensures
        forall|i: int|
            0 <= i < live_dependencies(dependencies, rows, completed).len() ==> dependencies.contains(
                #[trigger] live_dependencies(dependencies, rows, completed)[i],
            ),
        forall|i: int|
            0 <= i < blocking_dependencies(dependencies, rows, completed).len()
                ==> live_dependencies(dependencies, rows, completed).contains(
                #[trigger] blocking_dependencies(dependencies, rows, completed)[i],
            ),
    decreases dependencies.len(),
{
    if dependencies.len() > 0 {
        let prefix = dependencies.drop_last();
        lemma_readiness_lists_only_dependencies(prefix, rows, completed);
        let live = live_dependencies(dependencies, rows, completed);
        let live_before = live_dependencies(prefix, rows, completed);
        let blocking = blocking_dependencies(dependencies, rows, completed);
        let blocking_before = blocking_dependencies(prefix, rows, completed);
        assert forall|i: int| 0 <= i < live.len() implies dependencies.contains(#[trigger] live[i]) by {
            if i < live_before.len() {
                assert(live[i] == live_before[i]);
                let k = choose|k: int| 0 <= k < prefix.len() && prefix[k] == live_before[i];
                assert(dependencies[k] == prefix[k]);
            } else {
                assert(dependencies[dependencies.len() - 1] == live[i]);
            }
        }
        assert forall|i: int| 0 <= i < blocking.len() implies live.contains(#[trigger] blocking[i]) by {
            if i < blocking_before.len() {
                assert(blocking[i] == blocking_before[i]);
                let k = choose|k: int| 0 <= k < live_before.len() && live_before[k] == blocking_before[i];
                assert(live[k] == live_before[k]);
            } else {
                assert(live[live.len() - 1] == blocking[i]);
            }
        }
    }
}

/// Whether some dependency is not a live task of the same project.
pub open spec fn has_unavailable(
    dependencies: Seq<u128>,
    rows: Seq<PredecessorRowView>,
    completed: u128,
) -> bool {
    exists|i: int|
        0 <= i < dependencies.len() && #[trigger] predecessor_state(rows, dependencies[i], completed)
            is None
}

/// Whether a row is a live task of the project whose id is `id`.
pub open spec fn names_live_task(row: PredecessorRowView, id: u128) -> bool {
    row.live_id matches Some(text) && uuid_parse_str(text) == Some(id)
}

/// Whether some row is the live task `id`.
pub open spec fn has_live_row(rows: Seq<PredecessorRowView>, id: u128) -> bool {
    exists|j: int| 0 <= j < rows.len() && names_live_task(#[trigger] rows[j], id)
}

proof fn lemma_predecessor_state_rows(rows: Seq<PredecessorRowView>, id: u128, completed: u128)
    ensures
        (predecessor_state(rows, id, completed) is Some) == has_live_row(rows, id),
        predecessor_state(rows, id, completed) matches Some(done) ==> exists|j: int|
            0 <= j < rows.len() && names_live_task(#[trigger] rows[j], id) && selects_only(
                rows[j].status_values,
                completed,
            ) == done,
    decreases rows.len(),
{
    if rows.len() > 0 {
        let prefix = rows.drop_last();
        let n = rows.len() - 1;
        lemma_predecessor_state_rows(prefix, id, completed);
        assert forall|j: int| 0 <= j < prefix.len() implies prefix[j] == rows[j] by {}
        if has_live_row(prefix, id) {
            let j = choose|j: int| 0 <= j < prefix.len() && names_live_task(#[trigger] prefix[j], id);
            assert(names_live_task(rows[j], id));
        }
        if has_live_row(rows, id) && !names_live_task(rows[n], id) {
            let j = choose|j: int| 0 <= j < rows.len() && names_live_task(#[trigger] rows[j], id);
            assert(j < n);
            assert(names_live_task(prefix[j], id));
        }
        if names_live_task(rows[n], id) {
            assert(rows.last() == rows[n]);
        }
        match predecessor_state(prefix, id, completed) {
            Some(done) => {
                let j = choose|j: int|
                    0 <= j < prefix.len() && names_live_task(#[trigger] prefix[j], id) && selects_only(
                        prefix[j].status_values,
                        completed,
                    ) == done;
                assert(names_live_task(rows[j], id));
            },
            None => {},
        }
    }
}

proof fn lemma_listed_dependencies(deps: Seq<u128>, rows: Seq<PredecessorRowView>, completed: u128)
    ensures
        forall|x: u128|
            #[trigger] live_dependencies(deps, rows, completed).contains(x) == (deps.contains(x)
                && predecessor_state(rows, x, completed) is Some),
        forall|x: u128|
            #[trigger] blocking_dependencies(deps, rows, completed).contains(x) == (deps.contains(x)
                && predecessor_state(rows, x, completed) == Some(false)),
    decreases deps.len(),
{
    if deps.len() > 0 {
        let prefix = deps.drop_last();
        let last = deps.last();
        lemma_listed_dependencies(prefix, rows, completed);
        let live = live_dependencies(deps, rows, completed);
        let live0 = live_dependencies(prefix, rows, completed);
        let blocking = blocking_dependencies(deps, rows, completed);
        let blocking0 = blocking_dependencies(prefix, rows, completed);
        assert(deps == prefix.push(last));
        assert forall|x: u128| deps.contains(x) == (prefix.contains(x) || x == last) by {
            if deps.contains(x) {
                let k = choose|k: int| 0 <= k < deps.len() && deps[k] == x;
                if k < prefix.len() {
                    assert(prefix[k] == x);
                }
            }
            if prefix.contains(x) {
                let k = choose|k: int| 0 <= k < prefix.len() && prefix[k] == x;
                assert(deps[k] == x);
            }
            if x == last {
                assert(deps[deps.len() - 1] == x);
            }
        }
        assert forall|x: u128| live.contains(x) == (deps.contains(x) && predecessor_state(rows, x, completed) is Some) by {
            if predecessor_state(rows, last, completed) is Some {
                assert(live == live0.push(last));
                assert(live.contains(x) == (live0.contains(x) || x == last)) by {
                    if live.contains(x) {
                        let k = choose|k: int| 0 <= k < live.len() && live[k] == x;
                        if k < live0.len() {
                            assert(live0[k] == x);
                        }
                    }
                    if live0.contains(x) {
                        let k = choose|k: int| 0 <= k < live0.len() && live0[k] == x;
                        assert(live[k] == x);
                    }
                    if x == last {
                        assert(live[live.len() - 1] == x);
                    }
                }
            } else {
                assert(live == live0);
            }
        }
        assert forall|x: u128| blocking.contains(x) == (deps.contains(x) && predecessor_state(rows, x, completed) == Some(false)) by {
            if predecessor_state(rows, last, completed) == Some(false) {
                assert(blocking == blocking0.push(last));
                assert(blocking.contains(x) == (blocking0.contains(x) || x == last)) by {
                    if blocking.contains(x) {
                        let k = choose|k: int| 0 <= k < blocking.len() && blocking[k] == x;
                        if k < blocking0.len() {
                            assert(blocking0[k] == x);
                        }
                    }
                    if blocking0.contains(x) {
                        let k = choose|k: int| 0 <= k < blocking0.len() && blocking0[k] == x;
                        assert(blocking[k] == x);
                    }
                    if x == last {
                        assert(blocking[blocking.len() - 1] == x);
                    }
                }
            } else {
                assert(blocking == blocking0);
            }
        }
    }
}

/// What a dependency readiness says about the predecessor rows: a dependency
/// is unavailable exactly when no row is a live task with its id, wherever it
/// stands in the list; the live dependencies are exactly the dependencies
/// with such a row; every blocking dependency has a live row whose Status is
/// not exactly Completed; and the task is ready exactly when nothing blocks
/// and every dependency has a live row, each then with a row whose Status is
/// exactly Completed.
pub proof fn lemma_readiness_reads_the_rows(
    deps: Seq<u128>,
    rows: Seq<PredecessorRowView>,
    completed: u128,
    r: DependencyReadinessView,
)
    requires
        r.depends_on_task_ids == live_dependencies(deps, rows, completed),
        r.blocking_task_ids == blocking_dependencies(deps, rows, completed),
        r.has_unavailable_dependencies == has_unavailable(deps, rows, completed),
        (r.readiness == TaskReadiness::Ready) == (r.blocking_task_ids.len() == 0
            && !r.has_unavailable_dependencies),
    ensures
        r.has_unavailable_dependencies == exists|i: int|
            0 <= i < deps.len() && !has_live_row(rows, #[trigger] deps[i]),
        forall|x: u128|
            #[trigger] r.depends_on_task_ids.contains(x) == (deps.contains(x) && has_live_row(rows, x)),
        forall|x: u128|
            #[trigger] r.blocking_task_ids.contains(x) ==> deps.contains(x) && exists|j: int|
                0 <= j < rows.len() && names_live_task(#[trigger] rows[j], x) && !selects_only(
                    rows[j].status_values,
                    completed,
                ),
        (r.readiness == TaskReadiness::Ready) == (r.blocking_task_ids.len() == 0 && forall|i: int|
            0 <= i < deps.len() ==> has_live_row(rows, #[trigger] deps[i])),
        r.readiness == TaskReadiness::Ready ==> forall|i: int|
            0 <= i < deps.len() ==> exists|j: int|
                0 <= j < rows.len() && names_live_task(#[trigger] rows[j], #[trigger] deps[i])
                    && selects_only(rows[j].status_values, completed),
{
    lemma_listed_dependencies(deps, rows, completed);
    assert forall|x: u128| #![trigger has_live_row(rows, x)] #![trigger predecessor_state(rows, x, completed)]
        (predecessor_state(rows, x, completed) is Some) == has_live_row(rows, x) && (predecessor_state(rows, x, completed) matches Some(done) ==> exists|j: int|
            0 <= j < rows.len() && names_live_task(#[trigger] rows[j], x) && selects_only(
                rows[j].status_values,
                completed,
            ) == done) by {
        lemma_predecessor_state_rows(rows, x, completed);
    }
    if r.has_unavailable_dependencies {
        let i = choose|i: int| 0 <= i < deps.len() && #[trigger] predecessor_state(rows, deps[i], completed) is None;
        assert(!has_live_row(rows, deps[i]));
    }
    if exists|i: int| 0 <= i < deps.len() && !has_live_row(rows, #[trigger] deps[i]) {
        let i = choose|i: int| 0 <= i < deps.len() && !has_live_row(rows, #[trigger] deps[i]);
        assert(predecessor_state(rows, deps[i], completed) is None);
    }
    assert forall|x: u128| #[trigger] r.blocking_task_ids.contains(x) implies deps.contains(x) && exists|j: int|
        0 <= j < rows.len() && names_live_task(#[trigger] rows[j], x) && !selects_only(
            rows[j].status_values,
            completed,
        ) by {
        assert(predecessor_state(rows, x, completed) == Some(false));
    }
    if r.blocking_task_ids.len() == 0 {
        assert forall|i: int| 0 <= i < deps.len() implies predecessor_state(rows, #[trigger] deps[i], completed) != Some(false) by {
            assert(deps.contains(deps[i]));
            if predecessor_state(rows, deps[i], completed) == Some(false) {
                assert(r.blocking_task_ids.contains(deps[i]));
            }
        }
    }
    if r.readiness == TaskReadiness::Ready {
        assert forall|i: int| 0 <= i < deps.len() implies exists|j: int|
            0 <= j < rows.len() && names_live_task(#[trigger] rows[j], #[trigger] deps[i])
                && selects_only(rows[j].status_values, completed) by {
            assert(has_live_row(rows, deps[i]));
            assert(predecessor_state(rows, deps[i], completed) != Some(false));
            assert(predecessor_state(rows, deps[i], completed) == Some(true));
        }
    }
}

fn row_predecessor_exec(row: &PredecessorRow, completed: u128) -> (found: Option<(u128, bool)>)
    ensures
        found == row_predecessor(row@, completed),
{
    match &row.live_id {
        Some(text) => match parse_uuid(text.as_str()) {
            Some(id) => Some(
                (
                    id,
                    json_selects_only(
                        match &row.status_values {
                            Some(v) => Some(v),
                            None => None,
                        },
                        completed,
                    ),
                ),
            ),
            None => None,
        },
        None => None,
    }
}

/// Looks a predecessor up in the snapshot.
pub fn find_predecessor(rows: &Vec<PredecessorRow>, id: u128, completed: u128) -> (state: Option<
    bool,
>)
    ensures
        state == predecessor_state(rows@.map_values(|r: PredecessorRow| r@), id, completed),
{
    let ghost views = rows@.map_values(|r: PredecessorRow| r@);
    let mut k: usize = rows.len();
    assert(views.take(k as int) =~= views);
    while k > 0
        invariant
            k <= rows.len(),
            views == rows@.map_values(|r: PredecessorRow| r@),
            predecessor_state(views, id, completed) == predecessor_state(
                views.take(k as int),
                id,
                completed,
            ),
        decreases k,
    {
        assert(views.take(k as int).drop_last() =~= views.take(k - 1));
        assert(views.take(k as int).last() == rows@[k - 1]@);
        match row_predecessor_exec(&rows[k - 1], completed) {
            Some((found, done)) => {
                if found == id {
                    return Some(done);
                }
            },
            None => {},
        }
        k = k - 1;
    }
    assert(views.take(0) =~= Seq::<PredecessorRowView>::empty());
    None
}

/// Readiness of `task_id` from its dependency ids and the predecessor snapshot:
/// live dependencies in stored order, the incomplete ones among them, and
/// whether any dependency is unavailable; ready exactly when nothing blocks.
pub fn dependency_readiness_from_rows(
    task_id: u128,
    dependency_ids: &Vec<u128>,
    rows: &Vec<PredecessorRow>,
    completed: u128,
) -> (readiness: TaskDependencyReadiness)
    ensures
        readiness.task_id == task_id,
        readiness.depends_on_task_ids@ == live_dependencies(
            dependency_ids@,
            rows@.map_values(|r: PredecessorRow| r@),
            completed,
        ),
        readiness.blocking_task_ids@ == blocking_dependencies(
            dependency_ids@,
            rows@.map_values(|r: PredecessorRow| r@),
            completed,
        ),
        readiness.has_unavailable_dependencies == has_unavailable(
            dependency_ids@,
            rows@.map_values(|r: PredecessorRow| r@),
            completed,
        ),
        (readiness.readiness == TaskReadiness::Ready) == (readiness.blocking_task_ids@.len() == 0
            && !readiness.has_unavailable_dependencies),
        readiness.has_unavailable_dependencies == exists|i: int|
            0 <= i < dependency_ids@.len() && !has_live_row(
                rows@.map_values(|r: PredecessorRow| r@),
                #[trigger] dependency_ids@[i],
            ),
        (readiness.readiness == TaskReadiness::Ready) == (readiness.blocking_task_ids@.len() == 0
            && forall|i: int|
            0 <= i < dependency_ids@.len() ==> has_live_row(
                rows@.map_values(|r: PredecessorRow| r@),
                #[trigger] dependency_ids@[i],
            )),
{
    let ghost views = rows@.map_values(|r: PredecessorRow| r@);
    let mut depends_on_task_ids: Vec<u128> = Vec::new();
    let mut blocking_task_ids: Vec<u128> = Vec::new();
    let mut has_unavailable_dependencies = false;
    let mut i: usize = 0;
    assert(dependency_ids@.take(0) =~= Seq::<u128>::empty());
    while i < dependency_ids.len()
        invariant
            0 <= i <= dependency_ids.len(),
            views == rows@.map_values(|r: PredecessorRow| r@),
            depends_on_task_ids@ == live_dependencies(
                dependency_ids@.take(i as int),
                views,
                completed,
            ),
            blocking_task_ids@ == blocking_dependencies(
                dependency_ids@.take(i as int),
                views,
                completed,
            ),
            has_unavailable_dependencies == has_unavailable(
                dependency_ids@.take(i as int),
                views,
                completed,
            ),
        decreases dependency_ids.len() - i,
    {
        let id = dependency_ids[i];
        let ghost prefix = dependency_ids@.take(i as int);
        let ghost next = dependency_ids@.take(i + 1);
        assert(next.drop_last() =~= prefix);
        assert(next.last() == id);
        match find_predecessor(rows, id, completed) {
            Some(completed_now) => {
                depends_on_task_ids.push(id);
                if !completed_now {
                    blocking_task_ids.push(id);
                }
                assert(has_unavailable(next, views, completed) == has_unavailable(
                    prefix,
                    views,
                    completed,
                )) by {
                    if has_unavailable(next, views, completed) {
                        let j = choose|j: int|
                            0 <= j < next.len() && #[trigger] predecessor_state(
                                views,
                                next[j],
                                completed,
                            ) is None;
                        assert(j < prefix.len());
                        assert(prefix[j] == next[j]);
                    }
                    if has_unavailable(prefix, views, completed) {
                        let j = choose|j: int|
                            0 <= j < prefix.len() && #[trigger] predecessor_state(
                                views,
                                prefix[j],
                                completed,
                            ) is None;
                        assert(next[j] == prefix[j]);
                    }
                }
            },
            None => {
                has_unavailable_dependencies = true;
                assert(predecessor_state(views, next[i as int], completed) is None);
            },
        }
        i = i + 1;
    }
    assert(dependency_ids@.take(i as int) =~= dependency_ids@);
    let readiness = if blocking_task_ids.len() == 0 && !has_unavailable_dependencies {
        TaskReadiness::Ready
    } else {
        TaskReadiness::Blocked
    };
    let result = TaskDependencyReadiness {
        task_id,
        readiness,
        depends_on_task_ids,
        blocking_task_ids,
        has_unavailable_dependencies,
    };
    proof {
        lemma_readiness_reads_the_rows(dependency_ids@, views, completed, result@);
    }
    result
}

/// One row of the project-scoped readiness query: a requested live task of
/// the project (none for the row that only witnesses the project).
#[derive(Debug)]
pub struct ReadinessRow {
    pub task_id: Option<u128>,
    /// `ready` or `blocked`.
    pub readiness: String,
    pub depends_on_task_ids: Vec<u128>,
    pub blocking_task_ids: Vec<u128>,
    pub has_unavailable_dependencies: bool,
}

/// The readiness texts the query produces.
pub open spec fn known_readiness(text: Seq<char>) -> bool {
    text == "ready"@ || text == "blocked"@
}

/// Whether a readiness text is one the query produces.
pub fn known_readiness_text(text: &str) -> (known: bool)
    ensures
        known == known_readiness(text@),
{
    text_equals(text, "ready") || text_equals(text, "blocked")
}

/// The readiness of the task rows, in order, skipping the witness row.
pub open spec fn readiness_of_rows(rows: Seq<ReadinessRow>) -> Seq<DependencyReadinessView>
    decreases rows.len(),
{
    if rows.len() == 0 {
        Seq::empty()
    } else {
        let prefix = readiness_of_rows(rows.drop_last());
        let row = rows.last();
        match row.task_id {
            Some(task_id) => prefix.push(
                DependencyReadinessView {
                    task_id,
                    readiness: if row.readiness@ == "ready"@ {
                        TaskReadiness::Ready
                    } else {
                        TaskReadiness::Blocked
                    },
                    depends_on_task_ids: row.depends_on_task_ids@,
                    blocking_task_ids: row.blocking_task_ids@,
                    has_unavailable_dependencies: row.has_unavailable_dependencies,
                },
            ),
            None => prefix,
        }
    }
}

/// The readiness of the requested tasks from the query rows; none when there
/// is no row at all (the project is not available in the team's scope).
pub fn readiness_from_rows(rows: &Vec<ReadinessRow>) -> (readiness: Option<Vec<TaskDependencyReadiness>>)
    requires
        forall|i: int|
            0 <= i < rows@.len() && (#[trigger] rows@[i]).task_id is Some ==> known_readiness(
                rows@[i].readiness@,
            ),
    ensures
        rows@.len() == 0 ==> readiness is None,
        rows@.len() > 0 ==> (readiness matches Some(r) && r@.map_values(
            |x: TaskDependencyReadiness| x@,
        ) == readiness_of_rows(rows@)),
{
    if rows.len() == 0 {
        return None;
    }
    let mut out: Vec<TaskDependencyReadiness> = Vec::new();
    let mut i: usize = 0;
    assert(rows@.take(0) =~= Seq::<ReadinessRow>::empty());
    while i < rows.len()
        invariant
            0 <= i <= rows.len(),
            out@.map_values(|x: TaskDependencyReadiness| x@) == readiness_of_rows(rows@.take(i as int)),
        decreases rows.len() - i,
    {
        assert(rows@.take(i + 1).drop_last() =~= rows@.take(i as int));
        assert(rows@.take(i + 1).last() == rows@[i as int]);
        let row = &rows[i];
        let ghost before = out@;
        match row.task_id {
            Some(task_id) => {
                let readiness = if text_equals(row.readiness.as_str(), "ready") {
                    TaskReadiness::Ready
                } else {
                    TaskReadiness::Blocked
                };
                out.push(
                    TaskDependencyReadiness {
                        task_id,
                        readiness,
                        depends_on_task_ids: row.depends_on_task_ids.clone(),
                        blocking_task_ids: row.blocking_task_ids.clone(),
                        has_unavailable_dependencies: row.has_unavailable_dependencies,
                    },
                );
                assert(out@.map_values(|x: TaskDependencyReadiness| x@) =~= before.map_values(
                    |x: TaskDependencyReadiness| x@,
                ).push(out@[before.len() as int]@));
            },
            None => {},
        }
        i = i + 1;
    }
    assert(rows@.take(i as int) =~= rows@);
    Some(out)
}

} // verus!
