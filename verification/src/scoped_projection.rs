//! What a caller is shown of the canonical task snapshots: whole relations and
//! counts when every related task is visible to the caller, a redacted
//! "unavailable" answer otherwise.

use vstd::prelude::*;

use crate::dependency_readiness::TaskDependencyReadiness;
use crate::errors::PropertiesErr;
use crate::json::Json;
use crate::property_value::opt_json;
use crate::subtask_hierarchy::{
    contains_id, progress_snapshot_of, subtask_progress_snapshot, ParentRow, SubtaskCandidateRow,
    TaskSubtaskProgressSnapshot,
};
use crate::task_status::StatusVocabulary;
use crate::task_status::TaskReadiness;

verus! {

/// Progress of a task over its live canonical direct subtasks.
#[derive(Debug)]
pub struct TaskSubtaskProgress {
    pub task_id: u128,
    pub completed_subtasks: u32,
    pub total_subtasks: u32,
    pub has_unavailable_subtasks: bool,
}

/// The subtasks that are not Canceled.
pub open spec fn live_subtasks(subtasks: Seq<u128>, canceled: Seq<u128>) -> Seq<u128> {
    subtasks.filter(|id: u128| !canceled.contains(id))
}

/// The subtasks that are not Canceled and are Completed.
pub open spec fn complete_subtasks(subtasks: Seq<u128>, completed: Seq<u128>, canceled: Seq<u128>) -> Seq<
    u128,
> {
    subtasks.filter(|id: u128| !canceled.contains(id) && completed.contains(id))
}

/// Counts the progress of a snapshot that the caller may see whole: totals over
/// the subtasks that are not Canceled, completed among those that are Completed.
fn count_progress(snapshot: &TaskSubtaskProgressSnapshot) -> (counts: (usize, usize))
    ensures
        counts.0 == complete_subtasks(
            snapshot.subtask_ids@,
            snapshot.completed_subtask_ids@,
            snapshot.canceled_subtask_ids@,
        ).len(),
        counts.1 == live_subtasks(snapshot.subtask_ids@, snapshot.canceled_subtask_ids@).len(),
{
    let ids = &snapshot.subtask_ids;
    let ghost canceled = snapshot.canceled_subtask_ids@;
    let ghost completed = snapshot.completed_subtask_ids@;
    let mut live: usize = 0;
    let mut complete: usize = 0;
    let mut i: usize = 0;
    while i < ids.len()
        invariant
            0 <= i <= ids.len(),
            ids@ == snapshot.subtask_ids@,
            canceled == snapshot.canceled_subtask_ids@,
            completed == snapshot.completed_subtask_ids@,
            live == live_subtasks(ids@.take(i as int), canceled).len(),
            complete == complete_subtasks(ids@.take(i as int), completed, canceled).len(),
            complete <= i,
            live <= i,
        decreases ids.len() - i,
    {
        let id = ids[i];
        let is_canceled = contains_id(&snapshot.canceled_subtask_ids, id);
        let is_completed = contains_id(&snapshot.completed_subtask_ids, id);
        proof {
            let next = ids@.take(i + 1);
            assert(next.drop_last() =~= ids@.take(i as int));
            assert(next.last() == id);
            reveal(Seq::filter);
        }
        if !is_canceled {
            live = live + 1;
            if is_completed {
                complete = complete + 1;
            }
        }
        i = i + 1;
    }
    assert(ids@.take(ids@.len() as int) =~= ids@);
    (complete, live)
}

/// Projects a progress snapshot for a caller. `children_visible` is whether the
/// caller was granted a view receipt for every canonical subtask. When the
/// snapshot is unavailable or some subtask is hidden, the answer discloses no
/// counts; otherwise it counts the subtasks that are not Canceled and, among
/// them, those that are Completed.
pub fn project_subtask_progress(snapshot: &TaskSubtaskProgressSnapshot, children_visible: bool) -> (progress:
    TaskSubtaskProgress)
    ensures
        progress.task_id == snapshot.task_id,
        progress.has_unavailable_subtasks == (snapshot.has_unavailable_subtasks || !children_visible),
        progress.has_unavailable_subtasks ==> progress.completed_subtasks == 0
            && progress.total_subtasks == 0,
        !progress.has_unavailable_subtasks ==> {
            &&& progress.completed_subtasks == complete_subtasks(
                snapshot.subtask_ids@,
                snapshot.completed_subtask_ids@,
                snapshot.canceled_subtask_ids@,
            ).len() as u32
            &&& progress.total_subtasks == live_subtasks(
                snapshot.subtask_ids@,
                snapshot.canceled_subtask_ids@,
            ).len() as u32
        },
{
    if snapshot.has_unavailable_subtasks || !children_visible {
        return TaskSubtaskProgress {
            task_id: snapshot.task_id,
            completed_subtasks: 0,
            total_subtasks: 0,
            has_unavailable_subtasks: true,
        };
    }
    let (complete, live) = count_progress(snapshot);
    TaskSubtaskProgress {
        task_id: snapshot.task_id,
        completed_subtasks: complete as u32,
        total_subtasks: live as u32,
        has_unavailable_subtasks: false,
    }
}

/// One row of the progress snapshot query.
#[derive(Debug)]
pub struct ProgressRow {
    pub task_id: u128,
    /// Whether the task is a live task.
    pub source_available: bool,
    pub subtasks_values: Option<Json>,
    pub candidates: Vec<SubtaskCandidateRow>,
    pub parents: Vec<ParentRow>,
}

/// Whether a snapshot is the one a row describes.
pub open spec fn progress_row_snapshot(
    vocabulary: StatusVocabulary,
    row: ProgressRow,
    snapshot: TaskSubtaskProgressSnapshot,
) -> bool {
    progress_snapshot_of(
        row.task_id,
        vocabulary,
        row.subtasks_values,
        row.candidates@.map_values(|c: SubtaskCandidateRow| c@),
        row.parents@.map_values(|p: ParentRow| p@),
        snapshot,
    )
}

/// The progress snapshots of the query rows, in order; none when some
/// requested task is not a live task.
pub fn progress_snapshots_from_rows(vocabulary: &StatusVocabulary, rows: &Vec<ProgressRow>) -> (snapshots:
    Option<Vec<TaskSubtaskProgressSnapshot>>)
    ensures
        (exists|i: int| 0 <= i < rows@.len() && !(#[trigger] rows@[i]).source_available) ==> snapshots
            is None,
        (forall|i: int| 0 <= i < rows@.len() ==> (#[trigger] rows@[i]).source_available) ==> (
        snapshots matches Some(s) && s@.len() == rows@.len() && forall|i: int|
            0 <= i < rows@.len() ==> progress_row_snapshot(*vocabulary, #[trigger] rows@[i], s@[i])),
{
    let mut k: usize = 0;
    while k < rows.len()
        invariant
            0 <= k <= rows.len(),
            forall|i: int| 0 <= i < k ==> (#[trigger] rows@[i]).source_available,
        decreases rows.len() - k,
    {
        if !rows[k].source_available {
            return None;
        }
        k = k + 1;
    }
    let mut snapshots: Vec<TaskSubtaskProgressSnapshot> = Vec::new();
    let mut i: usize = 0;
    while i < rows.len()
        invariant
            0 <= i <= rows.len(),
            snapshots@.len() == i,
            forall|j: int|
                0 <= j < i ==> progress_row_snapshot(*vocabulary, #[trigger] rows@[j], snapshots@[j]),
        decreases rows.len() - i,
    {
        let row = &rows[i];
        let values: Option<&Json> = match &row.subtasks_values {
            Some(v) => Some(v),
            None => None,
        };
        assert(opt_json(values) == row.subtasks_values);
        snapshots.push(
            subtask_progress_snapshot(row.task_id, vocabulary, values, &row.candidates, &row.parents),
        );
        i = i + 1;
    }
    Some(snapshots)
}

/// The progress snapshots of a batch read, which must come back one per
/// requested task in request order; anything else (or no snapshot at all) is
/// not found.
pub fn progress_in_request_order(read: Option<Vec<TaskSubtaskProgressSnapshot>>, task_ids: &Vec<u128>) -> (ordered:
    Result<Vec<TaskSubtaskProgressSnapshot>, PropertiesErr>)
    ensures
        match read {
            None => ordered matches Err(PropertiesErr::NotFound),
            Some(s) => if s@.map_values(|r: TaskSubtaskProgressSnapshot| r.task_id) == task_ids@ {
                ordered == Ok::<Vec<TaskSubtaskProgressSnapshot>, PropertiesErr>(s)
            } else {
                ordered matches Err(PropertiesErr::NotFound)
            },
        },
{
    let snapshots = match read {
        Some(s) => s,
        None => {
            return Err(PropertiesErr::NotFound);
        },
    };
    if snapshots.len() != task_ids.len() {
        return Err(PropertiesErr::NotFound);
    }
    let ghost ids = snapshots@.map_values(|r: TaskSubtaskProgressSnapshot| r.task_id);
    let mut i: usize = 0;
    while i < snapshots.len()
        invariant
            0 <= i <= snapshots.len(),
            snapshots@.len() == task_ids@.len(),
            read == Some(snapshots),
            ids == snapshots@.map_values(|r: TaskSubtaskProgressSnapshot| r.task_id),
            forall|j: int| 0 <= j < i ==> ids[j] == task_ids@[j],
        decreases snapshots.len() - i,
    {
        if snapshots[i].task_id != task_ids[i] {
            assert(ids[i as int] != task_ids@[i as int]);
            return Err(PropertiesErr::NotFound);
        }
        i = i + 1;
    }
    assert(ids =~= task_ids@);
    Ok(snapshots)
}

} // verus!
