//! Task notifications: the revalidation of a task-ready event against the
//! current task state, its recipients, and the fan-out of task assignment
//! notifications.

use vstd::prelude::*;

use crate::dependency_readiness::TaskDependencyReadiness;
use crate::ids::{uuid_text, uuid_to_text};
use crate::property_rules::DocumentSubType;
use crate::property_value::{EntityReference, EntityType, RefView};
use crate::status_transition::opt_seq;
use crate::task_status::{StatusOption, TaskGuardState, TaskReadiness};

verus! {

/// What a task-ready event is checked against: the project and the direct
/// dependencies of a live task that is not Canceled and whose Depends On is
/// well formed; nothing otherwise (the event is dropped).
pub open spec fn ready_check_of(state: Option<TaskGuardState>) -> Option<(Option<Seq<char>>, Seq<u128>)> {
    match state {
        None => None,
        Some(state) => if state.status == Some(StatusOption::Canceled) {
            None
        } else {
            match state.dependencies {
                Ok(ids) => Some((opt_seq(state.project_id), ids@)),
                Err(()) => None,
            }
        },
    }
}

/// The dependency readiness read that revalidates a task-ready event, if any.
/// A task whose Depends On is malformed counts as blocked, so it gets none.
pub fn ready_check(state: Option<TaskGuardState>) -> (check: Option<(Option<String>, Vec<u128>)>)
    ensures
        match ready_check_of(state) {
            None => check is None,
            Some((project, ids)) => check matches Some((p, i)) && opt_seq(p) == project && i@ == ids,
        },
{
    match state {
        None => None,
        Some(state) => {
            if state.status == Some(StatusOption::Canceled) {
                None
            } else {
                match state.dependencies {
                    Ok(ids) => Some((state.project_id, ids)),
                    Err(()) => None,
                }
            }
        },
    }
}

/// Whether a revalidated task is still ready, so that its event is delivered.
pub fn still_ready(readiness: &TaskDependencyReadiness) -> (ready: bool)
    ensures
        ready == (readiness.readiness == TaskReadiness::Ready),
{
    readiness.readiness == TaskReadiness::Ready
}

/// The user id text a reference stands for: a reference to a whole User entity.
pub open spec fn user_reference_of(reference: RefView) -> Option<Seq<char>> {
    if reference.entity_type == EntityType::User && reference.specific_message_id is None {
        Some(reference.entity_id)
    } else {
        None
    }
}

/// The candidate user id of an assignee reference; the caller still has to
/// check that it is a well-formed user id.
pub fn user_reference(reference: &EntityReference) -> (user: Option<&String>)
    ensures
        match user {
            Some(u) => user_reference_of(reference@) == Some(u@),
            None => user_reference_of(reference@) is None,
        },
{
    if reference.entity_type == EntityType::User && reference.specific_message_id.is_none() {
        Some(&reference.entity_id)
    } else {
        None
    }
}

/// A list with later repeats of an id removed, keeping first occurrences in order.
pub open spec fn first_occurrences(ids: Seq<Seq<char>>) -> Seq<Seq<char>>
    decreases ids.len(),
{
    if ids.len() == 0 {
        Seq::empty()
    } else {
        let kept = first_occurrences(ids.drop_last());
        if kept.contains(ids.last()) {
            kept
        } else {
            kept.push(ids.last())
        }
    }
}

fn contains_text(ids: &Vec<String>, id: &String) -> (found: bool)
    ensures
        found == ids@.map_values(|s: String| s@).contains(id@),
{
    let ghost views = ids@.map_values(|s: String| s@);
    let mut i: usize = 0;
    while i < ids.len()
        invariant
            0 <= i <= ids.len(),
            views == ids@.map_values(|s: String| s@),
            forall|j: int| 0 <= j < i ==> views[j] != id@,
        decreases ids.len() - i,
    {
        if ids[i] == *id {
            assert(views[i as int] == id@);
            return true;
        }
        i = i + 1;
    }
    false
}

/// The recipients of a notification: each user once, in order of first mention.
pub fn unique_recipients(ids: Vec<String>) -> (unique: Vec<String>)
    ensures
        unique@.map_values(|s: String| s@) == first_occurrences(ids@.map_values(|s: String| s@)),
{
    let ghost views = ids@.map_values(|s: String| s@);
    let mut unique: Vec<String> = Vec::new();
    let mut i: usize = 0;
    assert(views.take(0) =~= Seq::<Seq<char>>::empty());
    while i < ids.len()
        invariant
            0 <= i <= ids.len(),
            views == ids@.map_values(|s: String| s@),
            unique@.map_values(|s: String| s@) == first_occurrences(views.take(i as int)),
        decreases ids.len() - i,
    {
        assert(views.take(i + 1).drop_last() =~= views.take(i as int));
        assert(views.take(i + 1).last() == ids@[i as int]@);
        let ghost before = unique@;
        if !contains_text(&unique, &ids[i]) {
            unique.push(ids[i].clone());
            assert(unique@.map_values(|s: String| s@) =~= before.map_values(|s: String| s@).push(
                ids@[i as int]@,
            ));
        }
        i = i + 1;
    }
    assert(views.take(i as int) =~= views);
    unique
}

/// Current display data and current assignees of a ready task.
#[derive(Debug)]
pub struct TaskReadyNotificationSnapshot {
    pub task_name: String,
    pub recipient_ids: Vec<String>,
}

/// The notification of a ready task: its name and its assignees, each once;
/// none when nobody is assigned.
pub fn ready_notification(task_name: String, assignees: Vec<String>) -> (notification: Option<
    TaskReadyNotificationSnapshot,
>)
    ensures
        first_occurrences(assignees@.map_values(|s: String| s@)).len() == 0 ==> notification is None,
        first_occurrences(assignees@.map_values(|s: String| s@)).len() > 0 ==> (notification matches Some(
            n,
        ) && n.task_name@ == task_name@ && n.recipient_ids@.map_values(|s: String| s@)
            == first_occurrences(assignees@.map_values(|s: String| s@))),
{
    let recipient_ids = unique_recipients(assignees);
    if recipient_ids.len() == 0 {
        None
    } else {
        Some(TaskReadyNotificationSnapshot { task_name, recipient_ids })
    }
}

/// One task assignment notification, to one recipient.
#[derive(Debug)]
pub struct TaskAssignedRequest {
    /// The type of the notified entity: tasks are stored as documents.
    pub entity_type: EntityType,
    /// The notified entity: the task's document id.
    pub document_id: String,
    /// The notification's tag.
    pub tag: String,
    /// The task id carried in the notification's content.
    pub task_id: String,
    pub task_name: Option<String>,
    /// The document subtype carried in the notification's content.
    pub sub_type: Option<DocumentSubType>,
    pub assigned_by: String,
    pub sender_profile_picture_url: Option<String>,
    /// The sender of the notification.
    pub sender_id: Option<String>,
    pub recipient_id: String,
}

/// Whether `r` is the assignment notification of `task_id` to `recipient`.
pub open spec fn assignment_request_of(
    r: TaskAssignedRequest,
    task_id: u128,
    task_name: Option<String>,
    assigned_by: Seq<char>,
    sender_profile_picture_url: Option<String>,
    recipient: Seq<char>,
) -> bool {
    &&& r.entity_type == EntityType::Document
    &&& r.document_id@ == uuid_text(task_id)
    &&& r.tag@ == "task_assigned"@
    &&& r.task_id@ == uuid_text(task_id)
    &&& opt_seq(r.task_name) == opt_seq(task_name)
    &&& r.sub_type == Some(DocumentSubType::Task)
    &&& r.assigned_by@ == assigned_by
    &&& opt_seq(r.sender_profile_picture_url) == opt_seq(sender_profile_picture_url)
    &&& opt_seq(r.sender_id) == Some(assigned_by)
    &&& r.recipient_id@ == recipient
}

fn copy_text(value: &Option<String>) -> (copy: Option<String>)
    ensures
        opt_seq(copy) == opt_seq(*value),
{
    match value {
        Some(s) => Some(s.clone()),
        None => None,
    }
}

/// The task assignment notifications: one per recipient, in order, each
/// tagged `task_assigned`, about the task's document, carrying the task id,
/// the Task subtype, the task name and sender picture when known, and sent by
/// the assigner.
pub fn task_assigned_requests(
    task_id: u128,
    task_name: Option<String>,
    assigned_by: &String,
    sender_profile_picture_url: Option<String>,
    recipient_ids: &Vec<String>,
) -> (requests: Vec<TaskAssignedRequest>)
    ensures
        requests@.len() == recipient_ids@.len(),
        forall|i: int|
            0 <= i < requests@.len() ==> assignment_request_of(
                #[trigger] requests@[i],
                task_id,
                task_name,
                assigned_by@,
                sender_profile_picture_url,
                recipient_ids@[i]@,
            ),
{
    let document_id = uuid_to_text(task_id);
    let mut requests: Vec<TaskAssignedRequest> = Vec::new();
    let mut i: usize = 0;
    while i < recipient_ids.len()
        invariant
            0 <= i <= recipient_ids.len(),
            requests@.len() == i,
            document_id@ == uuid_text(task_id),
            forall|k: int|
                0 <= k < i ==> assignment_request_of(
                    #[trigger] requests@[k],
                    task_id,
                    task_name,
                    assigned_by@,
                    sender_profile_picture_url,
                    recipient_ids@[k]@,
                ),
        decreases recipient_ids.len() - i,
    {
        requests.push(
            TaskAssignedRequest {
                entity_type: EntityType::Document,
                document_id: document_id.clone(),
                tag: "task_assigned".to_owned(),
                task_id: document_id.clone(),
                task_name: copy_text(&task_name),
                sub_type: Some(DocumentSubType::Task),
                assigned_by: assigned_by.clone(),
                sender_profile_picture_url: copy_text(&sender_profile_picture_url),
                sender_id: Some(assigned_by.clone()),
                recipient_id: recipient_ids[i].clone(),
            },
        );
        i = i + 1;
    }
    requests
}

} // verus!
