//! Atomic replacements of the task hierarchy (Parent Task and Subtasks),
//! keeping both sides of every edge in step, as machines that say which
//! database step to take next and decide from each answer.

use vstd::prelude::*;

use crate::dependency_relations::strictly_ascending;
use crate::dependency_write::{locked_set, locked_task_ids, task_list_value, task_list_view};
use crate::status_transition::TaskLock;
use crate::ids::{parse_uuid, uuid_parse_str, uuid_text, uuid_to_text};
use crate::property_value::{EntityReference, EntityType, PropertyValue, RefView, ValueView};
use crate::subtask_hierarchy::{all_distinct, contains_id};

verus! {

/// The result of a hierarchy replacement; `S` is the written property.
#[derive(Debug)]
pub enum TaskHierarchyMutationOutcome<S> {
    Updated(S),
    /// A task is not a live task of the project, or a hierarchy row is missing.
    Unavailable,
    /// The change would make a task its own ancestor.
    Cycle,
}

/// Mathematical form of a hierarchy outcome.
pub enum HierarchyOutcomeView<S> {
    Updated(S),
    Unavailable,
    Cycle,
}

impl<S> View for TaskHierarchyMutationOutcome<S> {
    type V = HierarchyOutcomeView<S>;

    open spec fn view(&self) -> HierarchyOutcomeView<S> {
        match self {
            TaskHierarchyMutationOutcome::Updated(s) => HierarchyOutcomeView::Updated(*s),
            TaskHierarchyMutationOutcome::Unavailable => HierarchyOutcomeView::Unavailable,
            TaskHierarchyMutationOutcome::Cycle => HierarchyOutcomeView::Cycle,
        }
    }
}

/// A list without every occurrence of `child`.
pub open spec fn without(ids: Seq<u128>, child: u128) -> Seq<u128> {
    ids.filter(|id: u128| id != child)
}

/// A list with `child` appended unless it is already there.
pub open spec fn with_child(ids: Seq<u128>, child: u128) -> Seq<u128> {
    if ids.contains(child) {
        ids
    } else {
        ids.push(child)
    }
}

/// The tasks of `current` that `requested` no longer lists, in order.
pub open spec fn no_longer_listed(current: Seq<u128>, requested: Seq<u128>) -> Seq<u128> {
    current.filter(|id: u128| !requested.contains(id))
}

/// Removes every occurrence of `child` from a Subtasks list, keeping the order.
pub fn remove_child(ids: &Vec<u128>, child: u128) -> (kept: Vec<u128>)
    ensures
        kept@ == without(ids@, child),
{
    let mut kept: Vec<u128> = Vec::new();
    let mut i: usize = 0;
    while i < ids.len()
        invariant
            0 <= i <= ids.len(),
            kept@ == without(ids@.take(i as int), child),
        decreases ids.len() - i,
    {
        proof {
            assert(ids@.take(i + 1).drop_last() =~= ids@.take(i as int));
            reveal(Seq::filter);
        }
        if ids[i] != child {
            kept.push(ids[i]);
        }
        i = i + 1;
    }
    assert(ids@.take(ids@.len() as int) =~= ids@);
    kept
}

/// Appends `child` to a Subtasks list unless it is already listed.
pub fn append_child(ids: Vec<u128>, child: u128) -> (appended: Vec<u128>)
    ensures
        appended@ == with_child(ids@, child),
{
    let mut ids = ids;
    if !contains_id(&ids, child) {
        ids.push(child);
    }
    ids
}

/// The tasks of a current Subtasks list that a new list no longer names, in order.
pub fn removed_subtasks(current: &Vec<u128>, requested: &Vec<u128>) -> (removed: Vec<u128>)
    ensures
        removed@ == no_longer_listed(current@, requested@),
{
    let mut removed: Vec<u128> = Vec::new();
    let mut i: usize = 0;
    while i < current.len()
        invariant
            0 <= i <= current.len(),
            removed@ == no_longer_listed(current@.take(i as int), requested@),
        decreases current.len() - i,
    {
        proof {
            assert(current@.take(i + 1).drop_last() =~= current@.take(i as int));
            reveal(Seq::filter);
        }
        if !contains_id(requested, current[i]) {
            removed.push(current[i]);
        }
        i = i + 1;
    }
    assert(current@.take(current@.len() as int) =~= current@);
    removed
}

/// The Parent Task value for a parent: a single task reference, or none to clear it.
pub open spec fn parent_view(parent: Option<u128>) -> Option<ValueView> {
    match parent {
        Some(id) => task_list_view(seq![id]),
        None => None,
    }
}

/// Builds the Parent Task value for a parent.
pub fn parent_value(parent: Option<u128>) -> (value: Option<PropertyValue>)
    ensures
        match value {
            Some(v) => parent_view(parent) == Some(v@),
            None => parent_view(parent) is None,
        },
{
    match parent {
        Some(id) => {
            let ids = vec![id];
            assert(ids@ =~= seq![id]);
            task_list_value(&ids)
        },
        None => None,
    }
}

/// The task ids of stored texts, all of which must be UUIDs.
pub open spec fn task_ids_of(texts: Seq<Seq<char>>) -> Option<Seq<u128>>
    decreases texts.len(),
{
    if texts.len() == 0 {
        Some(Seq::empty())
    } else {
        match (task_ids_of(texts.drop_last()), uuid_parse_str(texts.last())) {
            (Some(prefix), Some(id)) => Some(prefix.push(id)),
            _ => None,
        }
    }
}

proof fn lemma_task_ids_prefix_fails(texts: Seq<Seq<char>>, k: int)
    requires
        0 <= k <= texts.len(),
        task_ids_of(texts.take(k)) is None,
    ensures
        task_ids_of(texts) is None,
    decreases texts.len() - k,
{
    if k < texts.len() {
        assert(texts.take(k + 1).drop_last() =~= texts.take(k));
        lemma_task_ids_prefix_fails(texts, k + 1);
    } else {
        assert(texts.take(k) =~= texts);
    }
}

/// Parses stored task ids; one text that is not a UUID fails the whole read.
pub fn parse_task_ids(texts: &Vec<String>) -> (ids: Option<Vec<u128>>)
    ensures
        match ids {
            Some(ids) => task_ids_of(texts@.map_values(|t: String| t@)) == Some(ids@),
            None => task_ids_of(texts@.map_values(|t: String| t@)) is None,
        },
{
    let ghost views = texts@.map_values(|t: String| t@);
    let mut ids: Vec<u128> = Vec::new();
    let mut i: usize = 0;
    assert(views.take(0) =~= Seq::<Seq<char>>::empty());
    while i < texts.len()
        invariant
            0 <= i <= texts.len(),
            views == texts@.map_values(|t: String| t@),
            task_ids_of(views.take(i as int)) == Some(ids@),
        decreases texts.len() - i,
    {
        assert(views.take(i + 1).drop_last() =~= views.take(i as int));
        assert(views.take(i + 1).last() == texts@[i as int]@);
        match parse_uuid(texts[i].as_str()) {
            Some(id) => {
                ids.push(id);
            },
            None => {
                proof {
                    lemma_task_ids_prefix_fails(views, i + 1);
                }
                return None;
            },
        }
        i = i + 1;
    }
    assert(views.take(i as int) =~= views);
    Some(ids)
}

/// Parses the stored parent id of a task: none when there is no parent, an
/// error when the stored text is not a UUID.
pub fn parse_parent_id(text: Option<String>) -> (parent: Result<Option<u128>, ()>)
    ensures
        match text {
            None => parent == Ok::<Option<u128>, ()>(None),
            Some(t) => match uuid_parse_str(t@) {
                Some(id) => parent == Ok::<Option<u128>, ()>(Some(id)),
                None => parent is Err,
            },
        },
{
    match text {
        None => Ok(None),
        Some(t) => match parse_uuid(t.as_str()) {
            Some(id) => Ok(Some(id)),
            None => Err(()),
        },
    }
}

/// Why a hierarchy replacement is abandoned with an error.
#[derive(Debug, Clone, Copy, PartialEq, Eq, Structural)]
pub enum HierarchyFault {
    /// The requested Subtasks list names a task twice.
    DuplicateReferences,
    /// A parent's Subtasks row that must exist was not there to update.
    MissingSubtasksRow,
}

/// What the database answered to the last action.
#[derive(Debug)]
pub enum HierarchyEvent<S> {
    /// The replacement starts.
    Begin,
    /// The hierarchy lock is held.
    Locked,
    /// How many of the requested tasks were locked as live tasks of the project.
    LiveTasks(usize),
    /// Whether the proposed parent already descends from the child.
    CycleFound(bool),
    /// The task's current parent.
    ParentRead(Option<u128>),
    /// A task's current Subtasks list.
    SubtasksRead(Vec<u128>),
    /// Whether the Subtasks row existed and was written.
    SubtasksWritten(bool),
    /// The written Parent Task property, or none when the row did not exist.
    ParentWritten(Option<S>),
    /// The source's written Subtasks property, or none when the row did not exist.
    SubtasksStored(Option<S>),
    /// The transaction committed.
    Committed,
}

/// What the caller must do next.
#[derive(Debug)]
pub enum HierarchyAction<S> {
    /// Begin the transaction and take a lock.
    AcquireLock(TaskLock),
    /// Lock these tasks where they are live tasks of the source's project.
    LockLiveTasks { task_ids: Vec<u128> },
    /// Check whether `parent` already descends from `child` along Parent Task edges.
    CheckParentCycle { child: u128, parent: u128 },
    /// Read a task's current parent.
    ReadParent { task_id: u128 },
    /// Read a task's current Subtasks list.
    ReadSubtasks { task_id: u128 },
    /// Overwrite a task's existing Subtasks row (none clears it).
    WriteSubtasks { task_id: u128, value: Option<PropertyValue> },
    /// Overwrite a task's existing Parent Task row (none clears it).
    WriteParent { task_id: u128, value: Option<PropertyValue> },
    /// Commit the transaction.
    Commit,
    /// The replacement ends with this outcome (uncommitted work is rolled back).
    Finish(TaskHierarchyMutationOutcome<S>),
    /// The replacement is abandoned with an error (uncommitted work is rolled back).
    Fail(HierarchyFault),
    /// The event does not belong to the current phase; nothing happens.
    Ignore,
}

/// Mathematical form of a hierarchy action.
pub enum HierarchyActionView<S> {
    AcquireLock(TaskLock),
    LockLiveTasks { task_ids: Seq<u128> },
    CheckParentCycle { child: u128, parent: u128 },
    ReadParent { task_id: u128 },
    ReadSubtasks { task_id: u128 },
    WriteSubtasks { task_id: u128, value: Option<ValueView> },
    WriteParent { task_id: u128, value: Option<ValueView> },
    Commit,
    Finish(HierarchyOutcomeView<S>),
    Fail(HierarchyFault),
    Ignore,
}

/// The view of an optional value.
pub open spec fn opt_value(value: Option<PropertyValue>) -> Option<ValueView> {
    match value {
        Some(v) => Some(v@),
        None => None,
    }
}

impl<S> View for HierarchyAction<S> {
    type V = HierarchyActionView<S>;

    open spec fn view(&self) -> HierarchyActionView<S> {
        match self {
            HierarchyAction::AcquireLock(lock) => HierarchyActionView::AcquireLock(*lock),
            HierarchyAction::LockLiveTasks { task_ids } => HierarchyActionView::LockLiveTasks {
                task_ids: task_ids@,
            },
            HierarchyAction::CheckParentCycle { child, parent } =>
                HierarchyActionView::CheckParentCycle { child: *child, parent: *parent },
            HierarchyAction::ReadParent { task_id } => HierarchyActionView::ReadParent {
                task_id: *task_id,
            },
            HierarchyAction::ReadSubtasks { task_id } => HierarchyActionView::ReadSubtasks {
                task_id: *task_id,
            },
            HierarchyAction::WriteSubtasks { task_id, value } => HierarchyActionView::WriteSubtasks {
                task_id: *task_id,
                value: opt_value(*value),
            },
            HierarchyAction::WriteParent { task_id, value } => HierarchyActionView::WriteParent {
                task_id: *task_id,
                value: opt_value(*value),
            },
            HierarchyAction::Commit => HierarchyActionView::Commit,
            HierarchyAction::Finish(outcome) => HierarchyActionView::Finish(outcome@),
            HierarchyAction::Fail(fault) => HierarchyActionView::Fail(*fault),
            HierarchyAction::Ignore => HierarchyActionView::Ignore,
        }
    }
}

/// Where a Parent Task replacement stands.
#[derive(Debug, Clone, Copy, PartialEq, Eq, Structural)]
pub enum LinkParentPhase {
    Start,
    AwaitLock,
    AwaitLiveTasks,
    AwaitCycleCheck,
    AwaitOldParent,
    AwaitOldParentSubtasks,
    AwaitOldParentWrite,
    AwaitParentWrite,
    AwaitNewParentSubtasks,
    AwaitNewParentWrite,
    AwaitCommit,
    Done,
}

/// Mathematical form of a Parent Task replacement.
pub struct LinkParentView<S> {
    pub task_id: u128,
    pub parent: Option<u128>,
    pub locked_ids: Seq<u128>,
    pub phase: LinkParentPhase,
    pub old_parent: Option<u128>,
    pub live_checked: bool,
    pub cycle_checked: bool,
    pub property: Option<S>,
}

/// One atomic replacement of a task's Parent Task, which also moves the task
/// between the two parents' Subtasks lists.
pub struct LinkParent<S> {
    task_id: u128,
    parent: Option<u128>,
    locked_ids: Vec<u128>,
    phase: LinkParentPhase,
    old_parent: Option<u128>,
    live_checked: bool,
    cycle_checked: bool,
    property: Option<S>,
}

impl<S> View for LinkParent<S> {
    type V = LinkParentView<S>;

    closed spec fn view(&self) -> LinkParentView<S> {
        LinkParentView {
            task_id: self.task_id,
            parent: self.parent,
            locked_ids: self.locked_ids@,
            phase: self.phase,
            old_parent: self.old_parent,
            live_checked: self.live_checked,
            cycle_checked: self.cycle_checked,
            property: self.property,
        }
    }
}

/// The write of the task's own Parent Task row.
pub open spec fn write_own_parent<S>(v: LinkParentView<S>) -> (LinkParentView<S>, HierarchyActionView<S>) {
    (
        LinkParentView { phase: LinkParentPhase::AwaitParentWrite, ..v },
        HierarchyActionView::WriteParent { task_id: v.task_id, value: parent_view(v.parent) },
    )
}

/// The read of the current parent, once the checks have passed.
pub open spec fn read_old_parent<S>(v: LinkParentView<S>) -> (LinkParentView<S>, HierarchyActionView<S>) {
    (
        LinkParentView { phase: LinkParentPhase::AwaitOldParent, ..v },
        HierarchyActionView::ReadParent { task_id: v.task_id },
    )
}

/// The next state and action of a Parent Task replacement after an event.
pub open spec fn link_parent_step<S>(v: LinkParentView<S>, e: HierarchyEvent<S>) -> (
    LinkParentView<S>,
    HierarchyActionView<S>,
) {
    match (v.phase, e) {
        (LinkParentPhase::Start, HierarchyEvent::Begin) => if v.parent == Some(v.task_id) {
            (
                LinkParentView { phase: LinkParentPhase::Done, ..v },
                HierarchyActionView::Finish(HierarchyOutcomeView::Cycle),
            )
        } else {
            (
                LinkParentView { phase: LinkParentPhase::AwaitLock, ..v },
                HierarchyActionView::AcquireLock(TaskLock::Hierarchy),
            )
        },
        (LinkParentPhase::AwaitLock, HierarchyEvent::Locked) => (
            LinkParentView { phase: LinkParentPhase::AwaitLiveTasks, ..v },
            HierarchyActionView::LockLiveTasks { task_ids: v.locked_ids },
        ),
        (LinkParentPhase::AwaitLiveTasks, HierarchyEvent::LiveTasks(count)) => if count
            != v.locked_ids.len() {
            (
                LinkParentView { phase: LinkParentPhase::Done, ..v },
                HierarchyActionView::Finish(HierarchyOutcomeView::Unavailable),
            )
        } else {
            let live = LinkParentView { live_checked: true, ..v };
            match v.parent {
                Some(parent) => (
                    LinkParentView { phase: LinkParentPhase::AwaitCycleCheck, ..live },
                    HierarchyActionView::CheckParentCycle { child: v.task_id, parent },
                ),
                None => read_old_parent(live),
            }
        },
        (LinkParentPhase::AwaitCycleCheck, HierarchyEvent::CycleFound(found)) => if found {
            (
                LinkParentView { phase: LinkParentPhase::Done, ..v },
                HierarchyActionView::Finish(HierarchyOutcomeView::Cycle),
            )
        } else {
            read_old_parent(LinkParentView { cycle_checked: true, ..v })
        },
        (LinkParentPhase::AwaitOldParent, HierarchyEvent::ParentRead(old)) => {
            let read = LinkParentView { old_parent: old, ..v };
            match old {
                Some(old_id) => if Some(old_id) != v.parent {
                    (
                        LinkParentView { phase: LinkParentPhase::AwaitOldParentSubtasks, ..read },
                        HierarchyActionView::ReadSubtasks { task_id: old_id },
                    )
                } else {
                    write_own_parent(read)
                },
                None => write_own_parent(read),
            }
        },
        (LinkParentPhase::AwaitOldParentSubtasks, HierarchyEvent::SubtasksRead(ids)) =>
            match v.old_parent {
            Some(old_id) => (
                LinkParentView { phase: LinkParentPhase::AwaitOldParentWrite, ..v },
                HierarchyActionView::WriteSubtasks {
                    task_id: old_id,
                    value: task_list_view(without(ids@, v.task_id)),
                },
            ),
            None => (v, HierarchyActionView::Ignore),
        },
        (LinkParentPhase::AwaitOldParentWrite, HierarchyEvent::SubtasksWritten(written)) =>
            if !written {
            (
                LinkParentView { phase: LinkParentPhase::Done, ..v },
                HierarchyActionView::Fail(HierarchyFault::MissingSubtasksRow),
            )
        } else {
            write_own_parent(v)
        },
        (LinkParentPhase::AwaitParentWrite, HierarchyEvent::ParentWritten(property)) =>
            match property {
            None => (
                LinkParentView { phase: LinkParentPhase::Done, ..v },
                HierarchyActionView::Finish(HierarchyOutcomeView::Unavailable),
            ),
            Some(written) => {
                let stored = LinkParentView { property: Some(written), ..v };
                match v.parent {
                    Some(parent) => (
                        LinkParentView { phase: LinkParentPhase::AwaitNewParentSubtasks, ..stored },
                        HierarchyActionView::ReadSubtasks { task_id: parent },
                    ),
                    None => (
                        LinkParentView { phase: LinkParentPhase::AwaitCommit, ..stored },
                        HierarchyActionView::Commit,
                    ),
                }
            },
        },
        (LinkParentPhase::AwaitNewParentSubtasks, HierarchyEvent::SubtasksRead(ids)) =>
            match v.parent {
            Some(parent) => (
                LinkParentView { phase: LinkParentPhase::AwaitNewParentWrite, ..v },
                HierarchyActionView::WriteSubtasks {
                    task_id: parent,
                    value: task_list_view(with_child(ids@, v.task_id)),
                },
            ),
            None => (v, HierarchyActionView::Ignore),
        },
        (LinkParentPhase::AwaitNewParentWrite, HierarchyEvent::SubtasksWritten(written)) =>
            if !written {
            (
                LinkParentView { phase: LinkParentPhase::Done, ..v },
                HierarchyActionView::Fail(HierarchyFault::MissingSubtasksRow),
            )
        } else {
            (LinkParentView { phase: LinkParentPhase::AwaitCommit, ..v }, HierarchyActionView::Commit)
        },
        (LinkParentPhase::AwaitCommit, HierarchyEvent::Committed) => match v.property {
            Some(written) => (
                LinkParentView { phase: LinkParentPhase::Done, property: None, ..v },
                HierarchyActionView::Finish(HierarchyOutcomeView::Updated(written)),
            ),
            None => (v, HierarchyActionView::Ignore),
        },
        _ => (v, HierarchyActionView::Ignore),
    }
}

impl<S> LinkParent<S> {
    /// A fresh replacement of the Parent Task of `task_id` by `parent` (none clears it).
    pub fn new(task_id: u128, parent: Option<u128>) -> (link: Self)
        ensures
            link@.task_id == task_id,
            link@.parent == parent,
            strictly_ascending(link@.locked_ids),
            link@.locked_ids.to_set() == locked_set(
                task_id,
                match parent {
                    Some(p) => seq![p],
                    None => Seq::empty(),
                },
            ),
            link@.phase == LinkParentPhase::Start,
            link@.old_parent is None,
            !link@.live_checked,
            !link@.cycle_checked,
            link@.property is None,
    {
        let mut candidates: Vec<u128> = Vec::new();
        match parent {
            Some(p) => candidates.push(p),
            None => {},
        }
        assert(candidates@ =~= match parent {
            Some(p) => seq![p],
            None => Seq::<u128>::empty(),
        });
        let locked_ids = locked_task_ids(task_id, &candidates);
        LinkParent {
            task_id,
            parent,
            locked_ids,
            phase: LinkParentPhase::Start,
            old_parent: None,
            live_checked: false,
            cycle_checked: false,
            property: None,
        }
    }

    /// Where the replacement stands.
    pub fn phase(&self) -> (phase: LinkParentPhase)
        ensures
            phase == self@.phase,
    {
        self.phase
    }

    fn write_own_parent_exec(&mut self) -> (action: HierarchyAction<S>)
        ensures
            (final(self)@, action@) == write_own_parent(old(self)@),
    {
        self.phase = LinkParentPhase::AwaitParentWrite;
        HierarchyAction::WriteParent { task_id: self.task_id, value: parent_value(self.parent) }
    }

    /// Advances the replacement by one database answer and says what to do next.
    pub fn step(&mut self, event: HierarchyEvent<S>) -> (action: HierarchyAction<S>)
        ensures
            (final(self)@, action@) == link_parent_step(old(self)@, event),
    {
        match (self.phase, event) {
            (LinkParentPhase::Start, HierarchyEvent::Begin) => {
                if self.parent == Some(self.task_id) {
                    self.phase = LinkParentPhase::Done;
                    HierarchyAction::Finish(TaskHierarchyMutationOutcome::Cycle)
                } else {
                    self.phase = LinkParentPhase::AwaitLock;
                    HierarchyAction::AcquireLock(TaskLock::Hierarchy)
                }
            },
            (LinkParentPhase::AwaitLock, HierarchyEvent::Locked) => {
                self.phase = LinkParentPhase::AwaitLiveTasks;
                HierarchyAction::LockLiveTasks { task_ids: self.locked_ids.clone() }
            },
            (LinkParentPhase::AwaitLiveTasks, HierarchyEvent::LiveTasks(count)) => {
                if count != self.locked_ids.len() {
                    self.phase = LinkParentPhase::Done;
                    HierarchyAction::Finish(TaskHierarchyMutationOutcome::Unavailable)
                } else {
                    self.live_checked = true;
                    match self.parent {
                        Some(parent) => {
                            self.phase = LinkParentPhase::AwaitCycleCheck;
                            HierarchyAction::CheckParentCycle { child: self.task_id, parent }
                        },
                        None => {
                            self.phase = LinkParentPhase::AwaitOldParent;
                            HierarchyAction::ReadParent { task_id: self.task_id }
                        },
                    }
                }
            },
            (LinkParentPhase::AwaitCycleCheck, HierarchyEvent::CycleFound(found)) => {
                if found {
                    self.phase = LinkParentPhase::Done;
                    HierarchyAction::Finish(TaskHierarchyMutationOutcome::Cycle)
                } else {
                    self.cycle_checked = true;
                    self.phase = LinkParentPhase::AwaitOldParent;
                    HierarchyAction::ReadParent { task_id: self.task_id }
                }
            },
            (LinkParentPhase::AwaitOldParent, HierarchyEvent::ParentRead(old)) => {
                self.old_parent = old;
                match old {
                    Some(old_id) => {
                        if Some(old_id) != self.parent {
                            self.phase = LinkParentPhase::AwaitOldParentSubtasks;
                            HierarchyAction::ReadSubtasks { task_id: old_id }
                        } else {
                            self.write_own_parent_exec()
                        }
                    },
                    None => self.write_own_parent_exec(),
                }
            },
            (LinkParentPhase::AwaitOldParentSubtasks, HierarchyEvent::SubtasksRead(ids)) => {
                match self.old_parent {
                    Some(old_id) => {
                        self.phase = LinkParentPhase::AwaitOldParentWrite;
                        let kept = remove_child(&ids, self.task_id);
                        HierarchyAction::WriteSubtasks { task_id: old_id, value: task_list_value(&kept) }
                    },
                    None => HierarchyAction::Ignore,
                }
            },
            (LinkParentPhase::AwaitOldParentWrite, HierarchyEvent::SubtasksWritten(written)) => {
                if !written {
                    self.phase = LinkParentPhase::Done;
                    HierarchyAction::Fail(HierarchyFault::MissingSubtasksRow)
                } else {
                    self.write_own_parent_exec()
                }
            },
            (LinkParentPhase::AwaitParentWrite, HierarchyEvent::ParentWritten(property)) => {
                match property {
                    None => {
                        self.phase = LinkParentPhase::Done;
                        HierarchyAction::Finish(TaskHierarchyMutationOutcome::Unavailable)
                    },
                    Some(written) => {
                        self.property = Some(written);
                        match self.parent {
                            Some(parent) => {
                                self.phase = LinkParentPhase::AwaitNewParentSubtasks;
                                HierarchyAction::ReadSubtasks { task_id: parent }
                            },
                            None => {
                                self.phase = LinkParentPhase::AwaitCommit;
                                HierarchyAction::Commit
                            },
                        }
                    },
                }
            },
            (LinkParentPhase::AwaitNewParentSubtasks, HierarchyEvent::SubtasksRead(ids)) => {
                match self.parent {
                    Some(parent) => {
                        self.phase = LinkParentPhase::AwaitNewParentWrite;
                        let appended = append_child(ids, self.task_id);
                        HierarchyAction::WriteSubtasks {
                            task_id: parent,
                            value: task_list_value(&appended),
                        }
                    },
                    None => HierarchyAction::Ignore,
                }
            },
            (LinkParentPhase::AwaitNewParentWrite, HierarchyEvent::SubtasksWritten(written)) => {
                if !written {
                    self.phase = LinkParentPhase::Done;
                    HierarchyAction::Fail(HierarchyFault::MissingSubtasksRow)
                } else {
                    self.phase = LinkParentPhase::AwaitCommit;
                    HierarchyAction::Commit
                }
            },
            (LinkParentPhase::AwaitCommit, HierarchyEvent::Committed) => {
                if self.property.is_some() {
                    let written = self.property.take().unwrap();
                    self.phase = LinkParentPhase::Done;
                    HierarchyAction::Finish(TaskHierarchyMutationOutcome::Updated(written))
                } else {
                    HierarchyAction::Ignore
                }
            },
            _ => HierarchyAction::Ignore,
        }
    }
}

/// Where a Subtasks replacement stands; indices are positions in the
/// requested list, or in the list of children that are no longer listed.
#[derive(Debug, Clone, Copy, PartialEq, Eq, Structural)]
pub enum LinkSubtasksPhase {
    Start,
    AwaitLock,
    AwaitLiveTasks,
    AwaitCycleCheck(usize),
    AwaitCurrentSubtasks,
    AwaitSubtasksWrite,
    AwaitChildParent(usize),
    AwaitOldParentSubtasks(usize),
    AwaitOldParentWrite(usize),
    AwaitChildParentWrite(usize),
    AwaitRemovedParent(usize),
    AwaitRemovedParentWrite(usize),
    AwaitCommit,
    Done,
}

/// Mathematical form of a Subtasks replacement.
pub struct LinkSubtasksView<S> {
    pub task_id: u128,
    pub subtask_ids: Seq<u128>,
    pub locked_ids: Seq<u128>,
    pub phase: LinkSubtasksPhase,
    pub removed: Seq<u128>,
    pub old_parent: Option<u128>,
    pub live_checked: bool,
    pub property: Option<S>,
}

/// One atomic replacement of a task's Subtasks list, which also points each
/// listed child's Parent Task at the task (taking it out of its former
/// parent's list) and clears the Parent Task of children no longer listed.
pub struct LinkSubtasks<S> {
    task_id: u128,
    subtask_ids: Vec<u128>,
    locked_ids: Vec<u128>,
    phase: LinkSubtasksPhase,
    removed: Vec<u128>,
    old_parent: Option<u128>,
    live_checked: bool,
    property: Option<S>,
}

impl<S> View for LinkSubtasks<S> {
    type V = LinkSubtasksView<S>;

    closed spec fn view(&self) -> LinkSubtasksView<S> {
        LinkSubtasksView {
            task_id: self.task_id,
            subtask_ids: self.subtask_ids@,
            locked_ids: self.locked_ids@,
            phase: self.phase,
            removed: self.removed@,
            old_parent: self.old_parent,
            live_checked: self.live_checked,
            property: self.property,
        }
    }
}

/// The cycle check of the requested child at `i`, or the read of the current
/// list once every child is checked.
pub open spec fn check_cycle_from<S>(v: LinkSubtasksView<S>, i: int) -> (LinkSubtasksView<S>, HierarchyActionView<S>) {
    if i < v.subtask_ids.len() {
        (
            LinkSubtasksView { phase: LinkSubtasksPhase::AwaitCycleCheck(i as usize), ..v },
            HierarchyActionView::CheckParentCycle { child: v.subtask_ids[i], parent: v.task_id },
        )
    } else {
        (
            LinkSubtasksView { phase: LinkSubtasksPhase::AwaitCurrentSubtasks, ..v },
            HierarchyActionView::ReadSubtasks { task_id: v.task_id },
        )
    }
}

/// The clean-up of the child at `j` that is no longer listed, or the commit.
pub open spec fn clear_removed_from<S>(v: LinkSubtasksView<S>, j: int) -> (LinkSubtasksView<S>, HierarchyActionView<S>) {
    if j < v.removed.len() {
        (
            LinkSubtasksView { phase: LinkSubtasksPhase::AwaitRemovedParent(j as usize), ..v },
            HierarchyActionView::ReadParent { task_id: v.removed[j] },
        )
    } else {
        (LinkSubtasksView { phase: LinkSubtasksPhase::AwaitCommit, ..v }, HierarchyActionView::Commit)
    }
}

/// The re-parenting of the requested child at `i`, or the clean-up once
/// every child points at the task.
pub open spec fn adopt_child_from<S>(v: LinkSubtasksView<S>, i: int) -> (LinkSubtasksView<S>, HierarchyActionView<S>) {
    if i < v.subtask_ids.len() {
        (
            LinkSubtasksView { phase: LinkSubtasksPhase::AwaitChildParent(i as usize), ..v },
            HierarchyActionView::ReadParent { task_id: v.subtask_ids[i] },
        )
    } else {
        clear_removed_from(v, 0)
    }
}

/// The write pointing the child at `i` to the task.
pub open spec fn write_child_parent<S>(v: LinkSubtasksView<S>, i: int) -> (LinkSubtasksView<S>, HierarchyActionView<S>) {
    (
        LinkSubtasksView { phase: LinkSubtasksPhase::AwaitChildParentWrite(i as usize), ..v },
        HierarchyActionView::WriteParent {
            task_id: v.subtask_ids[i],
            value: parent_view(Some(v.task_id)),
        },
    )
}

/// The next state and action of a Subtasks replacement after an event.
pub open spec fn link_subtasks_step<S>(v: LinkSubtasksView<S>, e: HierarchyEvent<S>) -> (
    LinkSubtasksView<S>,
    HierarchyActionView<S>,
) {
    match (v.phase, e) {
        (LinkSubtasksPhase::Start, HierarchyEvent::Begin) => if v.subtask_ids.contains(v.task_id) {
            (
                LinkSubtasksView { phase: LinkSubtasksPhase::Done, ..v },
                HierarchyActionView::Finish(HierarchyOutcomeView::Cycle),
            )
        } else if !v.subtask_ids.no_duplicates() {
            (
                LinkSubtasksView { phase: LinkSubtasksPhase::Done, ..v },
                HierarchyActionView::Fail(HierarchyFault::DuplicateReferences),
            )
        } else {
            (
                LinkSubtasksView { phase: LinkSubtasksPhase::AwaitLock, ..v },
                HierarchyActionView::AcquireLock(TaskLock::Hierarchy),
            )
        },
        (LinkSubtasksPhase::AwaitLock, HierarchyEvent::Locked) => (
            LinkSubtasksView { phase: LinkSubtasksPhase::AwaitLiveTasks, ..v },
            HierarchyActionView::LockLiveTasks { task_ids: v.locked_ids },
        ),
        (LinkSubtasksPhase::AwaitLiveTasks, HierarchyEvent::LiveTasks(count)) => if count
            != v.locked_ids.len() {
            (
                LinkSubtasksView { phase: LinkSubtasksPhase::Done, ..v },
                HierarchyActionView::Finish(HierarchyOutcomeView::Unavailable),
            )
        } else {
            check_cycle_from(LinkSubtasksView { live_checked: true, ..v }, 0)
        },
        (LinkSubtasksPhase::AwaitCycleCheck(i), HierarchyEvent::CycleFound(found)) => if found {
            (
                LinkSubtasksView { phase: LinkSubtasksPhase::Done, ..v },
                HierarchyActionView::Finish(HierarchyOutcomeView::Cycle),
            )
        } else {
            check_cycle_from(v, i + 1)
        },
        (LinkSubtasksPhase::AwaitCurrentSubtasks, HierarchyEvent::SubtasksRead(current)) => (
            LinkSubtasksView {
                phase: LinkSubtasksPhase::AwaitSubtasksWrite,
                removed: no_longer_listed(current@, v.subtask_ids),
                ..v
            },
            HierarchyActionView::WriteSubtasks {
                task_id: v.task_id,
                value: task_list_view(v.subtask_ids),
            },
        ),
        (LinkSubtasksPhase::AwaitSubtasksWrite, HierarchyEvent::SubtasksStored(property)) =>
            match property {
            None => (
                LinkSubtasksView { phase: LinkSubtasksPhase::Done, ..v },
                HierarchyActionView::Finish(HierarchyOutcomeView::Unavailable),
            ),
            Some(written) => adopt_child_from(LinkSubtasksView { property: Some(written), ..v }, 0),
        },
        (LinkSubtasksPhase::AwaitChildParent(i), HierarchyEvent::ParentRead(old)) => if i
            < v.subtask_ids.len() {
            match old {
                Some(old_id) => if old_id != v.task_id {
                    (
                        LinkSubtasksView {
                            phase: LinkSubtasksPhase::AwaitOldParentSubtasks(i),
                            old_parent: Some(old_id),
                            ..v
                        },
                        HierarchyActionView::ReadSubtasks { task_id: old_id },
                    )
                } else {
                    write_child_parent(v, i as int)
                },
                None => write_child_parent(v, i as int),
            }
        } else {
            (v, HierarchyActionView::Ignore)
        },
        (LinkSubtasksPhase::AwaitOldParentSubtasks(i), HierarchyEvent::SubtasksRead(ids)) =>
            match v.old_parent {
            Some(old_id) => if i < v.subtask_ids.len() {
                (
                    LinkSubtasksView { phase: LinkSubtasksPhase::AwaitOldParentWrite(i), ..v },
                    HierarchyActionView::WriteSubtasks {
                        task_id: old_id,
                        value: task_list_view(without(ids@, v.subtask_ids[i as int])),
                    },
                )
            } else {
                (v, HierarchyActionView::Ignore)
            },
            None => (v, HierarchyActionView::Ignore),
        },
        (LinkSubtasksPhase::AwaitOldParentWrite(i), HierarchyEvent::SubtasksWritten(written)) =>
            if i < v.subtask_ids.len() {
            if !written {
                (
                    LinkSubtasksView { phase: LinkSubtasksPhase::Done, ..v },
                    HierarchyActionView::Fail(HierarchyFault::MissingSubtasksRow),
                )
            } else {
                write_child_parent(v, i as int)
            }
        } else {
            (v, HierarchyActionView::Ignore)
        },
        (LinkSubtasksPhase::AwaitChildParentWrite(i), HierarchyEvent::ParentWritten(property)) =>
            match property {
            None => (
                LinkSubtasksView { phase: LinkSubtasksPhase::Done, ..v },
                HierarchyActionView::Finish(HierarchyOutcomeView::Unavailable),
            ),
            Some(_) => adopt_child_from(v, i + 1),
        },
        (LinkSubtasksPhase::AwaitRemovedParent(j), HierarchyEvent::ParentRead(old)) => if j
            < v.removed.len() {
            if old == Some(v.task_id) {
                (
                    LinkSubtasksView { phase: LinkSubtasksPhase::AwaitRemovedParentWrite(j), ..v },
                    HierarchyActionView::WriteParent { task_id: v.removed[j as int], value: None },
                )
            } else {
                clear_removed_from(v, j + 1)
            }
        } else {
            (v, HierarchyActionView::Ignore)
        },
        (LinkSubtasksPhase::AwaitRemovedParentWrite(j), HierarchyEvent::ParentWritten(property)) =>
            match property {
            None => (
                LinkSubtasksView { phase: LinkSubtasksPhase::Done, ..v },
                HierarchyActionView::Finish(HierarchyOutcomeView::Unavailable),
            ),
            Some(_) => clear_removed_from(v, j + 1),
        },
        (LinkSubtasksPhase::AwaitCommit, HierarchyEvent::Committed) => match v.property {
            Some(written) => (
                LinkSubtasksView { phase: LinkSubtasksPhase::Done, property: None, ..v },
                HierarchyActionView::Finish(HierarchyOutcomeView::Updated(written)),
            ),
            None => (v, HierarchyActionView::Ignore),
        },
        _ => (v, HierarchyActionView::Ignore),
    }
}

impl<S> LinkSubtasks<S> {
    /// A fresh replacement of the Subtasks list of `task_id` by `subtask_ids`.
    pub fn new(task_id: u128, subtask_ids: Vec<u128>) -> (link: Self)
        ensures
            link@.task_id == task_id,
            link@.subtask_ids == subtask_ids@,
            strictly_ascending(link@.locked_ids),
            link@.locked_ids.to_set() == locked_set(task_id, subtask_ids@),
            link@.phase == LinkSubtasksPhase::Start,
            link@.removed.len() == 0,
            link@.old_parent is None,
            !link@.live_checked,
            link@.property is None,
    {
        let locked_ids = locked_task_ids(task_id, &subtask_ids);
        LinkSubtasks {
            task_id,
            subtask_ids,
            locked_ids,
            phase: LinkSubtasksPhase::Start,
            removed: Vec::new(),
            old_parent: None,
            live_checked: false,
            property: None,
        }
    }

    /// Where the replacement stands.
    pub fn phase(&self) -> (phase: LinkSubtasksPhase)
        ensures
            phase == self@.phase,
    {
        self.phase
    }

    fn check_cycle_from_exec(&mut self, i: usize) -> (action: HierarchyAction<S>)
        ensures
            (final(self)@, action@) == check_cycle_from(old(self)@, i as int),
    {
        if i < self.subtask_ids.len() {
            self.phase = LinkSubtasksPhase::AwaitCycleCheck(i);
            HierarchyAction::CheckParentCycle { child: self.subtask_ids[i], parent: self.task_id }
        } else {
            self.phase = LinkSubtasksPhase::AwaitCurrentSubtasks;
            HierarchyAction::ReadSubtasks { task_id: self.task_id }
        }
    }

    fn clear_removed_from_exec(&mut self, j: usize) -> (action: HierarchyAction<S>)
        ensures
            (final(self)@, action@) == clear_removed_from(old(self)@, j as int),
    {
        if j < self.removed.len() {
            self.phase = LinkSubtasksPhase::AwaitRemovedParent(j);
            HierarchyAction::ReadParent { task_id: self.removed[j] }
        } else {
            self.phase = LinkSubtasksPhase::AwaitCommit;
            HierarchyAction::Commit
        }
    }

    fn adopt_child_from_exec(&mut self, i: usize) -> (action: HierarchyAction<S>)
        ensures
            (final(self)@, action@) == adopt_child_from(old(self)@, i as int),
    {
        if i < self.subtask_ids.len() {
            self.phase = LinkSubtasksPhase::AwaitChildParent(i);
            HierarchyAction::ReadParent { task_id: self.subtask_ids[i] }
        } else {
            self.clear_removed_from_exec(0)
        }
    }

    fn write_child_parent_exec(&mut self, i: usize) -> (action: HierarchyAction<S>)
        requires
            i < old(self)@.subtask_ids.len(),
        ensures
            (final(self)@, action@) == write_child_parent(old(self)@, i as int),
    {
        self.phase = LinkSubtasksPhase::AwaitChildParentWrite(i);
        HierarchyAction::WriteParent {
            task_id: self.subtask_ids[i],
            value: parent_value(Some(self.task_id)),
        }
    }

    /// Advances the replacement by one database answer and says what to do next.
    pub fn step(&mut self, event: HierarchyEvent<S>) -> (action: HierarchyAction<S>)
        ensures
            (final(self)@, action@) == link_subtasks_step(old(self)@, event),
    {
        match (self.phase, event) {
            (LinkSubtasksPhase::Start, HierarchyEvent::Begin) => {
                if contains_id(&self.subtask_ids, self.task_id) {
                    self.phase = LinkSubtasksPhase::Done;
                    HierarchyAction::Finish(TaskHierarchyMutationOutcome::Cycle)
                } else if !all_distinct(&self.subtask_ids) {
                    self.phase = LinkSubtasksPhase::Done;
                    HierarchyAction::Fail(HierarchyFault::DuplicateReferences)
                } else {
                    self.phase = LinkSubtasksPhase::AwaitLock;
                    HierarchyAction::AcquireLock(TaskLock::Hierarchy)
                }
            },
            (LinkSubtasksPhase::AwaitLock, HierarchyEvent::Locked) => {
                self.phase = LinkSubtasksPhase::AwaitLiveTasks;
                HierarchyAction::LockLiveTasks { task_ids: self.locked_ids.clone() }
            },
            (LinkSubtasksPhase::AwaitLiveTasks, HierarchyEvent::LiveTasks(count)) => {
                if count != self.locked_ids.len() {
                    self.phase = LinkSubtasksPhase::Done;
                    HierarchyAction::Finish(TaskHierarchyMutationOutcome::Unavailable)
                } else {
                    self.live_checked = true;
                    self.check_cycle_from_exec(0)
                }
            },
            (LinkSubtasksPhase::AwaitCycleCheck(i), HierarchyEvent::CycleFound(found)) => {
                if found {
                    self.phase = LinkSubtasksPhase::Done;
                    HierarchyAction::Finish(TaskHierarchyMutationOutcome::Cycle)
                } else if i < self.subtask_ids.len() {
                    self.check_cycle_from_exec(i + 1)
                } else {
                    self.phase = LinkSubtasksPhase::AwaitCurrentSubtasks;
                    HierarchyAction::ReadSubtasks { task_id: self.task_id }
                }
            },
            (LinkSubtasksPhase::AwaitCurrentSubtasks, HierarchyEvent::SubtasksRead(current)) => {
                self.removed = removed_subtasks(&current, &self.subtask_ids);
                self.phase = LinkSubtasksPhase::AwaitSubtasksWrite;
                HierarchyAction::WriteSubtasks {
                    task_id: self.task_id,
                    value: task_list_value(&self.subtask_ids),
                }
            },
            (LinkSubtasksPhase::AwaitSubtasksWrite, HierarchyEvent::SubtasksStored(property)) => {
                match property {
                    None => {
                        self.phase = LinkSubtasksPhase::Done;
                        HierarchyAction::Finish(TaskHierarchyMutationOutcome::Unavailable)
                    },
                    Some(written) => {
                        self.property = Some(written);
                        self.adopt_child_from_exec(0)
                    },
                }
            },
            (LinkSubtasksPhase::AwaitChildParent(i), HierarchyEvent::ParentRead(old)) => {
                if i < self.subtask_ids.len() {
                    match old {
                        Some(old_id) => {
                            if old_id != self.task_id {
                                self.phase = LinkSubtasksPhase::AwaitOldParentSubtasks(i);
                                self.old_parent = Some(old_id);
                                HierarchyAction::ReadSubtasks { task_id: old_id }
                            } else {
                                self.write_child_parent_exec(i)
                            }
                        },
                        None => self.write_child_parent_exec(i),
                    }
                } else {
                    HierarchyAction::Ignore
                }
            },
            (LinkSubtasksPhase::AwaitOldParentSubtasks(i), HierarchyEvent::SubtasksRead(ids)) => {
                match self.old_parent {
                    Some(old_id) => {
                        if i < self.subtask_ids.len() {
                            self.phase = LinkSubtasksPhase::AwaitOldParentWrite(i);
                            let kept = remove_child(&ids, self.subtask_ids[i]);
                            HierarchyAction::WriteSubtasks {
                                task_id: old_id,
                                value: task_list_value(&kept),
                            }
                        } else {
                            HierarchyAction::Ignore
                        }
                    },
                    None => HierarchyAction::Ignore,
                }
            },
            (LinkSubtasksPhase::AwaitOldParentWrite(i), HierarchyEvent::SubtasksWritten(written)) => {
                if i < self.subtask_ids.len() {
                    if !written {
                        self.phase = LinkSubtasksPhase::Done;
                        HierarchyAction::Fail(HierarchyFault::MissingSubtasksRow)
                    } else {
                        self.write_child_parent_exec(i)
                    }
                } else {
                    HierarchyAction::Ignore
                }
            },
            (
                LinkSubtasksPhase::AwaitChildParentWrite(i),
                HierarchyEvent::ParentWritten(property),
            ) => {
                match property {
                    None => {
                        self.phase = LinkSubtasksPhase::Done;
                        HierarchyAction::Finish(TaskHierarchyMutationOutcome::Unavailable)
                    },
                    Some(_) => {
                        if i < self.subtask_ids.len() {
                            self.adopt_child_from_exec(i + 1)
                        } else {
                            self.clear_removed_from_exec(0)
                        }
                    },
                }
            },
            (LinkSubtasksPhase::AwaitRemovedParent(j), HierarchyEvent::ParentRead(old)) => {
                if j < self.removed.len() {
                    if old == Some(self.task_id) {
                        self.phase = LinkSubtasksPhase::AwaitRemovedParentWrite(j);
                        HierarchyAction::WriteParent { task_id: self.removed[j], value: None }
                    } else {
                        self.clear_removed_from_exec(j + 1)
                    }
                } else {
                    HierarchyAction::Ignore
                }
            },
            (
                LinkSubtasksPhase::AwaitRemovedParentWrite(j),
                HierarchyEvent::ParentWritten(property),
            ) => {
                match property {
                    None => {
                        self.phase = LinkSubtasksPhase::Done;
                        HierarchyAction::Finish(TaskHierarchyMutationOutcome::Unavailable)
                    },
                    Some(_) => {
                        if j < self.removed.len() {
                            self.clear_removed_from_exec(j + 1)
                        } else {
                            self.phase = LinkSubtasksPhase::AwaitCommit;
                            HierarchyAction::Commit
                        }
                    },
                }
            },
            (LinkSubtasksPhase::AwaitCommit, HierarchyEvent::Committed) => {
                if self.property.is_some() {
                    let written = self.property.take().unwrap();
                    self.phase = LinkSubtasksPhase::Done;
                    HierarchyAction::Finish(TaskHierarchyMutationOutcome::Updated(written))
                } else {
                    HierarchyAction::Ignore
                }
            },
            _ => HierarchyAction::Ignore,
        }
    }
}

/// The states and actions of a Parent Task replacement driven by events.
pub open spec fn run_link_parent<S>(v: LinkParentView<S>, events: Seq<HierarchyEvent<S>>) -> (
    LinkParentView<S>,
    Seq<HierarchyActionView<S>>,
)
    decreases events.len(),
{
    if events.len() == 0 {
        (v, Seq::empty())
    } else {
        let (w, actions) = run_link_parent(v, events.drop_last());
        let (x, action) = link_parent_step(w, events.last());
        (x, actions.push(action))
    }
}

/// Whether some event reported that all `count` requested tasks were locked live.
pub open spec fn saw_live_tasks<S>(events: Seq<HierarchyEvent<S>>, count: nat) -> bool {
    exists|i: int|
        0 <= i < events.len() && (#[trigger] events[i] matches HierarchyEvent::LiveTasks(n) && n
            == count)
}

/// Whether some event reported that no cycle would form.
pub open spec fn saw_no_cycle_answer<S>(events: Seq<HierarchyEvent<S>>) -> bool {
    exists|i: int|
        0 <= i < events.len() && #[trigger] events[i] matches HierarchyEvent::CycleFound(false)
}

/// Whether some action wrote a hierarchy row.
pub open spec fn wrote_hierarchy<S>(actions: Seq<HierarchyActionView<S>>) -> bool {
    exists|i: int|
        0 <= i < actions.len() && (#[trigger] actions[i] is WriteParent || actions[i] is WriteSubtasks)
}

/// Whether a Parent Task replacement has not yet asked for a write.
pub open spec fn before_parent_writes(phase: LinkParentPhase) -> bool {
    phase == LinkParentPhase::Start || phase == LinkParentPhase::AwaitLock || phase
        == LinkParentPhase::AwaitLiveTasks || phase == LinkParentPhase::AwaitCycleCheck || phase
        == LinkParentPhase::AwaitOldParent || phase == LinkParentPhase::AwaitOldParentSubtasks
}

/// What a run of a Parent Task replacement has established so far.
pub open spec fn link_parent_facts<S>(
    v: LinkParentView<S>,
    w: LinkParentView<S>,
    events: Seq<HierarchyEvent<S>>,
    actions: Seq<HierarchyActionView<S>>,
) -> bool {
    &&& w.task_id == v.task_id
    &&& w.parent == v.parent
    &&& w.locked_ids == v.locked_ids
    &&& w.live_checked ==> saw_live_tasks(events, v.locked_ids.len())
    &&& w.cycle_checked ==> saw_no_cycle_answer(events)
    &&& w.phase == LinkParentPhase::AwaitCycleCheck ==> w.live_checked && v.parent is Some
    &&& (w.phase == LinkParentPhase::AwaitOldParent || w.phase
        == LinkParentPhase::AwaitOldParentSubtasks) ==> w.live_checked && (v.parent is Some
        ==> w.cycle_checked)
    &&& !before_parent_writes(w.phase) && w.phase != LinkParentPhase::Done ==> w.live_checked && (
    v.parent is Some ==> w.cycle_checked)
    &&& before_parent_writes(w.phase) ==> !wrote_hierarchy(actions)
    &&& wrote_hierarchy(actions) ==> w.live_checked && (v.parent is Some ==> w.cycle_checked)
}

proof fn lemma_link_parent_facts<S>(v: LinkParentView<S>, events: Seq<HierarchyEvent<S>>)
    requires
        v.phase == LinkParentPhase::Start,
        !v.live_checked,
        !v.cycle_checked,
    ensures
        link_parent_facts(v, run_link_parent(v, events).0, events, run_link_parent(v, events).1),
    decreases events.len(),
{
    if events.len() > 0 {
        let prefix = events.drop_last();
        let e = events.last();
        lemma_link_parent_facts(v, prefix);
        let (w, actions) = run_link_parent(v, prefix);
        let (x, action) = link_parent_step(w, e);
        let next = actions.push(action);
        assert(prefix.push(e) =~= events);
        assert forall|i: int| 0 <= i < prefix.len() implies #[trigger] events[i] == prefix[i] by {}
        if w.live_checked {
            let i = choose|i: int|
                0 <= i < prefix.len() && (#[trigger] prefix[i] matches HierarchyEvent::LiveTasks(n)
                    && n == v.locked_ids.len());
            assert(events[i] == prefix[i]);
        }
        if w.cycle_checked {
            let i = choose|i: int|
                0 <= i < prefix.len() && #[trigger] prefix[i] matches HierarchyEvent::CycleFound(false);
            assert(events[i] == prefix[i]);
        }
        if x.live_checked && !w.live_checked {
            assert(events[prefix.len() as int] == e);
        }
        if x.cycle_checked && !w.cycle_checked {
            assert(events[prefix.len() as int] == e);
        }
        assert forall|i: int| 0 <= i < actions.len() implies #[trigger] next[i] == actions[i] by {}
        if wrote_hierarchy(next) {
            let i = choose|i: int|
                0 <= i < next.len() && (#[trigger] next[i] is WriteParent || next[i] is WriteSubtasks);
            if i < actions.len() {
                assert(actions[i] == next[i]);
            }
        }
        if wrote_hierarchy(actions) {
            let i = choose|i: int|
                0 <= i < actions.len() && (#[trigger] actions[i] is WriteParent
                    || actions[i] is WriteSubtasks);
            assert(next[i] == actions[i]);
        }
    }
}

/// A Parent Task replacement writes no hierarchy row until the database has
/// reported the task (and the new parent) locked as live tasks of the project
/// and, when a parent is named, that the parent does not descend from the
/// task, whatever the database answers.
pub proof fn lemma_parent_link_writes_only_when_checked<S>(
    v: LinkParentView<S>,
    events: Seq<HierarchyEvent<S>>,
)
    requires
        v.phase == LinkParentPhase::Start,
        !v.live_checked,
        !v.cycle_checked,
    ensures
        wrote_hierarchy(run_link_parent(v, events).1) ==> {
            &&& saw_live_tasks(events, v.locked_ids.len())
            &&& v.parent is Some ==> saw_no_cycle_answer(events)
        },
{
    lemma_link_parent_facts(v, events);
}

/// The states and actions of a Subtasks replacement driven by events.
pub open spec fn run_link_subtasks<S>(v: LinkSubtasksView<S>, events: Seq<HierarchyEvent<S>>) -> (
    LinkSubtasksView<S>,
    Seq<HierarchyActionView<S>>,
)
    decreases events.len(),
{
    if events.len() == 0 {
        (v, Seq::empty())
    } else {
        let (w, actions) = run_link_subtasks(v, events.drop_last());
        let (x, action) = link_subtasks_step(w, events.last());
        (x, actions.push(action))
    }
}

/// How many events answered that no cycle would form.
pub open spec fn no_cycle_answers<S>(events: Seq<HierarchyEvent<S>>) -> nat
    decreases events.len(),
{
    if events.len() == 0 {
        0
    } else {
        no_cycle_answers(events.drop_last()) + if events.last() matches HierarchyEvent::CycleFound(
            false,
        ) {
            1nat
        } else {
            0nat
        }
    }
}

/// Whether the cycle check of `child` under `parent` was asked.
pub open spec fn asked_cycle_check<S>(actions: Seq<HierarchyActionView<S>>, child: u128, parent: u128) -> bool {
    exists|i: int|
        0 <= i < actions.len() && #[trigger] actions[i] == HierarchyActionView::<S>::CheckParentCycle {
            child,
            parent,
        }
}

/// Whether every child of `children` up to `upto` had its cycle check asked.
pub open spec fn asked_cycle_checks<S>(
    actions: Seq<HierarchyActionView<S>>,
    children: Seq<u128>,
    parent: u128,
    upto: int,
) -> bool {
    forall|k: int| 0 <= k < upto ==> asked_cycle_check(actions, #[trigger] children[k], parent)
}

/// Whether a Subtasks replacement is past its cycle checks.
pub open spec fn past_cycle_checks(phase: LinkSubtasksPhase) -> bool {
    !(phase matches LinkSubtasksPhase::AwaitCycleCheck(_)) && phase != LinkSubtasksPhase::Start
        && phase != LinkSubtasksPhase::AwaitLock && phase != LinkSubtasksPhase::AwaitLiveTasks
        && phase != LinkSubtasksPhase::Done
}

/// Whether a Subtasks replacement has not yet asked for a write.
pub open spec fn before_subtask_writes(phase: LinkSubtasksPhase) -> bool {
    phase == LinkSubtasksPhase::Start || phase == LinkSubtasksPhase::AwaitLock || phase
        == LinkSubtasksPhase::AwaitLiveTasks || phase matches LinkSubtasksPhase::AwaitCycleCheck(_)
        || phase == LinkSubtasksPhase::AwaitCurrentSubtasks
}

/// The checks a Subtasks write calls for have passed.
pub open spec fn subtask_checks_passed<S>(
    v: LinkSubtasksView<S>,
    w: LinkSubtasksView<S>,
    events: Seq<HierarchyEvent<S>>,
    actions: Seq<HierarchyActionView<S>>,
) -> bool {
    &&& w.live_checked
    &&& no_cycle_answers(events) >= v.subtask_ids.len()
    &&& asked_cycle_checks(actions, v.subtask_ids, v.task_id, v.subtask_ids.len() as int)
}

/// What a run of a Subtasks replacement has established so far.
pub open spec fn link_subtasks_facts<S>(
    v: LinkSubtasksView<S>,
    w: LinkSubtasksView<S>,
    events: Seq<HierarchyEvent<S>>,
    actions: Seq<HierarchyActionView<S>>,
) -> bool {
    &&& w.task_id == v.task_id
    &&& w.subtask_ids == v.subtask_ids
    &&& w.locked_ids == v.locked_ids
    &&& w.live_checked ==> saw_live_tasks(events, v.locked_ids.len())
    &&& w.phase matches LinkSubtasksPhase::AwaitCycleCheck(i) ==> {
        &&& w.live_checked
        &&& i < v.subtask_ids.len()
        &&& no_cycle_answers(events) >= i
        &&& asked_cycle_checks(actions, v.subtask_ids, v.task_id, i + 1)
    }
    &&& past_cycle_checks(w.phase) ==> subtask_checks_passed(v, w, events, actions)
    &&& before_subtask_writes(w.phase) ==> !wrote_hierarchy(actions)
    &&& wrote_hierarchy(actions) ==> subtask_checks_passed(v, w, events, actions)
}

proof fn lemma_link_subtasks_facts<S>(v: LinkSubtasksView<S>, events: Seq<HierarchyEvent<S>>)
    requires
        v.phase == LinkSubtasksPhase::Start,
        !v.live_checked,
    ensures
        link_subtasks_facts(v, run_link_subtasks(v, events).0, events, run_link_subtasks(v, events).1),
    decreases events.len(),
{
    if events.len() > 0 {
        let prefix = events.drop_last();
        let e = events.last();
        lemma_link_subtasks_facts(v, prefix);
        let (w, actions) = run_link_subtasks(v, prefix);
        let (x, action) = link_subtasks_step(w, e);
        let next = actions.push(action);
        assert(prefix.push(e) =~= events);
        assert forall|i: int| 0 <= i < prefix.len() implies #[trigger] events[i] == prefix[i] by {}
        assert(no_cycle_answers(events) >= no_cycle_answers(prefix));
        if w.live_checked {
            let i = choose|i: int|
                0 <= i < prefix.len() && (#[trigger] prefix[i] matches HierarchyEvent::LiveTasks(n)
                    && n == v.locked_ids.len());
            assert(events[i] == prefix[i]);
        }
        if x.live_checked && !w.live_checked {
            assert(events[prefix.len() as int] == e);
        }
        assert forall|i: int| 0 <= i < actions.len() implies #[trigger] next[i] == actions[i] by {}
        assert forall|child: u128, parent: u128|
            asked_cycle_check(actions, child, parent) implies asked_cycle_check(
            next,
            child,
            parent,
        ) by {
            let i = choose|i: int|
                0 <= i < actions.len() && #[trigger] actions[i]
                    == HierarchyActionView::<S>::CheckParentCycle { child, parent };
            assert(next[i] == actions[i]);
        }
        if action is CheckParentCycle {
            assert(next[actions.len() as int] == action);
        }
        if wrote_hierarchy(next) {
            let i = choose|i: int|
                0 <= i < next.len() && (#[trigger] next[i] is WriteParent || next[i] is WriteSubtasks);
            if i < actions.len() {
                assert(actions[i] == next[i]);
            }
        }
        if wrote_hierarchy(actions) {
            let i = choose|i: int|
                0 <= i < actions.len() && (#[trigger] actions[i] is WriteParent
                    || actions[i] is WriteSubtasks);
            assert(next[i] == actions[i]);
        }
    }
}

/// A Subtasks replacement writes no hierarchy row until the database has
/// reported the task and every listed child locked as live tasks of the
/// project, the cycle check of every listed child under the task was asked,
/// and at least as many answers said that no cycle would form, whatever the
/// database answers.
pub proof fn lemma_subtask_link_writes_only_when_checked<S>(
    v: LinkSubtasksView<S>,
    events: Seq<HierarchyEvent<S>>,
)
    requires
        v.phase == LinkSubtasksPhase::Start,
        !v.live_checked,
    ensures
        wrote_hierarchy(run_link_subtasks(v, events).1) ==> {
            &&& saw_live_tasks(events, v.locked_ids.len())
            &&& no_cycle_answers(events) >= v.subtask_ids.len()
            &&& forall|k: int|
                0 <= k < v.subtask_ids.len() ==> asked_cycle_check(
                    run_link_subtasks(v, events).1,
                    #[trigger] v.subtask_ids[k],
                    v.task_id,
                )
        },
{
    lemma_link_subtasks_facts(v, events);
}

/// Whether the task's own Parent Task was written to name `parent`.
pub open spec fn wrote_own_parent<S>(actions: Seq<HierarchyActionView<S>>, task_id: u128, parent: Option<u128>) -> bool {
    exists|i: int|
        0 <= i < actions.len() && #[trigger] actions[i] == HierarchyActionView::<S>::WriteParent {
            task_id,
            value: parent_view(parent),
        }
}

/// Whether `parent`'s Subtasks list was written as a read list with `child` appended.
pub open spec fn appended_child<S>(actions: Seq<HierarchyActionView<S>>, parent: u128, child: u128) -> bool {
    exists|i: int, ids: Seq<u128>|
        #![trigger actions[i], with_child(ids, child)]
        0 <= i < actions.len() && actions[i] == HierarchyActionView::<S>::WriteSubtasks {
            task_id: parent,
            value: task_list_view(with_child(ids, child)),
        }
}

/// Whether `parent`'s Subtasks list was written as a read list without `child`.
pub open spec fn removed_child<S>(actions: Seq<HierarchyActionView<S>>, parent: u128, child: u128) -> bool {
    exists|i: int, ids: Seq<u128>|
        #![trigger actions[i], without(ids, child)]
        0 <= i < actions.len() && actions[i] == HierarchyActionView::<S>::WriteSubtasks {
            task_id: parent,
            value: task_list_view(without(ids, child)),
        }
}

/// Whether the former parent must give the child up.
pub open spec fn leaves_old_parent<S>(w: LinkParentView<S>) -> bool {
    w.old_parent is Some && w.old_parent != w.parent
}

/// Whether the run has issued a successful finish.
pub open spec fn finished_updated<S>(actions: Seq<HierarchyActionView<S>>) -> bool {
    exists|i: int|
        0 <= i < actions.len() && (#[trigger] actions[i] matches HierarchyActionView::Finish(o)
            && o is Updated)
}

/// Both sides of the edges a Parent Task replacement has written so far.
pub open spec fn parent_edges_facts<S>(
    v: LinkParentView<S>,
    w: LinkParentView<S>,
    actions: Seq<HierarchyActionView<S>>,
) -> bool {
    &&& w.task_id == v.task_id
    &&& w.parent == v.parent
    &&& (w.phase == LinkParentPhase::Start || w.phase == LinkParentPhase::AwaitLock || w.phase
        == LinkParentPhase::AwaitLiveTasks || w.phase == LinkParentPhase::AwaitCycleCheck || w.phase
        == LinkParentPhase::AwaitOldParent) ==> !finished_updated(actions) && w.property is None
    &&& w.phase == LinkParentPhase::AwaitOldParentSubtasks ==> leaves_old_parent(w)
        && !finished_updated(actions) && w.property is None
    &&& w.phase == LinkParentPhase::AwaitOldParentWrite ==> leaves_old_parent(w) && removed_child(
        actions,
        w.old_parent->Some_0,
        v.task_id,
    ) && !finished_updated(actions) && w.property is None
    &&& w.phase == LinkParentPhase::AwaitParentWrite ==> (leaves_old_parent(w) ==> removed_child(
        actions,
        w.old_parent->Some_0,
        v.task_id,
    )) && wrote_own_parent(actions, v.task_id, v.parent) && !finished_updated(actions)
        && w.property is None
    &&& (w.phase == LinkParentPhase::AwaitNewParentSubtasks || w.phase
        == LinkParentPhase::AwaitNewParentWrite) ==> v.parent is Some && wrote_own_parent(
        actions,
        v.task_id,
        v.parent,
    ) && (leaves_old_parent(w) ==> removed_child(actions, w.old_parent->Some_0, v.task_id))
        && !finished_updated(actions)
    &&& w.phase == LinkParentPhase::AwaitNewParentWrite ==> appended_child(
        actions,
        v.parent->Some_0,
        v.task_id,
    )
    &&& w.phase == LinkParentPhase::AwaitCommit ==> wrote_own_parent(actions, v.task_id, v.parent)
        && (v.parent is Some ==> appended_child(actions, v.parent->Some_0, v.task_id)) && (
    leaves_old_parent(w) ==> removed_child(actions, w.old_parent->Some_0, v.task_id))
        && !finished_updated(actions)
    &&& finished_updated(actions) ==> w.phase == LinkParentPhase::Done && wrote_own_parent(
        actions,
        v.task_id,
        v.parent,
    ) && (v.parent is Some ==> appended_child(actions, v.parent->Some_0, v.task_id)) && (
    leaves_old_parent(w) ==> removed_child(actions, w.old_parent->Some_0, v.task_id))
}

proof fn lemma_parent_edges_step<S>(v: LinkParentView<S>, events: Seq<HierarchyEvent<S>>, e: HierarchyEvent<S>)
    requires
        v.phase == LinkParentPhase::Start,
        v.old_parent is None,
        v.property is None,
        parent_edges_facts(v, run_link_parent(v, events).0, run_link_parent(v, events).1),
    ensures
        parent_edges_facts(v, run_link_parent(v, events.push(e)).0, run_link_parent(v, events.push(e)).1),
{
    let (w, actions) = run_link_parent(v, events);
    let (x, action) = link_parent_step(w, e);
    let all = events.push(e);
    assert(all.drop_last() =~= events);
    assert(all.last() == e);
    assert(run_link_parent(v, all) == (x, actions.push(action)));
    let next = actions.push(action);
    let n = actions.len() as int;
    assert(next[n] == action);
    assert forall|i: int| 0 <= i < n implies #[trigger] next[i] == actions[i] by {}
    if wrote_own_parent(actions, v.task_id, v.parent) {
        let i = choose|i: int|
            0 <= i < actions.len() && #[trigger] actions[i] == HierarchyActionView::<S>::WriteParent {
                task_id: v.task_id,
                value: parent_view(v.parent),
            };
        assert(next[i] == actions[i]);
    }
    if v.parent is Some && appended_child(actions, v.parent->Some_0, v.task_id) {
        let (i, ids) = choose|i: int, ids: Seq<u128>|
            #![trigger actions[i], with_child(ids, v.task_id)]
            0 <= i < actions.len() && actions[i] == HierarchyActionView::<S>::WriteSubtasks {
                task_id: v.parent->Some_0,
                value: task_list_view(with_child(ids, v.task_id)),
            };
        assert(next[i] == actions[i]);
        assert(appended_child(next, v.parent->Some_0, v.task_id));
    }
    if w.old_parent is Some && removed_child(actions, w.old_parent->Some_0, v.task_id) {
        let (i, ids) = choose|i: int, ids: Seq<u128>|
            #![trigger actions[i], without(ids, v.task_id)]
            0 <= i < actions.len() && actions[i] == HierarchyActionView::<S>::WriteSubtasks {
                task_id: w.old_parent->Some_0,
                value: task_list_view(without(ids, v.task_id)),
            };
        assert(next[i] == actions[i]);
        assert(removed_child(next, w.old_parent->Some_0, v.task_id));
    }
    if finished_updated(next) && !finished_updated(actions) {
        let i = choose|i: int|
            0 <= i < next.len() && (#[trigger] next[i] matches HierarchyActionView::Finish(o)
                && o is Updated);
        if i < n {
            assert(actions[i] == next[i]);
        }
    }
    if finished_updated(actions) {
        let i = choose|i: int|
            0 <= i < actions.len() && (#[trigger] actions[i] matches HierarchyActionView::Finish(o)
                && o is Updated);
        assert(next[i] == actions[i]);
    }
    if x.phase == LinkParentPhase::AwaitParentWrite && w.phase != LinkParentPhase::AwaitParentWrite {
        let written = HierarchyActionView::<S>::WriteParent {
            task_id: v.task_id,
            value: parent_view(v.parent),
        };
        assert(next[n] == written);
        assert(wrote_own_parent(next, v.task_id, v.parent));
    }
    match (w.phase, e) {
        (LinkParentPhase::AwaitOldParentSubtasks, HierarchyEvent::SubtasksRead(ids)) => {
            if w.old_parent is Some {
                assert(next[n] == HierarchyActionView::<S>::WriteSubtasks {
                    task_id: w.old_parent->Some_0,
                    value: task_list_view(without(ids@, v.task_id)),
                });
                assert(removed_child(next, w.old_parent->Some_0, v.task_id));
            }
        },
        (LinkParentPhase::AwaitNewParentSubtasks, HierarchyEvent::SubtasksRead(ids)) => {
            if v.parent is Some {
                assert(next[n] == HierarchyActionView::<S>::WriteSubtasks {
                    task_id: v.parent->Some_0,
                    value: task_list_view(with_child(ids@, v.task_id)),
                });
                assert(appended_child(next, v.parent->Some_0, v.task_id));
            }
        },
        _ => {},
    }
}

proof fn lemma_parent_edges<S>(v: LinkParentView<S>, events: Seq<HierarchyEvent<S>>)
    requires
        v.phase == LinkParentPhase::Start,
        v.old_parent is None,
        v.property is None,
    ensures
        parent_edges_facts(v, run_link_parent(v, events).0, run_link_parent(v, events).1),
    decreases events.len(),
{
    if events.len() > 0 {
        let prefix = events.drop_last();
        lemma_parent_edges(v, prefix);
        lemma_parent_edges_step(v, prefix, events.last());
        assert(prefix.push(events.last()) =~= events);
    }
}

/// A Parent Task replacement that succeeds keeps both sides of the edges in
/// step: it wrote the task's own Parent Task, appended the task to the new
/// parent's Subtasks list as read, and removed it from the former parent's
/// list as read when the parent changed, whatever the database answers.
pub proof fn lemma_parent_link_keeps_edges_in_step<S>(v: LinkParentView<S>, events: Seq<HierarchyEvent<S>>)
    requires
        v.phase == LinkParentPhase::Start,
        v.old_parent is None,
        v.property is None,
        finished_updated(run_link_parent(v, events).1),
    ensures
        wrote_own_parent(run_link_parent(v, events).1, v.task_id, v.parent),
        v.parent is Some ==> appended_child(run_link_parent(v, events).1, v.parent->Some_0, v.task_id),
        leaves_old_parent(run_link_parent(v, events).0) ==> removed_child(
            run_link_parent(v, events).1,
            run_link_parent(v, events).0.old_parent->Some_0,
            v.task_id,
        ),
{
    lemma_parent_edges(v, events);
}

/// The Subtasks write of `task_id` storing `ids`.
pub open spec fn list_write<S>(task_id: u128, ids: Seq<u128>) -> HierarchyActionView<S> {
    HierarchyActionView::WriteSubtasks { task_id, value: task_list_view(ids) }
}

/// `ids` with every occurrence of `child` filtered out, the rest in order.
pub open spec fn filtered(ids: Seq<u128>, child: u128) -> Seq<u128> {
    ids.filter(|id: u128| id != child)
}

/// When a Subtasks replacement moves a listed child away from its former
/// parent, it writes that parent's Subtasks list as the database read it with
/// exactly that child filtered out, every other id kept in order; and the
/// children it will release are the ones of the task's current list that the
/// new list does not name, in their current order.
pub proof fn lemma_subtask_link_edits_lists_as_read<S>(
    v: LinkSubtasksView<S>,
    ids: Vec<u128>,
    current: Vec<u128>,
)
    ensures
        (v.phase matches LinkSubtasksPhase::AwaitOldParentSubtasks(i) && i < v.subtask_ids.len()
            && v.old_parent is Some) ==> link_subtasks_step(v, HierarchyEvent::SubtasksRead(ids)).1
            == list_write::<S>(
            v.old_parent->Some_0,
            filtered(ids@, v.subtask_ids[v.phase->AwaitOldParentSubtasks_0 as int]),
        ),
        v.phase == LinkSubtasksPhase::AwaitCurrentSubtasks ==> link_subtasks_step(
            v,
            HierarchyEvent::SubtasksRead(current),
        ).0.removed == current@.filter(|id: u128| !v.subtask_ids.contains(id)),
        v.phase == LinkSubtasksPhase::AwaitCurrentSubtasks ==> link_subtasks_step(
            v,
            HierarchyEvent::SubtasksRead(current),
        ).1 == list_write::<S>(v.task_id, v.subtask_ids),
{
    if let LinkSubtasksPhase::AwaitOldParentSubtasks(i) = v.phase {
        assert(without(ids@, v.subtask_ids[i as int]) =~= filtered(ids@, v.subtask_ids[i as int]));
    }
    assert(no_longer_listed(current@, v.subtask_ids) =~= current@.filter(
        |id: u128| !v.subtask_ids.contains(id),
    ));
}

/// `ids` with `child` appended at the end unless it is already listed.
pub open spec fn appended(ids: Seq<u128>, child: u128) -> Seq<u128> {
    if ids.contains(child) {
        ids
    } else {
        ids.push(child)
    }
}

/// When a Parent Task replacement moves the task, it writes the former
/// parent's Subtasks list as read with exactly the task filtered out, every
/// other id kept in order, and the new parent's list as read with the task
/// appended at the end unless already listed.
pub proof fn lemma_parent_link_edits_lists_as_read<S>(v: LinkParentView<S>, ids: Vec<u128>)
    ensures
        (v.phase == LinkParentPhase::AwaitOldParentSubtasks && v.old_parent is Some)
            ==> link_parent_step(v, HierarchyEvent::SubtasksRead(ids)).1 == list_write::<S>(
            v.old_parent->Some_0,
            filtered(ids@, v.task_id),
        ),
        (v.phase == LinkParentPhase::AwaitNewParentSubtasks && v.parent is Some)
            ==> link_parent_step(v, HierarchyEvent::SubtasksRead(ids)).1 == list_write::<S>(
            v.parent->Some_0,
            appended(ids@, v.task_id),
        ),
{
    assert(without(ids@, v.task_id) =~= filtered(ids@, v.task_id));
}

} // verus!
