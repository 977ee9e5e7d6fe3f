//! Atomic replacement of a task's Depends On list, as a machine that says
//! which database step to take next and decides from each answer.
//!
//! A replacement takes the dependency lock, reads the task's guard state,
//! locks the task and every new predecessor (all must be live tasks of the
//! task's project), refuses a predecessor set that is not complete when the
//! task's Status is gated, refuses a cycle, then writes and commits.

use vstd::prelude::*;

use crate::dependency_relations::{insert_ascending, strictly_ascending};
use crate::ids::{uuid_text, uuid_to_text};
use crate::property_value::{EntityReference, EntityType, PropertyValue, RefView, ValueView};
use crate::status_transition::{opt_seq, TaskLock};
use crate::task_status::{is_gated, requires_readiness, StatusOption, TaskGuardState};

verus! {

/// The result of a Depends On replacement; `S` is the written property snapshot.
#[derive(Debug)]
pub enum TaskDependencyMutationOutcome<S> {
    /// The list was written.
    Updated(S),
    /// The task or one of the predecessors is not a live task of the project.
    Unavailable,
    /// The task's Status is gated and some predecessor is not Completed.
    Blocked,
    /// The new list would close a dependency cycle.
    Cycle,
}

/// Mathematical form of a replacement outcome.
pub enum DependencyOutcomeView<S> {
    Updated(S),
    Unavailable,
    Blocked,
    Cycle,
}

impl<S> View for TaskDependencyMutationOutcome<S> {
    type V = DependencyOutcomeView<S>;

    open spec fn view(&self) -> DependencyOutcomeView<S> {
        match self {
            TaskDependencyMutationOutcome::Updated(s) => DependencyOutcomeView::Updated(*s),
            TaskDependencyMutationOutcome::Unavailable => DependencyOutcomeView::Unavailable,
            TaskDependencyMutationOutcome::Blocked => DependencyOutcomeView::Blocked,
            TaskDependencyMutationOutcome::Cycle => DependencyOutcomeView::Cycle,
        }
    }
}

/// The tasks a replacement locks: the task and its new predecessors, each
/// once, in ascending order.
pub open spec fn locked_set(task_id: u128, dependency_ids: Seq<u128>) -> Set<u128> {
    dependency_ids.to_set().insert(task_id)
}

/// The ids of the tasks a replacement locks, each once, in ascending order.
pub fn locked_task_ids(task_id: u128, dependency_ids: &Vec<u128>) -> (ids: Vec<u128>)
    ensures
        strictly_ascending(ids@),
        ids@.to_set() == locked_set(task_id, dependency_ids@),
        ids@.len() <= dependency_ids@.len() + 1,
{
    let mut ids: Vec<u128> = Vec::new();
    let mut i: usize = 0;
    while i < dependency_ids.len()
        invariant
            0 <= i <= dependency_ids.len(),
            strictly_ascending(ids@),
            ids@.to_set() == dependency_ids@.take(i as int).to_set(),
            ids@.len() <= i,
        decreases dependency_ids.len() - i,
    {
        insert_ascending(&mut ids, dependency_ids[i]);
        proof {
            assert(dependency_ids@.take(i + 1) =~= dependency_ids@.take(i as int).push(
                dependency_ids@[i as int],
            ));
            dependency_ids@.take(i as int).lemma_push_to_set_commute(dependency_ids@[i as int]);
        }
        i = i + 1;
    }
    insert_ascending(&mut ids, task_id);
    assert(dependency_ids@.take(dependency_ids@.len() as int) =~= dependency_ids@);
    ids
}

/// The reference list a task-list value (Depends On, Subtasks) stores for these tasks.
pub open spec fn dependency_refs(dependency_ids: Seq<u128>) -> Seq<RefView> {
    dependency_ids.map_values(
        |id: u128| RefView { entity_type: EntityType::Task, entity_id: uuid_text(id), specific_message_id: None },
    )
}

/// The value a task-list write stores: none for an empty list, otherwise a
/// task reference to each task in the given order.
pub open spec fn task_list_view(dependency_ids: Seq<u128>) -> Option<ValueView> {
    if dependency_ids.len() == 0 {
        None
    } else {
        Some(ValueView::EntityRef(dependency_refs(dependency_ids)))
    }
}

/// Builds the value a task-list write stores.
pub fn task_list_value(dependency_ids: &Vec<u128>) -> (value: Option<PropertyValue>)
    ensures
        match value {
            Some(v) => task_list_view(dependency_ids@) == Some(v@),
            None => task_list_view(dependency_ids@) is None,
        },
{
    if dependency_ids.len() == 0 {
        return None;
    }
    let mut refs: Vec<EntityReference> = Vec::new();
    let mut i: usize = 0;
    while i < dependency_ids.len()
        invariant
            0 <= i <= dependency_ids.len(),
            refs@.map_values(|r: EntityReference| r@) =~= dependency_refs(
                dependency_ids@.take(i as int),
            ),
        decreases dependency_ids.len() - i,
    {
        let id = dependency_ids[i];
        let ghost before = refs@;
        refs.push(
            EntityReference {
                entity_type: EntityType::Task,
                entity_id: uuid_to_text(id),
                specific_message_id: None,
            },
        );
        assert(dependency_ids@.take(i + 1) =~= dependency_ids@.take(i as int).push(id));
        assert(refs@.map_values(|r: EntityReference| r@) =~= before.map_values(
            |r: EntityReference| r@,
        ).push(refs@[i as int]@));
        assert(dependency_refs(dependency_ids@.take(i + 1)) =~= dependency_refs(
            dependency_ids@.take(i as int),
        ).push(refs@[i as int]@));
        i = i + 1;
    }
    assert(dependency_ids@.take(dependency_ids@.len() as int) =~= dependency_ids@);
    Some(PropertyValue::EntityRef(refs))
}

/// Where a replacement stands.
#[derive(Debug, Clone, Copy, PartialEq, Eq, Structural)]
pub enum ReplacementPhase {
    Start,
    AwaitLock,
    AwaitGuardState,
    AwaitLiveTasks,
    AwaitCompletion,
    AwaitCycleCheck,
    AwaitWrite,
    AwaitCommit,
    Done,
}

/// What the database answered to the last action.
#[derive(Debug)]
pub enum ReplacementEvent<S> {
    /// The replacement starts.
    Begin,
    /// The dependency lock is held.
    Locked,
    /// The locked guard state of the task, or none when it is not a live task.
    GuardState(Option<TaskGuardState>),
    /// How many of the requested tasks were locked as live tasks of the project.
    LiveTasks(usize),
    /// Whether every new predecessor is a Completed live task of the project.
    DependenciesCompleted(bool),
    /// Whether the new predecessors reach the task through stored dependencies.
    CycleFound(bool),
    /// The list was written; the property snapshot.
    Written(S),
    /// The transaction committed.
    Committed,
}

/// What the caller must do next.
#[derive(Debug)]
pub enum ReplacementAction<S> {
    /// Begin the transaction and take a lock.
    AcquireLock(TaskLock),
    /// Read and lock the task's guard state.
    LoadGuardState,
    /// Lock these tasks where they are live tasks of the task's project.
    LockLiveTasks { task_ids: Vec<u128> },
    /// Check that every predecessor is a Completed live task of the project.
    CheckDependenciesCompleted { project_id: Option<String>, dependency_ids: Vec<u128> },
    /// Check whether the predecessors reach the task through stored dependencies.
    CheckCycle { task_id: u128, dependency_ids: Vec<u128> },
    /// Write the Depends On value (none clears it).
    WriteDependencies { value: Option<PropertyValue> },
    /// Commit the transaction.
    Commit,
    /// The replacement ends with this outcome (uncommitted work is rolled back).
    Finish(TaskDependencyMutationOutcome<S>),
    /// The event does not belong to the current phase; nothing happens.
    Ignore,
}

/// Mathematical form of a replacement action.
pub enum ReplacementActionView<S> {
    AcquireLock(TaskLock),
    LoadGuardState,
    LockLiveTasks { task_ids: Seq<u128> },
    CheckDependenciesCompleted { project_id: Option<Seq<char>>, dependency_ids: Seq<u128> },
    CheckCycle { task_id: u128, dependency_ids: Seq<u128> },
    WriteDependencies { value: Option<ValueView> },
    Commit,
    Finish(DependencyOutcomeView<S>),
    Ignore,
}

impl<S> View for ReplacementAction<S> {
    type V = ReplacementActionView<S>;

    open spec fn view(&self) -> ReplacementActionView<S> {
        match self {
            ReplacementAction::AcquireLock(lock) => ReplacementActionView::AcquireLock(*lock),
            ReplacementAction::LoadGuardState => ReplacementActionView::LoadGuardState,
            ReplacementAction::LockLiveTasks { task_ids } => ReplacementActionView::LockLiveTasks {
                task_ids: task_ids@,
            },
            ReplacementAction::CheckDependenciesCompleted { project_id, dependency_ids } =>
                ReplacementActionView::CheckDependenciesCompleted {
                project_id: opt_seq(*project_id),
                dependency_ids: dependency_ids@,
            },
            ReplacementAction::CheckCycle { task_id, dependency_ids } =>
                ReplacementActionView::CheckCycle {
                task_id: *task_id,
                dependency_ids: dependency_ids@,
            },
            ReplacementAction::WriteDependencies { value } =>
                ReplacementActionView::WriteDependencies {
                value: match value {
                    Some(v) => Some(v@),
                    None => None,
                },
            },
            ReplacementAction::Commit => ReplacementActionView::Commit,
            ReplacementAction::Finish(outcome) => ReplacementActionView::Finish(outcome@),
            ReplacementAction::Ignore => ReplacementActionView::Ignore,
        }
    }
}

/// Mathematical form of a replacement.
pub struct ReplacementView<S> {
    pub task_id: u128,
    pub dependency_ids: Seq<u128>,
    pub locked_ids: Seq<u128>,
    pub phase: ReplacementPhase,
    pub project_id: Option<Seq<char>>,
    pub status: Option<StatusOption>,
    pub live_checked: bool,
    pub completion_checked: bool,
    pub cycle_checked: bool,
    pub snapshot: Option<S>,
}

/// One atomic replacement of a task's Depends On list.
pub struct DependencyReplacement<S> {
    task_id: u128,
    dependency_ids: Vec<u128>,
    locked_ids: Vec<u128>,
    phase: ReplacementPhase,
    project_id: Option<String>,
    status: Option<StatusOption>,
    live_checked: bool,
    completion_checked: bool,
    cycle_checked: bool,
    snapshot: Option<S>,
}

impl<S> View for DependencyReplacement<S> {
    type V = ReplacementView<S>;

    closed spec fn view(&self) -> ReplacementView<S> {
        ReplacementView {
            task_id: self.task_id,
            dependency_ids: self.dependency_ids@,
            locked_ids: self.locked_ids@,
            phase: self.phase,
            project_id: opt_seq(self.project_id),
            status: self.status,
            live_checked: self.live_checked,
            completion_checked: self.completion_checked,
            cycle_checked: self.cycle_checked,
            snapshot: self.snapshot,
        }
    }
}

/// The step after the completion check: the cycle check for a non-empty
/// list, otherwise the write.
pub open spec fn after_completion<S>(v: ReplacementView<S>) -> (ReplacementView<S>, ReplacementActionView<
    S,
>) {
    if v.dependency_ids.len() > 0 {
        (
            ReplacementView { phase: ReplacementPhase::AwaitCycleCheck, ..v },
            ReplacementActionView::CheckCycle { task_id: v.task_id, dependency_ids: v.dependency_ids },
        )
    } else {
        (
            ReplacementView { phase: ReplacementPhase::AwaitWrite, ..v },
            ReplacementActionView::WriteDependencies { value: task_list_view(v.dependency_ids) },
        )
    }
}

/// The step after the liveness check: the completion check for a gated
/// Status, otherwise what follows it.
pub open spec fn after_live<S>(v: ReplacementView<S>) -> (ReplacementView<S>, ReplacementActionView<S>) {
    if is_gated(v.status) {
        (
            ReplacementView { phase: ReplacementPhase::AwaitCompletion, ..v },
            ReplacementActionView::CheckDependenciesCompleted {
                project_id: v.project_id,
                dependency_ids: v.dependency_ids,
            },
        )
    } else {
        after_completion(v)
    }
}

/// The next state and action of a replacement after an event.
pub open spec fn replacement_step<S>(v: ReplacementView<S>, e: ReplacementEvent<S>) -> (
    ReplacementView<S>,
    ReplacementActionView<S>,
) {
    match (v.phase, e) {
        (ReplacementPhase::Start, ReplacementEvent::Begin) => (
            ReplacementView { phase: ReplacementPhase::AwaitLock, ..v },
            ReplacementActionView::AcquireLock(TaskLock::Dependencies),
        ),
        (ReplacementPhase::AwaitLock, ReplacementEvent::Locked) => (
            ReplacementView { phase: ReplacementPhase::AwaitGuardState, ..v },
            ReplacementActionView::LoadGuardState,
        ),
        (ReplacementPhase::AwaitGuardState, ReplacementEvent::GuardState(state)) => match state {
            None => (
                ReplacementView { phase: ReplacementPhase::Done, ..v },
                ReplacementActionView::Finish(DependencyOutcomeView::Unavailable),
            ),
            Some(state) => (
                ReplacementView {
                    phase: ReplacementPhase::AwaitLiveTasks,
                    project_id: opt_seq(state.project_id),
                    status: state.status,
                    ..v
                },
                ReplacementActionView::LockLiveTasks { task_ids: v.locked_ids },
            ),
        },
        (ReplacementPhase::AwaitLiveTasks, ReplacementEvent::LiveTasks(count)) => if count
            != v.locked_ids.len() {
            (
                ReplacementView { phase: ReplacementPhase::Done, ..v },
                ReplacementActionView::Finish(DependencyOutcomeView::Unavailable),
            )
        } else {
            after_live(ReplacementView { live_checked: true, ..v })
        },
        (ReplacementPhase::AwaitCompletion, ReplacementEvent::DependenciesCompleted(completed)) =>
            if !completed {
            (
                ReplacementView { phase: ReplacementPhase::Done, ..v },
                ReplacementActionView::Finish(DependencyOutcomeView::Blocked),
            )
        } else {
            after_completion(ReplacementView { completion_checked: true, ..v })
        },
        (ReplacementPhase::AwaitCycleCheck, ReplacementEvent::CycleFound(found)) => if found {
            (
                ReplacementView { phase: ReplacementPhase::Done, ..v },
                ReplacementActionView::Finish(DependencyOutcomeView::Cycle),
            )
        } else {
            (
                ReplacementView { phase: ReplacementPhase::AwaitWrite, cycle_checked: true, ..v },
                ReplacementActionView::WriteDependencies { value: task_list_view(v.dependency_ids) },
            )
        },
        (ReplacementPhase::AwaitWrite, ReplacementEvent::Written(snapshot)) => (
            ReplacementView { phase: ReplacementPhase::AwaitCommit, snapshot: Some(snapshot), ..v },
            ReplacementActionView::Commit,
        ),
        (ReplacementPhase::AwaitCommit, ReplacementEvent::Committed) => match v.snapshot {
            Some(snapshot) => (
                ReplacementView { phase: ReplacementPhase::Done, snapshot: None, ..v },
                ReplacementActionView::Finish(DependencyOutcomeView::Updated(snapshot)),
            ),
            None => (v, ReplacementActionView::Ignore),
        },
        _ => (v, ReplacementActionView::Ignore),
    }
}

impl<S> DependencyReplacement<S> {
    /// A fresh replacement of the Depends On list of `task_id` by `dependency_ids`.
    pub fn new(task_id: u128, dependency_ids: Vec<u128>) -> (replacement: Self)
        ensures
            replacement@.task_id == task_id,
            replacement@.dependency_ids == dependency_ids@,
            strictly_ascending(replacement@.locked_ids),
            replacement@.locked_ids.to_set() == locked_set(task_id, dependency_ids@),
            replacement@.phase == ReplacementPhase::Start,
            replacement@.project_id is None,
            replacement@.status is None,
            !replacement@.live_checked,
            !replacement@.completion_checked,
            !replacement@.cycle_checked,
            replacement@.snapshot is None,
    {
        let locked_ids = locked_task_ids(task_id, &dependency_ids);
        DependencyReplacement {
            task_id,
            dependency_ids,
            locked_ids,
            phase: ReplacementPhase::Start,
            project_id: None,
            status: None,
            live_checked: false,
            completion_checked: false,
            cycle_checked: false,
            snapshot: None,
        }
    }

    /// Where the replacement stands.
    pub fn phase(&self) -> (phase: ReplacementPhase)
        ensures
            phase == self@.phase,
    {
        self.phase
    }

    fn after_completion_exec(&mut self) -> (action: ReplacementAction<S>)
        ensures
            (final(self)@, action@) == after_completion(old(self)@),
    {
        if self.dependency_ids.len() > 0 {
            self.phase = ReplacementPhase::AwaitCycleCheck;
            ReplacementAction::CheckCycle {
                task_id: self.task_id,
                dependency_ids: self.dependency_ids.clone(),
            }
        } else {
            self.phase = ReplacementPhase::AwaitWrite;
            ReplacementAction::WriteDependencies { value: task_list_value(&self.dependency_ids) }
        }
    }

    fn after_live_exec(&mut self) -> (action: ReplacementAction<S>)
        ensures
            (final(self)@, action@) == after_live(old(self)@),
    {
        if requires_readiness(self.status) {
            self.phase = ReplacementPhase::AwaitCompletion;
            ReplacementAction::CheckDependenciesCompleted {
                project_id: self.project_id.clone(),
                dependency_ids: self.dependency_ids.clone(),
            }
        } else {
            self.after_completion_exec()
        }
    }

    /// Advances the replacement by one database answer and says what to do next.
    pub fn step(&mut self, event: ReplacementEvent<S>) -> (action: ReplacementAction<S>)
        ensures
            (final(self)@, action@) == replacement_step(old(self)@, event),
    {
        match (self.phase, event) {
            (ReplacementPhase::Start, ReplacementEvent::Begin) => {
                self.phase = ReplacementPhase::AwaitLock;
                ReplacementAction::AcquireLock(TaskLock::Dependencies)
            },
            (ReplacementPhase::AwaitLock, ReplacementEvent::Locked) => {
                self.phase = ReplacementPhase::AwaitGuardState;
                ReplacementAction::LoadGuardState
            },
            (ReplacementPhase::AwaitGuardState, ReplacementEvent::GuardState(state)) => match state {
                None => {
                    self.phase = ReplacementPhase::Done;
                    ReplacementAction::Finish(TaskDependencyMutationOutcome::Unavailable)
                },
                Some(state) => {
                    self.project_id = state.project_id;
                    self.status = state.status;
                    self.phase = ReplacementPhase::AwaitLiveTasks;
                    ReplacementAction::LockLiveTasks { task_ids: self.locked_ids.clone() }
                },
            },
            (ReplacementPhase::AwaitLiveTasks, ReplacementEvent::LiveTasks(count)) => {
                if count != self.locked_ids.len() {
                    self.phase = ReplacementPhase::Done;
                    ReplacementAction::Finish(TaskDependencyMutationOutcome::Unavailable)
                } else {
                    self.live_checked = true;
                    self.after_live_exec()
                }
            },
            (
                ReplacementPhase::AwaitCompletion,
                ReplacementEvent::DependenciesCompleted(completed),
            ) => {
                if !completed {
                    self.phase = ReplacementPhase::Done;
                    ReplacementAction::Finish(TaskDependencyMutationOutcome::Blocked)
                } else {
                    self.completion_checked = true;
                    self.after_completion_exec()
                }
            },
            (ReplacementPhase::AwaitCycleCheck, ReplacementEvent::CycleFound(found)) => {
                if found {
                    self.phase = ReplacementPhase::Done;
                    ReplacementAction::Finish(TaskDependencyMutationOutcome::Cycle)
                } else {
                    self.cycle_checked = true;
                    self.phase = ReplacementPhase::AwaitWrite;
                    ReplacementAction::WriteDependencies {
                        value: task_list_value(&self.dependency_ids),
                    }
                }
            },
            (ReplacementPhase::AwaitWrite, ReplacementEvent::Written(snapshot)) => {
                self.snapshot = Some(snapshot);
                self.phase = ReplacementPhase::AwaitCommit;
                ReplacementAction::Commit
            },
            (ReplacementPhase::AwaitCommit, ReplacementEvent::Committed) => {
                if self.snapshot.is_some() {
                    let snapshot = self.snapshot.take().unwrap();
                    self.phase = ReplacementPhase::Done;
                    ReplacementAction::Finish(TaskDependencyMutationOutcome::Updated(snapshot))
                } else {
                    ReplacementAction::Ignore
                }
            },
            _ => ReplacementAction::Ignore,
        }
    }
}

/// The states and actions of a replacement driven by a sequence of events.
pub open spec fn run_replacement<S>(v: ReplacementView<S>, events: Seq<ReplacementEvent<S>>) -> (
    ReplacementView<S>,
    Seq<ReplacementActionView<S>>,
)
    decreases events.len(),
{
    if events.len() == 0 {
        (v, Seq::empty())
    } else {
        let (w, actions) = run_replacement(v, events.drop_last());
        let (x, action) = replacement_step(w, events.last());
        (x, actions.push(action))
    }
}

/// Whether some event reported that all `count` requested tasks were locked live.
pub open spec fn saw_all_live<S>(events: Seq<ReplacementEvent<S>>, count: nat) -> bool {
    exists|i: int|
        0 <= i < events.len() && (#[trigger] events[i] matches ReplacementEvent::LiveTasks(n) && n
            == count)
}

/// Whether some event reported every predecessor Completed.
pub open spec fn saw_completed<S>(events: Seq<ReplacementEvent<S>>) -> bool {
    exists|i: int|
        0 <= i < events.len() && #[trigger] events[i] matches ReplacementEvent::DependenciesCompleted(
            true,
        )
}

/// Whether some event reported that no cycle would form.
pub open spec fn saw_no_cycle<S>(events: Seq<ReplacementEvent<S>>) -> bool {
    exists|i: int|
        0 <= i < events.len() && #[trigger] events[i] matches ReplacementEvent::CycleFound(false)
}

/// Whether some action wrote the Depends On value.
pub open spec fn wrote_dependencies<S>(actions: Seq<ReplacementActionView<S>>) -> bool {
    exists|i: int| 0 <= i < actions.len() && #[trigger] actions[i] is WriteDependencies
}

/// Whether the replacement has not yet asked for the write.
pub open spec fn before_dependency_write(phase: ReplacementPhase) -> bool {
    phase == ReplacementPhase::Start || phase == ReplacementPhase::AwaitLock || phase
        == ReplacementPhase::AwaitGuardState || phase == ReplacementPhase::AwaitLiveTasks || phase
        == ReplacementPhase::AwaitCompletion || phase == ReplacementPhase::AwaitCycleCheck
}

/// The checks a write calls for have passed.
pub open spec fn checks_passed<S>(w: ReplacementView<S>) -> bool {
    &&& w.live_checked
    &&& is_gated(w.status) ==> w.completion_checked
    &&& w.dependency_ids.len() > 0 ==> w.cycle_checked
}

/// What a run of a replacement has established so far.
pub open spec fn replacement_facts<S>(
    v: ReplacementView<S>,
    w: ReplacementView<S>,
    events: Seq<ReplacementEvent<S>>,
    actions: Seq<ReplacementActionView<S>>,
) -> bool {
    &&& w.task_id == v.task_id
    &&& w.dependency_ids == v.dependency_ids
    &&& w.locked_ids == v.locked_ids
    &&& w.live_checked ==> saw_all_live(events, v.locked_ids.len())
    &&& w.completion_checked ==> saw_completed(events)
    &&& w.cycle_checked ==> saw_no_cycle(events)
    &&& w.phase == ReplacementPhase::AwaitCompletion ==> w.live_checked && is_gated(w.status)
    &&& w.phase == ReplacementPhase::AwaitCycleCheck ==> w.live_checked && (is_gated(w.status)
        ==> w.completion_checked) && w.dependency_ids.len() > 0
    &&& (w.phase == ReplacementPhase::AwaitWrite || w.phase == ReplacementPhase::AwaitCommit)
        ==> checks_passed(w)
    &&& before_dependency_write(w.phase) ==> !wrote_dependencies(actions)
    &&& wrote_dependencies(actions) ==> checks_passed(w)
}

proof fn lemma_replacement_facts_step<S>(
    v: ReplacementView<S>,
    events: Seq<ReplacementEvent<S>>,
    e: ReplacementEvent<S>,
)
    requires
        v.phase == ReplacementPhase::Start,
        !v.live_checked,
        !v.completion_checked,
        !v.cycle_checked,
        replacement_facts(v, run_replacement(v, events).0, events, run_replacement(v, events).1),
    ensures
        replacement_facts(
            v,
            run_replacement(v, events.push(e)).0,
            events.push(e),
            run_replacement(v, events.push(e)).1,
        ),
{
    let (w, actions) = run_replacement(v, events);
    let (x, action) = replacement_step(w, e);
    let all = events.push(e);
    assert(all.drop_last() =~= events);
    assert(all.last() == e);
    assert(run_replacement(v, all) == (x, actions.push(action)));
    let next = actions.push(action);
    assert forall|i: int| 0 <= i < events.len() implies #[trigger] all[i] == events[i] by {}
    if w.live_checked {
        let i = choose|i: int|
            0 <= i < events.len() && (#[trigger] events[i] matches ReplacementEvent::LiveTasks(n) && n
                == v.locked_ids.len());
        assert(all[i] == events[i]);
    }
    if w.completion_checked {
        let i = choose|i: int|
            0 <= i < events.len() && #[trigger] events[i] matches ReplacementEvent::DependenciesCompleted(
                true,
            );
        assert(all[i] == events[i]);
    }
    if w.cycle_checked {
        let i = choose|i: int|
            0 <= i < events.len() && #[trigger] events[i] matches ReplacementEvent::CycleFound(false);
        assert(all[i] == events[i]);
    }
    if x.live_checked && !w.live_checked {
        assert(all[events.len() as int] == e);
    }
    if x.completion_checked && !w.completion_checked {
        assert(all[events.len() as int] == e);
    }
    if x.cycle_checked && !w.cycle_checked {
        assert(all[events.len() as int] == e);
    }
    assert forall|i: int| 0 <= i < actions.len() implies #[trigger] next[i] == actions[i] by {}
    if wrote_dependencies(next) {
        let i = choose|i: int| 0 <= i < next.len() && #[trigger] next[i] is WriteDependencies;
        if i < actions.len() {
            assert(actions[i] is WriteDependencies);
        }
    }
    if wrote_dependencies(actions) {
        let i = choose|i: int| 0 <= i < actions.len() && #[trigger] actions[i] is WriteDependencies;
        assert(next[i] is WriteDependencies);
    }
}

proof fn lemma_replacement_facts<S>(v: ReplacementView<S>, events: Seq<ReplacementEvent<S>>)
    requires
        v.phase == ReplacementPhase::Start,
        !v.live_checked,
        !v.completion_checked,
        !v.cycle_checked,
    ensures
        replacement_facts(v, run_replacement(v, events).0, events, run_replacement(v, events).1),
    decreases events.len(),
{
    if events.len() > 0 {
        let prefix = events.drop_last();
        lemma_replacement_facts(v, prefix);
        lemma_replacement_facts_step(v, prefix, events.last());
        assert(prefix.push(events.last()) =~= events);
    }
}

/// A replacement writes the new Depends On list only after the database
/// reported the task and every new predecessor locked as live tasks of the
/// project, every predecessor Completed when the task's Status is gated, and
/// no cycle when the list is not empty, whatever the database answers.
pub proof fn lemma_replacement_writes_only_when_checked<S>(
    v: ReplacementView<S>,
    events: Seq<ReplacementEvent<S>>,
)
    requires
        v.phase == ReplacementPhase::Start,
        !v.live_checked,
        !v.completion_checked,
        !v.cycle_checked,
    ensures
        wrote_dependencies(run_replacement(v, events).1) ==> {
            &&& saw_all_live(events, v.locked_ids.len())
            &&& is_gated(run_replacement(v, events).0.status) ==> saw_completed(events)
            &&& v.dependency_ids.len() > 0 ==> saw_no_cycle(events)
        },
{
    lemma_replacement_facts(v, events);
}

} // verus!
