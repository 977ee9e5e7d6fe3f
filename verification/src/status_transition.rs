//! The guarded Status transition of a task, as a machine that says which
//! database step to take next and decides from each answer.
//!
//! A transition takes the dependency lock, and the hierarchy lock as well when
//! it completes the task; reads the task's guard state; checks direct
//! dependency readiness when the new Status is gated, and subtask readiness
//! when it is Completed; then writes the Status, finds the dependents that a
//! fresh completion makes ready, and commits.

use vstd::prelude::*;

use crate::dependency_readiness::{
    malformed_dependency_readiness, malformed_readiness_view, DependencyReadinessView,
    TaskDependencyReadiness,
};
use crate::subtask_hierarchy::{SubtaskReadinessView, TaskSubtaskCompletionReadiness};
use crate::task_status::{
    distinct_ids, is_gated, lemma_status_ids_round_trip, requires_readiness, status_id,
    status_of_id, StatusOption, StatusVocabulary, TaskGuardState, TaskReadiness,
};

verus! {

/// The transaction-scoped advisory locks that serialize task mutations. The
/// dependency lock is always taken first.
#[derive(Debug, Clone, Copy, PartialEq, Eq, Structural)]
pub enum TaskLock {
    Dependencies,
    Hierarchy,
}

/// The result of a guarded Status transition; `S` is the written property snapshot.
#[derive(Debug)]
pub enum TaskStatusMutationOutcome<S> {
    /// The task is not a live task.
    Blocked,
    /// The new Status is gated and the task's dependencies are not all complete.
    BlockedWithReadiness(TaskDependencyReadiness),
    /// The task cannot be completed while its subtasks are open or unavailable.
    BlockedBySubtasks(TaskSubtaskCompletionReadiness),
    /// The Status was written.
    Updated(S),
    /// The Status was written and these dependents became ready.
    UpdatedWithReady { snapshot: S, ready_task_ids: Vec<u128> },
}

/// Mathematical form of a transition outcome.
pub enum TransitionOutcomeView<S> {
    Blocked,
    BlockedWithReadiness(DependencyReadinessView),
    BlockedBySubtasks(SubtaskReadinessView),
    Updated(S),
    UpdatedWithReady { snapshot: S, ready_task_ids: Seq<u128> },
}

impl<S> View for TaskStatusMutationOutcome<S> {
    type V = TransitionOutcomeView<S>;

    open spec fn view(&self) -> TransitionOutcomeView<S> {
        match self {
            TaskStatusMutationOutcome::Blocked => TransitionOutcomeView::Blocked,
            TaskStatusMutationOutcome::BlockedWithReadiness(r) =>
                TransitionOutcomeView::BlockedWithReadiness(r@),
            TaskStatusMutationOutcome::BlockedBySubtasks(r) =>
                TransitionOutcomeView::BlockedBySubtasks(r@),
            TaskStatusMutationOutcome::Updated(snapshot) => TransitionOutcomeView::Updated(*snapshot),
            TaskStatusMutationOutcome::UpdatedWithReady { snapshot, ready_task_ids } =>
                TransitionOutcomeView::UpdatedWithReady {
                snapshot: *snapshot,
                ready_task_ids: ready_task_ids@,
            },
        }
    }
}

/// Where a transition stands.
#[derive(Debug, Clone, Copy, PartialEq, Eq, Structural)]
pub enum TransitionPhase {
    Start,
    AwaitDependencyLock,
    AwaitHierarchyLock,
    AwaitGuardState,
    AwaitDependencyReadiness,
    AwaitSubtaskReadiness,
    AwaitWrite,
    AwaitReadyDependents,
    AwaitCommit,
    Done,
}

/// What the database answered to the last action.
#[derive(Debug)]
pub enum TransitionEvent<S> {
    /// The transition starts.
    Begin,
    /// The requested lock is held.
    Locked,
    /// The locked guard state of the task, or none when it is not a live task.
    GuardState(Option<TaskGuardState>),
    /// Direct dependency readiness of the task.
    DependencyReadiness(TaskDependencyReadiness),
    /// Subtask completion readiness of the task.
    SubtaskReadiness(TaskSubtaskCompletionReadiness),
    /// The Status was written; the property snapshot.
    Written(S),
    /// The dependents that became finally ready.
    ReadyDependents(Vec<u128>),
    /// The transaction committed.
    Committed,
}

/// What the caller must do next.
#[derive(Debug)]
pub enum TransitionAction<S> {
    /// Begin the transaction if needed and take a lock.
    AcquireLock(TaskLock),
    /// Read and lock the task's guard state.
    LoadGuardState,
    /// Read the readiness of these direct dependencies within the project.
    ReadDependencyReadiness { project_id: Option<String>, dependency_ids: Vec<u128> },
    /// Read the subtask completion readiness within the project.
    ReadSubtaskReadiness { project_id: Option<String> },
    /// Write the Status value selecting this option id, or clear it.
    WriteStatus { option_id: Option<u128> },
    /// Find the dependents that a fresh completion of the task leaves ready.
    FindReadyDependents { project_id: Option<String> },
    /// Commit the transaction.
    Commit,
    /// The transition ends with this outcome (uncommitted work is rolled back).
    Finish(TaskStatusMutationOutcome<S>),
    /// The event does not belong to the current phase; nothing happens.
    Ignore,
}

/// Mathematical form of an action.
pub enum TransitionActionView<S> {
    AcquireLock(TaskLock),
    LoadGuardState,
    ReadDependencyReadiness { project_id: Option<Seq<char>>, dependency_ids: Seq<u128> },
    ReadSubtaskReadiness { project_id: Option<Seq<char>> },
    WriteStatus { option_id: Option<u128> },
    FindReadyDependents { project_id: Option<Seq<char>> },
    Commit,
    Finish(TransitionOutcomeView<S>),
    Ignore,
}

/// The text view of an optional text.
pub open spec fn opt_seq(value: Option<String>) -> Option<Seq<char>> {
    match value {
        Some(s) => Some(s@),
        None => None,
    }
}

impl<S> View for TransitionAction<S> {
    type V = TransitionActionView<S>;

    open spec fn view(&self) -> TransitionActionView<S> {
        match self {
            TransitionAction::AcquireLock(lock) => TransitionActionView::AcquireLock(*lock),
            TransitionAction::LoadGuardState => TransitionActionView::LoadGuardState,
            TransitionAction::ReadDependencyReadiness { project_id, dependency_ids } =>
                TransitionActionView::ReadDependencyReadiness {
                project_id: opt_seq(*project_id),
                dependency_ids: dependency_ids@,
            },
            TransitionAction::ReadSubtaskReadiness { project_id } =>
                TransitionActionView::ReadSubtaskReadiness { project_id: opt_seq(*project_id) },
            TransitionAction::WriteStatus { option_id } => TransitionActionView::WriteStatus {
                option_id: *option_id,
            },
            TransitionAction::FindReadyDependents { project_id } =>
                TransitionActionView::FindReadyDependents { project_id: opt_seq(*project_id) },
            TransitionAction::Commit => TransitionActionView::Commit,
            TransitionAction::Finish(outcome) => TransitionActionView::Finish(outcome@),
            TransitionAction::Ignore => TransitionActionView::Ignore,
        }
    }
}

/// Mathematical form of a transition.
pub struct TransitionView<S> {
    pub task_id: u128,
    pub status: Option<StatusOption>,
    pub vocabulary: StatusVocabulary,
    pub phase: TransitionPhase,
    pub project_id: Option<Seq<char>>,
    pub prior_status: Option<StatusOption>,
    pub dependencies_ready: bool,
    pub subtasks_ready: bool,
    pub snapshot: Option<S>,
    pub ready_task_ids: Seq<u128>,
}

/// One guarded Status transition of a task.
pub struct StatusTransition<S> {
    task_id: u128,
    status: Option<StatusOption>,
    vocabulary: StatusVocabulary,
    phase: TransitionPhase,
    project_id: Option<String>,
    prior_status: Option<StatusOption>,
    dependencies_ready: bool,
    subtasks_ready: bool,
    snapshot: Option<S>,
    ready_task_ids: Vec<u128>,
}

impl<S> View for StatusTransition<S> {
    type V = TransitionView<S>;

    closed spec fn view(&self) -> TransitionView<S> {
        TransitionView {
            task_id: self.task_id,
            status: self.status,
            vocabulary: self.vocabulary,
            phase: self.phase,
            project_id: opt_seq(self.project_id),
            prior_status: self.prior_status,
            dependencies_ready: self.dependencies_ready,
            subtasks_ready: self.subtasks_ready,
            snapshot: self.snapshot,
            ready_task_ids: self.ready_task_ids@,
        }
    }
}

/// The option id a Status write stores: the new option's id, or none to clear.
pub open spec fn written_option<S>(v: TransitionView<S>) -> Option<u128> {
    match v.status {
        Some(s) => Some(status_id(v.vocabulary, s)),
        None => None,
    }
}

/// The step after the dependency check: the subtask check for a completion,
/// otherwise the write.
pub open spec fn after_dependencies<S>(v: TransitionView<S>) -> (TransitionView<S>, TransitionActionView<
    S,
>) {
    if v.status == Some(StatusOption::Completed) {
        (
            TransitionView { phase: TransitionPhase::AwaitSubtaskReadiness, ..v },
            TransitionActionView::ReadSubtaskReadiness { project_id: v.project_id },
        )
    } else {
        (
            TransitionView { phase: TransitionPhase::AwaitWrite, ..v },
            TransitionActionView::WriteStatus { option_id: written_option(v) },
        )
    }
}

/// Whether a write completes the task afresh.
pub open spec fn completes_afresh<S>(v: TransitionView<S>) -> bool {
    v.status == Some(StatusOption::Completed) && v.prior_status != Some(StatusOption::Completed)
}

/// The next state and action of a transition after an event.
pub open spec fn transition_step<S>(v: TransitionView<S>, e: TransitionEvent<S>) -> (
    TransitionView<S>,
    TransitionActionView<S>,
) {
    match (v.phase, e) {
        (TransitionPhase::Start, TransitionEvent::Begin) => (
            TransitionView { phase: TransitionPhase::AwaitDependencyLock, ..v },
            TransitionActionView::AcquireLock(TaskLock::Dependencies),
        ),
        (TransitionPhase::AwaitDependencyLock, TransitionEvent::Locked) => if v.status == Some(
            StatusOption::Completed,
        ) {
            (
                TransitionView { phase: TransitionPhase::AwaitHierarchyLock, ..v },
                TransitionActionView::AcquireLock(TaskLock::Hierarchy),
            )
        } else {
            (
                TransitionView { phase: TransitionPhase::AwaitGuardState, ..v },
                TransitionActionView::LoadGuardState,
            )
        },
        (TransitionPhase::AwaitHierarchyLock, TransitionEvent::Locked) => (
            TransitionView { phase: TransitionPhase::AwaitGuardState, ..v },
            TransitionActionView::LoadGuardState,
        ),
        (TransitionPhase::AwaitGuardState, TransitionEvent::GuardState(state)) => match state {
            None => (
                TransitionView { phase: TransitionPhase::Done, ..v },
                TransitionActionView::Finish(TransitionOutcomeView::Blocked),
            ),
            Some(state) => {
                let read = TransitionView {
                    project_id: opt_seq(state.project_id),
                    prior_status: state.status,
                    ..v
                };
                if is_gated(v.status) {
                    match state.dependencies {
                        Ok(ids) => (
                            TransitionView { phase: TransitionPhase::AwaitDependencyReadiness, ..read },
                            TransitionActionView::ReadDependencyReadiness {
                                project_id: read.project_id,
                                dependency_ids: ids@,
                            },
                        ),
                        Err(()) => (
                            TransitionView { phase: TransitionPhase::Done, ..read },
                            TransitionActionView::Finish(
                                TransitionOutcomeView::BlockedWithReadiness(
                                    malformed_readiness_view(v.task_id),
                                ),
                            ),
                        ),
                    }
                } else {
                    after_dependencies(read)
                }
            },
        },
        (TransitionPhase::AwaitDependencyReadiness, TransitionEvent::DependencyReadiness(r)) =>
            if r.readiness == TaskReadiness::Blocked {
            (
                TransitionView { phase: TransitionPhase::Done, ..v },
                TransitionActionView::Finish(TransitionOutcomeView::BlockedWithReadiness(r@)),
            )
        } else {
            after_dependencies(TransitionView { dependencies_ready: true, ..v })
        },
        (TransitionPhase::AwaitSubtaskReadiness, TransitionEvent::SubtaskReadiness(r)) =>
            if r.readiness == TaskReadiness::Blocked {
            (
                TransitionView { phase: TransitionPhase::Done, ..v },
                TransitionActionView::Finish(TransitionOutcomeView::BlockedBySubtasks(r@)),
            )
        } else {
            (
                TransitionView { phase: TransitionPhase::AwaitWrite, subtasks_ready: true, ..v },
                TransitionActionView::WriteStatus { option_id: written_option(v) },
            )
        },
        (TransitionPhase::AwaitWrite, TransitionEvent::Written(snapshot)) => if completes_afresh(v) {
            (
                TransitionView {
                    phase: TransitionPhase::AwaitReadyDependents,
                    snapshot: Some(snapshot),
                    ..v
                },
                TransitionActionView::FindReadyDependents { project_id: v.project_id },
            )
        } else {
            (
                TransitionView {
                    phase: TransitionPhase::AwaitCommit,
                    snapshot: Some(snapshot),
                    ..v
                },
                TransitionActionView::Commit,
            )
        },
        (TransitionPhase::AwaitReadyDependents, TransitionEvent::ReadyDependents(ids)) => (
            TransitionView { phase: TransitionPhase::AwaitCommit, ready_task_ids: ids@, ..v },
            TransitionActionView::Commit,
        ),
        (TransitionPhase::AwaitCommit, TransitionEvent::Committed) => match v.snapshot {
            Some(snapshot) => (
                TransitionView { phase: TransitionPhase::Done, snapshot: None, ..v },
                TransitionActionView::Finish(
                    if v.ready_task_ids.len() == 0 {
                        TransitionOutcomeView::Updated(snapshot)
                    } else {
                        TransitionOutcomeView::UpdatedWithReady {
                            snapshot,
                            ready_task_ids: v.ready_task_ids,
                        }
                    },
                ),
            ),
            None => (v, TransitionActionView::Ignore),
        },
        _ => (v, TransitionActionView::Ignore),
    }
}

impl<S> StatusTransition<S> {
    /// A fresh transition of `task_id` to `status` (`None` clears it).
    pub fn new(task_id: u128, status: Option<StatusOption>, vocabulary: StatusVocabulary) -> (transition: Self)
        ensures
            transition@.task_id == task_id,
            transition@.status == status,
            transition@.vocabulary == vocabulary,
            transition@.phase == TransitionPhase::Start,
            transition@.project_id is None,
            transition@.prior_status is None,
            !transition@.dependencies_ready,
            !transition@.subtasks_ready,
            transition@.snapshot is None,
            transition@.ready_task_ids.len() == 0,
    {
        StatusTransition {
            task_id,
            status,
            vocabulary,
            phase: TransitionPhase::Start,
            project_id: None,
            prior_status: None,
            dependencies_ready: false,
            subtasks_ready: false,
            snapshot: None,
            ready_task_ids: Vec::new(),
        }
    }

    /// Where the transition stands.
    pub fn phase(&self) -> (phase: TransitionPhase)
        ensures
            phase == self@.phase,
    {
        self.phase
    }

    fn written_option_exec(&self) -> (option_id: Option<u128>)
        ensures
            option_id == written_option(self@),
    {
        match self.status {
            Some(s) => Some(self.vocabulary.uuid(s)),
            None => None,
        }
    }

    fn after_dependencies_exec(&mut self) -> (action: TransitionAction<S>)
        ensures
            (final(self)@, action@) == after_dependencies(old(self)@),
    {
        if self.status == Some(StatusOption::Completed) {
            self.phase = TransitionPhase::AwaitSubtaskReadiness;
            TransitionAction::ReadSubtaskReadiness { project_id: self.project_id.clone() }
        } else {
            self.phase = TransitionPhase::AwaitWrite;
            TransitionAction::WriteStatus { option_id: self.written_option_exec() }
        }
    }

    /// Advances the transition by one database answer and says what to do next.
    pub fn step(&mut self, event: TransitionEvent<S>) -> (action: TransitionAction<S>)
        ensures
            (final(self)@, action@) == transition_step(old(self)@, event),
    {
        match (self.phase, event) {
            (TransitionPhase::Start, TransitionEvent::Begin) => {
                self.phase = TransitionPhase::AwaitDependencyLock;
                TransitionAction::AcquireLock(TaskLock::Dependencies)
            },
            (TransitionPhase::AwaitDependencyLock, TransitionEvent::Locked) => {
                if self.status == Some(StatusOption::Completed) {
                    self.phase = TransitionPhase::AwaitHierarchyLock;
                    TransitionAction::AcquireLock(TaskLock::Hierarchy)
                } else {
                    self.phase = TransitionPhase::AwaitGuardState;
                    TransitionAction::LoadGuardState
                }
            },
            (TransitionPhase::AwaitHierarchyLock, TransitionEvent::Locked) => {
                self.phase = TransitionPhase::AwaitGuardState;
                TransitionAction::LoadGuardState
            },
            (TransitionPhase::AwaitGuardState, TransitionEvent::GuardState(state)) => match state {
                None => {
                    self.phase = TransitionPhase::Done;
                    TransitionAction::Finish(TaskStatusMutationOutcome::Blocked)
                },
                Some(state) => {
                    self.project_id = state.project_id;
                    self.prior_status = state.status;
                    if requires_readiness(self.status) {
                        match state.dependencies {
                            Ok(ids) => {
                                self.phase = TransitionPhase::AwaitDependencyReadiness;
                                TransitionAction::ReadDependencyReadiness {
                                    project_id: self.project_id.clone(),
                                    dependency_ids: ids,
                                }
                            },
                            Err(()) => {
                                self.phase = TransitionPhase::Done;
                                TransitionAction::Finish(
                                    TaskStatusMutationOutcome::BlockedWithReadiness(
                                        malformed_dependency_readiness(self.task_id),
                                    ),
                                )
                            },
                        }
                    } else {
                        self.after_dependencies_exec()
                    }
                },
            },
            (TransitionPhase::AwaitDependencyReadiness, TransitionEvent::DependencyReadiness(r)) => {
                if r.readiness == TaskReadiness::Blocked {
                    self.phase = TransitionPhase::Done;
                    TransitionAction::Finish(TaskStatusMutationOutcome::BlockedWithReadiness(r))
                } else {
                    self.dependencies_ready = true;
                    self.after_dependencies_exec()
                }
            },
            (TransitionPhase::AwaitSubtaskReadiness, TransitionEvent::SubtaskReadiness(r)) => {
                if r.readiness == TaskReadiness::Blocked {
                    self.phase = TransitionPhase::Done;
                    TransitionAction::Finish(TaskStatusMutationOutcome::BlockedBySubtasks(r))
                } else {
                    self.subtasks_ready = true;
                    self.phase = TransitionPhase::AwaitWrite;
                    TransitionAction::WriteStatus { option_id: self.written_option_exec() }
                }
            },
            (TransitionPhase::AwaitWrite, TransitionEvent::Written(snapshot)) => {
                self.snapshot = Some(snapshot);
                if self.status == Some(StatusOption::Completed) && self.prior_status != Some(
                    StatusOption::Completed,
                ) {
                    self.phase = TransitionPhase::AwaitReadyDependents;
                    TransitionAction::FindReadyDependents { project_id: self.project_id.clone() }
                } else {
                    self.phase = TransitionPhase::AwaitCommit;
                    TransitionAction::Commit
                }
            },
            (TransitionPhase::AwaitReadyDependents, TransitionEvent::ReadyDependents(ids)) => {
                self.ready_task_ids = ids;
                self.phase = TransitionPhase::AwaitCommit;
                TransitionAction::Commit
            },
            (TransitionPhase::AwaitCommit, TransitionEvent::Committed) => {
                if self.snapshot.is_some() {
                    let snapshot = self.snapshot.take().unwrap();
                    self.phase = TransitionPhase::Done;
                    if self.ready_task_ids.len() == 0 {
                        TransitionAction::Finish(TaskStatusMutationOutcome::Updated(snapshot))
                    } else {
                        let ready_task_ids = self.ready_task_ids.clone();
                        TransitionAction::Finish(
                            TaskStatusMutationOutcome::UpdatedWithReady { snapshot, ready_task_ids },
                        )
                    }
                } else {
                    TransitionAction::Ignore
                }
            },
            _ => TransitionAction::Ignore,
        }
    }
}

/// The states and actions of a transition driven by a sequence of events.
pub open spec fn run_transition<S>(v: TransitionView<S>, events: Seq<TransitionEvent<S>>) -> (
    TransitionView<S>,
    Seq<TransitionActionView<S>>,
)
    decreases events.len(),
{
    if events.len() == 0 {
        (v, Seq::empty())
    } else {
        let (w, actions) = run_transition(v, events.drop_last());
        let (x, action) = transition_step(w, events.last());
        (x, actions.push(action))
    }
}

/// Whether some event reported ready direct dependencies.
pub open spec fn saw_ready_dependencies<S>(events: Seq<TransitionEvent<S>>) -> bool {
    exists|i: int|
        0 <= i < events.len() && (#[trigger] events[i] matches TransitionEvent::DependencyReadiness(
            r,
        ) && r.readiness == TaskReadiness::Ready)
}

/// Whether some event reported ready subtasks.
pub open spec fn saw_ready_subtasks<S>(events: Seq<TransitionEvent<S>>) -> bool {
    exists|i: int|
        0 <= i < events.len() && (#[trigger] events[i] matches TransitionEvent::SubtaskReadiness(r)
            && r.readiness == TaskReadiness::Ready)
}

/// Whether some action wrote the Status.
pub open spec fn wrote_status<S>(actions: Seq<TransitionActionView<S>>) -> bool {
    exists|i: int| 0 <= i < actions.len() && #[trigger] actions[i] is WriteStatus
}

/// Whether some action took the hierarchy lock.
pub open spec fn took_hierarchy_lock<S>(actions: Seq<TransitionActionView<S>>) -> bool {
    exists|i: int|
        0 <= i < actions.len() && #[trigger] actions[i] == TransitionActionView::<S>::AcquireLock(
            TaskLock::Hierarchy,
        )
}

/// Whether some action searched for newly ready dependents.
pub open spec fn searched_ready_dependents<S>(actions: Seq<TransitionActionView<S>>) -> bool {
    exists|i: int| 0 <= i < actions.len() && #[trigger] actions[i] is FindReadyDependents
}

/// Whether the transition has reached the write or a later step of a success.
pub open spec fn past_checks(phase: TransitionPhase) -> bool {
    phase == TransitionPhase::AwaitWrite || phase == TransitionPhase::AwaitReadyDependents
        || phase == TransitionPhase::AwaitCommit
}

/// Whether the transition has not yet asked for the Status write.
pub open spec fn before_write(phase: TransitionPhase) -> bool {
    phase == TransitionPhase::Start || phase == TransitionPhase::AwaitDependencyLock || phase
        == TransitionPhase::AwaitHierarchyLock || phase == TransitionPhase::AwaitGuardState || phase
        == TransitionPhase::AwaitDependencyReadiness || phase == TransitionPhase::AwaitSubtaskReadiness
}

/// What a run has established so far.
pub open spec fn transition_facts<S>(
    v: TransitionView<S>,
    w: TransitionView<S>,
    events: Seq<TransitionEvent<S>>,
    actions: Seq<TransitionActionView<S>>,
) -> bool {
    &&& w.task_id == v.task_id
    &&& w.status == v.status
    &&& w.vocabulary == v.vocabulary
    &&& w.dependencies_ready ==> saw_ready_dependencies(events)
    &&& w.subtasks_ready ==> saw_ready_subtasks(events)
    &&& past_checks(w.phase) ==> (is_gated(v.status) ==> w.dependencies_ready) && (v.status == Some(
        StatusOption::Completed,
    ) ==> w.subtasks_ready)
    &&& wrote_status(actions) ==> (is_gated(v.status) ==> w.dependencies_ready) && (v.status
        == Some(StatusOption::Completed) ==> w.subtasks_ready)
    &&& took_hierarchy_lock(actions) ==> v.status == Some(StatusOption::Completed)
    &&& searched_ready_dependents(actions) ==> v.status == Some(StatusOption::Completed)
        && w.prior_status != Some(StatusOption::Completed)
    &&& (w.phase == TransitionPhase::AwaitReadyDependents || w.phase == TransitionPhase::AwaitCommit
        || w.snapshot is Some) ==> wrote_status(actions)
    &&& before_write(w.phase) ==> !wrote_status(actions) && !searched_ready_dependents(actions)
        && w.snapshot is None
    &&& w.phase == TransitionPhase::AwaitWrite ==> wrote_status(actions)
    &&& w.phase == TransitionPhase::AwaitSubtaskReadiness ==> (is_gated(v.status)
        ==> w.dependencies_ready) && v.status == Some(StatusOption::Completed)
    &&& (w.phase == TransitionPhase::AwaitReadyDependents || w.phase == TransitionPhase::AwaitCommit)
        ==> w.snapshot is Some
}

proof fn lemma_transition_facts_step<S>(
    v: TransitionView<S>,
    events: Seq<TransitionEvent<S>>,
    e: TransitionEvent<S>,
)
    requires
        v.phase == TransitionPhase::Start,
        !v.dependencies_ready,
        !v.subtasks_ready,
        v.snapshot is None,
        transition_facts(v, run_transition(v, events).0, events, run_transition(v, events).1),
    ensures
        transition_facts(
            v,
            run_transition(v, events.push(e)).0,
            events.push(e),
            run_transition(v, events.push(e)).1,
        ),
{
    let (w, actions) = run_transition(v, events);
    let (x, action) = transition_step(w, e);
    let all = events.push(e);
    assert(all.drop_last() =~= events);
    assert(all.last() == e);
    assert(run_transition(v, all) == (x, actions.push(action)));
    let next = actions.push(action);
    assert forall|i: int| 0 <= i < events.len() implies #[trigger] all[i] == events[i] by {}
    if w.dependencies_ready {
        let i = choose|i: int|
            0 <= i < events.len() && (#[trigger] events[i] matches TransitionEvent::DependencyReadiness(
                r,
            ) && r.readiness == TaskReadiness::Ready);
        assert(all[i] == events[i]);
    }
    if w.subtasks_ready {
        let i = choose|i: int|
            0 <= i < events.len() && (#[trigger] events[i] matches TransitionEvent::SubtaskReadiness(
                r,
            ) && r.readiness == TaskReadiness::Ready);
        assert(all[i] == events[i]);
    }
    if x.dependencies_ready && !w.dependencies_ready {
        assert(all[events.len() as int] == e);
    }
    if x.subtasks_ready && !w.subtasks_ready {
        assert(all[events.len() as int] == e);
    }
    assert forall|i: int| 0 <= i < actions.len() implies #[trigger] next[i] == actions[i] by {}
    if wrote_status(next) {
        let i = choose|i: int| 0 <= i < next.len() && #[trigger] next[i] is WriteStatus;
        if i < actions.len() {
            assert(actions[i] is WriteStatus);
        }
    }
    if took_hierarchy_lock(next) {
        let i = choose|i: int|
            0 <= i < next.len() && #[trigger] next[i] == TransitionActionView::<S>::AcquireLock(
                TaskLock::Hierarchy,
            );
        if i < actions.len() {
            assert(actions[i] == next[i]);
        }
    }
    if searched_ready_dependents(next) {
        let i = choose|i: int| 0 <= i < next.len() && #[trigger] next[i] is FindReadyDependents;
        if i < actions.len() {
            assert(actions[i] is FindReadyDependents);
        }
    }
    if action is WriteStatus {
        assert(next[actions.len() as int] is WriteStatus);
    }
    if wrote_status(actions) {
        let i = choose|i: int| 0 <= i < actions.len() && #[trigger] actions[i] is WriteStatus;
        assert(next[i] is WriteStatus);
    }
}

proof fn lemma_transition_facts<S>(v: TransitionView<S>, events: Seq<TransitionEvent<S>>)
    requires
        v.phase == TransitionPhase::Start,
        !v.dependencies_ready,
        !v.subtasks_ready,
        v.snapshot is None,
    ensures
        transition_facts(v, run_transition(v, events).0, events, run_transition(v, events).1),
    decreases events.len(),
{
    if events.len() > 0 {
        let prefix = events.drop_last();
        lemma_transition_facts(v, prefix);
        lemma_transition_facts_step(v, prefix, events.last());
        assert(prefix.push(events.last()) =~= events);
    }
}

/// A Status transition writes the Status only after a readiness check passed:
/// a gated Status (In Progress, In Review, Completed) only after the database
/// reported the task's direct dependencies ready, and Completed only after it
/// also reported the subtasks ready, whatever the database answers. The
/// hierarchy lock is only taken to complete a task, and newly ready dependents
/// are only searched when the task was not Completed before.
pub proof fn lemma_transition_writes_only_when_ready<S>(
    v: TransitionView<S>,
    events: Seq<TransitionEvent<S>>,
)
    requires
        v.phase == TransitionPhase::Start,
        !v.dependencies_ready,
        !v.subtasks_ready,
        v.snapshot is None,
    ensures
        wrote_status(run_transition(v, events).1) ==> {
            &&& is_gated(v.status) ==> saw_ready_dependencies(events)
            &&& v.status == Some(StatusOption::Completed) ==> saw_ready_subtasks(events)
        },
        took_hierarchy_lock(run_transition(v, events).1) ==> v.status == Some(
            StatusOption::Completed,
        ),
        searched_ready_dependents(run_transition(v, events).1) ==> v.status == Some(
            StatusOption::Completed,
        ) && run_transition(v, events).0.prior_status != Some(StatusOption::Completed),
{
    lemma_transition_facts(v, events);
}

/// A transition that finishes with the Status written wrote it, and so passed
/// every readiness check its Status calls for.
pub proof fn lemma_updates_follow_ready_checks<S>(
    v: TransitionView<S>,
    events: Seq<TransitionEvent<S>>,
    k: int,
)
    requires
        v.phase == TransitionPhase::Start,
        !v.dependencies_ready,
        !v.subtasks_ready,
        v.snapshot is None,
        0 <= k < run_transition(v, events).1.len(),
        run_transition(v, events).1[k] matches TransitionActionView::Finish(outcome) && (
        outcome is Updated || outcome is UpdatedWithReady),
    ensures
        is_gated(v.status) ==> saw_ready_dependencies(events),
        v.status == Some(StatusOption::Completed) ==> saw_ready_subtasks(events),
    decreases events.len(),
{
    let prefix = events.drop_last();
    let (w, actions) = run_transition(v, prefix);
    assert(prefix.push(events.last()) =~= events);
    lemma_transition_facts(v, prefix);
    lemma_transition_facts(v, events);
    let all = run_transition(v, events).1;
    assert(all == actions.push(transition_step(w, events.last()).1));
    if k < actions.len() {
        assert(all[k] == actions[k]);
        lemma_updates_follow_ready_checks(v, prefix, k);
        if saw_ready_dependencies(prefix) {
            let i = choose|i: int|
                0 <= i < prefix.len() && (#[trigger] prefix[i] matches TransitionEvent::DependencyReadiness(
                    r,
                ) && r.readiness == TaskReadiness::Ready);
            assert(events[i] == prefix[i]);
        }
        if saw_ready_subtasks(prefix) {
            let i = choose|i: int|
                0 <= i < prefix.len() && (#[trigger] prefix[i] matches TransitionEvent::SubtaskReadiness(
                    r,
                ) && r.readiness == TaskReadiness::Ready);
            assert(events[i] == prefix[i]);
        }
    } else {
        assert(w.phase == TransitionPhase::AwaitCommit);
    }
}

/// Whether the database answered the search for newly ready dependents with
/// `ids`: a ReadyDependents event taken while the transition awaited it.
pub open spec fn fanout_answer<S>(
    v: TransitionView<S>,
    events: Seq<TransitionEvent<S>>,
    ids: Seq<u128>,
) -> bool {
    exists|i: int|
        0 <= i < events.len() && run_transition(v, events.take(i)).0.phase
            == TransitionPhase::AwaitReadyDependents && (#[trigger] events[i] matches TransitionEvent::ReadyDependents(
            r,
        ) && r@ == ids)
}

/// Whether a finishing action agrees with the final state's ready dependents.
pub open spec fn finish_agrees<S>(action: TransitionActionView<S>, w: TransitionView<S>) -> bool {
    match action {
        TransitionActionView::Finish(TransitionOutcomeView::Updated(_)) => w.ready_task_ids.len() == 0,
        TransitionActionView::Finish(TransitionOutcomeView::UpdatedWithReady { ready_task_ids, .. }) =>
            ready_task_ids == w.ready_task_ids && w.ready_task_ids.len() > 0,
        _ => true,
    }
}

/// Whether an action finishes with the Status written.
pub open spec fn finishes_updated<S>(action: TransitionActionView<S>) -> bool {
    action matches TransitionActionView::Finish(o) && (o is Updated || o is UpdatedWithReady)
}

/// What a run has established about the search for newly ready dependents.
pub open spec fn fanout_facts<S>(
    v: TransitionView<S>,
    w: TransitionView<S>,
    events: Seq<TransitionEvent<S>>,
    actions: Seq<TransitionActionView<S>>,
) -> bool {
    &&& forall|ids: Seq<u128>|
        fanout_answer(v, events, ids) ==> ids == w.ready_task_ids && (w.phase
            == TransitionPhase::AwaitCommit || w.phase == TransitionPhase::Done)
    &&& (w.phase == TransitionPhase::AwaitCommit || w.phase == TransitionPhase::Done)
        && searched_ready_dependents(actions) ==> fanout_answer(v, events, w.ready_task_ids)
    &&& !searched_ready_dependents(actions) ==> w.ready_task_ids.len() == 0
    &&& w.phase == TransitionPhase::AwaitReadyDependents ==> searched_ready_dependents(actions)
    &&& wrote_status(actions) && completes_afresh(w) && w.phase != TransitionPhase::AwaitWrite
        ==> searched_ready_dependents(actions)
    &&& forall|k: int|
        0 <= k < actions.len() && #[trigger] actions[k] is Finish ==> w.phase == TransitionPhase::Done
            && finish_agrees(actions[k], w) && (finishes_updated(actions[k]) ==> wrote_status(
            actions,
        ))
}

proof fn lemma_fanout_facts_step<S>(
    v: TransitionView<S>,
    events: Seq<TransitionEvent<S>>,
    e: TransitionEvent<S>,
)
    requires
        v.phase == TransitionPhase::Start,
        !v.dependencies_ready,
        !v.subtasks_ready,
        v.snapshot is None,
        v.ready_task_ids.len() == 0,
        transition_facts(v, run_transition(v, events).0, events, run_transition(v, events).1),
        fanout_facts(v, run_transition(v, events).0, events, run_transition(v, events).1),
    ensures
        fanout_facts(
            v,
            run_transition(v, events.push(e)).0,
            events.push(e),
            run_transition(v, events.push(e)).1,
        ),
{
    let (w, actions) = run_transition(v, events);
    let (x, action) = transition_step(w, e);
    let all = events.push(e);
    let n = events.len() as int;
    assert(all.drop_last() =~= events);
    assert(all.last() == e);
    assert(run_transition(v, all) == (x, actions.push(action)));
    assert(all.take(n) =~= events);
    let next = actions.push(action);
    assert(next[actions.len() as int] == action);
    assert forall|i: int| 0 <= i < actions.len() implies #[trigger] next[i] == actions[i] by {}
    if searched_ready_dependents(actions) {
        let i = choose|i: int| 0 <= i < actions.len() && #[trigger] actions[i] is FindReadyDependents;
        assert(next[i] is FindReadyDependents);
    }
    if searched_ready_dependents(next) && !searched_ready_dependents(actions) {
        let i = choose|i: int| 0 <= i < next.len() && #[trigger] next[i] is FindReadyDependents;
        if i < actions.len() {
            assert(actions[i] is FindReadyDependents);
        }
        assert(action is FindReadyDependents);
    }
    if wrote_status(actions) {
        let i = choose|i: int| 0 <= i < actions.len() && #[trigger] actions[i] is WriteStatus;
        assert(next[i] is WriteStatus);
    }
    if wrote_status(next) && !wrote_status(actions) {
        let i = choose|i: int| 0 <= i < next.len() && #[trigger] next[i] is WriteStatus;
        if i < actions.len() {
            assert(actions[i] is WriteStatus);
        }
    }
    assert forall|ids: Seq<u128>| fanout_answer(v, events, ids) implies fanout_answer(v, all, ids) by {
        let i = choose|i: int|
            0 <= i < events.len() && run_transition(v, events.take(i)).0.phase
                == TransitionPhase::AwaitReadyDependents && (#[trigger] events[i] matches TransitionEvent::ReadyDependents(
                r,
            ) && r@ == ids);
        assert(all.take(i) =~= events.take(i));
        assert(all[i] == events[i]);
    }
    assert forall|ids: Seq<u128>| fanout_answer(v, all, ids) implies ids == x.ready_task_ids && (
    x.phase == TransitionPhase::AwaitCommit || x.phase == TransitionPhase::Done) by {
        let i = choose|i: int|
            0 <= i < all.len() && run_transition(v, all.take(i)).0.phase
                == TransitionPhase::AwaitReadyDependents && (#[trigger] all[i] matches TransitionEvent::ReadyDependents(
                r,
            ) && r@ == ids);
        if i < n {
            assert(all.take(i) =~= events.take(i));
            assert(all[i] == events[i]);
            assert(fanout_answer(v, events, ids));
        } else {
            assert(all[i] == e);
        }
    }
    if (x.phase == TransitionPhase::AwaitCommit || x.phase == TransitionPhase::Done)
        && searched_ready_dependents(next) && w.phase == TransitionPhase::AwaitReadyDependents {
        assert(all[n] == e);
    }
    assert forall|k: int|
        0 <= k < next.len() && #[trigger] next[k] is Finish implies x.phase == TransitionPhase::Done
            && finish_agrees(next[k], x) && (finishes_updated(next[k]) ==> wrote_status(next)) by {
        if k < actions.len() {
            assert(actions[k] is Finish);
        }
    }
}

proof fn lemma_fanout_facts<S>(v: TransitionView<S>, events: Seq<TransitionEvent<S>>)
    requires
        v.phase == TransitionPhase::Start,
        !v.dependencies_ready,
        !v.subtasks_ready,
        v.snapshot is None,
        v.ready_task_ids.len() == 0,
    ensures
        fanout_facts(v, run_transition(v, events).0, events, run_transition(v, events).1),
    decreases events.len(),
{
    if events.len() > 0 {
        let prefix = events.drop_last();
        lemma_fanout_facts(v, prefix);
        lemma_transition_facts(v, prefix);
        lemma_fanout_facts_step(v, prefix, events.last());
        assert(prefix.push(events.last()) =~= events);
    } else {
        assert forall|ids: Seq<u128>| fanout_answer(v, events, ids) implies false by {}
    }
}

/// A transition that finishes with the Status written reports newly ready
/// dependents exactly when it completed the task afresh and the database
/// found some: the ids it reports are the ones the database answered, in that
/// order. A transition to another Status, or to Completed on a task already
/// Completed, reports none and never searches for them. The database is asked
/// for ready dependents at most once per run.
#[verifier::rlimit(40)]
pub proof fn lemma_fanout_only_on_fresh_completion<S>(
    v: TransitionView<S>,
    events: Seq<TransitionEvent<S>>,
    k: int,
)
    requires
        v.phase == TransitionPhase::Start,
        !v.dependencies_ready,
        !v.subtasks_ready,
        v.snapshot is None,
        v.ready_task_ids.len() == 0,
        0 <= k < run_transition(v, events).1.len(),
        finishes_updated(run_transition(v, events).1[k]),
    ensures
        run_transition(v, events).1[k] matches TransitionActionView::Finish(
            TransitionOutcomeView::UpdatedWithReady { ready_task_ids, .. },
        ) ==> {
            &&& completes_afresh(run_transition(v, events).0)
            &&& ready_task_ids.len() > 0
            &&& fanout_answer(v, events, ready_task_ids)
        },
        run_transition(v, events).1[k] is Finish && run_transition(v, events).1[k]->Finish_0 is Updated
            ==> {
            ||| completes_afresh(run_transition(v, events).0) && fanout_answer(v, events, Seq::empty())
            ||| !completes_afresh(run_transition(v, events).0) && !searched_ready_dependents(
                run_transition(v, events).1,
            )
        },
        run_transition(v, events).0.status == v.status,
        forall|a: Seq<u128>, b: Seq<u128>|
            fanout_answer(v, events, a) && fanout_answer(v, events, b) ==> a == b,
{
    lemma_transition_facts(v, events);
    lemma_fanout_facts(v, events);
    let w = run_transition(v, events).0;
    let actions = run_transition(v, events).1;
    assert(actions[k] is Finish);
    assert(w.phase == TransitionPhase::Done);
    assert(finish_agrees(actions[k], w));
    assert(wrote_status(actions));
    if searched_ready_dependents(actions) {
        assert(completes_afresh(w));
        assert(fanout_answer(v, events, w.ready_task_ids));
        if actions[k]->Finish_0 is Updated {
            assert(w.ready_task_ids =~= Seq::<u128>::empty());
        }
    } else {
        assert(w.ready_task_ids.len() == 0);
        assert(!completes_afresh(w));
    }
}

/// The option id a Status write stores reads back as the requested Status
/// (and a cleared Status writes no id), whenever the vocabulary gives each
/// option its own id: whatever state and answer lead to the write.
pub proof fn lemma_status_write_stores_requested_status<S>(v: TransitionView<S>, e: TransitionEvent<S>)
    requires
        distinct_ids(v.vocabulary),
    ensures
        transition_step(v, e).1 matches TransitionActionView::WriteStatus { option_id } ==> match option_id {
            Some(id) => status_of_id(v.vocabulary, id) == v.status && v.status is Some,
            None => v.status is None,
        },
{
    if let Some(s) = v.status {
        lemma_status_ids_round_trip(v.vocabulary, s, s);
    }
}

} // verus!
