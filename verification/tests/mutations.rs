use task_governance::dependency_readiness::TaskDependencyReadiness;
use task_governance::dependency_write::{
    locked_task_ids, DependencyReplacement, ReplacementAction, ReplacementEvent, ReplacementPhase,
    TaskDependencyMutationOutcome,
};
use task_governance::property_value::{EntityType, PropertyValue};
use task_governance::status_transition::{
    StatusTransition, TaskLock, TaskStatusMutationOutcome, TransitionAction, TransitionEvent,
    TransitionPhase,
};
use task_governance::subtask_hierarchy::TaskSubtaskCompletionReadiness;
use task_governance::task_status::{StatusOption, StatusVocabulary, TaskGuardState, TaskReadiness};

fn vocabulary() -> StatusVocabulary {
    StatusVocabulary {
        not_started: 0x00000001_0000_0000_0002_000000000001,
        in_progress: 0x00000001_0000_0000_0002_000000000002,
        in_review: 0x00000001_0000_0000_0002_000000000003,
        completed: 0x00000001_0000_0000_0002_000000000004,
        canceled: 0x00000001_0000_0000_0002_000000000005,
    }
}

fn guard(status: Option<StatusOption>, dependencies: Result<Vec<u128>, ()>) -> TaskGuardState {
    TaskGuardState { project_id: Some("project-1".to_owned()), status, dependencies }
}

fn readiness(task_id: u128, ready: bool, blocking: Vec<u128>) -> TaskDependencyReadiness {
    TaskDependencyReadiness {
        task_id,
        readiness: if ready { TaskReadiness::Ready } else { TaskReadiness::Blocked },
        depends_on_task_ids: vec![0x2],
        blocking_task_ids: blocking,
        has_unavailable_dependencies: false,
    }
}

#[test]
fn gated_status_waits_for_ready_dependencies() {
    let mut t: StatusTransition<&str> = StatusTransition::new(0x1, Some(StatusOption::InProgress), vocabulary());
    assert!(matches!(t.step(TransitionEvent::Begin), TransitionAction::AcquireLock(TaskLock::Dependencies)));
    assert!(matches!(t.step(TransitionEvent::Locked), TransitionAction::LoadGuardState));
    match t.step(TransitionEvent::GuardState(Some(guard(Some(StatusOption::NotStarted), Ok(vec![0x2]))))) {
        TransitionAction::ReadDependencyReadiness { project_id, dependency_ids } => {
            assert_eq!(project_id.as_deref(), Some("project-1"));
            assert_eq!(dependency_ids, vec![0x2]);
        }
        other => panic!("unexpected {other:?}"),
    }
    match t.step(TransitionEvent::DependencyReadiness(readiness(0x1, true, vec![]))) {
        TransitionAction::WriteStatus { option_id } => {
            assert_eq!(option_id, Some(vocabulary().in_progress));
        }
        other => panic!("unexpected {other:?}"),
    }
    assert!(matches!(t.step(TransitionEvent::Written("snapshot")), TransitionAction::Commit));
    assert!(matches!(
        t.step(TransitionEvent::Committed),
        TransitionAction::Finish(TaskStatusMutationOutcome::Updated("snapshot"))
    ));
    assert_eq!(t.phase(), TransitionPhase::Done);
}

#[test]
fn blocked_dependencies_refuse_the_transition_with_readiness() {
    let mut t: StatusTransition<()> = StatusTransition::new(0x1, Some(StatusOption::InReview), vocabulary());
    t.step(TransitionEvent::Begin);
    t.step(TransitionEvent::Locked);
    t.step(TransitionEvent::GuardState(Some(guard(None, Ok(vec![0x2])))));
    match t.step(TransitionEvent::DependencyReadiness(readiness(0x1, false, vec![0x2]))) {
        TransitionAction::Finish(TaskStatusMutationOutcome::BlockedWithReadiness(r)) => {
            assert_eq!(r.blocking_task_ids, vec![0x2]);
        }
        other => panic!("unexpected {other:?}"),
    }
    // Nothing further happens once finished.
    assert!(matches!(t.step(TransitionEvent::Written(())), TransitionAction::Ignore));
}

#[test]
fn malformed_dependencies_block_a_gated_status_without_a_read() {
    let mut t: StatusTransition<()> = StatusTransition::new(0x7, Some(StatusOption::Completed), vocabulary());
    t.step(TransitionEvent::Begin);
    assert!(matches!(t.step(TransitionEvent::Locked), TransitionAction::AcquireLock(TaskLock::Hierarchy)));
    assert!(matches!(t.step(TransitionEvent::Locked), TransitionAction::LoadGuardState));
    match t.step(TransitionEvent::GuardState(Some(guard(None, Err(()))))) {
        TransitionAction::Finish(TaskStatusMutationOutcome::BlockedWithReadiness(r)) => {
            assert_eq!(r.task_id, 0x7);
            assert_eq!(r.readiness, TaskReadiness::Blocked);
            assert!(r.depends_on_task_ids.is_empty());
            assert!(r.has_unavailable_dependencies);
        }
        other => panic!("unexpected {other:?}"),
    }
}

#[test]
fn missing_task_is_blocked_and_ungated_status_writes_directly() {
    let mut t: StatusTransition<()> = StatusTransition::new(0x1, Some(StatusOption::Canceled), vocabulary());
    t.step(TransitionEvent::Begin);
    t.step(TransitionEvent::Locked);
    assert!(matches!(
        t.step(TransitionEvent::GuardState(None)),
        TransitionAction::Finish(TaskStatusMutationOutcome::Blocked)
    ));

    let mut clear: StatusTransition<()> = StatusTransition::new(0x1, None, vocabulary());
    clear.step(TransitionEvent::Begin);
    clear.step(TransitionEvent::Locked);
    assert!(matches!(
        clear.step(TransitionEvent::GuardState(Some(guard(Some(StatusOption::InProgress), Err(()))))),
        TransitionAction::WriteStatus { option_id: None }
    ));
}

#[test]
fn completion_checks_subtasks_and_reports_newly_ready_dependents() {
    let mut t: StatusTransition<u8> = StatusTransition::new(0x1, Some(StatusOption::Completed), vocabulary());
    t.step(TransitionEvent::Begin);
    t.step(TransitionEvent::Locked);
    t.step(TransitionEvent::Locked);
    t.step(TransitionEvent::GuardState(Some(guard(Some(StatusOption::InReview), Ok(vec![])))));
    assert!(matches!(
        t.step(TransitionEvent::DependencyReadiness(TaskDependencyReadiness {
            task_id: 0x1,
            readiness: TaskReadiness::Ready,
            depends_on_task_ids: vec![],
            blocking_task_ids: vec![],
            has_unavailable_dependencies: false,
        })),
        TransitionAction::ReadSubtaskReadiness { .. }
    ));
    assert!(matches!(
        t.step(TransitionEvent::SubtaskReadiness(TaskSubtaskCompletionReadiness {
            task_id: 0x1,
            readiness: TaskReadiness::Ready,
            subtask_ids: vec![0x5],
            blocking_subtask_ids: vec![],
            has_unavailable_subtasks: false,
        })),
        TransitionAction::WriteStatus { option_id: Some(id) } if id == vocabulary().completed
    ));
    assert!(matches!(t.step(TransitionEvent::Written(9)), TransitionAction::FindReadyDependents { .. }));
    assert!(matches!(t.step(TransitionEvent::ReadyDependents(vec![0x8, 0x9])), TransitionAction::Commit));
    match t.step(TransitionEvent::Committed) {
        TransitionAction::Finish(TaskStatusMutationOutcome::UpdatedWithReady { snapshot, ready_task_ids }) => {
            assert_eq!(snapshot, 9);
            assert_eq!(ready_task_ids, vec![0x8, 0x9]);
        }
        other => panic!("unexpected {other:?}"),
    }
}

#[test]
fn open_subtasks_block_completion_and_recompletion_skips_dependents() {
    let mut t: StatusTransition<u8> = StatusTransition::new(0x1, Some(StatusOption::Completed), vocabulary());
    t.step(TransitionEvent::Begin);
    t.step(TransitionEvent::Locked);
    t.step(TransitionEvent::Locked);
    t.step(TransitionEvent::GuardState(Some(guard(None, Ok(vec![])))));
    t.step(TransitionEvent::DependencyReadiness(readiness(0x1, true, vec![])));
    assert!(matches!(
        t.step(TransitionEvent::SubtaskReadiness(TaskSubtaskCompletionReadiness {
            task_id: 0x1,
            readiness: TaskReadiness::Blocked,
            subtask_ids: vec![0x5],
            blocking_subtask_ids: vec![0x5],
            has_unavailable_subtasks: false,
        })),
        TransitionAction::Finish(TaskStatusMutationOutcome::BlockedBySubtasks(_))
    ));

    let mut again: StatusTransition<u8> = StatusTransition::new(0x1, Some(StatusOption::Completed), vocabulary());
    again.step(TransitionEvent::Begin);
    again.step(TransitionEvent::Locked);
    again.step(TransitionEvent::Locked);
    again.step(TransitionEvent::GuardState(Some(guard(Some(StatusOption::Completed), Ok(vec![])))));
    again.step(TransitionEvent::DependencyReadiness(readiness(0x1, true, vec![])));
    again.step(TransitionEvent::SubtaskReadiness(TaskSubtaskCompletionReadiness {
        task_id: 0x1,
        readiness: TaskReadiness::Ready,
        subtask_ids: vec![],
        blocking_subtask_ids: vec![],
        has_unavailable_subtasks: false,
    }));
    assert!(matches!(again.step(TransitionEvent::Written(1)), TransitionAction::Commit));
    assert!(matches!(again.step(TransitionEvent::Committed), TransitionAction::Finish(TaskStatusMutationOutcome::Updated(1))));
}

#[test]
fn locked_ids_are_ascending_and_distinct() {
    assert_eq!(locked_task_ids(5, &vec![9, 1, 5, 9]), vec![1, 5, 9]);
    assert_eq!(locked_task_ids(5, &vec![]), vec![5]);
}

fn start(replacement: &mut DependencyReplacement<&'static str>, status: Option<StatusOption>) -> ReplacementAction<&'static str> {
    assert!(matches!(replacement.step(ReplacementEvent::Begin), ReplacementAction::AcquireLock(TaskLock::Dependencies)));
    assert!(matches!(replacement.step(ReplacementEvent::Locked), ReplacementAction::LoadGuardState));
    replacement.step(ReplacementEvent::GuardState(Some(guard(status, Ok(vec![])))))
}

#[test]
fn dependency_replacement_writes_references_after_all_checks() {
    let mut r = DependencyReplacement::new(0x10, vec![0x30, 0x20]);
    match start(&mut r, Some(StatusOption::InProgress)) {
        ReplacementAction::LockLiveTasks { task_ids } => assert_eq!(task_ids, vec![0x10, 0x20, 0x30]),
        other => panic!("unexpected {other:?}"),
    }
    assert!(matches!(
        r.step(ReplacementEvent::LiveTasks(3)),
        ReplacementAction::CheckDependenciesCompleted { dependency_ids, .. } if dependency_ids == vec![0x30, 0x20]
    ));
    assert!(matches!(r.step(ReplacementEvent::DependenciesCompleted(true)), ReplacementAction::CheckCycle { task_id: 0x10, .. }));
    match r.step(ReplacementEvent::CycleFound(false)) {
        ReplacementAction::WriteDependencies { value: Some(PropertyValue::EntityRef(refs)) } => {
            let ids: Vec<&str> = refs.iter().map(|r| r.entity_id.as_str()).collect();
            assert_eq!(ids, vec!["00000000-0000-0000-0000-000000000030", "00000000-0000-0000-0000-000000000020"]);
            assert!(refs.iter().all(|r| r.entity_type == EntityType::Task && r.specific_message_id.is_none()));
        }
        other => panic!("unexpected {other:?}"),
    }
    assert!(matches!(r.step(ReplacementEvent::Written("row")), ReplacementAction::Commit));
    assert!(matches!(
        r.step(ReplacementEvent::Committed),
        ReplacementAction::Finish(TaskDependencyMutationOutcome::Updated("row"))
    ));
    assert_eq!(r.phase(), ReplacementPhase::Done);
}

#[test]
fn dependency_replacement_refusals() {
    let mut missing = DependencyReplacement::<&str>::new(0x10, vec![0x20]);
    missing.step(ReplacementEvent::Begin);
    missing.step(ReplacementEvent::Locked);
    assert!(matches!(
        missing.step(ReplacementEvent::GuardState(None)),
        ReplacementAction::Finish(TaskDependencyMutationOutcome::Unavailable)
    ));

    let mut dead = DependencyReplacement::new(0x10, vec![0x20]);
    start(&mut dead, None);
    assert!(matches!(
        dead.step(ReplacementEvent::LiveTasks(1)),
        ReplacementAction::Finish(TaskDependencyMutationOutcome::Unavailable)
    ));

    let mut blocked = DependencyReplacement::new(0x10, vec![0x20]);
    start(&mut blocked, Some(StatusOption::Completed));
    blocked.step(ReplacementEvent::LiveTasks(2));
    assert!(matches!(
        blocked.step(ReplacementEvent::DependenciesCompleted(false)),
        ReplacementAction::Finish(TaskDependencyMutationOutcome::Blocked)
    ));

    let mut cyclic = DependencyReplacement::new(0x10, vec![0x20]);
    start(&mut cyclic, None);
    assert!(matches!(cyclic.step(ReplacementEvent::LiveTasks(2)), ReplacementAction::CheckCycle { .. }));
    assert!(matches!(
        cyclic.step(ReplacementEvent::CycleFound(true)),
        ReplacementAction::Finish(TaskDependencyMutationOutcome::Cycle)
    ));

    let mut clearing = DependencyReplacement::new(0x10, vec![]);
    start(&mut clearing, Some(StatusOption::NotStarted));
    assert!(matches!(
        clearing.step(ReplacementEvent::LiveTasks(1)),
        ReplacementAction::WriteDependencies { value: None }
    ));
}

#[test]
fn fresh_completion_without_ready_dependents_reports_plain_update() {
    let mut t: StatusTransition<u8> = StatusTransition::new(0x1, Some(StatusOption::Completed), vocabulary());
    t.step(TransitionEvent::Begin);
    t.step(TransitionEvent::Locked);
    t.step(TransitionEvent::Locked);
    t.step(TransitionEvent::GuardState(Some(guard(Some(StatusOption::InProgress), Ok(vec![])))));
    t.step(TransitionEvent::DependencyReadiness(readiness(0x1, true, vec![])));
    t.step(TransitionEvent::SubtaskReadiness(TaskSubtaskCompletionReadiness {
        task_id: 0x1,
        readiness: TaskReadiness::Ready,
        subtask_ids: vec![],
        blocking_subtask_ids: vec![],
        has_unavailable_subtasks: false,
    }));
    assert!(matches!(t.step(TransitionEvent::Written(4)), TransitionAction::FindReadyDependents { .. }));
    assert!(matches!(t.step(TransitionEvent::ReadyDependents(vec![])), TransitionAction::Commit));
    assert!(matches!(t.step(TransitionEvent::Committed), TransitionAction::Finish(TaskStatusMutationOutcome::Updated(4))));
}
