use task_governance::dependency_readiness::{
    dependency_readiness_from_rows, malformed_dependency_readiness, readiness_from_rows,
    PredecessorRow, ReadinessRow, TaskDependencyReadiness,
};
use task_governance::dependency_relations::{
    project_dependency_relations, relations_in_request_order, relations_snapshots_from_rows,
    successors_from_rows, RelationsRow, TaskDependencyRelationsSnapshot,
};
use task_governance::errors::PropertiesErr;
use task_governance::json::{json_has_entity_id, Json};
use task_governance::scoped_projection::{
    progress_in_request_order, progress_snapshots_from_rows, project_subtask_progress, ProgressRow,
};
use task_governance::subtask_hierarchy::{
    subtask_completion_readiness, subtask_progress_snapshot, ParentRow, SubtaskCandidateRow,
    TaskSubtaskProgressSnapshot,
};
use task_governance::task_status::{StatusVocabulary, TaskReadiness};

const COMPLETED: u128 = 0x00000001_0000_0000_0002_000000000004;
const CANCELED: u128 = 0x00000001_0000_0000_0002_000000000005;

fn vocabulary() -> StatusVocabulary {
    StatusVocabulary {
        not_started: 0x00000001_0000_0000_0002_000000000001,
        in_progress: 0x00000001_0000_0000_0002_000000000002,
        in_review: 0x00000001_0000_0000_0002_000000000003,
        completed: COMPLETED,
        canceled: CANCELED,
    }
}

fn text(id: u128) -> String {
    uuid::Uuid::from_u128(id).to_string()
}

fn obj(members: Vec<(&str, Json)>) -> Json {
    Json::Object(members.into_iter().map(|(k, v)| (k.to_owned(), v)).collect())
}

fn s(value: &str) -> Json {
    Json::Text(value.to_owned())
}

fn status(option: u128) -> Json {
    obj(vec![("type", s("SelectOption")), ("value", Json::Array(vec![Json::Text(text(option))]))])
}

fn task_ref(id: u128) -> Json {
    obj(vec![("entity_type", s("TASK")), ("entity_id", Json::Text(text(id))), ("specific_message_id", Json::Null)])
}

fn task_refs(ids: &[u128]) -> Json {
    obj(vec![("type", s("EntityReference")), ("value", Json::Array(ids.iter().map(|id| task_ref(*id)).collect()))])
}

fn predecessor(id: u128, status_option: Option<u128>) -> PredecessorRow {
    PredecessorRow { live_id: Some(text(id)), status_values: status_option.map(status) }
}

#[test]
fn dependency_readiness_blocks_on_open_and_unavailable_predecessors() {
    let rows = vec![predecessor(0x2, Some(COMPLETED)), predecessor(0x3, None)];
    let r = dependency_readiness_from_rows(0x1, &vec![0x2, 0x3, 0x4], &rows, COMPLETED);
    assert_eq!(r.depends_on_task_ids, vec![0x2, 0x3]);
    assert_eq!(r.blocking_task_ids, vec![0x3]);
    assert!(r.has_unavailable_dependencies);
    assert_eq!(r.readiness, TaskReadiness::Blocked);

    let ready = dependency_readiness_from_rows(0x1, &vec![0x2], &rows, COMPLETED);
    assert_eq!(ready.readiness, TaskReadiness::Ready);
    let none = dependency_readiness_from_rows(0x1, &vec![], &vec![], COMPLETED);
    assert_eq!(none.readiness, TaskReadiness::Ready);
    // Selecting Completed among other options is not Completed.
    let two = PredecessorRow {
        live_id: Some(text(0x2)),
        status_values: Some(obj(vec![
            ("type", s("SelectOption")),
            ("value", Json::Array(vec![Json::Text(text(COMPLETED)), Json::Text(text(CANCELED))])),
        ])),
    };
    let r = dependency_readiness_from_rows(0x1, &vec![0x2], &vec![two], COMPLETED);
    assert_eq!(r.blocking_task_ids, vec![0x2]);

    let malformed = malformed_dependency_readiness(0x9);
    assert_eq!(malformed.task_id, 0x9);
    assert_eq!(malformed.readiness, TaskReadiness::Blocked);
    assert!(malformed.depends_on_task_ids.is_empty() && malformed.has_unavailable_dependencies);
}

#[test]
fn project_readiness_rows_skip_the_witness_and_need_a_row() {
    assert!(readiness_from_rows(&vec![]).is_none());
    let rows = vec![
        ReadinessRow {
            task_id: None,
            readiness: "ready".to_owned(),
            depends_on_task_ids: vec![],
            blocking_task_ids: vec![],
            has_unavailable_dependencies: false,
        },
        ReadinessRow {
            task_id: Some(0x5),
            readiness: "blocked".to_owned(),
            depends_on_task_ids: vec![0x6],
            blocking_task_ids: vec![0x6],
            has_unavailable_dependencies: false,
        },
    ];
    let read = readiness_from_rows(&rows).unwrap();
    assert_eq!(read.len(), 1);
    assert_eq!(read[0].task_id, 0x5);
    assert_eq!(read[0].readiness, TaskReadiness::Blocked);
    assert_eq!(read[0].blocking_task_ids, vec![0x6]);
}

fn parent_row(child: u128, parent_values: Option<Json>) -> ParentRow {
    ParentRow { id: Some(text(child)), parent_values }
}

fn candidate(child: u128, status_option: Option<u128>) -> SubtaskCandidateRow {
    SubtaskCandidateRow { reference: Some(task_ref(child)), live_id: Some(text(child)), status_values: status_option.map(status) }
}

#[test]
fn subtask_completion_needs_reciprocal_terminal_children() {
    let parents = vec![parent_row(0x2, Some(task_refs(&[0x1]))), parent_row(0x3, Some(task_refs(&[0x1])))];
    let stored = task_refs(&[0x2, 0x3]);
    let ready = subtask_completion_readiness(
        0x1,
        &vocabulary(),
        Some(&stored),
        &vec![candidate(0x2, Some(COMPLETED)), candidate(0x3, Some(CANCELED))],
        &parents,
    );
    assert_eq!(ready.readiness, TaskReadiness::Ready);
    assert_eq!(ready.subtask_ids, vec![0x2, 0x3]);

    let open = subtask_completion_readiness(
        0x1,
        &vocabulary(),
        Some(&stored),
        &vec![candidate(0x2, Some(COMPLETED)), candidate(0x3, None)],
        &parents,
    );
    assert_eq!(open.blocking_subtask_ids, vec![0x3]);
    assert_eq!(open.readiness, TaskReadiness::Blocked);

    // A child that names another parent too is a broken edge: fail closed.
    let broken_parents = vec![parent_row(0x2, Some(task_refs(&[0x1, 0x9]))), parent_row(0x3, Some(task_refs(&[0x1])))];
    let broken = subtask_completion_readiness(
        0x1,
        &vocabulary(),
        Some(&stored),
        &vec![candidate(0x2, Some(COMPLETED)), candidate(0x3, Some(COMPLETED))],
        &broken_parents,
    );
    assert!(broken.has_unavailable_subtasks);
    assert_eq!(broken.subtask_ids, vec![0x3]);
    assert_eq!(broken.readiness, TaskReadiness::Blocked);

    let malformed = subtask_completion_readiness(0x1, &vocabulary(), Some(&s("nope")), &vec![], &vec![]);
    assert!(malformed.has_unavailable_subtasks && malformed.subtask_ids.is_empty());
}

#[test]
fn progress_counts_live_and_completed_children() {
    let parents = vec![
        parent_row(0x2, Some(task_refs(&[0x1]))),
        parent_row(0x3, Some(task_refs(&[0x1]))),
        parent_row(0x4, Some(task_refs(&[0x1]))),
    ];
    let stored = task_refs(&[0x2, 0x3, 0x4]);
    let snapshot = subtask_progress_snapshot(
        0x1,
        &vocabulary(),
        Some(&stored),
        &vec![candidate(0x2, Some(COMPLETED)), candidate(0x3, Some(CANCELED)), candidate(0x4, None)],
        &parents,
    );
    assert!(!snapshot.has_unavailable_subtasks);
    assert_eq!(snapshot.completed_subtask_ids, vec![0x2]);
    assert_eq!(snapshot.canceled_subtask_ids, vec![0x3]);
    let progress = project_subtask_progress(&snapshot, true);
    assert_eq!((progress.completed_subtasks, progress.total_subtasks), (1, 2));
    assert!(!progress.has_unavailable_subtasks);

    let hidden = project_subtask_progress(&snapshot, false);
    assert_eq!((hidden.completed_subtasks, hidden.total_subtasks), (0, 0));
    assert!(hidden.has_unavailable_subtasks);
    assert_eq!(hidden.task_id, 0x1);
}

#[test]
fn progress_keeps_stored_order_when_a_child_is_unavailable() {
    let parents = vec![
        parent_row(0x2, Some(task_refs(&[0x1]))),
        parent_row(0x3, Some(task_refs(&[0x1]))),
        parent_row(0x4, Some(task_refs(&[0x1]))),
    ];
    let stored = task_refs(&[0x4, 0x3, 0x2]);
    let missing = SubtaskCandidateRow { reference: Some(task_ref(0x3)), live_id: None, status_values: None };
    let snapshot = subtask_progress_snapshot(
        0x1,
        &vocabulary(),
        Some(&stored),
        &vec![candidate(0x4, Some(CANCELED)), missing, candidate(0x2, Some(COMPLETED))],
        &parents,
    );
    assert!(snapshot.has_unavailable_subtasks);
    assert_eq!(snapshot.subtask_ids, vec![0x4, 0x2]);
    assert_eq!(snapshot.completed_subtask_ids, vec![0x2]);
    assert_eq!(snapshot.canceled_subtask_ids, vec![0x4]);
}

#[test]
fn progress_rows_and_request_order() {
    let row = |task_id: u128, available: bool| ProgressRow {
        task_id,
        source_available: available,
        subtasks_values: None,
        candidates: vec![],
        parents: vec![],
    };
    assert!(progress_snapshots_from_rows(&vocabulary(), &vec![row(1, true), row(2, false)]).is_none());
    let read = progress_snapshots_from_rows(&vocabulary(), &vec![row(1, true), row(2, true)]).unwrap();
    assert_eq!(read.iter().map(|s| s.task_id).collect::<Vec<_>>(), vec![1, 2]);
    let ordered = progress_in_request_order(Some(read), &vec![1, 2]).unwrap();
    assert_eq!(ordered.len(), 2);
    let swapped = progress_snapshots_from_rows(&vocabulary(), &vec![row(2, true), row(1, true)]);
    assert!(matches!(progress_in_request_order(swapped, &vec![1, 2]), Err(PropertiesErr::NotFound)));
    assert!(matches!(progress_in_request_order(None, &vec![1]), Err(PropertiesErr::NotFound)));
    let snapshot = TaskSubtaskProgressSnapshot {
        task_id: 3,
        subtask_ids: vec![],
        completed_subtask_ids: vec![],
        canceled_subtask_ids: vec![],
        has_unavailable_subtasks: false,
    };
    assert!(matches!(progress_in_request_order(Some(vec![snapshot]), &vec![3, 4]), Err(PropertiesErr::NotFound)));
}

fn reverse_row(id: u128, project: Option<&str>, live: bool, depends: Json) -> Json {
    obj(vec![
        ("id", Json::Text(text(id))),
        ("projectId", project.map(s).unwrap_or(Json::Null)),
        ("liveTask", Json::Bool(live)),
        ("dependencyValues", depends),
    ])
}

#[test]
fn successors_are_exact_live_same_project_dependents() {
    let rows = Json::Array(vec![
        reverse_row(0x30, Some("p"), true, task_refs(&[0x1])),
        reverse_row(0x20, Some("p"), true, task_refs(&[0x5, 0x1])),
        reverse_row(0x20, Some("p"), true, task_refs(&[0x1])),
        reverse_row(0x40, Some("p"), true, task_refs(&[0x7])),
    ]);
    let (ids, unavailable) = successors_from_rows(0x1, Some("p"), &rows);
    assert_eq!(ids, vec![0x20, 0x30]);
    assert!(!unavailable);

    // A mention by another project's task, a deleted task, or a duplicated
    // reference is not a successor and marks the list incomplete.
    for bad in [
        reverse_row(0x50, Some("q"), true, task_refs(&[0x1])),
        reverse_row(0x50, Some("p"), false, task_refs(&[0x1])),
        reverse_row(0x50, Some("p"), true, task_refs(&[0x1, 0x1])),
    ] {
        let (ids, unavailable) = successors_from_rows(0x1, Some("p"), &Json::Array(vec![bad]));
        assert!(ids.is_empty());
        assert!(unavailable);
    }
    let (ids, unavailable) = successors_from_rows(0x1, None, &Json::Null);
    assert!(ids.is_empty() && unavailable);
    let many = Json::Array((0..201u128).map(|i| reverse_row(0x100 + i, Some("p"), true, task_refs(&[0x1]))).collect());
    let (ids, unavailable) = successors_from_rows(0x1, Some("p"), &many);
    assert!(ids.is_empty() && unavailable);
}

#[test]
fn entity_mentions_are_found_at_any_depth() {
    let nested = obj(vec![("a", Json::Array(vec![obj(vec![("entity_id", Json::Text(text(0x77)))])]))]);
    assert!(json_has_entity_id(&nested, 0x77));
    assert!(!json_has_entity_id(&nested, 0x78));
    assert!(!json_has_entity_id(&Json::Text(text(0x77)), 0x77));
}

fn readiness(task_id: u128) -> TaskDependencyReadiness {
    TaskDependencyReadiness {
        task_id,
        readiness: TaskReadiness::Ready,
        depends_on_task_ids: vec![0x2],
        blocking_task_ids: vec![],
        has_unavailable_dependencies: false,
    }
}

#[test]
fn hidden_relations_are_redacted() {
    let snapshot = || TaskDependencyRelationsSnapshot {
        readiness: readiness(0x1),
        successor_task_ids: vec![0x9],
        has_unavailable_successors: false,
    };
    let shown = project_dependency_relations(snapshot(), true, true);
    assert_eq!(shown.depends_on_task_ids, vec![0x2]);
    assert_eq!(shown.successor_task_ids, vec![0x9]);
    assert_eq!(shown.readiness, TaskReadiness::Ready);

    let hidden = project_dependency_relations(snapshot(), false, true);
    assert_eq!(hidden.readiness, TaskReadiness::Blocked);
    assert!(hidden.depends_on_task_ids.is_empty() && hidden.has_unavailable_dependencies);
    assert_eq!(hidden.successor_task_ids, vec![0x9]);

    let hidden_successors = project_dependency_relations(snapshot(), true, false);
    assert!(hidden_successors.successor_task_ids.is_empty() && hidden_successors.has_unavailable_successors);
    assert_eq!(hidden_successors.task_id, 0x1);
}

#[test]
fn relations_rows_need_live_sources_in_request_order() {
    let row = |task_id: u128, available: bool, readiness: &str| RelationsRow {
        task_id,
        source_available: available,
        project_id: Some("p".to_owned()),
        readiness: readiness.to_owned(),
        depends_on_task_ids: vec![],
        blocking_task_ids: vec![],
        has_unavailable_dependencies: false,
        reverse_rows: Json::Array(vec![reverse_row(0x9, Some("p"), true, task_refs(&[task_id]))]),
    };
    assert!(relations_snapshots_from_rows(&vec![row(1, false, "ready")]).is_none());
    let read = relations_snapshots_from_rows(&vec![row(1, true, "ready"), row(2, true, "blocked")]).unwrap();
    assert_eq!(read[0].readiness.readiness, TaskReadiness::Ready);
    assert_eq!(read[1].readiness.readiness, TaskReadiness::Blocked);
    assert_eq!(read[0].successor_task_ids, vec![0x9]);
    assert!(relations_in_request_order(Some(read), &vec![1, 2]).is_ok());
    assert!(matches!(relations_in_request_order(None, &vec![]), Err(PropertiesErr::NotFound)));
}
