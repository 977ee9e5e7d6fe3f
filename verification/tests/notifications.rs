use task_governance::dependency_readiness::TaskDependencyReadiness;
use task_governance::notifications::{
    ready_check, ready_notification, still_ready, task_assigned_requests, unique_recipients,
    user_reference,
};
use task_governance::property_rules::DocumentSubType;
use task_governance::property_value::{EntityReference, EntityType};
use task_governance::task_status::{StatusOption, TaskGuardState, TaskReadiness};

#[test]
fn ready_events_are_revalidated_against_current_state() {
    let state = |status, dependencies| TaskGuardState { project_id: Some("p".to_owned()), status, dependencies };
    assert!(ready_check(None).is_none());
    assert!(ready_check(Some(state(Some(StatusOption::Canceled), Ok(vec![1])))).is_none());
    assert!(ready_check(Some(state(None, Err(())))).is_none());
    let (project, ids) = ready_check(Some(state(Some(StatusOption::NotStarted), Ok(vec![1, 2])))).unwrap();
    assert_eq!(project.as_deref(), Some("p"));
    assert_eq!(ids, vec![1, 2]);
    let blocked = TaskDependencyReadiness {
        task_id: 1,
        readiness: TaskReadiness::Blocked,
        depends_on_task_ids: vec![],
        blocking_task_ids: vec![],
        has_unavailable_dependencies: true,
    };
    assert!(!still_ready(&blocked));
}

#[test]
fn canonical_user_references_are_message_free_user_entities() {
    let reference = EntityReference::new("macro|assignee@example.com".to_owned(), EntityType::User);
    assert_eq!(user_reference(&reference).map(String::as_str), Some("macro|assignee@example.com"));
    let task = EntityReference::new("macro|u@example.com".to_owned(), EntityType::Task);
    assert!(user_reference(&task).is_none());
    let message = EntityReference::with_message_id("macro|u@example.com".to_owned(), EntityType::User, 1);
    assert!(user_reference(&message).is_none());
}

#[test]
fn recipients_are_unique_in_first_mention_order() {
    let ids = vec!["b".to_owned(), "a".to_owned(), "b".to_owned(), "c".to_owned(), "a".to_owned()];
    assert_eq!(unique_recipients(ids), vec!["b", "a", "c"]);
    let note = ready_notification("Ship it".to_owned(), vec!["x".to_owned(), "x".to_owned()]).unwrap();
    assert_eq!(note.task_name, "Ship it");
    assert_eq!(note.recipient_ids, vec!["x"]);
    assert!(ready_notification("Nobody".to_owned(), vec![]).is_none());
}

#[test]
fn assignment_fans_out_one_request_per_recipient() {
    let recipients = vec!["macro|r1@example.com".to_owned(), "macro|r2@example.com".to_owned()];
    let requests = task_assigned_requests(
        0x20000001_0000_0000_0000_000000000001,
        Some("Task".to_owned()),
        &"macro|assigner@example.com".to_owned(),
        None,
        &recipients,
    );
    assert_eq!(requests.len(), 2);
    assert_eq!(requests[0].document_id, "20000001-0000-0000-0000-000000000001");
    assert_eq!(requests[1].recipient_id, "macro|r2@example.com");
    assert_eq!(requests[1].task_name.as_deref(), Some("Task"));
    assert_eq!(requests[0].assigned_by, "macro|assigner@example.com");
    assert!(requests[0].sender_profile_picture_url.is_none());
    for request in &requests {
        assert_eq!(request.entity_type, EntityType::Document);
        assert_eq!(request.tag, "task_assigned");
        assert_eq!(request.task_id, "20000001-0000-0000-0000-000000000001");
        assert_eq!(request.sub_type, Some(DocumentSubType::Task));
        assert_eq!(request.sender_id.as_deref(), Some("macro|assigner@example.com"));
    }
}
