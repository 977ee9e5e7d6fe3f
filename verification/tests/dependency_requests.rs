use task_governance::access::{AccessEntityType, AccessReceipt, EntityAccessAuth};
use task_governance::dependency_requests::{
    check_readiness_scope, dependency_write_result, malformed_dependencies, parse_dependencies,
    plan_dependency_write, ReadinessScope,
};
use task_governance::dependency_write::TaskDependencyMutationOutcome;
use task_governance::errors::PropertiesErr;
use task_governance::property_value::{EntityReference, EntityType, SetPropertyValue};
use uuid::Uuid;

#[test]
fn parser_preserves_order_and_rejects_duplicate_before_conversion() {
    let task = Uuid::new_v4();
    let first = Uuid::new_v4();
    let second = Uuid::new_v4();
    let parsed = parse_dependencies(
        task.as_u128(),
        Some(SetPropertyValue::MultiEntityReference {
            references: vec![
                EntityReference::new(first.to_string(), EntityType::Task),
                EntityReference::new(second.to_string(), EntityType::Task),
            ],
        }),
    )
    .unwrap();
    assert_eq!(parsed, vec![first.as_u128(), second.as_u128()]);

    let duplicate = parse_dependencies(
        task.as_u128(),
        Some(SetPropertyValue::MultiEntityReference {
            references: vec![
                EntityReference::new(first.to_string(), EntityType::Task),
                EntityReference::new(first.to_string(), EntityType::Task),
            ],
        }),
    );
    assert!(
        matches!(duplicate, Err(PropertiesErr::Validation(message)) if message == "A task dependency may only be listed once")
    );
}

#[test]
fn parser_rejects_wrong_reference_shape_and_self() {
    let task = Uuid::new_v4();
    assert!(matches!(
        parse_dependencies(task.as_u128(), Some(SetPropertyValue::EntityReference { reference: EntityReference::new(task.to_string(), EntityType::Task) })),
        Err(PropertiesErr::Validation(message)) if message == "Depends On requires task references"
    ));
    assert!(matches!(
        parse_dependencies(task.as_u128(), Some(SetPropertyValue::MultiEntityReference { references: vec![EntityReference::new(task.to_string(), EntityType::Task)] })),
        Err(PropertiesErr::Validation(message)) if message == "A task cannot depend on itself"
    ));
    for reference in [
        EntityReference::new(Uuid::new_v4().to_string(), EntityType::Document),
        EntityReference::with_message_id(Uuid::new_v4().to_string(), EntityType::Task, Uuid::new_v4().as_u128()),
        EntityReference::new("not-a-uuid".to_owned(), EntityType::Task),
    ] {
        assert!(matches!(
            parse_dependencies(task.as_u128(), Some(SetPropertyValue::MultiEntityReference { references: vec![reference] })),
            Err(PropertiesErr::Validation(message)) if message == "Depends On requires task references"
        ));
    }
}

#[test]
fn parser_clears_on_none_and_reports_the_first_bad_reference() {
    assert_eq!(parse_dependencies(1, None).unwrap(), Vec::<u128>::new());
    assert_eq!(
        parse_dependencies(1, Some(SetPropertyValue::MultiEntityReference { references: vec![] })).unwrap(),
        Vec::<u128>::new()
    );
    assert!(matches!(
        parse_dependencies(1, Some(SetPropertyValue::Other)),
        Err(PropertiesErr::Validation(m)) if m == "Depends On requires task references"
    ));
    // Self before a later malformed reference: the first one decides.
    let task = Uuid::from_u128(0x11);
    assert!(matches!(
        parse_dependencies(task.as_u128(), Some(SetPropertyValue::MultiEntityReference {
            references: vec![
                EntityReference::new(task.to_string(), EntityType::Task),
                EntityReference::new("bad".to_owned(), EntityType::Task),
            ],
        })),
        Err(PropertiesErr::Validation(m)) if m == "A task cannot depend on itself"
    ));
    // Uppercase and simple forms are UUIDs too.
    let upper = "0000000000000000000000000000ABCD".to_owned();
    assert_eq!(
        parse_dependencies(1, Some(SetPropertyValue::MultiEntityReference {
            references: vec![EntityReference::new(upper, EntityType::Task)],
        }))
        .unwrap(),
        vec![0xabcd]
    );
    assert!(matches!(malformed_dependencies(), PropertiesErr::Validation(m) if m == "Depends On requires task references"));
}

fn edit_receipt(auth: EntityAccessAuth, entity_id: &str) -> AccessReceipt {
    AccessReceipt { auth, entity_type: AccessEntityType::Document, entity_id: entity_id.to_owned() }
}

#[test]
fn dependency_writes_need_a_task_id_and_a_human_or_internal_caller() {
    let task = Uuid::from_u128(0x21);
    let dependency = Uuid::from_u128(0x22);
    let value = || {
        Some(SetPropertyValue::MultiEntityReference {
            references: vec![EntityReference::new(dependency.to_string(), EntityType::Task)],
        })
    };
    let internal = plan_dependency_write(&edit_receipt(EntityAccessAuth::Internal, &task.to_string()), value()).unwrap();
    assert_eq!(internal.task_id, 0x21);
    assert_eq!(internal.dependency_ids, vec![0x22]);
    assert_eq!(internal.viewer, None);

    let human = plan_dependency_write(
        &edit_receipt(EntityAccessAuth::Authenticated("macro|dependency@test.com".to_owned()), &task.to_string()),
        value(),
    )
    .unwrap();
    assert_eq!(human.viewer.as_deref(), Some("macro|dependency@test.com"));

    for auth in [EntityAccessAuth::Bot("bot-1".to_owned()), EntityAccessAuth::Unauthenticated] {
        assert!(matches!(
            plan_dependency_write(&edit_receipt(auth, &task.to_string()), value()),
            Err(PropertiesErr::PermissionDenied)
        ));
    }
    assert!(matches!(
        plan_dependency_write(&edit_receipt(EntityAccessAuth::Internal, "not-a-task-id"), value()),
        Err(PropertiesErr::Validation(m)) if m == "Depends On requires task references"
    ));
    // A bad value is refused before the caller is looked at.
    assert!(matches!(
        plan_dependency_write(&edit_receipt(EntityAccessAuth::Unauthenticated, &task.to_string()), Some(SetPropertyValue::Other)),
        Err(PropertiesErr::Validation(_))
    ));
}

#[test]
fn replacement_outcomes_map_to_property_errors() {
    assert_eq!(dependency_write_result(TaskDependencyMutationOutcome::Updated(7u8)).unwrap(), 7);
    assert!(matches!(
        dependency_write_result(TaskDependencyMutationOutcome::<u8>::Unavailable),
        Err(PropertiesErr::TaskDependenciesUnavailable)
    ));
    assert!(matches!(
        dependency_write_result(TaskDependencyMutationOutcome::<u8>::Cycle),
        Err(PropertiesErr::TaskDependencyCycle)
    ));
    assert!(matches!(
        dependency_write_result(TaskDependencyMutationOutcome::<u8>::Blocked),
        Err(PropertiesErr::TaskTransitionBlocked)
    ));
}

fn receipt(auth: EntityAccessAuth, entity_type: AccessEntityType, entity_id: &str) -> AccessReceipt {
    AccessReceipt { auth, entity_type, entity_id: entity_id.to_owned() }
}

#[test]
fn readiness_scope_needs_matching_project_and_team_receipts() {
    let human = || EntityAccessAuth::Authenticated("macro|reader@test.com".to_owned());
    let team_id = Uuid::from_u128(0x31);
    let project = receipt(human(), AccessEntityType::Project, "project-1");
    let team = receipt(human(), AccessEntityType::Team, &team_id.to_string());

    match check_readiness_scope(&project, &team, 3).unwrap() {
        ReadinessScope::Read { project_id, team_id } => {
            assert_eq!(project_id, "project-1");
            assert_eq!(team_id, 0x31);
        }
        ReadinessScope::Empty => panic!("a non-empty request reads"),
    }
    assert!(matches!(check_readiness_scope(&project, &team, 0), Ok(ReadinessScope::Empty)));
    assert!(matches!(
        check_readiness_scope(&project, &team, 201),
        Err(PropertiesErr::Validation(m)) if m == "At most 200 task IDs may be requested"
    ));
    let other_team = receipt(EntityAccessAuth::Authenticated("macro|other@test.com".to_owned()), AccessEntityType::Team, &team_id.to_string());
    assert!(matches!(check_readiness_scope(&project, &other_team, 1), Err(PropertiesErr::PermissionDenied)));
    let wrong_kind = receipt(human(), AccessEntityType::Document, "project-1");
    assert!(matches!(check_readiness_scope(&wrong_kind, &team, 1), Err(PropertiesErr::PermissionDenied)));
    let bot_project = receipt(EntityAccessAuth::Bot("b".to_owned()), AccessEntityType::Project, "project-1");
    assert!(matches!(check_readiness_scope(&bot_project, &team, 1), Err(PropertiesErr::PermissionDenied)));
    let bad_team = receipt(human(), AccessEntityType::Team, "team-x");
    assert!(matches!(check_readiness_scope(&project, &bad_team, 1), Err(PropertiesErr::PermissionDenied)));
}
