use task_governance::access::{check_task_sources, AccessEntityType, AccessReceipt, EntityAccessAuth, ScopedSources};
use task_governance::business_role_change::{
    membership_lock_order, role_change_denial, AuditActionKind, AuditOutcome, BusinessRole,
    BusinessRoleChangeOutcome, Change,
    GrantBusinessRoleCommand, RevokeBusinessRoleCommand, RoleChangeAction, RoleChangeAttempt,
    RoleChangeDenialReason, RoleChangeEvent, TeamRole,
};
use task_governance::errors::{
    AccessError, ProjectTaskDependencyReadinessError, PropertiesErr, TaskDependencyRelationsError,
    TaskSubtaskProgressError,
};
use task_governance::reauthentication::{ReceiptPurpose, RequestCorrelationId};

fn human(user: &str) -> EntityAccessAuth {
    EntityAccessAuth::Authenticated(user.to_owned())
}

fn document(auth: EntityAccessAuth, id: u128) -> AccessReceipt {
    AccessReceipt { auth, entity_type: AccessEntityType::Document, entity_id: uuid::Uuid::from_u128(id).to_string() }
}

#[test]
fn batch_sources_must_be_one_humans_document_receipts_in_order() {
    let sources = vec![document(human("macro|a@x.com"), 1), document(human("macro|a@x.com"), 2)];
    match check_task_sources(&sources, &vec![1, 2]).unwrap() {
        ScopedSources::Actor(actor) => assert_eq!(actor, "macro|a@x.com"),
        ScopedSources::Empty => panic!("sources were given"),
    }
    assert!(matches!(check_task_sources(&vec![], &vec![]), Ok(ScopedSources::Empty)));
    assert!(matches!(check_task_sources(&sources, &vec![2, 1]), Err(PropertiesErr::PermissionDenied)));
    let mixed = vec![document(human("macro|a@x.com"), 1), document(human("macro|b@x.com"), 2)];
    assert!(matches!(check_task_sources(&mixed, &vec![1, 2]), Err(PropertiesErr::PermissionDenied)));
    let bot = vec![document(EntityAccessAuth::Bot("bot".to_owned()), 1)];
    assert!(matches!(check_task_sources(&bot, &vec![1]), Err(PropertiesErr::PermissionDenied)));
    let project = vec![AccessReceipt { auth: human("macro|a@x.com"), entity_type: AccessEntityType::Project, entity_id: uuid::Uuid::from_u128(1).to_string() }];
    assert!(matches!(check_task_sources(&project, &vec![1]), Err(PropertiesErr::PermissionDenied)));
    assert!(matches!(
        check_task_sources(&sources, &vec![1]),
        Err(PropertiesErr::Validation(m)) if m == "At most 200 task IDs may be requested"
    ));
    let many: Vec<u128> = (0..201).collect();
    let many_sources: Vec<AccessReceipt> = many.iter().map(|id| document(human("macro|a@x.com"), *id)).collect();
    assert!(matches!(check_task_sources(&many_sources, &many), Err(PropertiesErr::Validation(_))));
}

#[test]
fn batch_read_errors_are_fixed_and_redacted() {
    let (status, body) = ProjectTaskDependencyReadinessError::from_properties(PropertiesErr::Repo("db down".to_owned())).into_response();
    assert_eq!(status, 500);
    assert!(body.error);
    assert_eq!(body.message, "internal server error");
    assert_eq!(
        ProjectTaskDependencyReadinessError::from_access(AccessError::NotFound("p".to_owned())),
        ProjectTaskDependencyReadinessError::Forbidden
    );
    assert_eq!(
        TaskDependencyRelationsError::access(AccessError::NotFound("t".to_owned())),
        TaskDependencyRelationsError::NotFound
    );
    assert_eq!(TaskSubtaskProgressError::authorization(401), TaskSubtaskProgressError::Unauthorized);
    assert_eq!(TaskSubtaskProgressError::authorization(418), TaskSubtaskProgressError::Internal);
    assert_eq!(
        TaskSubtaskProgressError::properties(PropertiesErr::Validation("x".to_owned())),
        TaskSubtaskProgressError::BadRequest
    );
    assert_eq!(
        TaskDependencyRelationsError::properties(PropertiesErr::TaskDependenciesUnavailable),
        TaskDependencyRelationsError::NotFound
    );
    assert_eq!(
        TaskDependencyRelationsError::properties(PropertiesErr::TeamMembershipRequired),
        TaskDependencyRelationsError::Forbidden
    );
    let (status, body) = TaskDependencyRelationsError::Forbidden.into_response();
    assert_eq!((status, body.message.as_str()), (403, "forbidden"));
    let (status, body) = TaskSubtaskProgressError::NotFound.into_response();
    assert_eq!((status, body.message.as_str()), (404, "not found"));
    assert_eq!(TaskSubtaskProgressError::BadRequest.message(), "invalid request");
    assert_eq!(ProjectTaskDependencyReadinessError::Unauthorized.message(), "unauthorized");
}

fn grant(actor: &str, target: &str, role: BusinessRole) -> GrantBusinessRoleCommand {
    GrantBusinessRoleCommand {
        team_id: 0x7,
        actor: actor.to_owned(),
        target: target.to_owned(),
        business_role: role,
        receipt_id: 0x99,
        request_id: RequestCorrelationId::try_new("req-1").unwrap(),
        reason: "payroll cover".to_owned(),
    }
}

#[test]
fn a_granted_role_is_audited_once() {
    let mut attempt = RoleChangeAttempt::grant(&grant("macro|b@x.com", "macro|a@x.com", BusinessRole::PayrollAdmin));
    match attempt.step(RoleChangeEvent::Begin) {
        RoleChangeAction::ClaimReceipt { receipt_id, team_id, principal, purpose } => {
            assert_eq!((receipt_id, team_id), (0x99, 0x7));
            assert_eq!(principal, "macro|b@x.com");
            assert_eq!(purpose, ReceiptPurpose::CompanyRoleChange);
        }
        other => panic!("unexpected {other:?}"),
    }
    // Membership rows lock in ascending order: the target sorts first here.
    assert!(matches!(
        attempt.step(RoleChangeEvent::ReceiptClaimed(true)),
        RoleChangeAction::LockMembership { principal, .. } if principal == "macro|a@x.com"
    ));
    assert!(matches!(
        attempt.step(RoleChangeEvent::MembershipRow(Some(TeamRole::Member))),
        RoleChangeAction::LockMembership { principal, .. } if principal == "macro|b@x.com"
    ));
    assert!(matches!(
        attempt.step(RoleChangeEvent::MembershipRow(Some(TeamRole::Owner))),
        RoleChangeAction::InsertRole { business_role: BusinessRole::PayrollAdmin, .. }
    ));
    match attempt.step(RoleChangeEvent::Applied(true)) {
        RoleChangeAction::RecordSuccess { event } => {
            assert_eq!(event.team_id, 0x7);
            assert_eq!(event.actor, "macro|b@x.com");
            assert_eq!(event.target, "macro|a@x.com");
            assert_eq!(event.action, AuditActionKind::RoleGranted);
            assert_eq!(event.business_role, BusinessRole::PayrollAdmin);
            assert_eq!(event.outcome, AuditOutcome::Success);
            assert_eq!(event.request_id.as_str(), "req-1");
            assert_eq!(event.reason, "payroll cover");
        }
        other => panic!("unexpected {other:?}"),
    }
    assert!(matches!(
        attempt.step(RoleChangeEvent::Recorded),
        RoleChangeAction::Finish(BusinessRoleChangeOutcome::Granted)
    ));
    assert!(matches!(attempt.step(RoleChangeEvent::Recorded), RoleChangeAction::Ignore));
}

#[test]
fn denials_are_audited_with_their_reason() {
    let mut invalid = RoleChangeAttempt::grant(&grant("macro|a@x.com", "macro|b@x.com", BusinessRole::Manager));
    invalid.step(RoleChangeEvent::Begin);
    match invalid.step(RoleChangeEvent::ReceiptClaimed(false)) {
        RoleChangeAction::RecordDenial { reason: RoleChangeDenialReason::InvalidReceipt, event } => {
            assert_eq!(event.actor, "macro|a@x.com");
            assert_eq!(event.target, "macro|b@x.com");
            assert_eq!(event.business_role, BusinessRole::Manager);
            assert_eq!(event.outcome, AuditOutcome::Denied);
            assert_eq!(event.request_id.as_str(), "req-1");
            assert_eq!(event.reason, "invalid_receipt");
        }
        other => panic!("unexpected {other:?}"),
    }
    assert!(matches!(
        invalid.step(RoleChangeEvent::Recorded),
        RoleChangeAction::Finish(BusinessRoleChangeOutcome::Denied(RoleChangeDenialReason::InvalidReceipt))
    ));

    let mut revoke = RoleChangeAttempt::revoke(&RevokeBusinessRoleCommand {
        team_id: 0x7,
        actor: "macro|a@x.com".to_owned(),
        target: "macro|b@x.com".to_owned(),
        business_role: BusinessRole::Auditor,
        receipt_id: 0x98,
        request_id: RequestCorrelationId::try_new("req-2").unwrap(),
        reason: "left the audit team".to_owned(),
    });
    revoke.step(RoleChangeEvent::Begin);
    revoke.step(RoleChangeEvent::ReceiptClaimed(true));
    revoke.step(RoleChangeEvent::MembershipRow(Some(TeamRole::Admin)));
    assert!(matches!(
        revoke.step(RoleChangeEvent::MembershipRow(Some(TeamRole::Member))),
        RoleChangeAction::DeleteRole { business_role: BusinessRole::Auditor, .. }
    ));
    assert!(matches!(
        revoke.step(RoleChangeEvent::Applied(false)),
        RoleChangeAction::RecordDenial { reason: RoleChangeDenialReason::NotGranted, .. }
    ));
}

#[test]
fn policy_checks_come_in_a_fixed_order() {
    let a = "macro|a@x.com".to_owned();
    let b = "macro|b@x.com".to_owned();
    assert_eq!(
        role_change_denial(Change::Grant, Some(TeamRole::Member), true, BusinessRole::Manager, &a, &b),
        Some(RoleChangeDenialReason::InsufficientGovernance)
    );
    assert_eq!(
        role_change_denial(Change::Grant, Some(TeamRole::Admin), false, BusinessRole::Manager, &a, &b),
        Some(RoleChangeDenialReason::TargetNotMember)
    );
    assert_eq!(
        role_change_denial(Change::Revoke, Some(TeamRole::Owner), true, BusinessRole::Member, &a, &b),
        Some(RoleChangeDenialReason::MemberIsDerived)
    );
    assert_eq!(
        role_change_denial(Change::Grant, Some(TeamRole::Owner), true, BusinessRole::Agent, &a, &b),
        Some(RoleChangeDenialReason::AgentRequiresAgentFlow)
    );
    assert_eq!(
        role_change_denial(Change::Grant, Some(TeamRole::Owner), true, BusinessRole::OrgAdmin, &a, &a),
        Some(RoleChangeDenialReason::SelfGrant)
    );
    assert_eq!(
        role_change_denial(Change::Revoke, Some(TeamRole::Owner), true, BusinessRole::OrgAdmin, &a, &a),
        None
    );
    assert_eq!(RoleChangeDenialReason::AgentRequiresAgentFlow.as_str(), "agent_requires_agent_flow");
    assert_eq!(Change::Revoke.success(), BusinessRoleChangeOutcome::Revoked);
    assert_eq!(membership_lock_order(&b, &a), vec![a.clone(), b.clone()]);
    assert_eq!(membership_lock_order(&a, &a), vec![a.clone()]);
}
