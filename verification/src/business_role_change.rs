//! Audited company business role changes: the closed denial vocabulary, the
//! decision rules, and the step machine that drives one change attempt.

use vstd::prelude::*;

use crate::ids::{text_before, text_precedes};
use crate::reauthentication::{ReceiptPurpose, RequestCorrelationId};

verus! {

/// Company business roles.
#[derive(Debug, Clone, Copy, PartialEq, Eq, Structural)]
pub enum BusinessRole {
    Member,
    Manager,
    Approver,
    HrAdmin,
    PayrollAdmin,
    OrgAdmin,
    Auditor,
    Agent,
}

/// Ordered team governance roles.
#[derive(Debug, Clone, Copy, PartialEq, Eq, Structural)]
pub enum TeamRole {
    Member,
    Admin,
    Owner,
}

/// Position of a team role in the governance order.
pub open spec fn team_role_rank(role: TeamRole) -> int {
    match role {
        TeamRole::Member => 0,
        TeamRole::Admin => 1,
        TeamRole::Owner => 2,
    }
}

/// An actor governs the team when their membership role is Admin or above.
pub open spec fn has_governance(role: Option<TeamRole>) -> bool {
    match role {
        Some(r) => team_role_rank(r) >= team_role_rank(TeamRole::Admin),
        None => false,
    }
}

/// Request to grant one company business role to a direct human teammate.
#[derive(Debug)]
pub struct GrantBusinessRoleCommand {
    /// Team in which the role is granted.
    pub team_id: u128,
    /// Directly authenticated human actor holding the reauthentication receipt.
    pub actor: String,
    /// Human target that receives the role.
    pub target: String,
    /// Company business role to grant.
    pub business_role: BusinessRole,
    /// One-time reauthentication receipt authorizing the change.
    pub receipt_id: u128,
    /// Request correlation identifier recorded on the audit event.
    pub request_id: RequestCorrelationId,
    /// Bounded human rationale recorded on the success audit event.
    pub reason: String,
}

/// Request to revoke one company business role from a direct human teammate.
#[derive(Debug)]
pub struct RevokeBusinessRoleCommand {
    /// Team in which the role is revoked.
    pub team_id: u128,
    /// Directly authenticated human actor holding the reauthentication receipt.
    pub actor: String,
    /// Human target that loses the role.
    pub target: String,
    /// Company business role to revoke.
    pub business_role: BusinessRole,
    /// One-time reauthentication receipt authorizing the change.
    pub receipt_id: u128,
    /// Request correlation identifier recorded on the audit event.
    pub request_id: RequestCorrelationId,
    /// Bounded human rationale recorded on the success audit event.
    pub reason: String,
}

/// Closed machine reason for an audited denial of a company role change.
#[derive(Debug, Clone, Copy, PartialEq, Eq, Structural)]
pub enum RoleChangeDenialReason {
    /// The receipt was missing, expired, consumed, or out of scope.
    InvalidReceipt,
    /// The actor does not hold ordered Admin or Owner governance.
    InsufficientGovernance,
    /// The target has no active membership row in the team.
    TargetNotMember,
    /// Member is derived from membership and cannot be stored.
    MemberIsDerived,
    /// Agent assignment requires the bot or agent flow.
    AgentRequiresAgentFlow,
    /// The actor cannot grant a role to themselves.
    SelfGrant,
    /// The target already holds the role.
    AlreadyGranted,
    /// The target does not hold the role.
    NotGranted,
}

/// Stable machine text of a denial reason.
pub open spec fn denial_text(reason: RoleChangeDenialReason) -> Seq<char> {
    match reason {
        RoleChangeDenialReason::InvalidReceipt => "invalid_receipt"@,
        RoleChangeDenialReason::InsufficientGovernance => "insufficient_governance"@,
        RoleChangeDenialReason::TargetNotMember => "target_not_member"@,
        RoleChangeDenialReason::MemberIsDerived => "member_is_derived"@,
        RoleChangeDenialReason::AgentRequiresAgentFlow => "agent_requires_agent_flow"@,
        RoleChangeDenialReason::SelfGrant => "self_grant"@,
        RoleChangeDenialReason::AlreadyGranted => "already_granted"@,
        RoleChangeDenialReason::NotGranted => "not_granted"@,
    }
}

impl RoleChangeDenialReason {
    /// Stable machine string shared with the business-audit ledger.
    pub fn as_str(self) -> (text: &'static str)
        ensures
            text@ == denial_text(self),
    {
        match self {
            RoleChangeDenialReason::InvalidReceipt => "invalid_receipt",
            RoleChangeDenialReason::InsufficientGovernance => "insufficient_governance",
            RoleChangeDenialReason::TargetNotMember => "target_not_member",
            RoleChangeDenialReason::MemberIsDerived => "member_is_derived",
            RoleChangeDenialReason::AgentRequiresAgentFlow => "agent_requires_agent_flow",
            RoleChangeDenialReason::SelfGrant => "self_grant",
            RoleChangeDenialReason::AlreadyGranted => "already_granted",
            RoleChangeDenialReason::NotGranted => "not_granted",
        }
    }
}

/// Outcome of an audited company business role change attempt.
#[derive(Debug, Clone, Copy, PartialEq, Eq, Structural)]
pub enum BusinessRoleChangeOutcome {
    /// The grant was applied and one success event was recorded.
    Granted,
    /// The revocation was applied and one success event was recorded.
    Revoked,
    /// The attempt was denied and one denied event was recorded.
    Denied(RoleChangeDenialReason),
}

/// Audit action recorded for an attempt.
#[derive(Debug, Clone, Copy, PartialEq, Eq, Structural)]
pub enum AuditActionKind {
    RoleGranted,
    RoleRevoked,
}

/// Outcome written on an audit event.
#[derive(Debug, Clone, Copy, PartialEq, Eq, Structural)]
pub enum AuditOutcome {
    Success,
    Denied,
}

/// The audit event an attempt writes.
#[derive(Debug)]
pub struct RoleAuditEvent {
    /// Team the change belongs to.
    pub team_id: u128,
    /// The human actor who asked for the change.
    pub actor: String,
    /// Role granted or role revoked.
    pub action: AuditActionKind,
    /// The business role named in the event's role-change metadata.
    pub business_role: BusinessRole,
    /// The principal the change is about: the event's target, and the
    /// grantee named in its role-change metadata.
    pub target: String,
    pub outcome: AuditOutcome,
    /// The command's request correlation identifier.
    pub request_id: RequestCorrelationId,
    /// The human reason of a success, or the machine text of a denial.
    pub reason: String,
}

/// Mathematical form of an audit event.
pub struct AuditEventView {
    pub team_id: u128,
    pub actor: Seq<char>,
    pub action: AuditActionKind,
    pub business_role: BusinessRole,
    pub target: Seq<char>,
    pub outcome: AuditOutcome,
    pub request_id: Seq<char>,
    pub reason: Seq<char>,
}

impl View for RoleAuditEvent {
    type V = AuditEventView;

    open spec fn view(&self) -> AuditEventView {
        AuditEventView {
            team_id: self.team_id,
            actor: self.actor@,
            action: self.action,
            business_role: self.business_role,
            target: self.target@,
            outcome: self.outcome,
            request_id: self.request_id@,
            reason: self.reason@,
        }
    }
}

/// The attempted mutation.
#[derive(Debug, Clone, Copy, PartialEq, Eq, Structural)]
pub enum Change {
    /// A role row is inserted.
    Grant,
    /// A role row is deleted.
    Revoke,
}

/// Success outcome of a change.
pub open spec fn change_success(change: Change) -> BusinessRoleChangeOutcome {
    match change {
        Change::Grant => BusinessRoleChangeOutcome::Granted,
        Change::Revoke => BusinessRoleChangeOutcome::Revoked,
    }
}

/// Audit action of a change.
pub open spec fn change_action(change: Change) -> AuditActionKind {
    match change {
        Change::Grant => AuditActionKind::RoleGranted,
        Change::Revoke => AuditActionKind::RoleRevoked,
    }
}

/// Denial when the role row could not be written: a grant finds the role
/// already held, a revoke finds it not held.
pub open spec fn unapplied_denial(change: Change) -> RoleChangeDenialReason {
    match change {
        Change::Grant => RoleChangeDenialReason::AlreadyGranted,
        Change::Revoke => RoleChangeDenialReason::NotGranted,
    }
}

impl Change {
    /// The audit action for the attempted mutation.
    pub fn action(self) -> (action: AuditActionKind)
        ensures
            action == change_action(self),
    {
        match self {
            Change::Grant => AuditActionKind::RoleGranted,
            Change::Revoke => AuditActionKind::RoleRevoked,
        }
    }

    /// The success outcome for the attempted mutation.
    pub fn success(self) -> (outcome: BusinessRoleChangeOutcome)
        ensures
            outcome == change_success(self),
    {
        match self {
            Change::Grant => BusinessRoleChangeOutcome::Granted,
            Change::Revoke => BusinessRoleChangeOutcome::Revoked,
        }
    }
}

/// The policy denial, re-checked behind the membership locks, in its fixed
/// order: governance, target membership, storable role, agent flow, self grant.
pub open spec fn policy_denial(
    change: Change,
    actor_role: Option<TeamRole>,
    target_is_member: bool,
    business_role: BusinessRole,
    actor: Seq<char>,
    target: Seq<char>,
) -> Option<RoleChangeDenialReason> {
    if !has_governance(actor_role) {
        Some(RoleChangeDenialReason::InsufficientGovernance)
    } else if !target_is_member {
        Some(RoleChangeDenialReason::TargetNotMember)
    } else if business_role == BusinessRole::Member {
        Some(RoleChangeDenialReason::MemberIsDerived)
    } else if business_role == BusinessRole::Agent {
        Some(RoleChangeDenialReason::AgentRequiresAgentFlow)
    } else if change == Change::Grant && actor == target {
        Some(RoleChangeDenialReason::SelfGrant)
    } else {
        None
    }
}

/// Computes the policy denial of an attempt, if any.
pub fn role_change_denial(
    change: Change,
    actor_role: Option<TeamRole>,
    target_is_member: bool,
    business_role: BusinessRole,
    actor: &String,
    target: &String,
) -> (denial: Option<RoleChangeDenialReason>)
    ensures
        denial == policy_denial(
            change,
            actor_role,
            target_is_member,
            business_role,
            actor@,
            target@,
        ),
{
    let governs = match actor_role {
        Some(TeamRole::Admin) | Some(TeamRole::Owner) => true,
        _ => false,
    };
    if !governs {
        Some(RoleChangeDenialReason::InsufficientGovernance)
    } else if !target_is_member {
        Some(RoleChangeDenialReason::TargetNotMember)
    } else if business_role == BusinessRole::Member {
        Some(RoleChangeDenialReason::MemberIsDerived)
    } else if business_role == BusinessRole::Agent {
        Some(RoleChangeDenialReason::AgentRequiresAgentFlow)
    } else if change == Change::Grant && *actor == *target {
        Some(RoleChangeDenialReason::SelfGrant)
    } else {
        None
    }
}

/// The membership rows to lock: actor and target in ascending text order, once each.
pub open spec fn lock_order_of(actor: Seq<char>, target: Seq<char>) -> Seq<Seq<char>> {
    if actor == target {
        seq![actor]
    } else if text_precedes(target, actor) {
        seq![target, actor]
    } else {
        seq![actor, target]
    }
}

/// Orders the two principals whose membership rows are locked, so that any
/// two attempts lock rows in the same global order and cannot deadlock.
pub fn membership_lock_order(actor: &String, target: &String) -> (order: Vec<String>)
    ensures
        order@.map_values(|p: String| p@) == lock_order_of(actor@, target@),
{
    let mut order: Vec<String> = Vec::new();
    if *actor == *target {
        order.push(actor.clone());
    } else if text_before(target.as_str(), actor.as_str()) {
        order.push(target.clone());
        order.push(actor.clone());
    } else {
        order.push(actor.clone());
        order.push(target.clone());
    }
    assert(order@.map_values(|p: String| p@) =~= lock_order_of(actor@, target@));
    order
}

/// Locks are taken in strictly ascending order, each principal once.
pub proof fn lemma_lock_order_ascending(actor: Seq<char>, target: Seq<char>)
    ensures
        lock_order_of(actor, target).len() == 2 ==> text_precedes(
            lock_order_of(actor, target)[0],
            lock_order_of(actor, target)[1],
        ),
        lock_order_of(actor, target).contains(actor),
        lock_order_of(actor, target).contains(target),
        lock_order_of(actor, target).len() == 1 <==> actor == target,
{
    crate::ids::lemma_text_precedes_strict(actor, target);
    crate::ids::lemma_text_precedes_strict(target, actor);
    let order = lock_order_of(actor, target);
    if actor == target {
        assert(order[0] == actor);
    } else if text_precedes(target, actor) {
        assert(order[0] == target);
        assert(order[1] == actor);
    } else {
        assert(order[0] == actor);
        assert(order[1] == target);
    }
}

/// Where an attempt stands.
#[derive(Debug, Clone, Copy, PartialEq, Eq, Structural)]
pub enum RoleChangePhase {
    /// Nothing has happened yet.
    Start,
    /// The receipt claim was requested inside the main transaction.
    AwaitReceipt,
    /// The membership row at this position of the lock order was requested.
    AwaitMembership(usize),
    /// The role row write was requested.
    AwaitApply,
    /// The single audit event was requested; the attempt ends with this outcome.
    AwaitRecord(BusinessRoleChangeOutcome),
    /// The attempt has ended.
    Done(BusinessRoleChangeOutcome),
}

/// What the database answered to the last action.
#[derive(Debug, Clone, Copy, PartialEq, Eq, Structural)]
pub enum RoleChangeEvent {
    /// The attempt starts.
    Begin,
    /// Whether the receipt was claimed (existed, in scope, unexpired, unconsumed).
    ReceiptClaimed(bool),
    /// The locked membership row's team role, or none when there is no row.
    MembershipRow(Option<TeamRole>),
    /// Whether the role row was inserted (grant) or deleted (revoke).
    Applied(bool),
    /// The requested audit event was written and its transaction committed.
    Recorded,
}

/// What the caller must do next.
#[derive(Debug)]
pub enum RoleChangeAction {
    /// Begin the main transaction and consume the receipt in this scope.
    ClaimReceipt { receipt_id: u128, team_id: u128, principal: String, purpose: ReceiptPurpose },
    /// Lock and read one membership row.
    LockMembership { team_id: u128, principal: String },
    /// Insert the role row unless it exists.
    InsertRole { team_id: u128, target: String, business_role: BusinessRole, granted_by: String },
    /// Delete the role row if it exists.
    DeleteRole { team_id: u128, target: String, business_role: BusinessRole },
    /// Insert the success audit event in the main transaction and commit it.
    RecordSuccess { event: RoleAuditEvent },
    /// Roll the main transaction back, then record one denied event in a fresh transaction.
    RecordDenial { reason: RoleChangeDenialReason, event: RoleAuditEvent },
    /// The attempt ends with this outcome.
    Finish(BusinessRoleChangeOutcome),
    /// The event does not belong to the current phase; nothing happens.
    Ignore,
}

/// Mathematical form of an action.
pub enum ActionView {
    ClaimReceipt { receipt_id: u128, team_id: u128, principal: Seq<char>, purpose: ReceiptPurpose },
    LockMembership { team_id: u128, principal: Seq<char> },
    InsertRole {
        team_id: u128,
        target: Seq<char>,
        business_role: BusinessRole,
        granted_by: Seq<char>,
    },
    DeleteRole { team_id: u128, target: Seq<char>, business_role: BusinessRole },
    RecordSuccess { event: AuditEventView },
    RecordDenial { reason: RoleChangeDenialReason, event: AuditEventView },
    Finish(BusinessRoleChangeOutcome),
    Ignore,
}

impl View for RoleChangeAction {
    type V = ActionView;

    open spec fn view(&self) -> ActionView {
        match self {
            RoleChangeAction::ClaimReceipt { receipt_id, team_id, principal, purpose } =>
                ActionView::ClaimReceipt {
                receipt_id: *receipt_id,
                team_id: *team_id,
                principal: principal@,
                purpose: *purpose,
            },
            RoleChangeAction::LockMembership { team_id, principal } => ActionView::LockMembership {
                team_id: *team_id,
                principal: principal@,
            },
            RoleChangeAction::InsertRole { team_id, target, business_role, granted_by } =>
                ActionView::InsertRole {
                team_id: *team_id,
                target: target@,
                business_role: *business_role,
                granted_by: granted_by@,
            },
            RoleChangeAction::DeleteRole { team_id, target, business_role } =>
                ActionView::DeleteRole {
                team_id: *team_id,
                target: target@,
                business_role: *business_role,
            },
            RoleChangeAction::RecordSuccess { event } => ActionView::RecordSuccess { event: event@ },
            RoleChangeAction::RecordDenial { reason, event } => ActionView::RecordDenial {
                reason: *reason,
                event: event@,
            },
            RoleChangeAction::Finish(outcome) => ActionView::Finish(*outcome),
            RoleChangeAction::Ignore => ActionView::Ignore,
        }
    }
}

/// Mathematical form of an attempt.
pub struct AttemptView {
    pub change: Change,
    pub team_id: u128,
    pub actor: Seq<char>,
    pub target: Seq<char>,
    pub business_role: BusinessRole,
    pub receipt_id: u128,
    pub request_id: Seq<char>,
    pub reason: Seq<char>,
    pub lock_order: Seq<Seq<char>>,
    pub actor_role: Option<TeamRole>,
    pub target_is_member: bool,
    pub claimed: bool,
    pub phase: RoleChangePhase,
}

/// One audited company role change attempt.
pub struct RoleChangeAttempt {
    change: Change,
    team_id: u128,
    actor: String,
    target: String,
    business_role: BusinessRole,
    receipt_id: u128,
    request_id: RequestCorrelationId,
    reason: String,
    lock_order: Vec<String>,
    actor_role: Option<TeamRole>,
    target_is_member: bool,
    claimed: bool,
    phase: RoleChangePhase,
}

impl View for RoleChangeAttempt {
    type V = AttemptView;

    closed spec fn view(&self) -> AttemptView {
        AttemptView {
            change: self.change,
            team_id: self.team_id,
            actor: self.actor@,
            target: self.target@,
            business_role: self.business_role,
            receipt_id: self.receipt_id,
            request_id: self.request_id@,
            reason: self.reason@,
            lock_order: self.lock_order@.map_values(|p: String| p@),
            actor_role: self.actor_role,
            target_is_member: self.target_is_member,
            claimed: self.claimed,
            phase: self.phase,
        }
    }
}

/// The denial an attempt reaches once every membership row is read.
pub open spec fn attempt_denial(v: AttemptView) -> Option<RoleChangeDenialReason> {
    policy_denial(v.change, v.actor_role, v.target_is_member, v.business_role, v.actor, v.target)
}

/// The audit event of an attempt: its team, actor, action, role and target,
/// the given outcome and reason, and the command's request id.
pub open spec fn audit_event(v: AttemptView, outcome: AuditOutcome, reason: Seq<char>) -> AuditEventView {
    AuditEventView {
        team_id: v.team_id,
        actor: v.actor,
        action: change_action(v.change),
        business_role: v.business_role,
        target: v.target,
        outcome,
        request_id: v.request_id,
        reason,
    }
}

/// The denied audit event of an attempt, with the denial's machine text as its reason.
pub open spec fn denial_event(v: AttemptView, reason: RoleChangeDenialReason) -> ActionView {
    ActionView::RecordDenial {
        reason,
        event: audit_event(v, AuditOutcome::Denied, denial_text(reason)),
    }
}

/// The next state and action of an attempt after an event.
pub open spec fn step_spec(v: AttemptView, e: RoleChangeEvent) -> (AttemptView, ActionView) {
    match (v.phase, e) {
        (RoleChangePhase::Start, RoleChangeEvent::Begin) => (
            AttemptView { phase: RoleChangePhase::AwaitReceipt, ..v },
            ActionView::ClaimReceipt {
                receipt_id: v.receipt_id,
                team_id: v.team_id,
                principal: v.actor,
                purpose: ReceiptPurpose::CompanyRoleChange,
            },
        ),
        (RoleChangePhase::AwaitReceipt, RoleChangeEvent::ReceiptClaimed(claimed)) => if claimed {
            (
                AttemptView { claimed: true, phase: RoleChangePhase::AwaitMembership(0), ..v },
                ActionView::LockMembership { team_id: v.team_id, principal: v.lock_order[0] },
            )
        } else {
            (
                AttemptView {
                    phase: RoleChangePhase::AwaitRecord(
                        BusinessRoleChangeOutcome::Denied(RoleChangeDenialReason::InvalidReceipt),
                    ),
                    ..v
                },
                denial_event(v, RoleChangeDenialReason::InvalidReceipt),
            )
        },
        (RoleChangePhase::AwaitMembership(i), RoleChangeEvent::MembershipRow(row)) => if i
            < v.lock_order.len() {
            let principal = v.lock_order[i as int];
            let actor_role = if row is Some && principal == v.actor {
                row
            } else {
                v.actor_role
            };
            let target_is_member = (row is Some && principal == v.target) || v.target_is_member;
            let read = AttemptView { actor_role, target_is_member, ..v };
            if i + 1 < v.lock_order.len() {
                (
                    AttemptView { phase: RoleChangePhase::AwaitMembership((i + 1) as usize), ..read },
                    ActionView::LockMembership {
                        team_id: v.team_id,
                        principal: v.lock_order[i + 1],
                    },
                )
            } else {
                match attempt_denial(read) {
                    Some(reason) => (
                        AttemptView {
                            phase: RoleChangePhase::AwaitRecord(
                                BusinessRoleChangeOutcome::Denied(reason),
                            ),
                            ..read
                        },
                        denial_event(v, reason),
                    ),
                    None => (
                        AttemptView { phase: RoleChangePhase::AwaitApply, ..read },
                        match v.change {
                            Change::Grant => ActionView::InsertRole {
                                team_id: v.team_id,
                                target: v.target,
                                business_role: v.business_role,
                                granted_by: v.actor,
                            },
                            Change::Revoke => ActionView::DeleteRole {
                                team_id: v.team_id,
                                target: v.target,
                                business_role: v.business_role,
                            },
                        },
                    ),
                }
            }
        } else {
            (v, ActionView::Ignore)
        },
        (RoleChangePhase::AwaitApply, RoleChangeEvent::Applied(applied)) => if applied {
            (
                AttemptView {
                    phase: RoleChangePhase::AwaitRecord(change_success(v.change)),
                    ..v
                },
                ActionView::RecordSuccess {
                    event: audit_event(v, AuditOutcome::Success, v.reason),
                },
            )
        } else {
            (
                AttemptView {
                    phase: RoleChangePhase::AwaitRecord(
                        BusinessRoleChangeOutcome::Denied(unapplied_denial(v.change)),
                    ),
                    ..v
                },
                denial_event(v, unapplied_denial(v.change)),
            )
        },
        (RoleChangePhase::AwaitRecord(outcome), RoleChangeEvent::Recorded) => (
            AttemptView { phase: RoleChangePhase::Done(outcome), ..v },
            ActionView::Finish(outcome),
        ),
        _ => (v, ActionView::Ignore),
    }
}

/// Whether an outcome is an applied change.
pub open spec fn is_success(outcome: BusinessRoleChangeOutcome) -> bool {
    !(outcome is Denied)
}

/// The invariant of an attempt: the lock order is the canonical one, and any
/// success already decided was authorized by a claimed receipt and passed
/// every policy check.
pub open spec fn attempt_wf(v: AttemptView) -> bool {
    &&& v.lock_order == lock_order_of(v.actor, v.target)
    &&& match v.phase {
        RoleChangePhase::Start => !v.claimed,
        RoleChangePhase::AwaitReceipt => !v.claimed,
        RoleChangePhase::AwaitMembership(i) => v.claimed && i < v.lock_order.len(),
        RoleChangePhase::AwaitApply => v.claimed && attempt_denial(v) is None,
        RoleChangePhase::AwaitRecord(outcome) => is_success(outcome) ==> (v.claimed
            && attempt_denial(v) is None && outcome == change_success(v.change)),
        RoleChangePhase::Done(outcome) => is_success(outcome) ==> (v.claimed && attempt_denial(v)
            is None && outcome == change_success(v.change)),
    }
}

impl RoleChangeAttempt {
    /// A fresh attempt.
    pub fn new(
        change: Change,
        team_id: u128,
        actor: &String,
        target: &String,
        business_role: BusinessRole,
        receipt_id: u128,
        request_id: &RequestCorrelationId,
        reason: &String,
    ) -> (attempt: Self)
        ensures
            attempt@.change == change,
            attempt@.team_id == team_id,
            attempt@.actor == actor@,
            attempt@.target == target@,
            attempt@.business_role == business_role,
            attempt@.receipt_id == receipt_id,
            attempt@.request_id == request_id@,
            attempt@.reason == reason@,
            attempt@.actor_role is None,
            !attempt@.target_is_member,
            !attempt@.claimed,
            attempt@.phase == RoleChangePhase::Start,
            attempt_wf(attempt@),
    {
        let lock_order = membership_lock_order(actor, target);
        RoleChangeAttempt {
            change,
            team_id,
            actor: actor.clone(),
            target: target.clone(),
            business_role,
            receipt_id,
            request_id: request_id.duplicate(),
            reason: reason.clone(),
            lock_order,
            actor_role: None,
            target_is_member: false,
            claimed: false,
            phase: RoleChangePhase::Start,
        }
    }

    /// An attempt to grant a role.
    pub fn grant(command: &GrantBusinessRoleCommand) -> (attempt: Self)
        ensures
            attempt@.change == Change::Grant,
            attempt@.team_id == command.team_id,
            attempt@.actor == command.actor@,
            attempt@.target == command.target@,
            attempt@.business_role == command.business_role,
            attempt@.receipt_id == command.receipt_id,
            attempt@.request_id == command.request_id@,
            attempt@.reason == command.reason@,
            attempt@.phase == RoleChangePhase::Start,
            !attempt@.claimed,
            attempt_wf(attempt@),
    {
        Self::new(
            Change::Grant,
            command.team_id,
            &command.actor,
            &command.target,
            command.business_role,
            command.receipt_id,
            &command.request_id,
            &command.reason,
        )
    }

    /// An attempt to revoke a role.
    pub fn revoke(command: &RevokeBusinessRoleCommand) -> (attempt: Self)
        ensures
            attempt@.change == Change::Revoke,
            attempt@.team_id == command.team_id,
            attempt@.actor == command.actor@,
            attempt@.target == command.target@,
            attempt@.business_role == command.business_role,
            attempt@.receipt_id == command.receipt_id,
            attempt@.request_id == command.request_id@,
            attempt@.reason == command.reason@,
            attempt@.phase == RoleChangePhase::Start,
            !attempt@.claimed,
            attempt_wf(attempt@),
    {
        Self::new(
            Change::Revoke,
            command.team_id,
            &command.actor,
            &command.target,
            command.business_role,
            command.receipt_id,
            &command.request_id,
            &command.reason,
        )
    }

    /// Where the attempt stands.
    pub fn phase(&self) -> (phase: RoleChangePhase)
        ensures
            phase == self@.phase,
    {
        self.phase
    }

    fn audit_event_exec(&self, outcome: AuditOutcome, reason: String) -> (event: RoleAuditEvent)
        ensures
            event@ == audit_event(self@, outcome, reason@),
    {
        RoleAuditEvent {
            team_id: self.team_id,
            actor: self.actor.clone(),
            action: self.change.action(),
            business_role: self.business_role,
            target: self.target.clone(),
            outcome,
            request_id: self.request_id.duplicate(),
            reason,
        }
    }

    fn denial_exec(&self, reason: RoleChangeDenialReason) -> (action: RoleChangeAction)
        ensures
            action@ == denial_event(self@, reason),
    {
        let text = reason.as_str().to_owned();
        RoleChangeAction::RecordDenial {
            reason,
            event: self.audit_event_exec(AuditOutcome::Denied, text),
        }
    }

    /// The lock order is the canonical one for the actor and target.
    #[verifier::type_invariant]
    spec fn lock_order_is_canonical(self) -> bool {
        &&& self.lock_order@.map_values(|p: String| p@) == lock_order_of(self.actor@, self.target@)
        &&& self.phase matches RoleChangePhase::AwaitMembership(i) ==> i < self.lock_order@.len()
    }

    /// Advances the attempt by one database answer and says what to do next.
    pub fn step(&mut self, event: RoleChangeEvent) -> (action: RoleChangeAction)
        ensures
            (final(self)@, action@) == step_spec(old(self)@, event),
    {
        proof {
            use_type_invariant(&*self);
        }
        let ghost before = self@;
        assert(lock_order_of(self.actor@, self.target@).len() >= 1);
        assert(self.lock_order@.map_values(|p: String| p@).len() == self.lock_order@.len());
        assert(self.lock_order@.len() >= 1);
        match (self.phase, event) {
            (RoleChangePhase::Start, RoleChangeEvent::Begin) => {
                self.phase = RoleChangePhase::AwaitReceipt;
                RoleChangeAction::ClaimReceipt {
                    receipt_id: self.receipt_id,
                    team_id: self.team_id,
                    principal: self.actor.clone(),
                    purpose: ReceiptPurpose::CompanyRoleChange,
                }
            },
            (RoleChangePhase::AwaitReceipt, RoleChangeEvent::ReceiptClaimed(claimed)) => {
                if claimed {
                    self.claimed = true;
                    self.phase = RoleChangePhase::AwaitMembership(0);
                    RoleChangeAction::LockMembership {
                        team_id: self.team_id,
                        principal: self.lock_order[0].clone(),
                    }
                } else {
                    let action = self.denial_exec(RoleChangeDenialReason::InvalidReceipt);
                    self.phase = RoleChangePhase::AwaitRecord(
                        BusinessRoleChangeOutcome::Denied(RoleChangeDenialReason::InvalidReceipt),
                    );
                    action
                }
            },
            (RoleChangePhase::AwaitMembership(i), RoleChangeEvent::MembershipRow(row)) => {
                if i < self.lock_order.len() {
                    let is_actor = self.lock_order[i] == self.actor;
                    let is_target = self.lock_order[i] == self.target;
                    if row.is_some() && is_actor {
                        self.actor_role = row;
                    }
                    if row.is_some() && is_target {
                        self.target_is_member = true;
                    }
                    if i + 1 < self.lock_order.len() {
                        self.phase = RoleChangePhase::AwaitMembership(i + 1);
                        RoleChangeAction::LockMembership {
                            team_id: self.team_id,
                            principal: self.lock_order[i + 1].clone(),
                        }
                    } else {
                        let denial = role_change_denial(
                            self.change,
                            self.actor_role,
                            self.target_is_member,
                            self.business_role,
                            &self.actor,
                            &self.target,
                        );
                        match denial {
                            Some(reason) => {
                                let action = self.denial_exec(reason);
                                self.phase = RoleChangePhase::AwaitRecord(
                                    BusinessRoleChangeOutcome::Denied(reason),
                                );
                                action
                            },
                            None => {
                                self.phase = RoleChangePhase::AwaitApply;
                                match self.change {
                                    Change::Grant => RoleChangeAction::InsertRole {
                                        team_id: self.team_id,
                                        target: self.target.clone(),
                                        business_role: self.business_role,
                                        granted_by: self.actor.clone(),
                                    },
                                    Change::Revoke => RoleChangeAction::DeleteRole {
                                        team_id: self.team_id,
                                        target: self.target.clone(),
                                        business_role: self.business_role,
                                    },
                                }
                            },
                        }
                    }
                } else {
                    RoleChangeAction::Ignore
                }
            },
            (RoleChangePhase::AwaitApply, RoleChangeEvent::Applied(applied)) => {
                if applied {
                    let reason = self.reason.clone();
                    let event = self.audit_event_exec(AuditOutcome::Success, reason);
                    self.phase = RoleChangePhase::AwaitRecord(self.change.success());
                    RoleChangeAction::RecordSuccess { event }
                } else {
                    let reason = match self.change {
                        Change::Grant => RoleChangeDenialReason::AlreadyGranted,
                        Change::Revoke => RoleChangeDenialReason::NotGranted,
                    };
                    let action = self.denial_exec(reason);
                    self.phase = RoleChangePhase::AwaitRecord(
                        BusinessRoleChangeOutcome::Denied(reason),
                    );
                    action
                }
            },
            (RoleChangePhase::AwaitRecord(outcome), RoleChangeEvent::Recorded) => {
                self.phase = RoleChangePhase::Done(outcome);
                RoleChangeAction::Finish(outcome)
            },
            _ => RoleChangeAction::Ignore,
        }
    }
}

/// The states and actions of an attempt driven by a sequence of events.
pub open spec fn run_attempt(v: AttemptView, events: Seq<RoleChangeEvent>) -> (
    AttemptView,
    Seq<ActionView>,
)
    decreases events.len(),
{
    if events.len() == 0 {
        (v, Seq::empty())
    } else {
        let (w, actions) = run_attempt(v, events.drop_last());
        let (x, action) = step_spec(w, events.last());
        (x, actions.push(action))
    }
}

/// Whether an action writes an audit event.
pub open spec fn is_audit_record(action: ActionView) -> bool {
    action is RecordSuccess || action is RecordDenial
}

/// Number of audit events written by a sequence of actions.
pub open spec fn audit_records(actions: Seq<ActionView>) -> nat
    decreases actions.len(),
{
    if actions.len() == 0 {
        0
    } else {
        audit_records(actions.drop_last()) + if is_audit_record(actions.last()) {
            1nat
        } else {
            0nat
        }
    }
}

/// Audit events an attempt has requested by the time it stands in `phase`.
pub open spec fn audit_records_due(phase: RoleChangePhase) -> nat {
    match phase {
        RoleChangePhase::AwaitRecord(_) | RoleChangePhase::Done(_) => 1,
        _ => 0,
    }
}

/// Every step keeps the attempt invariant: a success is only ever decided
/// after a claimed receipt and a clean policy check.
pub proof fn lemma_step_keeps_attempt_wf(v: AttemptView, e: RoleChangeEvent)
    requires
        attempt_wf(v),
    ensures
        attempt_wf(step_spec(v, e).0),
{
}

/// A step writes an audit event exactly when it moves the attempt into the
/// recording phase.
pub proof fn lemma_step_audit_records(v: AttemptView, e: RoleChangeEvent)
    ensures
        audit_records_due(step_spec(v, e).0.phase) == audit_records_due(v.phase) + if is_audit_record(
            step_spec(v, e).1,
        ) {
            1nat
        } else {
            0nat
        },
{
}

/// Every attempt writes exactly one audit event, success or denial, by the
/// time it finishes, and never more than one; a finished success was
/// authorized by a claimed receipt and passed every policy check.
pub proof fn lemma_attempt_records_one_audit_event(v: AttemptView, events: Seq<RoleChangeEvent>)
    requires
        attempt_wf(v),
        v.phase == RoleChangePhase::Start,
    ensures
        audit_records(run_attempt(v, events).1) == audit_records_due(run_attempt(v, events).0.phase),
        audit_records(run_attempt(v, events).1) <= 1,
        attempt_wf(run_attempt(v, events).0),
        run_attempt(v, events).0.phase matches RoleChangePhase::Done(outcome) ==> {
            &&& audit_records(run_attempt(v, events).1) == 1
            &&& is_success(outcome) ==> {
                &&& run_attempt(v, events).0.claimed
                &&& attempt_denial(run_attempt(v, events).0) is None
                &&& outcome == change_success(v.change)
            }
        },
    decreases events.len(),
{
    if events.len() > 0 {
        lemma_attempt_records_one_audit_event(v, events.drop_last());
        let w = run_attempt(v, events.drop_last()).0;
        lemma_step_keeps_attempt_wf(w, events.last());
        lemma_step_audit_records(w, events.last());
        lemma_step_keeps_change(w, events.last());
        lemma_run_keeps_change(v, events.drop_last());
        let actions = run_attempt(v, events.drop_last()).1;
        let action = step_spec(w, events.last()).1;
        assert(actions.push(action).drop_last() =~= actions);
        assert(run_attempt(v, events).1 == actions.push(action));
    }
}

proof fn lemma_step_keeps_change(v: AttemptView, e: RoleChangeEvent)
    ensures
        step_spec(v, e).0.change == v.change,
        step_spec(v, e).0.actor == v.actor,
        step_spec(v, e).0.target == v.target,
        step_spec(v, e).0.business_role == v.business_role,
        step_spec(v, e).0.team_id == v.team_id,
        step_spec(v, e).0.request_id == v.request_id,
        step_spec(v, e).0.reason == v.reason,
        step_spec(v, e).0.lock_order == v.lock_order,
{
}

proof fn lemma_run_keeps_change(v: AttemptView, events: Seq<RoleChangeEvent>)
    ensures
        run_attempt(v, events).0.change == v.change,
        run_attempt(v, events).0.actor == v.actor,
        run_attempt(v, events).0.target == v.target,
        run_attempt(v, events).0.business_role == v.business_role,
        run_attempt(v, events).0.team_id == v.team_id,
        run_attempt(v, events).0.request_id == v.request_id,
        run_attempt(v, events).0.reason == v.reason,
        run_attempt(v, events).0.lock_order == v.lock_order,
    decreases events.len(),
{
    if events.len() > 0 {
        lemma_run_keeps_change(v, events.drop_last());
        lemma_step_keeps_change(run_attempt(v, events.drop_last()).0, events.last());
    }
}

/// A grant to oneself, of the derived Member role, or of the Agent role never
/// succeeds, whatever the database answers.
pub proof fn lemma_forbidden_grants_never_succeed(v: AttemptView, events: Seq<RoleChangeEvent>)
    requires
        attempt_wf(v),
        v.phase == RoleChangePhase::Start,
        (v.change == Change::Grant && v.actor == v.target) || v.business_role
            == BusinessRole::Member || v.business_role == BusinessRole::Agent,
    ensures
        !(run_attempt(v, events).0.phase matches RoleChangePhase::Done(outcome) && is_success(
            outcome,
        )),
{
    lemma_attempt_records_one_audit_event(v, events);
    lemma_run_keeps_change(v, events);
}

/// Whether an action, if it writes an audit event, writes the attempt's own:
/// its team, actor, action, business role, target and request id, with the
/// human reason on a success and the denial's machine text on a denial.
pub open spec fn records_attempt(v: AttemptView, action: ActionView) -> bool {
    match action {
        ActionView::RecordSuccess { event } => event == audit_event(
            v,
            AuditOutcome::Success,
            v.reason,
        ),
        ActionView::RecordDenial { reason, event } => event == audit_event(
            v,
            AuditOutcome::Denied,
            denial_text(reason),
        ),
        _ => true,
    }
}

/// Every audit event an attempt writes describes that attempt: its team,
/// actor, action, business role, target and request id; a success carries the
/// command's human reason and a denial the machine text of its reason,
/// whatever the database answers.
pub proof fn lemma_audit_events_describe_attempt(v: AttemptView, events: Seq<RoleChangeEvent>)
    ensures
        forall|k: int|
            0 <= k < run_attempt(v, events).1.len() ==> records_attempt(
                v,
                #[trigger] run_attempt(v, events).1[k],
            ),
    decreases events.len(),
{
    if events.len() > 0 {
        let prefix = events.drop_last();
        lemma_audit_events_describe_attempt(v, prefix);
        lemma_run_keeps_change(v, prefix);
        let (w, actions) = run_attempt(v, prefix);
        let action = step_spec(w, events.last()).1;
        let all = run_attempt(v, events).1;
        assert(all == actions.push(action));
        assert(records_attempt(v, action));
        assert forall|k: int| 0 <= k < all.len() implies records_attempt(v, #[trigger] all[k]) by {
            if k < actions.len() {
                assert(all[k] == actions[k]);
            }
        }
    }
}

/// Whether the database answered `row` when the attempt asked for the locked
/// membership row of `principal`.
pub open spec fn membership_answer(
    v: AttemptView,
    events: Seq<RoleChangeEvent>,
    principal: Seq<char>,
    row: Option<TeamRole>,
) -> bool {
    exists|k: int|
        0 <= k < events.len() && #[trigger] events[k] == RoleChangeEvent::MembershipRow(row) && (
        run_attempt(v, events.take(k)).0.phase matches RoleChangePhase::AwaitMembership(i) && i
            < v.lock_order.len() && v.lock_order[i as int] == principal)
}

/// Whether some action writes the role row.
pub open spec fn applied_change(actions: Seq<ActionView>) -> bool {
    exists|k: int|
        0 <= k < actions.len() && (#[trigger] actions[k] is InsertRole || actions[k] is DeleteRole)
}

/// What a run has learnt from the membership rows so far.
pub open spec fn membership_facts(
    v: AttemptView,
    w: AttemptView,
    events: Seq<RoleChangeEvent>,
    actions: Seq<ActionView>,
) -> bool {
    &&& w.target_is_member ==> exists|r: TeamRole| membership_answer(v, events, v.target, Some(r))
    &&& w.actor_role matches Some(r) ==> membership_answer(v, events, v.actor, Some(r))
    &&& applied_change(actions) ==> {
        &&& w.target_is_member
        &&& has_governance(w.actor_role)
        &&& !(w.phase is Start || w.phase is AwaitReceipt || w.phase is AwaitMembership)
    }
}

proof fn lemma_membership_facts_step(v: AttemptView, events: Seq<RoleChangeEvent>, e: RoleChangeEvent)
    requires
        membership_facts(v, run_attempt(v, events).0, events, run_attempt(v, events).1),
    ensures
        membership_facts(
            v,
            run_attempt(v, events.push(e)).0,
            events.push(e),
            run_attempt(v, events.push(e)).1,
        ),
{
    let (w, actions) = run_attempt(v, events);
    let (x, action) = step_spec(w, e);
    let all = events.push(e);
    let n = events.len() as int;
    assert(all.drop_last() =~= events);
    assert(all.last() == e);
    assert(run_attempt(v, all) == (x, actions.push(action)));
    assert(all.take(n) =~= events);
    assert(all[n] == e);
    lemma_run_keeps_change(v, events);
    let next = actions.push(action);
    assert forall|k: int| 0 <= k < actions.len() implies #[trigger] next[k] == actions[k] by {}
    assert forall|p: Seq<char>, row: Option<TeamRole>| membership_answer(v, events, p, row) implies membership_answer(v, all, p, row) by {
        let k = choose|k: int|
            0 <= k < events.len() && #[trigger] events[k] == RoleChangeEvent::MembershipRow(row) && (
            run_attempt(v, events.take(k)).0.phase matches RoleChangePhase::AwaitMembership(i) && i
                < v.lock_order.len() && v.lock_order[i as int] == p);
        assert(all.take(k) =~= events.take(k));
        assert(all[k] == events[k]);
    }
    if w.target_is_member {
        let r = choose|r: TeamRole| membership_answer(v, events, v.target, Some(r));
        assert(membership_answer(v, all, v.target, Some(r)));
    }
    if x.target_is_member && !w.target_is_member {
        let r = e->MembershipRow_0->Some_0;
        assert(membership_answer(v, all, v.target, Some(r)));
    }
    if x.actor_role is Some {
        if x.actor_role == w.actor_role {
            assert(membership_answer(v, all, v.actor, x.actor_role));
        } else {
            assert(membership_answer(v, all, v.actor, x.actor_role));
        }
    }
    if applied_change(actions) {
        let k = choose|k: int|
            0 <= k < actions.len() && (#[trigger] actions[k] is InsertRole || actions[k] is DeleteRole);
        assert(next[k] == actions[k]);
    }
    if applied_change(next) && !applied_change(actions) {
        let k = choose|k: int|
            0 <= k < next.len() && (#[trigger] next[k] is InsertRole || next[k] is DeleteRole);
        if k < actions.len() {
            assert(actions[k] == next[k]);
        }
        assert(action is InsertRole || action is DeleteRole);
    }
}

proof fn lemma_membership_facts(v: AttemptView, events: Seq<RoleChangeEvent>)
    requires
        v.actor_role is None,
        !v.target_is_member,
        !(v.phase is AwaitApply || v.phase is AwaitRecord || v.phase is Done),
    ensures
        membership_facts(v, run_attempt(v, events).0, events, run_attempt(v, events).1),
    decreases events.len(),
{
    if events.len() > 0 {
        let prefix = events.drop_last();
        lemma_membership_facts(v, prefix);
        lemma_membership_facts_step(v, prefix, events.last());
        assert(prefix.push(events.last()) =~= events);
    }
}

/// A role row is written only after the database answered a row for the
/// target's locked membership read and an Admin or Owner row for the actor's:
/// an attempt whose target has no membership row, or whose actor does not
/// govern, never grants or revokes, whatever else the database answers.
pub proof fn lemma_change_needs_member_target_and_governing_actor(
    v: AttemptView,
    events: Seq<RoleChangeEvent>,
)
    requires
        v.phase == RoleChangePhase::Start,
        v.actor_role is None,
        !v.target_is_member,
    ensures
        applied_change(run_attempt(v, events).1) ==> {
            &&& exists|r: TeamRole| membership_answer(v, events, v.target, Some(r))
            &&& exists|r: TeamRole|
                (r == TeamRole::Admin || r == TeamRole::Owner) && membership_answer(
                    v,
                    events,
                    v.actor,
                    Some(r),
                )
        },
{
    lemma_membership_facts(v, events);
    let w = run_attempt(v, events).0;
    if applied_change(run_attempt(v, events).1) {
        let r = w.actor_role->Some_0;
        assert(r == TeamRole::Admin || r == TeamRole::Owner);
        assert(membership_answer(v, events, v.actor, Some(r)));
    }
}

} // verus!
