//! Depends On requests at the task property write boundary, and the receipt
//! checks of the project-scoped readiness read.

use vstd::prelude::*;

use crate::access::{receipt_user, AccessEntityType, AccessReceipt, EntityAccessAuth, TASK_BATCH_MAX};
use crate::dependency_write::{DependencyOutcomeView, TaskDependencyMutationOutcome};
use crate::errors::PropertiesErr;
use crate::ids::{parse_uuid, uuid_parse_str};
use crate::property_value::{EntityReference, EntityType, RefView, SetPropertyValue};
use crate::status_transition::opt_seq;
use crate::subtask_hierarchy::contains_id;

verus! {

/// Message of a Depends On value that is not a list of task references.
pub open spec fn malformed_text() -> Seq<char> {
    "Depends On requires task references"@
}

/// Message of a Depends On list that names the task itself.
pub open spec fn self_dependency_text() -> Seq<char> {
    "A task cannot depend on itself"@
}

/// Message of a Depends On list that names a task twice.
pub open spec fn duplicate_dependency_text() -> Seq<char> {
    "A task dependency may only be listed once"@
}

/// The validation error of a malformed Depends On value.
pub fn malformed_dependencies() -> (error: PropertiesErr)
    ensures
        error matches PropertiesErr::Validation(m) && m@ == malformed_text(),
{
    PropertiesErr::Validation("Depends On requires task references".to_owned())
}

/// Reads one requested reference after the ids `prior`: a task reference
/// without a message whose id is a UUID, not the task itself, not listed before.
pub open spec fn requested_reference(r: RefView, task_id: u128, prior: Seq<u128>) -> Result<u128, Seq<char>> {
    if r.entity_type != EntityType::Task || r.specific_message_id is Some {
        Err(malformed_text())
    } else {
        match uuid_parse_str(r.entity_id) {
            None => Err(malformed_text()),
            Some(id) => if id == task_id {
                Err(self_dependency_text())
            } else if prior.contains(id) {
                Err(duplicate_dependency_text())
            } else {
                Ok(id)
            },
        }
    }
}

/// The requested ids of a reference list, in order; the first bad reference decides the error.
pub open spec fn requested_ids(refs: Seq<RefView>, task_id: u128) -> Result<Seq<u128>, Seq<char>>
    decreases refs.len(),
{
    if refs.len() == 0 {
        Ok(Seq::empty())
    } else {
        match requested_ids(refs.drop_last(), task_id) {
            Err(m) => Err(m),
            Ok(prior) => match requested_reference(refs.last(), task_id, prior) {
                Ok(id) => Ok(prior.push(id)),
                Err(m) => Err(m),
            },
        }
    }
}

/// The dependency ids a Depends On request asks for: none to clear it, the
/// ids of a multi-reference list, and an error for any other value.
pub open spec fn requested_dependencies(task_id: u128, value: Option<SetPropertyValue>) -> Result<
    Seq<u128>,
    Seq<char>,
> {
    match value {
        None => Ok(Seq::empty()),
        Some(SetPropertyValue::MultiEntityReference { references }) => requested_ids(
            references@.map_values(|r: EntityReference| r@),
            task_id,
        ),
        Some(_) => Err(malformed_text()),
    }
}

proof fn lemma_requested_prefix_error(refs: Seq<RefView>, task_id: u128, k: int, m: Seq<char>)
    requires
        0 <= k <= refs.len(),
        requested_ids(refs.take(k), task_id) == Err::<Seq<u128>, Seq<char>>(m),
    ensures
        requested_ids(refs, task_id) == Err::<Seq<u128>, Seq<char>>(m),
    decreases refs.len() - k,
{
    if k < refs.len() {
        assert(refs.take(k + 1).drop_last() =~= refs.take(k));
        lemma_requested_prefix_error(refs, task_id, k + 1, m);
    } else {
        assert(refs.take(k) =~= refs);
    }
}

/// What an accepted Depends On list is: one id per requested reference, in
/// order, each a task reference without a message whose id parses to it;
/// never the task itself and never the same task twice. So a request naming a
/// task twice, at any two positions, is refused.
pub proof fn lemma_requested_ids_are_distinct_tasks(refs: Seq<RefView>, task_id: u128)
    ensures
        requested_ids(refs, task_id) matches Ok(ids) ==> {
            &&& ids.len() == refs.len()
            &&& ids.no_duplicates()
            &&& !ids.contains(task_id)
            &&& forall|k: int|
                0 <= k < refs.len() ==> {
                    &&& (#[trigger] refs[k]).entity_type == EntityType::Task
                    &&& refs[k].specific_message_id is None
                    &&& uuid_parse_str(refs[k].entity_id) == Some(ids[k])
                }
        },
        (exists|a: int, b: int|
            0 <= a < b < refs.len() && uuid_parse_str(#[trigger] refs[a].entity_id) is Some
                && uuid_parse_str(refs[a].entity_id) == uuid_parse_str(#[trigger] refs[b].entity_id))
            ==> requested_ids(refs, task_id) is Err,
    decreases refs.len(),
{
    if refs.len() > 0 {
        let prefix = refs.drop_last();
        lemma_requested_ids_are_distinct_tasks(prefix, task_id);
        if requested_ids(refs, task_id) is Ok {
            let ids = requested_ids(refs, task_id)->Ok_0;
            let prior = requested_ids(prefix, task_id)->Ok_0;
            assert(ids == prior.push(ids.last()));
            assert forall|k: int| 0 <= k < refs.len() implies {
                &&& (#[trigger] refs[k]).entity_type == EntityType::Task
                &&& refs[k].specific_message_id is None
                &&& uuid_parse_str(refs[k].entity_id) == Some(ids[k])
            } by {
                if k < prefix.len() {
                    assert(refs[k] == prefix[k]);
                    assert(ids[k] == prior[k]);
                }
            }
            assert(ids.no_duplicates()) by {
                assert forall|a: int, b: int| 0 <= a < b < ids.len() implies ids[a] != ids[b] by {
                    if b < prior.len() {
                        assert(ids[a] == prior[a] && ids[b] == prior[b]);
                    } else {
                        assert(ids[a] == prior[a]);
                        assert(prior.contains(prior[a]));
                    }
                }
            }
            assert(!ids.contains(task_id)) by {
                if ids.contains(task_id) {
                    let k = choose|k: int| 0 <= k < ids.len() && ids[k] == task_id;
                    if k < prior.len() {
                        assert(prior[k] == task_id);
                    }
                }
            }
        }
        if exists|a: int, b: int|
            0 <= a < b < refs.len() && uuid_parse_str(#[trigger] refs[a].entity_id) is Some
                && uuid_parse_str(refs[a].entity_id) == uuid_parse_str(#[trigger] refs[b].entity_id) {
            let (a, b) = choose|a: int, b: int|
                0 <= a < b < refs.len() && uuid_parse_str(#[trigger] refs[a].entity_id) is Some
                    && uuid_parse_str(refs[a].entity_id) == uuid_parse_str(#[trigger] refs[b].entity_id);
            if requested_ids(refs, task_id) is Ok {
                let ids = requested_ids(refs, task_id)->Ok_0;
                assert(uuid_parse_str(refs[a].entity_id) == Some(ids[a]));
                assert(uuid_parse_str(refs[b].entity_id) == Some(ids[b]));
                assert(false);
            }
        }
    }
}

fn requested_reference_exec(r: &EntityReference, task_id: u128, prior: &Vec<u128>) -> (read: Result<
    u128,
    PropertiesErr,
>)
    ensures
        match requested_reference(r@, task_id, prior@) {
            Ok(id) => read == Ok::<u128, PropertiesErr>(id),
            Err(m) => read matches Err(PropertiesErr::Validation(t)) && t@ == m,
        },
{
    if r.entity_type != EntityType::Task || r.specific_message_id.is_some() {
        return Err(malformed_dependencies());
    }
    match parse_uuid(r.entity_id.as_str()) {
        None => Err(malformed_dependencies()),
        Some(id) => if id == task_id {
            Err(PropertiesErr::Validation("A task cannot depend on itself".to_owned()))
        } else if contains_id(prior, id) {
            Err(PropertiesErr::Validation("A task dependency may only be listed once".to_owned()))
        } else {
            Ok(id)
        },
    }
}

/// Parses a Depends On request: clearing gives no ids; a multi-reference list
/// gives its task ids in order, each a task reference without a message, not
/// the task itself and listed once; anything else is malformed.
pub fn parse_dependencies(task_id: u128, value: Option<SetPropertyValue>) -> (parsed: Result<
    Vec<u128>,
    PropertiesErr,
>)
    ensures
        match requested_dependencies(task_id, value) {
            Ok(ids) => parsed matches Ok(p) && p@ == ids,
            Err(m) => parsed matches Err(PropertiesErr::Validation(t)) && t@ == m,
        },
        parsed matches Ok(p) ==> p@.no_duplicates() && !p@.contains(task_id),
{
    let ghost requested = value;
    let references = match value {
        None => {
            return Ok(Vec::new());
        },
        Some(SetPropertyValue::MultiEntityReference { references }) => references,
        Some(_) => {
            return Err(malformed_dependencies());
        },
    };
    let ghost views = references@.map_values(|r: EntityReference| r@);
    assert(requested_dependencies(task_id, requested) == requested_ids(views, task_id));
    let mut ids: Vec<u128> = Vec::new();
    let mut i: usize = 0;
    assert(views.take(0) =~= Seq::<RefView>::empty());
    while i < references.len()
        invariant
            0 <= i <= references.len(),
            views == references@.map_values(|r: EntityReference| r@),
            requested == value,
            requested_dependencies(task_id, requested) == requested_ids(views, task_id),
            requested_ids(views.take(i as int), task_id) == Ok::<Seq<u128>, Seq<char>>(ids@),
        decreases references.len() - i,
    {
        assert(views.take(i + 1).drop_last() =~= views.take(i as int));
        assert(views.take(i + 1).last() == references@[i as int]@);
        match requested_reference_exec(&references[i], task_id, &ids) {
            Ok(id) => {
                ids.push(id);
            },
            Err(error) => {
                proof {
                    let m = requested_reference(references@[i as int]@, task_id, ids@)->Err_0;
                    lemma_requested_prefix_error(views, task_id, i + 1, m);
                    assert(requested_dependencies(task_id, requested) == Err::<Seq<u128>, Seq<char>>(
                        m,
                    ));
                }
                return Err(error);
            },
        }
        i = i + 1;
    }
    assert(views.take(i as int) =~= views);
    proof {
        lemma_requested_ids_are_distinct_tasks(views, task_id);
    }
    Ok(ids)
}

/// What a Depends On write needs once the request is accepted: the task, its
/// new predecessors, and the human whose view receipt each predecessor needs
/// (none for an internal caller).
#[derive(Debug)]
pub struct DependencyWritePlan {
    pub task_id: u128,
    pub dependency_ids: Vec<u128>,
    pub viewer: Option<String>,
}

/// Accepts a Depends On write: the edit receipt must name a task by UUID, the
/// value must parse, and the caller must be internal or a human; bots and
/// unauthenticated callers are denied.
pub fn plan_dependency_write(access: &AccessReceipt, value: Option<SetPropertyValue>) -> (plan: Result<
    DependencyWritePlan,
    PropertiesErr,
>)
    ensures
        match uuid_parse_str(access.entity_id@) {
            None => plan matches Err(PropertiesErr::Validation(m)) && m@ == malformed_text(),
            Some(task_id) => match requested_dependencies(task_id, value) {
                Err(m) => plan matches Err(PropertiesErr::Validation(t)) && t@ == m,
                Ok(ids) => match access.auth {
                    EntityAccessAuth::Internal => plan matches Ok(p) && p.task_id == task_id
                        && p.dependency_ids@ == ids && p.viewer is None,
                    EntityAccessAuth::Authenticated(user) => plan matches Ok(p) && p.task_id
                        == task_id && p.dependency_ids@ == ids && opt_seq(p.viewer) == Some(
                        user@,
                    ),
                    _ => plan matches Err(PropertiesErr::PermissionDenied),
                },
            },
        },
{
    let task_id = match parse_uuid(access.entity_id.as_str()) {
        Some(id) => id,
        None => {
            return Err(malformed_dependencies());
        },
    };
    let dependency_ids = match parse_dependencies(task_id, value) {
        Ok(ids) => ids,
        Err(error) => {
            return Err(error);
        },
    };
    match &access.auth {
        EntityAccessAuth::Internal => Ok(DependencyWritePlan { task_id, dependency_ids, viewer: None }),
        EntityAccessAuth::Authenticated(user) => Ok(
            DependencyWritePlan { task_id, dependency_ids, viewer: Some(user.clone()) },
        ),
        _ => Err(PropertiesErr::PermissionDenied),
    }
}

/// The answer to a Depends On write from the replacement's outcome. A gated
/// task whose new predecessors are not all complete is refused as a blocked
/// transition.
pub fn dependency_write_result<S>(outcome: TaskDependencyMutationOutcome<S>) -> (result: Result<
    S,
    PropertiesErr,
>)
    ensures
        match outcome@ {
            DependencyOutcomeView::Updated(s) => result == Ok::<S, PropertiesErr>(s),
            DependencyOutcomeView::Unavailable => result matches Err(
                PropertiesErr::TaskDependenciesUnavailable,
            ),
            DependencyOutcomeView::Cycle => result matches Err(PropertiesErr::TaskDependencyCycle),
            DependencyOutcomeView::Blocked => result matches Err(PropertiesErr::TaskTransitionBlocked),
        },
{
    match outcome {
        TaskDependencyMutationOutcome::Updated(snapshot) => Ok(snapshot),
        TaskDependencyMutationOutcome::Unavailable => Err(PropertiesErr::TaskDependenciesUnavailable),
        TaskDependencyMutationOutcome::Cycle => Err(PropertiesErr::TaskDependencyCycle),
        TaskDependencyMutationOutcome::Blocked => Err(PropertiesErr::TaskTransitionBlocked),
    }
}

/// What the project-scoped readiness read may do.
#[derive(Debug)]
pub enum ReadinessScope {
    /// Nothing was requested; nothing is read.
    Empty,
    /// Read within this project and team.
    Read { project_id: String, team_id: u128 },
}

/// Checks the two receipts of a project-scoped readiness read: a Project
/// receipt and a Team receipt of the same human, a team id that is a UUID, and
/// at most 200 requested tasks. An empty request proves the scopes and reads nothing.
pub fn check_readiness_scope(project: &AccessReceipt, team: &AccessReceipt, requested: usize) -> (scope:
    Result<ReadinessScope, PropertiesErr>)
    ensures
        match receipt_user(*project) {
            None => scope matches Err(PropertiesErr::PermissionDenied),
            Some(actor) => if project.entity_type != AccessEntityType::Project || team.entity_type
                != AccessEntityType::Team || receipt_user(*team) != Some(actor) {
                scope matches Err(PropertiesErr::PermissionDenied)
            } else {
                match uuid_parse_str(team.entity_id@) {
                    None => scope matches Err(PropertiesErr::PermissionDenied),
                    Some(team_id) => if requested > TASK_BATCH_MAX {
                        scope matches Err(PropertiesErr::Validation(m)) && m@
                            == "At most 200 task IDs may be requested"@
                    } else if requested == 0 {
                        scope matches Ok(ReadinessScope::Empty)
                    } else {
                        scope matches Ok(ReadinessScope::Read { project_id, team_id: t }) && t
                            == team_id && project_id@ == project.entity_id@
                    },
                }
            },
        },
{
    let actor = match project.authenticated_user() {
        Some(user) => user,
        None => {
            return Err(PropertiesErr::PermissionDenied);
        },
    };
    if project.entity_type != AccessEntityType::Project || team.entity_type != AccessEntityType::Team {
        return Err(PropertiesErr::PermissionDenied);
    }
    let same = match team.authenticated_user() {
        Some(user) => *user == *actor,
        None => false,
    };
    if !same {
        return Err(PropertiesErr::PermissionDenied);
    }
    let team_id = match parse_uuid(team.entity_id.as_str()) {
        Some(id) => id,
        None => {
            return Err(PropertiesErr::PermissionDenied);
        },
    };
    if requested > TASK_BATCH_MAX {
        return Err(PropertiesErr::Validation("At most 200 task IDs may be requested".to_owned()));
    }
    if requested == 0 {
        return Ok(ReadinessScope::Empty);
    }
    Ok(ReadinessScope::Read { project_id: project.entity_id.clone(), team_id })
}

} // verus!
