//! Task Status options, readiness, and the guard state read before a transition.

use vstd::prelude::*;

use crate::ids::{parse_uuid, uuid_parse_str};
use crate::json::Json;
use crate::property_value::{
    decode_value, value_from_json, EntityReference, EntityType, PropertyValue, RefView, ValueView,
};

verus! {

/// Options of the Status system property.
#[derive(Debug, Clone, Copy, PartialEq, Eq, Structural)]
pub enum StatusOption {
    NotStarted,
    InProgress,
    InReview,
    Completed,
    Canceled,
}

/// The stored option ids of the Status options, as configured by the system
/// properties catalogue.
#[derive(Debug, Clone, Copy, PartialEq, Eq, Structural)]
pub struct StatusVocabulary {
    pub not_started: u128,
    pub in_progress: u128,
    pub in_review: u128,
    pub completed: u128,
    pub canceled: u128,
}

/// The Status option whose id is `id`, if any.
pub open spec fn status_of_id(vocabulary: StatusVocabulary, id: u128) -> Option<StatusOption> {
    if id == vocabulary.not_started {
        Some(StatusOption::NotStarted)
    } else if id == vocabulary.in_progress {
        Some(StatusOption::InProgress)
    } else if id == vocabulary.in_review {
        Some(StatusOption::InReview)
    } else if id == vocabulary.completed {
        Some(StatusOption::Completed)
    } else if id == vocabulary.canceled {
        Some(StatusOption::Canceled)
    } else {
        None
    }
}

/// The stored id of a Status option.
pub open spec fn status_id(vocabulary: StatusVocabulary, option: StatusOption) -> u128 {
    match option {
        StatusOption::NotStarted => vocabulary.not_started,
        StatusOption::InProgress => vocabulary.in_progress,
        StatusOption::InReview => vocabulary.in_review,
        StatusOption::Completed => vocabulary.completed,
        StatusOption::Canceled => vocabulary.canceled,
    }
}

/// Whether the vocabulary gives each Status option its own id.
pub open spec fn distinct_ids(vocabulary: StatusVocabulary) -> bool {
    &&& vocabulary.not_started != vocabulary.in_progress
    &&& vocabulary.not_started != vocabulary.in_review
    &&& vocabulary.not_started != vocabulary.completed
    &&& vocabulary.not_started != vocabulary.canceled
    &&& vocabulary.in_progress != vocabulary.in_review
    &&& vocabulary.in_progress != vocabulary.completed
    &&& vocabulary.in_progress != vocabulary.canceled
    &&& vocabulary.in_review != vocabulary.completed
    &&& vocabulary.in_review != vocabulary.canceled
    &&& vocabulary.completed != vocabulary.canceled
}

/// With a distinct id per option, the id stored for a Status reads back as
/// that Status, and two different Statuses are never stored under one id.
pub proof fn lemma_status_ids_round_trip(vocabulary: StatusVocabulary, option: StatusOption, other: StatusOption)
    requires
        distinct_ids(vocabulary),
    ensures
        status_of_id(vocabulary, status_id(vocabulary, option)) == Some(option),
        status_id(vocabulary, option) == status_id(vocabulary, other) ==> option == other,
{
}

impl StatusVocabulary {
    /// The Status option with the given id.
    pub fn from_uuid(&self, id: u128) -> (option: Option<StatusOption>)
        ensures
            option == status_of_id(*self, id),
    {
        if id == self.not_started {
            Some(StatusOption::NotStarted)
        } else if id == self.in_progress {
            Some(StatusOption::InProgress)
        } else if id == self.in_review {
            Some(StatusOption::InReview)
        } else if id == self.completed {
            Some(StatusOption::Completed)
        } else if id == self.canceled {
            Some(StatusOption::Canceled)
        } else {
            None
        }
    }

    /// The stored id of a Status option.
    pub fn uuid(&self, option: StatusOption) -> (id: u128)
        ensures
            id == status_id(*self, option),
            distinct_ids(*self) ==> status_of_id(*self, id) == Some(option),
    {
        proof {
            if distinct_ids(*self) {
                lemma_status_ids_round_trip(*self, option, option);
            }
        }
        match option {
            StatusOption::NotStarted => self.not_started,
            StatusOption::InProgress => self.in_progress,
            StatusOption::InReview => self.in_review,
            StatusOption::Completed => self.completed,
            StatusOption::Canceled => self.canceled,
        }
    }
}

/// The Status a stored value holds: exactly one selected option that the
/// vocabulary knows. Anything else (absent, malformed, several options) is none.
pub open spec fn status_of_value(vocabulary: StatusVocabulary, value: Option<Json>) -> Option<
    StatusOption,
> {
    match value {
        Some(json) => match decode_value(json) {
            Some(ValueView::SelectOption(ids)) => if ids.len() == 1 {
                status_of_id(vocabulary, ids[0])
            } else {
                None
            },
            _ => None,
        },
        None => None,
    }
}

/// Whether a stored value selects exactly the option `option_id`.
pub open spec fn selects_only(value: Option<Json>, option_id: u128) -> bool {
    match value {
        Some(json) => decode_value(json) == Some(ValueView::SelectOption(seq![option_id])),
        None => false,
    }
}

/// Reads the Status of a stored value.
pub fn status_from_json(vocabulary: &StatusVocabulary, value: Option<&Json>) -> (status: Option<
    StatusOption,
>)
    ensures
        status == status_of_value(*vocabulary, crate::property_value::opt_json(value)),
{
    match value {
        Some(json) => match value_from_json(json) {
            Some(PropertyValue::SelectOption(ids)) => if ids.len() == 1 {
                vocabulary.from_uuid(ids[0])
            } else {
                None
            },
            _ => None,
        },
        None => None,
    }
}

/// Whether a stored value selects exactly the option `option_id`.
pub fn json_selects_only(value: Option<&Json>, option_id: u128) -> (selects: bool)
    ensures
        selects == selects_only(crate::property_value::opt_json(value), option_id),
{
    match value {
        Some(json) => match value_from_json(json) {
            Some(PropertyValue::SelectOption(ids)) => {
                let only = ids.len() == 1 && ids[0] == option_id;
                assert(only ==> ids@ =~= seq![option_id]);
                assert(ids@ == seq![option_id] ==> ids@.len() == 1 && ids@[0] == option_id);
                only
            },
            _ => false,
        },
        None => false,
    }
}

/// Statuses that may only be entered when every dependency is completed.
pub open spec fn is_gated(status: Option<StatusOption>) -> bool {
    status == Some(StatusOption::InProgress) || status == Some(StatusOption::InReview) || status
        == Some(StatusOption::Completed)
}

/// Whether entering (or holding) `status` requires ready dependencies.
pub fn requires_readiness(status: Option<StatusOption>) -> (gated: bool)
    ensures
        gated == is_gated(status),
{
    match status {
        Some(StatusOption::InProgress) | Some(StatusOption::InReview) | Some(
            StatusOption::Completed,
        ) => true,
        _ => false,
    }
}

/// Readiness of a task computed from its direct dependencies or subtasks.
#[derive(Debug, Clone, Copy, PartialEq, Eq, Structural)]
pub enum TaskReadiness {
    Ready,
    Blocked,
}

/// The id of a task reference from `source`: a Task reference without a
/// message whose id is a UUID other than the source itself.
pub open spec fn reference_target(reference: RefView, source: u128) -> Option<u128> {
    if reference.entity_type != EntityType::Task || reference.specific_message_id is Some {
        None
    } else {
        match uuid_parse_str(reference.entity_id) {
            Some(id) => if id == source {
                None
            } else {
                Some(id)
            },
            None => None,
        }
    }
}

/// Parses one task reference from `source`.
pub fn parse_reference(reference: &EntityReference, source: u128) -> (id: Result<u128, ()>)
    ensures
        match id {
            Ok(id) => reference_target(reference@, source) == Some(id),
            Err(()) => reference_target(reference@, source) is None,
        },
{
    if reference.entity_type != EntityType::Task || reference.specific_message_id.is_some() {
        return Err(());
    }
    match parse_uuid(reference.entity_id.as_str()) {
        Some(id) => if id == source {
            Err(())
        } else {
            Ok(id)
        },
        None => Err(()),
    }
}

/// The targets of a reference list, all of which must be task references.
pub open spec fn reference_targets(references: Seq<RefView>, source: u128) -> Option<Seq<u128>>
    decreases references.len(),
{
    if references.len() == 0 {
        Some(Seq::empty())
    } else {
        match (
            reference_targets(references.drop_last(), source),
            reference_target(references.last(), source),
        ) {
            (Some(prefix), Some(id)) => Some(prefix.push(id)),
            _ => None,
        }
    }
}

proof fn lemma_reference_targets_prefix_fails(references: Seq<RefView>, source: u128, k: int)
    requires
        0 <= k <= references.len(),
        reference_targets(references.take(k), source) is None,
    ensures
        reference_targets(references, source) is None,
    decreases references.len() - k,
{
    if k < references.len() {
        assert(references.take(k + 1).drop_last() =~= references.take(k));
        lemma_reference_targets_prefix_fails(references, source, k + 1);
    } else {
        assert(references.take(k) =~= references);
    }
}

/// The targets of a list of task references, in order.
pub fn references_to_targets(references: &Vec<EntityReference>, source: u128) -> (ids: Result<
    Vec<u128>,
    (),
>)
    ensures
        match ids {
            Ok(ids) => reference_targets(references@.map_values(|r: EntityReference| r@), source)
                == Some(ids@),
            Err(()) => reference_targets(references@.map_values(|r: EntityReference| r@), source)
                is None,
        },
{
    let ghost views = references@.map_values(|r: EntityReference| r@);
    let mut ids: Vec<u128> = Vec::new();
    let mut i: usize = 0;
    assert(views.take(0) =~= Seq::<RefView>::empty());
    while i < references.len()
        invariant
            0 <= i <= references.len(),
            views == references@.map_values(|r: EntityReference| r@),
            reference_targets(views.take(i as int), source) == Some(ids@),
        decreases references.len() - i,
    {
        assert(views.take(i + 1).drop_last() =~= views.take(i as int));
        assert(views.take(i + 1).last() == references@[i as int]@);
        match parse_reference(&references[i], source) {
            Ok(id) => ids.push(id),
            Err(()) => {
                proof {
                    lemma_reference_targets_prefix_fails(views, source, i + 1);
                }
                return Err(());
            },
        }
        i = i + 1;
    }
    assert(views.take(i as int) =~= views);
    Ok(ids)
}

/// The direct dependency ids held by a stored Depends On value: none when
/// absent, otherwise every reference must be a task reference.
pub open spec fn stored_dependencies(value: Option<Json>, source: u128) -> Option<Seq<u128>> {
    match value {
        None => Some(Seq::empty()),
        Some(json) => match decode_value(json) {
            Some(ValueView::EntityRef(refs)) => reference_targets(refs, source),
            _ => None,
        },
    }
}

/// Parses a stored Depends On value.
pub fn parse_stored_dependencies(value: Option<&Json>, source: u128) -> (ids: Result<
    Vec<u128>,
    (),
>)
    ensures
        match ids {
            Ok(ids) => stored_dependencies(crate::property_value::opt_json(value), source) == Some(
                ids@,
            ),
            Err(()) => stored_dependencies(crate::property_value::opt_json(value), source) is None,
        },
{
    match value {
        None => Ok(Vec::new()),
        Some(json) => match value_from_json(json) {
            Some(PropertyValue::EntityRef(refs)) => references_to_targets(&refs, source),
            _ => Err(()),
        },
    }
}

/// What a status transition reads of a live task before deciding.
#[derive(Debug)]
pub struct TaskGuardState {
    pub project_id: Option<String>,
    pub status: Option<StatusOption>,
    pub dependencies: Result<Vec<u128>, ()>,
}

/// Builds the guard state of a live task from its stored Status and Depends On values.
pub fn task_guard_state(
    vocabulary: &StatusVocabulary,
    task_id: u128,
    project_id: Option<String>,
    status_values: Option<&Json>,
    depends_values: Option<&Json>,
) -> (state: TaskGuardState)
    ensures
        state.project_id == project_id,
        state.status == status_of_value(*vocabulary, crate::property_value::opt_json(status_values)),
        match state.dependencies {
            Ok(ids) => stored_dependencies(crate::property_value::opt_json(depends_values), task_id)
                == Some(ids@),
            Err(()) => stored_dependencies(crate::property_value::opt_json(depends_values), task_id)
                is None,
        },
{
    TaskGuardState {
        project_id,
        status: status_from_json(vocabulary, status_values),
        dependencies: parse_stored_dependencies(depends_values, task_id),
    }
}

} // verus!
