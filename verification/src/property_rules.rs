//! Rules of the property service: which properties apply to which entities,
//! which tags a caller may see, and the validation of the Decision properties.

use vstd::prelude::*;

use crate::access::EntityAccessAuth;
use crate::decision_state::{decision_of_id, DecisionStateOption};
use crate::property_value::{EntityType, PropertyValue, SetPropertyValue, ValueView};
use crate::reauthentication::{utf8_len, utf8_len_exceeds};
use crate::status_transition::opt_seq;

verus! {

/// The ids of the system properties these rules single out, as configured by
/// the system properties catalogue.
#[derive(Debug, Clone, Copy, PartialEq, Eq, Structural)]
pub struct SystemPropertyKeys {
    pub parent_task: u128,
    pub subtasks: u128,
    pub depends_on: u128,
    pub stage: u128,
    pub company_owner: u128,
    pub revenue: u128,
    pub decision_state: u128,
    pub decided_by: u128,
    pub decided_at: u128,
    pub decision_sources: u128,
}

/// Subtypes of a Document.
#[derive(Debug, Clone, Copy, PartialEq, Eq, Structural)]
pub enum DocumentSubType {
    Task,
    Decision,
    /// Any other subtype.
    Other,
}

/// Whether a property is one of the four Decision properties.
pub open spec fn decision_property(keys: SystemPropertyKeys, property_id: u128) -> bool {
    property_id == keys.decision_state || property_id == keys.decided_by || property_id
        == keys.decided_at || property_id == keys.decision_sources
}

/// Whether a property is one of the four Decision properties.
pub fn is_decision_property(keys: &SystemPropertyKeys, property_id: u128) -> (decision: bool)
    ensures
        decision == decision_property(*keys, property_id),
{
    property_id == keys.decision_state || property_id == keys.decided_by || property_id
        == keys.decided_at || property_id == keys.decision_sources
}

/// Whether a property can be attached to an entity type, knowing the type
/// alone: never a Decision property (that needs the Document subtype), the
/// task hierarchy and dependency properties only on tasks, the CRM company
/// properties only on companies, anything else everywhere.
pub open spec fn applicable_to(keys: SystemPropertyKeys, property_id: u128, entity_type: EntityType) -> bool {
    if decision_property(keys, property_id) {
        false
    } else if property_id == keys.parent_task || property_id == keys.subtasks || property_id
        == keys.depends_on {
        entity_type == EntityType::Task
    } else if property_id == keys.stage || property_id == keys.company_owner || property_id
        == keys.revenue {
        entity_type == EntityType::Company
    } else {
        true
    }
}

/// Whether a property can be attached to an entity type.
pub fn is_property_applicable_to(keys: &SystemPropertyKeys, property_id: u128, entity_type: EntityType) -> (applicable: bool)
    ensures
        applicable == applicable_to(*keys, property_id, entity_type),
{
    if is_decision_property(keys, property_id) {
        return false;
    }
    if property_id == keys.parent_task || property_id == keys.subtasks || property_id
        == keys.depends_on {
        return entity_type == EntityType::Task;
    }
    if property_id == keys.stage || property_id == keys.company_owner || property_id
        == keys.revenue {
        return entity_type == EntityType::Company;
    }
    true
}

/// Whether a subject is a Decision document.
pub open spec fn decision_subject(entity_type: EntityType, sub_type: Option<DocumentSubType>) -> bool {
    entity_type == EntityType::Document && sub_type == Some(DocumentSubType::Decision)
}

/// Whether a property can be attached to a subject once its Document subtype
/// is known: a Decision property exactly to Decision documents.
pub fn is_property_applicable_to_subject(
    keys: &SystemPropertyKeys,
    property_id: u128,
    entity_type: EntityType,
    sub_type: Option<DocumentSubType>,
) -> (applicable: bool)
    ensures
        applicable == if decision_property(*keys, property_id) {
            decision_subject(entity_type, sub_type)
        } else {
            applicable_to(*keys, property_id, entity_type)
        },
{
    if is_decision_property(keys, property_id) {
        return entity_type == EntityType::Document && sub_type == Some(DocumentSubType::Decision);
    }
    is_property_applicable_to(keys, property_id, entity_type)
}

/// Whether a property row is an undeletable built-in of a subject: a Decision
/// property exactly on Decision documents, any other property when the
/// catalogue requires it on the entity type (`required_for_entity`).
pub fn is_property_required_for_subject(
    keys: &SystemPropertyKeys,
    property_id: u128,
    entity_type: EntityType,
    sub_type: Option<DocumentSubType>,
    required_for_entity: bool,
) -> (required: bool)
    ensures
        required == if decision_property(*keys, property_id) {
            decision_subject(entity_type, sub_type)
        } else {
            required_for_entity
        },
{
    if is_decision_property(keys, property_id) {
        return entity_type == EntityType::Document && sub_type == Some(DocumentSubType::Decision);
    }
    required_for_entity
}

/// Who owns a property definition.
#[derive(Debug)]
pub enum PropertyOwner {
    /// A user's personal definition.
    User { user_id: String },
    /// A team's shared definition.
    Team,
    /// A built-in definition.
    System,
}

/// Whether a tag definition with this owner is visible to the caller: a
/// personal tag set only to its owner (and internal callers), team and system
/// tags to everyone.
pub open spec fn tag_visible(owner: PropertyOwner, auth: EntityAccessAuth) -> bool {
    match owner {
        PropertyOwner::User { user_id } => match auth {
            EntityAccessAuth::Authenticated(caller) => user_id@ == caller@,
            EntityAccessAuth::Bot(_) => false,
            EntityAccessAuth::Unauthenticated => false,
            EntityAccessAuth::Internal => true,
        },
        PropertyOwner::Team | PropertyOwner::System => true,
    }
}

/// Whether a tag definition with this owner is visible to the caller.
pub fn tag_visible_to(owner: &PropertyOwner, auth: &EntityAccessAuth) -> (visible: bool)
    ensures
        visible == tag_visible(*owner, *auth),
{
    match owner {
        PropertyOwner::User { user_id } => match auth {
            EntityAccessAuth::Authenticated(caller) => *user_id == *caller,
            EntityAccessAuth::Bot(_) => false,
            EntityAccessAuth::Unauthenticated => false,
            EntityAccessAuth::Internal => true,
        },
        PropertyOwner::Team | PropertyOwner::System => true,
    }
}

/// A property with what the visibility rule reads of its definition.
#[derive(Debug)]
pub struct DefinedProperty<T> {
    pub is_tag: bool,
    pub owner: PropertyOwner,
    pub property: T,
}

/// Whether the caller may see a property: any property that is not a tag,
/// and tags whose owner is visible to the caller.
pub open spec fn property_visible<T>(p: DefinedProperty<T>, auth: EntityAccessAuth) -> bool {
    !p.is_tag || tag_visible(p.owner, auth)
}

/// Drops the tag properties the caller may not see, keeping the others in order.
pub fn retain_caller_visible_tags<T>(properties: Vec<DefinedProperty<T>>, auth: &EntityAccessAuth) -> (kept:
    Vec<DefinedProperty<T>>)
    ensures
        kept@ == properties@.filter(|p: DefinedProperty<T>| property_visible(p, *auth)),
{
    let ghost all = properties@;
    let n = properties.len();
    let mut rest = properties;
    let mut kept: Vec<DefinedProperty<T>> = Vec::new();
    let mut i: usize = 0;
    while rest.len() > 0
        invariant
            0 <= i <= all.len(),
            all.len() == n,
            rest@ == all.skip(i as int),
            kept@ == all.take(i as int).filter(|p: DefinedProperty<T>| property_visible(p, *auth)),
        decreases rest.len(),
    {
        let property = rest.remove(0);
        proof {
            assert(property == all[i as int]);
            assert(rest@ =~= all.skip(i + 1));
            assert(all.take(i + 1).drop_last() =~= all.take(i as int));
            reveal(Seq::filter);
        }
        if !property.is_tag || tag_visible_to(&property.owner, auth) {
            kept.push(property);
        }
        i = i + 1;
    }
    assert(all.take(i as int) =~= all);
    kept
}

/// The option ids a stored value selects; none for any other value.
pub fn extract_option_ids_from_property_value(value: &Option<PropertyValue>) -> (ids: Vec<u128>)
    ensures
        match value {
            Some(PropertyValue::SelectOption(selected)) => ids@ == selected@,
            _ => ids@.len() == 0,
        },
{
    match value {
        Some(PropertyValue::SelectOption(selected)) => selected.clone(),
        _ => Vec::new(),
    }
}

/// Most links a Decision Source Links value may hold.
pub const MAX_DECISION_SOURCE_LINKS: usize = 20;

/// Most bytes of one Decision Source Links URL.
pub const MAX_DECISION_SOURCE_URL_BYTES: usize = 2048;

/// What `url::Url::parse` makes of a text: the scheme and the host of the URL
/// it parses, or nothing when the text is not an absolute URL.
pub uninterp spec fn parsed_url(text: Seq<char>) -> Option<(Seq<char>, Option<Seq<char>>)>;

/// Calls `url::Url::parse`; the contract claims only that the scheme and host
/// returned are those of the parsed URL, as named by `parsed_url`.
#[verifier::external_body]
fn parse_url(text: &str) -> (parts: Option<(String, Option<String>)>)
    ensures
        match parts {
            Some((scheme, host)) => parsed_url(text@) == Some((scheme@, opt_seq(host))),
            None => parsed_url(text@) is None,
        },
{
    match url::Url::parse(text) {
        Ok(url) => Some((url.scheme().to_owned(), url.host_str().map(|host| host.to_owned()))),
        Err(_) => None,
    }
}

/// Whether a text parses as an HTTP(S) URL with a host.
pub open spec fn web_url(text: Seq<char>) -> bool {
    match parsed_url(text) {
        Some((scheme, host)) => (scheme == "http"@ || scheme == "https"@) && host is Some,
        None => false,
    }
}

/// The error of one Decision Source Links URL, if any.
pub open spec fn source_link_error(text: Seq<char>) -> Option<Seq<char>> {
    if text.len() == 0 || utf8_len(text) > MAX_DECISION_SOURCE_URL_BYTES {
        Some("Decision Source Links URLs must be between 1 and 2048 bytes"@)
    } else if !web_url(text) {
        Some("Decision Source Links must contain valid HTTP(S) URLs"@)
    } else {
        None
    }
}

/// The first error among Decision Source Links URLs, in order.
pub open spec fn first_link_error(urls: Seq<Seq<char>>) -> Option<Seq<char>>
    decreases urls.len(),
{
    if urls.len() == 0 {
        None
    } else {
        match first_link_error(urls.drop_last()) {
            Some(e) => Some(e),
            None => source_link_error(urls.last()),
        }
    }
}

/// The error a Decision Source Links write gets, if any: at most 20 links,
/// each 1 to 2048 bytes and an HTTP(S) URL with a host. Other properties and
/// other values are not checked here.
pub open spec fn source_links_error(keys: SystemPropertyKeys, property_id: u128, value: Option<SetPropertyValue>) -> Option<
    Seq<char>,
> {
    if property_id != keys.decision_sources {
        None
    } else {
        match value {
            Some(SetPropertyValue::MultiLink { urls }) => if urls@.len() > MAX_DECISION_SOURCE_LINKS {
                Some("Decision Source Links supports at most 20 URLs"@)
            } else {
                first_link_error(urls@.map_values(|u: String| u@))
            },
            _ => None,
        }
    }
}

fn source_link_check(text: &String) -> (error: Option<&'static str>)
    ensures
        match error {
            Some(e) => source_link_error(text@) == Some(e@),
            None => source_link_error(text@) is None,
        },
{
    if text.unicode_len() == 0 || utf8_len_exceeds(text.as_str(), MAX_DECISION_SOURCE_URL_BYTES) {
        return Some("Decision Source Links URLs must be between 1 and 2048 bytes");
    }
    let valid = match parse_url(text.as_str()) {
        Some((scheme, host)) => {
            let web = scheme == "http".to_owned() || scheme == "https".to_owned();
            web && host.is_some()
        },
        None => false,
    };
    if !valid {
        return Some("Decision Source Links must contain valid HTTP(S) URLs");
    }
    None
}

proof fn lemma_first_link_error_prefix(urls: Seq<Seq<char>>, k: int, e: Seq<char>)
    requires
        0 <= k <= urls.len(),
        first_link_error(urls.take(k)) == Some(e),
    ensures
        first_link_error(urls) == Some(e),
    decreases urls.len() - k,
{
    if k < urls.len() {
        assert(urls.take(k + 1).drop_last() =~= urls.take(k));
        lemma_first_link_error_prefix(urls, k + 1, e);
    } else {
        assert(urls.take(k) =~= urls);
    }
}

/// Validates the externally navigable URLs stored in Decision Source Links.
pub fn validate_decision_source_links(
    keys: &SystemPropertyKeys,
    property_id: u128,
    value: &Option<SetPropertyValue>,
) -> (result: Result<(), &'static str>)
    ensures
        match source_links_error(*keys, property_id, *value) {
            Some(e) => result matches Err(m) && m@ == e,
            None => result is Ok,
        },
{
    if property_id != keys.decision_sources {
        return Ok(());
    }
    let urls = match value {
        Some(SetPropertyValue::MultiLink { urls }) => urls,
        _ => {
            return Ok(());
        },
    };
    if urls.len() > MAX_DECISION_SOURCE_LINKS {
        return Err("Decision Source Links supports at most 20 URLs");
    }
    let ghost views = urls@.map_values(|u: String| u@);
    assert(source_links_error(*keys, property_id, *value) == first_link_error(views));
    let mut i: usize = 0;
    assert(views.take(0) =~= Seq::<Seq<char>>::empty());
    while i < urls.len()
        invariant
            0 <= i <= urls.len(),
            views == urls@.map_values(|u: String| u@),
            source_links_error(*keys, property_id, *value) == first_link_error(views),
            first_link_error(views.take(i as int)) is None,
        decreases urls.len() - i,
    {
        assert(views.take(i + 1).drop_last() =~= views.take(i as int));
        assert(views.take(i + 1).last() == urls@[i as int]@);
        match source_link_check(&urls[i]) {
            Some(error) => {
                proof {
                    lemma_first_link_error_prefix(views, i + 1, error@);
                }
                return Err(error);
            },
            None => {},
        }
        i = i + 1;
    }
    assert(views.take(i as int) =~= views);
    Ok(())
}

/// The error a Decided By write gets, if any: a reference must be to a user
/// entity, without a message, whose id is a well-formed Macro user id
/// (`valid_user_id`, as the user id parser answers for the referenced id).
pub open spec fn decided_by_error(
    keys: SystemPropertyKeys,
    property_id: u128,
    value: Option<SetPropertyValue>,
    valid_user_id: bool,
) -> Option<Seq<char>> {
    if property_id != keys.decided_by {
        None
    } else {
        match value {
            Some(SetPropertyValue::EntityReference { reference }) => if reference.entity_type
                != EntityType::User {
                Some("Decision Decided By must reference a user"@)
            } else if reference.specific_message_id is Some || !valid_user_id {
                Some("Decision Decided By must contain a valid Macro user ID"@)
            } else {
                None
            },
            _ => None,
        }
    }
}

/// Enforces the single-user contract of Decided By.
pub fn validate_decision_decided_by(
    keys: &SystemPropertyKeys,
    property_id: u128,
    value: &Option<SetPropertyValue>,
    valid_user_id: bool,
) -> (result: Result<(), &'static str>)
    ensures
        match decided_by_error(*keys, property_id, *value, valid_user_id) {
            Some(e) => result matches Err(m) && m@ == e,
            None => result is Ok,
        },
{
    if property_id != keys.decided_by {
        return Ok(());
    }
    match value {
        Some(SetPropertyValue::EntityReference { reference }) => {
            if reference.entity_type != EntityType::User {
                return Err("Decision Decided By must reference a user");
            }
            if reference.specific_message_id.is_some() || !valid_user_id {
                return Err("Decision Decided By must contain a valid Macro user ID");
            }
            Ok(())
        },
        _ => Ok(()),
    }
}

/// The error a Decision State write gets, if any: the value must select one
/// of the four decision states; clearing it is refused.
pub open spec fn decision_state_error(keys: SystemPropertyKeys, property_id: u128, value: Option<SetPropertyValue>) -> Option<
    Seq<char>,
> {
    if property_id != keys.decision_state {
        None
    } else {
        match value {
            Some(SetPropertyValue::SelectOption { option_id }) if decision_of_id(option_id) is Some =>
                None,
            _ => Some("Decision State must be one of Proposed, Accepted, Rejected, or Superseded"@),
        }
    }
}

/// Keeps the required Decision State non-null and inside its four-state vocabulary.
pub fn validate_decision_state(keys: &SystemPropertyKeys, property_id: u128, value: &Option<SetPropertyValue>) -> (result:
    Result<(), &'static str>)
    ensures
        match decision_state_error(*keys, property_id, *value) {
            Some(e) => result matches Err(m) && m@ == e,
            None => result is Ok,
        },
{
    if property_id != keys.decision_state {
        return Ok(());
    }
    match value {
        Some(SetPropertyValue::SelectOption { option_id }) => {
            if DecisionStateOption::from_uuid(*option_id).is_some() {
                return Ok(());
            }
        },
        _ => {},
    }
    Err("Decision State must be one of Proposed, Accepted, Rejected, or Superseded")
}

} // verus!
