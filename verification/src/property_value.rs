//! Stored property values: entity references, select options, and their JSON form.

use vstd::prelude::*;

use crate::ids::{parse_uuid, text_equals, uuid_parse_str};
use crate::json::{get_member, member, Json};

verus! {

/// Kinds of entity a property value can reference.
#[derive(Clone, Copy, Debug, PartialEq, Eq, Structural)]
pub enum EntityType {
    Document,
    Task,
    Project,
    Chat,
    Thread,
    Channel,
    Call,
    User,
    Company,
}

/// The entity type named by a stored wire tag.
pub open spec fn entity_type_of_tag(tag: Seq<char>) -> Option<EntityType> {
    if tag == "DOCUMENT"@ {
        Some(EntityType::Document)
    } else if tag == "TASK"@ {
        Some(EntityType::Task)
    } else if tag == "PROJECT"@ {
        Some(EntityType::Project)
    } else if tag == "CHAT"@ {
        Some(EntityType::Chat)
    } else if tag == "THREAD"@ {
        Some(EntityType::Thread)
    } else if tag == "CHANNEL"@ {
        Some(EntityType::Channel)
    } else if tag == "CALL"@ {
        Some(EntityType::Call)
    } else if tag == "USER"@ {
        Some(EntityType::User)
    } else if tag == "COMPANY"@ {
        Some(EntityType::Company)
    } else {
        None
    }
}

/// Decodes an entity type wire tag.
pub fn entity_type_from_tag(tag: &str) -> (found: Option<EntityType>)
    ensures
        found == entity_type_of_tag(tag@),
{
    if text_equals(tag, "DOCUMENT") {
        Some(EntityType::Document)
    } else if text_equals(tag, "TASK") {
        Some(EntityType::Task)
    } else if text_equals(tag, "PROJECT") {
        Some(EntityType::Project)
    } else if text_equals(tag, "CHAT") {
        Some(EntityType::Chat)
    } else if text_equals(tag, "THREAD") {
        Some(EntityType::Thread)
    } else if text_equals(tag, "CHANNEL") {
        Some(EntityType::Channel)
    } else if text_equals(tag, "CALL") {
        Some(EntityType::Call)
    } else if text_equals(tag, "USER") {
        Some(EntityType::User)
    } else if text_equals(tag, "COMPANY") {
        Some(EntityType::Company)
    } else {
        None
    }
}

/// A reference from a property value to an entity, optionally to one message in it.
#[derive(Debug)]
pub struct EntityReference {
    pub entity_type: EntityType,
    pub entity_id: String,
    pub specific_message_id: Option<u128>,
}

/// Mathematical form of an entity reference.
pub struct RefView {
    pub entity_type: EntityType,
    pub entity_id: Seq<char>,
    pub specific_message_id: Option<u128>,
}

impl View for EntityReference {
    type V = RefView;

    open spec fn view(&self) -> RefView {
        RefView {
            entity_type: self.entity_type,
            entity_id: self.entity_id@,
            specific_message_id: self.specific_message_id,
        }
    }
}

impl EntityReference {
    /// A reference to a whole entity.
    pub fn new(entity_id: String, entity_type: EntityType) -> (reference: EntityReference)
        ensures
            reference@ == (RefView { entity_type, entity_id: entity_id@, specific_message_id: None }),
    {
        EntityReference { entity_type, entity_id, specific_message_id: None }
    }

    /// A reference to one message of an entity.
    pub fn with_message_id(entity_id: String, entity_type: EntityType, message_id: u128) -> (reference:
        EntityReference)
        ensures
            reference@ == (RefView {
                entity_type,
                entity_id: entity_id@,
                specific_message_id: Some(message_id),
            }),
    {
        EntityReference { entity_type, entity_id, specific_message_id: Some(message_id) }
    }

    /// A copy of this reference.
    pub fn duplicate(&self) -> (copy: EntityReference)
        ensures
            copy@ == self@,
    {
        EntityReference {
            entity_type: self.entity_type,
            entity_id: self.entity_id.clone(),
            specific_message_id: self.specific_message_id,
        }
    }
}

/// A decoded property value, as far as the task logic reads it.
#[derive(Debug)]
pub enum PropertyValue {
    /// `{"type": "EntityReference", "value": [references]}`
    EntityRef(Vec<EntityReference>),
    /// `{"type": "SelectOption", "value": [option ids]}`
    SelectOption(Vec<u128>),
    /// Any other tagged value (text, number, date, boolean, link, ...).
    Other,
}

/// Mathematical form of a decoded property value.
pub enum ValueView {
    EntityRef(Seq<RefView>),
    SelectOption(Seq<u128>),
    Other,
}

impl View for PropertyValue {
    type V = ValueView;

    open spec fn view(&self) -> ValueView {
        match self {
            PropertyValue::EntityRef(refs) => ValueView::EntityRef(
                refs@.map_values(|r: EntityReference| r@),
            ),
            PropertyValue::SelectOption(ids) => ValueView::SelectOption(ids@),
            PropertyValue::Other => ValueView::Other,
        }
    }
}

/// The optional message id of a stored reference: absent or null means none,
/// a UUID text means that message, anything else is malformed.
pub open spec fn decode_message_id(value: Option<Json>) -> Option<Option<u128>> {
    match value {
        None => Some(None),
        Some(Json::Null) => Some(None),
        Some(Json::Text(text)) => match uuid_parse_str(text@) {
            Some(id) => Some(Some(id)),
            None => None,
        },
        _ => None,
    }
}

/// A stored entity reference object.
pub open spec fn decode_reference(value: Json) -> Option<RefView> {
    match value {
        Json::Object(entries) => match (
            member(entries@, "entity_type"@),
            member(entries@, "entity_id"@),
            decode_message_id(member(entries@, "specific_message_id"@)),
        ) {
            (Some(Json::Text(tag)), Some(Json::Text(id)), Some(message)) => match entity_type_of_tag(
                tag@,
            ) {
                Some(entity_type) => Some(
                    RefView { entity_type, entity_id: id@, specific_message_id: message },
                ),
                None => None,
            },
            _ => None,
        },
        _ => None,
    }
}

/// An array of stored entity references, all of which must decode.
pub open spec fn decode_references(items: Seq<Json>) -> Option<Seq<RefView>>
    decreases items.len(),
{
    if items.len() == 0 {
        Some(Seq::empty())
    } else {
        match (decode_references(items.drop_last()), decode_reference(items.last())) {
            (Some(prefix), Some(last)) => Some(prefix.push(last)),
            _ => None,
        }
    }
}

/// An array of option id texts, all of which must be UUIDs.
pub open spec fn decode_option_ids(items: Seq<Json>) -> Option<Seq<u128>>
    decreases items.len(),
{
    if items.len() == 0 {
        Some(Seq::empty())
    } else {
        match (decode_option_ids(items.drop_last()), items.last()) {
            (Some(prefix), Json::Text(text)) => match uuid_parse_str(text@) {
                Some(id) => Some(prefix.push(id)),
                None => None,
            },
            _ => None,
        }
    }
}

/// A stored property value `{"type": tag, "value": payload}`.
pub open spec fn decode_value(value: Json) -> Option<ValueView> {
    match value {
        Json::Object(entries) => match member(entries@, "type"@) {
            Some(Json::Text(tag)) => if tag@ == "EntityReference"@ {
                match member(entries@, "value"@) {
                    Some(Json::Array(items)) => match decode_references(items@) {
                        Some(refs) => Some(ValueView::EntityRef(refs)),
                        None => None,
                    },
                    _ => None,
                }
            } else if tag@ == "SelectOption"@ {
                match member(entries@, "value"@) {
                    Some(Json::Array(items)) => match decode_option_ids(items@) {
                        Some(ids) => Some(ValueView::SelectOption(ids)),
                        None => None,
                    },
                    _ => None,
                }
            } else {
                Some(ValueView::Other)
            },
            _ => None,
        },
        _ => None,
    }
}

/// The view of an optional exec value, for contracts.
pub open spec fn opt_json(value: Option<&Json>) -> Option<Json> {
    match value {
        Some(v) => Some(*v),
        None => None,
    }
}

fn message_id_from_json(value: Option<&Json>) -> (decoded: Option<Option<u128>>)
    ensures
        decoded == decode_message_id(opt_json(value)),
{
    match value {
        None => Some(None),
        Some(Json::Null) => Some(None),
        Some(Json::Text(text)) => match parse_uuid(text.as_str()) {
            Some(id) => Some(Some(id)),
            None => None,
        },
        _ => None,
    }
}

/// Decodes one stored entity reference.
pub fn reference_from_json(value: &Json) -> (decoded: Option<EntityReference>)
    ensures
        match decoded {
            Some(r) => decode_reference(*value) == Some(r@),
            None => decode_reference(*value) is None,
        },
{
    match value {
        Json::Object(entries) => {
            let tag = get_member(entries, "entity_type");
            let id = get_member(entries, "entity_id");
            let message = message_id_from_json(get_member(entries, "specific_message_id"));
            match (tag, id, message) {
                (Some(Json::Text(tag)), Some(Json::Text(id)), Some(message)) => {
                    match entity_type_from_tag(tag.as_str()) {
                        Some(entity_type) => Some(
                            EntityReference {
                                entity_type,
                                entity_id: id.clone(),
                                specific_message_id: message,
                            },
                        ),
                        None => None,
                    }
                },
                _ => None,
            }
        },
        _ => None,
    }
}

/// Decodes an array of stored entity references.
pub fn references_from_json(items: &Vec<Json>) -> (decoded: Option<Vec<EntityReference>>)
    ensures
        match decoded {
            Some(refs) => decode_references(items@) == Some(
                refs@.map_values(|r: EntityReference| r@),
            ),
            None => decode_references(items@) is None,
        },
{
    let mut refs: Vec<EntityReference> = Vec::new();
    let mut i: usize = 0;
    assert(items@.take(0) =~= Seq::<Json>::empty());
    while i < items.len()
        invariant
            0 <= i <= items.len(),
            decode_references(items@.take(i as int)) == Some(
                refs@.map_values(|r: EntityReference| r@),
            ),
        decreases items.len() - i,
    {
        assert(items@.take(i + 1).drop_last() =~= items@.take(i as int));
        assert(items@.take(i + 1).last() == items@[i as int]);
        match reference_from_json(&items[i]) {
            Some(r) => {
                refs.push(r);
                assert(refs@.map_values(|r: EntityReference| r@) =~= refs@.drop_last().map_values(
                    |r: EntityReference| r@,
                ).push(refs@.last()@));
            },
            None => {
                proof {
                    lemma_references_prefix_fails(items@, i as int + 1);
                }
                return None;
            },
        }
        i = i + 1;
    }
    assert(items@.take(i as int) =~= items@);
    Some(refs)
}

proof fn lemma_references_prefix_fails(items: Seq<Json>, k: int)
    requires
        0 <= k <= items.len(),
        decode_references(items.take(k)) is None,
    ensures
        decode_references(items) is None,
    decreases items.len() - k,
{
    if k < items.len() {
        assert(items.take(k + 1).drop_last() =~= items.take(k));
        lemma_references_prefix_fails(items, k + 1);
    } else {
        assert(items.take(k) =~= items);
    }
}

proof fn lemma_option_ids_prefix_fails(items: Seq<Json>, k: int)
    requires
        0 <= k <= items.len(),
        decode_option_ids(items.take(k)) is None,
    ensures
        decode_option_ids(items) is None,
    decreases items.len() - k,
{
    if k < items.len() {
        assert(items.take(k + 1).drop_last() =~= items.take(k));
        lemma_option_ids_prefix_fails(items, k + 1);
    } else {
        assert(items.take(k) =~= items);
    }
}

/// Decodes an array of option id texts.
pub fn option_ids_from_json(items: &Vec<Json>) -> (decoded: Option<Vec<u128>>)
    ensures
        match decoded {
            Some(ids) => decode_option_ids(items@) == Some(ids@),
            None => decode_option_ids(items@) is None,
        },
{
    let mut ids: Vec<u128> = Vec::new();
    let mut i: usize = 0;
    assert(items@.take(0) =~= Seq::<Json>::empty());
    while i < items.len()
        invariant
            0 <= i <= items.len(),
            decode_option_ids(items@.take(i as int)) == Some(ids@),
        decreases items.len() - i,
    {
        assert(items@.take(i + 1).drop_last() =~= items@.take(i as int));
        assert(items@.take(i + 1).last() == items@[i as int]);
        let parsed = match &items[i] {
            Json::Text(text) => parse_uuid(text.as_str()),
            _ => None,
        };
        match parsed {
            Some(id) => {
                ids.push(id);
            },
            None => {
                proof {
                    lemma_option_ids_prefix_fails(items@, i as int + 1);
                }
                return None;
            },
        }
        i = i + 1;
    }
    assert(items@.take(i as int) =~= items@);
    Some(ids)
}

/// Decodes a stored property value.
pub fn value_from_json(value: &Json) -> (decoded: Option<PropertyValue>)
    ensures
        match decoded {
            Some(v) => decode_value(*value) == Some(v@),
            None => decode_value(*value) is None,
        },
{
    match value {
        Json::Object(entries) => match get_member(entries, "type") {
            Some(Json::Text(tag)) => {
                if text_equals(tag.as_str(), "EntityReference") {
                    match get_member(entries, "value") {
                        Some(Json::Array(items)) => match references_from_json(items) {
                            Some(refs) => Some(PropertyValue::EntityRef(refs)),
                            None => None,
                        },
                        _ => None,
                    }
                } else if text_equals(tag.as_str(), "SelectOption") {
                    match get_member(entries, "value") {
                        Some(Json::Array(items)) => match option_ids_from_json(items) {
                            Some(ids) => Some(PropertyValue::SelectOption(ids)),
                            None => None,
                        },
                        _ => None,
                    }
                } else {
                    Some(PropertyValue::Other)
                }
            },
            _ => None,
        },
        _ => None,
    }
}

/// A property value as a client sets it, as far as the task and decision
/// logic reads it.
#[derive(Debug)]
pub enum SetPropertyValue {
    SelectOption { option_id: u128 },
    EntityReference { reference: EntityReference },
    MultiEntityReference { references: Vec<EntityReference> },
    MultiLink { urls: Vec<String> },
    /// Any other kind of value (text, number, date, several options, ...).
    Other,
}

} // verus!
