//! A JSON document model for stored property values and query rows.

use vstd::prelude::*;

use crate::ids::{text_equals, uuid_text, uuid_to_text};

verus! {

/// A JSON value. Object members keep their order; numbers keep their text.
#[derive(Debug)]
pub enum Json {
    Null,
    Bool(bool),
    Number(String),
    Text(String),
    Array(Vec<Json>),
    Object(Vec<(String, Json)>),
}

/// The first member of an object with the given key.
pub open spec fn member(entries: Seq<(String, Json)>, key: Seq<char>) -> Option<Json>
    decreases entries.len(),
{
    if entries.len() == 0 {
        None
    } else if entries[0].0@ == key {
        Some(entries[0].1)
    } else {
        member(entries.drop_first(), key)
    }
}

/// Whether a JSON value is a text equal to `text`.
pub open spec fn is_text(value: Option<Json>, text: Seq<char>) -> bool {
    match value {
        Some(Json::Text(s)) => s@ == text,
        _ => false,
    }
}

/// Whether any object nested anywhere in `value` has an `entity_id` member
/// whose text is `id`.
pub open spec fn mentions_entity(value: Json, id: Seq<char>) -> bool
    decreases value,
{
    match value {
        Json::Array(items) => mentions_in_items(items@, id),
        Json::Object(entries) => is_text(member(entries@, "entity_id"@), id) || mentions_in_members(
            entries@,
            id,
        ),
        _ => false,
    }
}

/// Whether some item of an array mentions `id`.
pub open spec fn mentions_in_items(items: Seq<Json>, id: Seq<char>) -> bool
    decreases items,
{
    if items.len() == 0 {
        false
    } else {
        mentions_in_items(items.drop_last(), id) || mentions_entity(items.last(), id)
    }
}

/// Whether some member value of an object mentions `id`.
pub open spec fn mentions_in_members(entries: Seq<(String, Json)>, id: Seq<char>) -> bool
    decreases entries,
{
    if entries.len() == 0 {
        false
    } else {
        mentions_in_members(entries.drop_last(), id) || mentions_entity(entries.last().1, id)
    }
}

} // verus!

verus! {

proof fn lemma_member_skip(entries: Seq<(String, Json)>, key: Seq<char>, i: int)
    requires
        0 <= i < entries.len(),
    ensures
        entries[i].0@ == key ==> member(entries.skip(i), key) == Some(entries[i].1),
        entries[i].0@ != key ==> member(entries.skip(i), key) == member(entries.skip(i + 1), key),
{
    assert(entries.skip(i).drop_first() =~= entries.skip(i + 1));
}

/// Looks up the first member of an object with the given key.
pub fn get_member<'a>(entries: &'a Vec<(String, Json)>, key: &str) -> (found: Option<&'a Json>)
    ensures
        match found {
            Some(value) => member(entries@, key@) == Some(*value),
            None => member(entries@, key@) is None,
        },
{
    assert(entries@.skip(0) =~= entries@);
    let mut i: usize = 0;
    while i < entries.len()
        invariant
            0 <= i <= entries.len(),
            member(entries@, key@) == member(entries@.skip(i as int), key@),
        decreases entries.len() - i,
    {
        proof {
            lemma_member_skip(entries@, key@, i as int);
        }
        if text_equals(entries[i].0.as_str(), key) {
            return Some(&entries[i].1);
        }
        i = i + 1;
    }
    assert(entries@.skip(i as int).len() == 0);
    None
}

/// Whether `value` is a text equal to `text`.
pub fn member_is_text(value: Option<&Json>, text: &str) -> (equal: bool)
    ensures
        equal == is_text(
            match value {
                Some(v) => Some(*v),
                None => None,
            },
            text@,
        ),
{
    match value {
        Some(Json::Text(s)) => text_equals(s.as_str(), text),
        _ => false,
    }
}

#[verifier::loop_isolation(false)]
fn mentions_entity_text(value: &Json, id: &str) -> (found: bool)
    ensures
        found == mentions_entity(*value, id@),
    decreases value,
{
    match value {
        Json::Array(items) => {
            let mut i: usize = 0;
            assert(items@.take(0) =~= Seq::<Json>::empty());
            while i < items.len()
                invariant
                    0 <= i <= items.len(),
                    !mentions_in_items(items@.take(i as int), id@),
                decreases items.len() - i,
            {
                proof {
                    assert(*items == (*value)->Array_0);
                    assert(decreases_to!(*value => (*value)->Array_0));
                    assert(decreases_to!(*items => items@));
                    assert(decreases_to!(items@ => items@[i as int]));
                    assert(items@.take(i + 1).drop_last() =~= items@.take(i as int));
                }
                let found = mentions_entity_text(&items[i], id);
                i = i + 1;
                if found {
                    assert(mentions_in_items(items@.take(i as int), id@));
                    proof {
                        lemma_prefix_mentions(items@, i as int, id@);
                    }
                    return true;
                }
            }
            assert(items@.take(i as int) =~= items@);
            false
        },
        Json::Object(entries) => {
            if member_is_text(get_member(entries, "entity_id"), id) {
                return true;
            }
            let mut i: usize = 0;
            assert(entries@.take(0) =~= Seq::<(String, Json)>::empty());
            while i < entries.len()
                invariant
                    0 <= i <= entries.len(),
                    !mentions_in_members(entries@.take(i as int), id@),
                decreases entries.len() - i,
            {
                proof {
                    assert(*entries == (*value)->Object_0);
                    assert(decreases_to!(*value => (*value)->Object_0));
                    assert(decreases_to!(*entries => entries@));
                    assert(decreases_to!(entries@ => entries@[i as int]));
                    assert(decreases_to!(entries@[i as int] => entries@[i as int].1));
                    assert(entries@.take(i + 1).drop_last() =~= entries@.take(i as int));
                }
                let found = mentions_entity_text(&entries[i].1, id);
                i = i + 1;
                if found {
                    assert(mentions_in_members(entries@.take(i as int), id@));
                    proof {
                        lemma_prefix_mentions_members(entries@, i as int, id@);
                    }
                    return true;
                }
            }
            assert(entries@.take(i as int) =~= entries@);
            false
        },
        _ => false,
    }
}

proof fn lemma_prefix_mentions(items: Seq<Json>, k: int, id: Seq<char>)
    requires
        0 <= k <= items.len(),
        mentions_in_items(items.take(k), id),
    ensures
        mentions_in_items(items, id),
    decreases items.len() - k,
{
    if k < items.len() {
        assert(items.take(k + 1).drop_last() =~= items.take(k));
        lemma_prefix_mentions(items, k + 1, id);
    } else {
        assert(items.take(k) =~= items);
    }
}

proof fn lemma_prefix_mentions_members(entries: Seq<(String, Json)>, k: int, id: Seq<char>)
    requires
        0 <= k <= entries.len(),
        mentions_in_members(entries.take(k), id),
    ensures
        mentions_in_members(entries, id),
    decreases entries.len() - k,
{
    if k < entries.len() {
        assert(entries.take(k + 1).drop_last() =~= entries.take(k));
        lemma_prefix_mentions_members(entries, k + 1, id);
    } else {
        assert(entries.take(k) =~= entries);
    }
}

/// Whether any object nested in `value` names the task `id` as its `entity_id`.
pub fn json_has_entity_id(value: &Json, id: u128) -> (found: bool)
    ensures
        found == mentions_entity(*value, uuid_text(id)),
{
    let text = uuid_to_text(id);
    mentions_entity_text(value, text.as_str())
}

} // verus!
