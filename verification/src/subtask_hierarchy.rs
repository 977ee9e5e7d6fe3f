//! Canonical direct-subtask reading: a parent's Subtasks list counts only
//! children whose own Parent Task names it back, exactly once.

use vstd::prelude::*;

use crate::ids::{parse_uuid, text_equals, uuid_parse_str, uuid_text, uuid_to_text};
use crate::json::{json_has_entity_id, member, mentions_entity, Json};
use crate::property_value::{
    decode_reference, decode_references, decode_value, opt_json, reference_from_json, value_from_json,
    EntityReference, PropertyValue, RefView, ValueView,
};
use crate::task_status::{
    json_selects_only, parse_reference, reference_target, reference_targets,
    references_to_targets, selects_only, status_from_json, status_of_value, StatusOption,
    StatusVocabulary, TaskReadiness,
};

verus! {

/// Whether `id` occurs in `ids`.
pub fn contains_id(ids: &Vec<u128>, id: u128) -> (found: bool)
    ensures
        found == ids@.contains(id),
{
    let mut i: usize = 0;
    while i < ids.len()
        invariant
            0 <= i <= ids.len(),
            forall|j: int| 0 <= j < i ==> ids@[j] != id,
        decreases ids.len() - i,
    {
        if ids[i] == id {
            return true;
        }
        i = i + 1;
    }
    false
}

/// The subtask ids held by a stored Subtasks value: none when absent,
/// otherwise task references from `source`, each listed once.
pub open spec fn stored_subtasks(value: Option<Json>, source: u128) -> Option<Seq<u128>> {
    match value {
        None => Some(Seq::empty()),
        Some(json) => match decode_value(json) {
            Some(ValueView::EntityRef(refs)) => match reference_targets(refs, source) {
                Some(ids) => if ids.no_duplicates() {
                    Some(ids)
                } else {
                    None
                },
                None => None,
            },
            _ => None,
        },
    }
}

/// Whether a list has no repeated id.
pub fn all_distinct(ids: &Vec<u128>) -> (distinct: bool)
    ensures
        distinct == ids@.no_duplicates(),
{
    let mut i: usize = 0;
    while i < ids.len()
        invariant
            0 <= i <= ids.len(),
            forall|a: int, b: int| 0 <= a < b < i ==> ids@[a] != ids@[b],
        decreases ids.len() - i,
    {
        let mut j: usize = 0;
        while j < i
            invariant
                0 <= j <= i < ids.len(),
                forall|a: int, b: int| 0 <= a < b < i ==> ids@[a] != ids@[b],
                forall|a: int| 0 <= a < j ==> ids@[a] != ids@[i as int],
            decreases i - j,
        {
            if ids[j] == ids[i] {
                return false;
            }
            j = j + 1;
        }
        i = i + 1;
    }
    true
}

/// Parses a stored Subtasks value.
pub fn parse_subtasks(value: Option<&Json>, source: u128) -> (ids: Result<Vec<u128>, ()>)
    ensures
        match ids {
            Ok(ids) => stored_subtasks(opt_json(value), source) == Some(ids@),
            Err(()) => stored_subtasks(opt_json(value), source) is None,
        },
{
    match value {
        None => Ok(Vec::new()),
        Some(json) => match value_from_json(json) {
            Some(PropertyValue::EntityRef(refs)) => match references_to_targets(&refs, source) {
                Ok(ids) => if all_distinct(&ids) {
                    Ok(ids)
                } else {
                    Err(())
                },
                Err(()) => Err(()),
            },
            _ => Err(()),
        },
    }
}

/// A live task of the source's project that has a Parent Task value.
#[derive(Debug)]
pub struct ParentRow {
    pub id: Option<String>,
    pub parent_values: Option<Json>,
}

/// Mathematical form of a parent row.
pub struct ParentRowView {
    pub id: Option<Seq<char>>,
    pub parent_values: Option<Json>,
}

impl View for ParentRow {
    type V = ParentRowView;

    open spec fn view(&self) -> ParentRowView {
        ParentRowView {
            id: match self.id {
                Some(s) => Some(s@),
                None => None,
            },
            parent_values: self.parent_values,
        }
    }
}

/// A stored value other than JSON null.
pub open spec fn non_null(value: Option<Json>) -> Option<Json> {
    match value {
        Some(Json::Null) => None,
        other => other,
    }
}

/// Whether some reference of a list has an id that parses to `source`.
pub open spec fn refs_name(refs: Seq<RefView>, source: u128) -> bool {
    exists|i: int| 0 <= i < refs.len() && uuid_parse_str(#[trigger] refs[i].entity_id) == Some(source)
}

/// Whether a child's Parent Task value mentions `source` at all.
pub open spec fn parent_mentions(row: ParentRowView, source: u128) -> bool {
    let value = non_null(row.parent_values);
    match value {
        Some(json) => match decode_value(json) {
            Some(ValueView::EntityRef(refs)) => refs_name(refs, source),
            Some(_) => false,
            None => mentions_entity(json, uuid_text(source)),
        },
        None => false,
    }
}

/// The child a row names when its Parent Task is exactly one reference to `source`.
pub open spec fn parent_exact(row: ParentRowView, source: u128) -> Option<u128> {
    match (row.id, non_null(row.parent_values)) {
        (Some(text), Some(json)) => match (uuid_parse_str(text), decode_value(json)) {
            (Some(child), Some(ValueView::EntityRef(refs))) => if refs.len() == 1
                && reference_target(refs[0], child) == Some(source) {
                Some(child)
            } else {
                None
            },
            _ => None,
        },
        _ => None,
    }
}

/// Children whose Parent Task names `source` exactly.
pub open spec fn reciprocal_children(rows: Seq<ParentRowView>, source: u128) -> Set<u128> {
    Set::new(|child: u128| exists|i: int| 0 <= i < rows.len() && parent_exact(rows[i], source) == Some(child))
}

/// Whether some child mentions `source` without naming it exactly.
pub open spec fn broken_parent_edge(rows: Seq<ParentRowView>, source: u128) -> bool {
    exists|i: int|
        0 <= i < rows.len() && parent_mentions(rows[i], source) && parent_exact(rows[i], source)
            is None
}

fn non_null_exec(value: &Option<Json>) -> (v: Option<&Json>)
    ensures
        opt_json(v) == non_null(*value),
{
    match value {
        Some(Json::Null) => None,
        Some(json) => Some(json),
        None => None,
    }
}

fn refs_name_exec(refs: &Vec<EntityReference>, source: u128) -> (named: bool)
    ensures
        named == refs_name(refs@.map_values(|r: EntityReference| r@), source),
{
    let ghost views = refs@.map_values(|r: EntityReference| r@);
    let mut i: usize = 0;
    while i < refs.len()
        invariant
            0 <= i <= refs.len(),
            views == refs@.map_values(|r: EntityReference| r@),
            forall|j: int| 0 <= j < i ==> uuid_parse_str(#[trigger] views[j].entity_id) != Some(source),
        decreases refs.len() - i,
    {
        if parse_uuid(refs[i].entity_id.as_str()) == Some(source) {
            assert(uuid_parse_str(views[i as int].entity_id) == Some(source));
            return true;
        }
        i = i + 1;
    }
    false
}

/// Reads one parent row: whether it mentions `source`, and the child it names exactly.
fn read_parent_row(row: &ParentRow, source: u128) -> (read: (bool, Option<u128>))
    ensures
        read.0 == parent_mentions(row@, source),
        read.1 == parent_exact(row@, source),
{
    let value = non_null_exec(&row.parent_values);
    let parent = match value {
        Some(json) => value_from_json(json),
        None => None,
    };
    let mentions = match (value, &parent) {
        (Some(_), Some(PropertyValue::EntityRef(refs))) => refs_name_exec(refs, source),
        (Some(_), Some(_)) => false,
        (Some(json), None) => json_has_entity_id(json, source),
        (None, _) => false,
    };
    let child = match &row.id {
        Some(text) => parse_uuid(text.as_str()),
        None => None,
    };
    let exact = match (child, value, &parent) {
        (Some(child), Some(_), Some(PropertyValue::EntityRef(refs))) => {
            if refs.len() == 1 {
                match parse_reference(&refs[0], child) {
                    Ok(parent_id) => if parent_id == source {
                        Some(child)
                    } else {
                        None
                    },
                    Err(()) => None,
                }
            } else {
                None
            }
        },
        _ => None,
    };
    (mentions, exact)
}

/// The reciprocal children of `source` and whether some parent edge is broken.
pub fn reciprocal_children_of(rows: &Vec<ParentRow>, source: u128) -> (read: (Vec<u128>, bool))
    ensures
        read.0@.to_set() == reciprocal_children(rows@.map_values(|r: ParentRow| r@), source),
        read.1 == broken_parent_edge(rows@.map_values(|r: ParentRow| r@), source),
{
    let ghost views = rows@.map_values(|r: ParentRow| r@);
    let mut children: Vec<u128> = Vec::new();
    let mut broken = false;
    let mut i: usize = 0;
    while i < rows.len()
        invariant
            0 <= i <= rows.len(),
            views == rows@.map_values(|r: ParentRow| r@),
            forall|c: u128|
                children@.contains(c) <==> exists|j: int|
                    0 <= j < i && parent_exact(views[j], source) == Some(c),
            broken <==> exists|j: int|
                0 <= j < i && parent_mentions(views[j], source) && parent_exact(views[j], source)
                    is None,
        decreases rows.len() - i,
    {
        let (mentions, exact) = read_parent_row(&rows[i], source);
        assert(views[i as int] == rows@[i as int]@);
        let ghost before = children@;
        proof {
            if exact is Some {
                lemma_exact_mentions(views[i as int], source);
            }
        }
        if mentions {
            match exact {
                Some(child) => {
                    children.push(child);
                },
                None => {
                    broken = true;
                },
            }
        }
        proof {
            assert forall|c: u128|
                children@.contains(c) <==> exists|j: int|
                    0 <= j < i + 1 && parent_exact(views[j], source) == Some(c) by {
                if children@.contains(c) {
                    if !before.contains(c) {
                        let k = choose|k: int| 0 <= k < children@.len() && children@[k] == c;
                        assert(k == before.len());
                        assert(parent_exact(views[i as int], source) == Some(c));
                    } else {
                        let j = choose|j: int| 0 <= j < i && parent_exact(views[j], source) == Some(c);
                        assert(0 <= j < i + 1);
                    }
                }
                if exists|j: int| 0 <= j < i + 1 && parent_exact(views[j], source) == Some(c) {
                    let j = choose|j: int| 0 <= j < i + 1 && parent_exact(views[j], source) == Some(c);
                    if j == i {
                        assert(children@[children@.len() - 1] == c);
                        assert(children@.contains(c));
                    } else {
                        assert(before.contains(c));
                        let k = choose|k: int| 0 <= k < before.len() && before[k] == c;
                        assert(children@[k] == c);
                    }
                }
            }
        }
        i = i + 1;
    }
    assert(children@.to_set() =~= reciprocal_children(views, source));
    (children, broken)
}

proof fn lemma_exact_mentions(row: ParentRowView, source: u128)
    requires
        parent_exact(row, source) is Some,
    ensures
        parent_mentions(row, source),
{
    let json = non_null(row.parent_values)->Some_0;
    let refs = decode_value(json)->Some_0->EntityRef_0;
    assert(uuid_parse_str(refs[0].entity_id) == Some(source));
}

/// One element of a parent's stored Subtasks list, in stored order, with the
/// live same-project task it names (if any) and that task's stored Status.
#[derive(Debug)]
pub struct SubtaskCandidateRow {
    pub reference: Option<Json>,
    pub live_id: Option<String>,
    pub status_values: Option<Json>,
}

/// Mathematical form of a candidate row.
pub struct CandidateView {
    pub reference: Option<Json>,
    pub live_id: Option<Seq<char>>,
    pub status_values: Option<Json>,
}

impl View for SubtaskCandidateRow {
    type V = CandidateView;

    open spec fn view(&self) -> CandidateView {
        CandidateView {
            reference: self.reference,
            live_id: match self.live_id {
                Some(s) => Some(s@),
                None => None,
            },
            status_values: self.status_values,
        }
    }
}

/// The canonical child a candidate names: a task reference from `source` to a
/// live task of the same project whose Parent Task names `source` back.
pub open spec fn candidate_child(c: CandidateView, source: u128, reciprocal: Set<u128>) -> Option<
    u128,
> {
    match c.reference {
        Some(json) => match decode_reference(json) {
            Some(r) => match reference_target(r, source) {
                Some(id) => if c.live_id == Some(uuid_text(id)) && reciprocal.contains(id) {
                    Some(id)
                } else {
                    None
                },
                None => None,
            },
            None => None,
        },
        None => None,
    }
}

/// A Status that ends a subtask's work: exactly Completed or exactly Canceled.
pub open spec fn is_terminal(value: Option<Json>, vocabulary: StatusVocabulary) -> bool {
    selects_only(value, vocabulary.completed) || selects_only(value, vocabulary.canceled)
}

/// Canonical children in stored order.
pub open spec fn canonical_children(cands: Seq<CandidateView>, source: u128, reciprocal: Set<u128>) -> Seq<
    u128,
>
    decreases cands.len(),
{
    if cands.len() == 0 {
        Seq::empty()
    } else {
        let prefix = canonical_children(cands.drop_last(), source, reciprocal);
        match candidate_child(cands.last(), source, reciprocal) {
            Some(id) => prefix.push(id),
            None => prefix,
        }
    }
}

/// Canonical children whose Status is not terminal, in stored order.
pub open spec fn blocking_children(
    cands: Seq<CandidateView>,
    source: u128,
    reciprocal: Set<u128>,
    vocabulary: StatusVocabulary,
) -> Seq<u128>
    decreases cands.len(),
{
    if cands.len() == 0 {
        Seq::empty()
    } else {
        let prefix = blocking_children(cands.drop_last(), source, reciprocal, vocabulary);
        match candidate_child(cands.last(), source, reciprocal) {
            Some(id) => if !is_terminal(cands.last().status_values, vocabulary) {
                prefix.push(id)
            } else {
                prefix
            },
            None => prefix,
        }
    }
}

/// Canonical children whose Status is `status`, in stored order.
pub open spec fn children_with_status(
    cands: Seq<CandidateView>,
    source: u128,
    reciprocal: Set<u128>,
    vocabulary: StatusVocabulary,
    status: StatusOption,
) -> Seq<u128>
    decreases cands.len(),
{
    if cands.len() == 0 {
        Seq::empty()
    } else {
        let prefix = children_with_status(
            cands.drop_last(),
            source,
            reciprocal,
            vocabulary,
            status,
        );
        match candidate_child(cands.last(), source, reciprocal) {
            Some(id) => if status_of_value(vocabulary, cands.last().status_values) == Some(status) {
                prefix.push(id)
            } else {
                prefix
            },
            None => prefix,
        }
    }
}

/// Every reported subtask of `source` is a child whose Parent Task names
/// `source` back and is not `source` itself, and every blocking, Completed or
/// Canceled subtask reported is one of those canonical children.
pub proof fn lemma_reported_subtasks_are_reciprocal(
    cands: Seq<CandidateView>,
    source: u128,
    reciprocal: Set<u128>,
    vocabulary: StatusVocabulary,
    status: StatusOption,
)
    ensures
        forall|i: int|
            0 <= i < canonical_children(cands, source, reciprocal).len() ==> {
                &&& reciprocal.contains(#[trigger] canonical_children(cands, source, reciprocal)[i])
                &&& canonical_children(cands, source, reciprocal)[i] != source
            },
        forall|i: int|
            0 <= i < blocking_children(cands, source, reciprocal, vocabulary).len()
                ==> canonical_children(cands, source, reciprocal).contains(
                #[trigger] blocking_children(cands, source, reciprocal, vocabulary)[i],
            ),
        forall|i: int|
            0 <= i < children_with_status(cands, source, reciprocal, vocabulary, status).len()
                ==> canonical_children(cands, source, reciprocal).contains(
                #[trigger] children_with_status(cands, source, reciprocal, vocabulary, status)[i],
            ),
    decreases cands.len(),
{
    if cands.len() > 0 {
        let prefix = cands.drop_last();
        lemma_reported_subtasks_are_reciprocal(prefix, source, reciprocal, vocabulary, status);
        let canonical = canonical_children(cands, source, reciprocal);
        let before = canonical_children(prefix, source, reciprocal);
        assert forall|x: u128| before.contains(x) implies canonical.contains(x) by {
            let k = choose|k: int| 0 <= k < before.len() && before[k] == x;
            assert(canonical[k] == x);
        }
        match candidate_child(cands.last(), source, reciprocal) {
            Some(id) => {
                assert(canonical[canonical.len() - 1] == id);
                match cands.last().reference {
                    Some(json) => {
                        let r = decode_reference(json)->Some_0;
                        assert(reference_target(r, source) == Some(id));
                    },
                    None => {},
                }
            },
            None => {},
        }
        let blocking = blocking_children(cands, source, reciprocal, vocabulary);
        let blocking_before = blocking_children(prefix, source, reciprocal, vocabulary);
        assert forall|i: int| 0 <= i < blocking.len() implies canonical.contains(
            #[trigger] blocking[i],
        ) by {
            if i < blocking_before.len() {
                assert(blocking[i] == blocking_before[i]);
                assert(before.contains(blocking_before[i]));
            } else {
                assert(canonical[canonical.len() - 1] == blocking[i]);
            }
        }
        let with_status = children_with_status(cands, source, reciprocal, vocabulary, status);
        let with_status_before = children_with_status(prefix, source, reciprocal, vocabulary, status);
        assert forall|i: int| 0 <= i < with_status.len() implies canonical.contains(
            #[trigger] with_status[i],
        ) by {
            if i < with_status_before.len() {
                assert(with_status[i] == with_status_before[i]);
                assert(before.contains(with_status_before[i]));
            } else {
                assert(canonical[canonical.len() - 1] == with_status[i]);
            }
        }
    }
}

/// Whether some candidate is not a canonical child.
pub open spec fn broken_candidate(cands: Seq<CandidateView>, source: u128, reciprocal: Set<u128>) -> bool {
    exists|i: int| 0 <= i < cands.len() && candidate_child(cands[i], source, reciprocal) is None
}

/// What a pass over the candidates yields.
pub struct CandidateReading {
    pub canonical: Vec<u128>,
    pub blocking: Vec<u128>,
    pub completed: Vec<u128>,
    pub canceled: Vec<u128>,
    pub broken: bool,
}

fn candidate_child_exec(c: &SubtaskCandidateRow, source: u128, reciprocal: &Vec<u128>) -> (child: Option<u128>)
    ensures
        child == candidate_child(c@, source, reciprocal@.to_set()),
{
    let reference = match &c.reference {
        Some(json) => reference_from_json(json),
        None => None,
    };
    match reference {
        Some(r) => match parse_reference(&r, source) {
            Ok(id) => {
                let text = uuid_to_text(id);
                let live = match &c.live_id {
                    Some(live) => text_equals(live.as_str(), text.as_str()),
                    None => false,
                };
                if live && contains_id(reciprocal, id) {
                    assert(c@.live_id == Some(uuid_text(id)));
                    Some(id)
                } else {
                    assert(reciprocal@.contains(id) == reciprocal@.to_set().contains(id));
                    None
                }
            },
            Err(()) => None,
        },
        None => None,
    }
}

/// Reads every candidate of a parent in stored order.
pub fn read_candidates(
    cands: &Vec<SubtaskCandidateRow>,
    source: u128,
    reciprocal: &Vec<u128>,
    vocabulary: &StatusVocabulary,
) -> (reading: CandidateReading)
    ensures
        reading.canonical@ == canonical_children(
            cands@.map_values(|c: SubtaskCandidateRow| c@),
            source,
            reciprocal@.to_set(),
        ),
        reading.blocking@ == blocking_children(
            cands@.map_values(|c: SubtaskCandidateRow| c@),
            source,
            reciprocal@.to_set(),
            *vocabulary,
        ),
        reading.completed@ == children_with_status(
            cands@.map_values(|c: SubtaskCandidateRow| c@),
            source,
            reciprocal@.to_set(),
            *vocabulary,
            StatusOption::Completed,
        ),
        reading.canceled@ == children_with_status(
            cands@.map_values(|c: SubtaskCandidateRow| c@),
            source,
            reciprocal@.to_set(),
            *vocabulary,
            StatusOption::Canceled,
        ),
        reading.broken == broken_candidate(
            cands@.map_values(|c: SubtaskCandidateRow| c@),
            source,
            reciprocal@.to_set(),
        ),
{
    let ghost views = cands@.map_values(|c: SubtaskCandidateRow| c@);
    let ghost set = reciprocal@.to_set();
    let mut canonical: Vec<u128> = Vec::new();
    let mut blocking: Vec<u128> = Vec::new();
    let mut completed: Vec<u128> = Vec::new();
    let mut canceled: Vec<u128> = Vec::new();
    let mut broken = false;
    let mut i: usize = 0;
    assert(views.take(0) =~= Seq::<CandidateView>::empty());
    while i < cands.len()
        invariant
            0 <= i <= cands.len(),
            views == cands@.map_values(|c: SubtaskCandidateRow| c@),
            set == reciprocal@.to_set(),
            canonical@ == canonical_children(views.take(i as int), source, set),
            blocking@ == blocking_children(views.take(i as int), source, set, *vocabulary),
            completed@ == children_with_status(
                views.take(i as int),
                source,
                set,
                *vocabulary,
                StatusOption::Completed,
            ),
            canceled@ == children_with_status(
                views.take(i as int),
                source,
                set,
                *vocabulary,
                StatusOption::Canceled,
            ),
            broken == broken_candidate(views.take(i as int), source, set),
        decreases cands.len() - i,
    {
        let ghost prefix = views.take(i as int);
        let ghost next = views.take(i + 1);
        assert(next.drop_last() =~= prefix);
        assert(next.last() == cands@[i as int]@);
        let status = match &cands[i].status_values {
            Some(v) => Some(v),
            None => None,
        };
        match candidate_child_exec(&cands[i], source, reciprocal) {
            Some(id) => {
                canonical.push(id);
                let terminal = json_selects_only(status, vocabulary.completed) || json_selects_only(
                    status,
                    vocabulary.canceled,
                );
                if !terminal {
                    blocking.push(id);
                }
                match status_from_json(vocabulary, status) {
                    Some(StatusOption::Completed) => completed.push(id),
                    Some(StatusOption::Canceled) => canceled.push(id),
                    _ => {},
                }
                assert(broken_candidate(next, source, set) == broken_candidate(prefix, source, set))
                    by {
                    if broken_candidate(next, source, set) {
                        let j = choose|j: int|
                            0 <= j < next.len() && candidate_child(next[j], source, set) is None;
                        assert(j < prefix.len());
                        assert(prefix[j] == next[j]);
                    }
                    if broken_candidate(prefix, source, set) {
                        let j = choose|j: int|
                            0 <= j < prefix.len() && candidate_child(prefix[j], source, set) is None;
                        assert(next[j] == prefix[j]);
                    }
                }
            },
            None => {
                broken = true;
                assert(candidate_child(next[i as int], source, set) is None);
            },
        }
        i = i + 1;
    }
    assert(views.take(i as int) =~= views);
    CandidateReading { canonical, blocking, completed, canceled, broken }
}

/// Whether two id lists hold the same set of ids.
pub fn same_id_set(a: &Vec<u128>, b: &Vec<u128>) -> (same: bool)
    ensures
        same == (a@.to_set() == b@.to_set()),
{
    let mut i: usize = 0;
    while i < a.len()
        invariant
            0 <= i <= a.len(),
            forall|j: int| 0 <= j < i ==> b@.contains(#[trigger] a@[j]),
        decreases a.len() - i,
    {
        if !contains_id(b, a[i]) {
            assert(a@.to_set().contains(a@[i as int]));
            assert(!b@.to_set().contains(a@[i as int]));
            return false;
        }
        i = i + 1;
    }
    let mut k: usize = 0;
    while k < b.len()
        invariant
            0 <= k <= b.len(),
            forall|j: int| 0 <= j < a.len() ==> b@.contains(#[trigger] a@[j]),
            forall|j: int| 0 <= j < k ==> a@.contains(#[trigger] b@[j]),
        decreases b.len() - k,
    {
        if !contains_id(a, b[k]) {
            assert(b@.to_set().contains(b@[k as int]));
            assert(!a@.to_set().contains(b@[k as int]));
            return false;
        }
        k = k + 1;
    }
    assert(a@.to_set() =~= b@.to_set()) by {
        assert forall|x: u128| a@.to_set().contains(x) implies b@.to_set().contains(x) by {
            let j = choose|j: int| 0 <= j < a@.len() && a@[j] == x;
        }
        assert forall|x: u128| b@.to_set().contains(x) implies a@.to_set().contains(x) by {
            let j = choose|j: int| 0 <= j < b@.len() && b@[j] == x;
        }
    }
    true
}

/// Whether two id lists are equal.
pub fn same_ids(a: &Vec<u128>, b: &Vec<u128>) -> (same: bool)
    ensures
        same == (a@ == b@),
{
    if a.len() != b.len() {
        return false;
    }
    let mut i: usize = 0;
    while i < a.len()
        invariant
            a.len() == b.len(),
            0 <= i <= a.len(),
            forall|j: int| 0 <= j < i ==> a@[j] == b@[j],
        decreases a.len() - i,
    {
        if a[i] != b[i] {
            return false;
        }
        i = i + 1;
    }
    assert(a@ =~= b@);
    true
}

/// Readiness of a task to be completed, from its canonical direct subtasks.
#[derive(Debug)]
pub struct TaskSubtaskCompletionReadiness {
    pub task_id: u128,
    pub readiness: TaskReadiness,
    pub subtask_ids: Vec<u128>,
    pub blocking_subtask_ids: Vec<u128>,
    pub has_unavailable_subtasks: bool,
}

/// Mathematical form of a subtask completion readiness.
pub struct SubtaskReadinessView {
    pub task_id: u128,
    pub readiness: TaskReadiness,
    pub subtask_ids: Seq<u128>,
    pub blocking_subtask_ids: Seq<u128>,
    pub has_unavailable_subtasks: bool,
}

impl View for TaskSubtaskCompletionReadiness {
    type V = SubtaskReadinessView;

    open spec fn view(&self) -> SubtaskReadinessView {
        SubtaskReadinessView {
            task_id: self.task_id,
            readiness: self.readiness,
            subtask_ids: self.subtask_ids@,
            blocking_subtask_ids: self.blocking_subtask_ids@,
            has_unavailable_subtasks: self.has_unavailable_subtasks,
        }
    }
}

/// Snapshot of a task's canonical direct subtasks for progress reporting.
#[derive(Debug)]
pub struct TaskSubtaskProgressSnapshot {
    pub task_id: u128,
    pub subtask_ids: Vec<u128>,
    pub completed_subtask_ids: Vec<u128>,
    pub canceled_subtask_ids: Vec<u128>,
    pub has_unavailable_subtasks: bool,
}

/// Whether the hierarchy of `source` is unavailable: a broken parent edge, a
/// Subtasks list that disagrees with the children naming `source`, or a list
/// element that is not a canonical child.
pub open spec fn hierarchy_unavailable(
    subtasks: Seq<u128>,
    cands: Seq<CandidateView>,
    parents: Seq<ParentRowView>,
    source: u128,
) -> bool {
    ||| broken_parent_edge(parents, source)
    ||| subtasks.to_set() != reciprocal_children(parents, source)
    ||| broken_candidate(cands, source, reciprocal_children(parents, source))
}

/// Whether `r` is the completion readiness of a task: blocked with no ids
/// when Subtasks is malformed; otherwise the canonical children in stored
/// order, those not yet Completed or Canceled, and ready exactly when none
/// blocks and the hierarchy is available.
pub open spec fn completion_readiness_of(
    task_id: u128,
    vocabulary: StatusVocabulary,
    subtasks_values: Option<Json>,
    cands: Seq<CandidateView>,
    parents: Seq<ParentRowView>,
    r: SubtaskReadinessView,
) -> bool {
    &&& r.task_id == task_id
    &&& match stored_subtasks(subtasks_values, task_id) {
        None => {
            &&& r.readiness == TaskReadiness::Blocked
            &&& r.subtask_ids.len() == 0
            &&& r.blocking_subtask_ids.len() == 0
            &&& r.has_unavailable_subtasks
        },
        Some(subtasks) => {
            let reciprocal = reciprocal_children(parents, task_id);
            &&& r.subtask_ids == canonical_children(cands, task_id, reciprocal)
            &&& r.blocking_subtask_ids == blocking_children(cands, task_id, reciprocal, vocabulary)
            &&& r.has_unavailable_subtasks == hierarchy_unavailable(subtasks, cands, parents, task_id)
            &&& (r.readiness == TaskReadiness::Ready) == (r.blocking_subtask_ids.len() == 0
                && !r.has_unavailable_subtasks)
        },
    }
}

/// Whether a task may be completed with respect to its subtasks: blocked with
/// no ids when Subtasks is malformed; otherwise the canonical children in
/// stored order, those not yet Completed or Canceled, and ready exactly when
/// none blocks and the hierarchy is available.
pub fn subtask_completion_readiness(
    task_id: u128,
    vocabulary: &StatusVocabulary,
    subtasks_values: Option<&Json>,
    cands: &Vec<SubtaskCandidateRow>,
    parents: &Vec<ParentRow>,
) -> (readiness: TaskSubtaskCompletionReadiness)
    ensures
        completion_readiness_of(
            task_id,
            *vocabulary,
            opt_json(subtasks_values),
            cands@.map_values(|c: SubtaskCandidateRow| c@),
            parents@.map_values(|p: ParentRow| p@),
            readiness@,
        ),
{
    let subtasks = match parse_subtasks(subtasks_values, task_id) {
        Ok(ids) => ids,
        Err(()) => {
            return TaskSubtaskCompletionReadiness {
                task_id,
                readiness: TaskReadiness::Blocked,
                subtask_ids: Vec::new(),
                blocking_subtask_ids: Vec::new(),
                has_unavailable_subtasks: true,
            };
        },
    };
    let (reciprocal, broken_parent) = reciprocal_children_of(parents, task_id);
    let mismatch = !same_id_set(&subtasks, &reciprocal);
    let reading = read_candidates(cands, task_id, &reciprocal, vocabulary);
    let has_unavailable_subtasks = broken_parent || mismatch || reading.broken;
    let readiness = if reading.blocking.len() == 0 && !has_unavailable_subtasks {
        TaskReadiness::Ready
    } else {
        TaskReadiness::Blocked
    };
    TaskSubtaskCompletionReadiness {
        task_id,
        readiness,
        subtask_ids: reading.canonical,
        blocking_subtask_ids: reading.blocking,
        has_unavailable_subtasks,
    }
}

/// Whether `snapshot` is the progress snapshot of a task: with malformed
/// Subtasks, nothing but the unavailable flag; otherwise the canonical
/// children in stored order, those Completed and those Canceled, and
/// unavailable when the hierarchy is, or when the canonical children differ
/// from the stored list.
pub open spec fn progress_snapshot_of(
    task_id: u128,
    vocabulary: StatusVocabulary,
    subtasks_values: Option<Json>,
    cands: Seq<CandidateView>,
    parents: Seq<ParentRowView>,
    snapshot: TaskSubtaskProgressSnapshot,
) -> bool {
    &&& snapshot.task_id == task_id
    &&& match stored_subtasks(subtasks_values, task_id) {
        None => {
            &&& snapshot.subtask_ids@.len() == 0
            &&& snapshot.completed_subtask_ids@.len() == 0
            &&& snapshot.canceled_subtask_ids@.len() == 0
            &&& snapshot.has_unavailable_subtasks
        },
        Some(subtasks) => {
            let reciprocal = reciprocal_children(parents, task_id);
            &&& snapshot.subtask_ids@ == canonical_children(cands, task_id, reciprocal)
            &&& snapshot.completed_subtask_ids@ == children_with_status(
                cands,
                task_id,
                reciprocal,
                vocabulary,
                StatusOption::Completed,
            )
            &&& snapshot.canceled_subtask_ids@ == children_with_status(
                cands,
                task_id,
                reciprocal,
                vocabulary,
                StatusOption::Canceled,
            )
            &&& snapshot.has_unavailable_subtasks == (hierarchy_unavailable(
                subtasks,
                cands,
                parents,
                task_id,
            ) || canonical_children(cands, task_id, reciprocal) != subtasks)
        },
    }
}

/// The progress snapshot of a task from its stored Subtasks value, its
/// candidate children and the parent rows of its project.
pub fn subtask_progress_snapshot(
    task_id: u128,
    vocabulary: &StatusVocabulary,
    subtasks_values: Option<&Json>,
    cands: &Vec<SubtaskCandidateRow>,
    parents: &Vec<ParentRow>,
) -> (snapshot: TaskSubtaskProgressSnapshot)
    ensures
        progress_snapshot_of(
            task_id,
            *vocabulary,
            opt_json(subtasks_values),
            cands@.map_values(|c: SubtaskCandidateRow| c@),
            parents@.map_values(|p: ParentRow| p@),
            snapshot,
        ),
{
    let subtasks = match parse_subtasks(subtasks_values, task_id) {
        Ok(ids) => ids,
        Err(()) => {
            return TaskSubtaskProgressSnapshot {
                task_id,
                subtask_ids: Vec::new(),
                completed_subtask_ids: Vec::new(),
                canceled_subtask_ids: Vec::new(),
                has_unavailable_subtasks: true,
            };
        },
    };
    let (reciprocal, broken_parent) = reciprocal_children_of(parents, task_id);
    let mismatch = !same_id_set(&subtasks, &reciprocal);
    let reading = read_candidates(cands, task_id, &reciprocal, vocabulary);
    let differs = !same_ids(&reading.canonical, &subtasks);
    TaskSubtaskProgressSnapshot {
        task_id,
        subtask_ids: reading.canonical,
        completed_subtask_ids: reading.completed,
        canceled_subtask_ids: reading.canceled,
        has_unavailable_subtasks: broken_parent || mismatch || reading.broken || differs,
    }
}

/// The elements of a stored value's reference array, in stored order.
pub open spec fn stored_items(value: Option<Json>) -> Seq<Json> {
    match value {
        Some(Json::Object(entries)) => match member(entries@, "value"@) {
            Some(Json::Array(items)) => items@,
            _ => Seq::empty(),
        },
        _ => Seq::empty(),
    }
}

/// Whether the candidates are the elements of the stored reference array,
/// one per element, in stored order.
pub open spec fn candidates_follow(cands: Seq<CandidateView>, value: Option<Json>) -> bool {
    &&& cands.len() == stored_items(value).len()
    &&& forall|i: int|
        0 <= i < cands.len() ==> #[trigger] cands[i].reference == Some(stored_items(value)[i])
}

/// Whether `idx` picks the elements of `a` out of `b`, at strictly ascending positions.
pub open spec fn picks(a: Seq<u128>, b: Seq<u128>, idx: Seq<int>) -> bool {
    &&& idx.len() == a.len()
    &&& forall|k: int| 0 <= k < idx.len() ==> 0 <= #[trigger] idx[k] < b.len() && a[k] == b[idx[k]]
    &&& forall|k: int, l: int| 0 <= k < l < idx.len() ==> #[trigger] idx[k] < #[trigger] idx[l]
}

/// Whether `a` is `b` with some elements left out and the rest in order.
pub open spec fn is_subsequence(a: Seq<u128>, b: Seq<u128>) -> bool {
    exists|idx: Seq<int>| #[trigger] picks(a, b, idx)
}

/// Whether every candidate names, if anything, the stored id at its own position.
pub open spec fn names_in_place(
    cands: Seq<CandidateView>,
    source: u128,
    reciprocal: Set<u128>,
    ids: Seq<u128>,
) -> bool {
    &&& cands.len() == ids.len()
    &&& forall|i: int|
        0 <= i < cands.len() ==> (#[trigger] candidate_child(cands[i], source, reciprocal) is None
            || candidate_child(cands[i], source, reciprocal) == Some(ids[i]))
}

proof fn lemma_decoded_items(items: Seq<Json>, refs: Seq<RefView>)
    requires
        decode_references(items) == Some(refs),
    ensures
        refs.len() == items.len(),
        forall|i: int| 0 <= i < items.len() ==> decode_reference(#[trigger] items[i]) == Some(refs[i]),
    decreases items.len(),
{
    if items.len() > 0 {
        let prefix = decode_references(items.drop_last())->Some_0;
        lemma_decoded_items(items.drop_last(), prefix);
        assert(refs == prefix.push(decode_reference(items.last())->Some_0));
        assert forall|i: int| 0 <= i < items.len() implies decode_reference(#[trigger] items[i])
            == Some(refs[i]) by {
            if i < items.len() - 1 {
                assert(items[i] == items.drop_last()[i]);
            }
        }
    }
}

proof fn lemma_targets_in_place(refs: Seq<RefView>, source: u128, ids: Seq<u128>)
    requires
        reference_targets(refs, source) == Some(ids),
    ensures
        ids.len() == refs.len(),
        forall|i: int| 0 <= i < refs.len() ==> reference_target(#[trigger] refs[i], source) == Some(ids[i]),
    decreases refs.len(),
{
    if refs.len() > 0 {
        let prefix = reference_targets(refs.drop_last(), source)->Some_0;
        lemma_targets_in_place(refs.drop_last(), source, prefix);
        assert forall|i: int| 0 <= i < refs.len() implies reference_target(#[trigger] refs[i], source)
            == Some(ids[i]) by {
            if i < refs.len() - 1 {
                assert(refs[i] == refs.drop_last()[i]);
            }
        }
    }
}

/// A well-formed Subtasks list names each task once and never its own task;
/// candidates taken from it name, if anything, the stored id at their position.
proof fn lemma_stored_subtasks_facts(
    value: Option<Json>,
    source: u128,
    ids: Seq<u128>,
    cands: Seq<CandidateView>,
    reciprocal: Set<u128>,
)
    requires
        stored_subtasks(value, source) == Some(ids),
    ensures
        ids.no_duplicates(),
        !ids.contains(source),
        candidates_follow(cands, value) ==> names_in_place(cands, source, reciprocal, ids),
{
    match value {
        None => {},
        Some(json) => {
            let refs = decode_value(json)->Some_0->EntityRef_0;
            assert(decode_value(json) == Some(ValueView::EntityRef(refs)));
            lemma_targets_in_place(refs, source, ids);
            let entries = json->Object_0;
            let items = member(entries@, "value"@)->Some_0->Array_0;
            assert(decode_references(items@) == Some(refs));
            assert(stored_items(value) == items@);
            lemma_decoded_items(items@, refs);
            assert forall|i: int| 0 <= i < ids.len() implies #[trigger] ids[i] != source by {
                assert(reference_target(refs[i], source) == Some(ids[i]));
            }
            if candidates_follow(cands, value) {
                assert forall|i: int| 0 <= i < cands.len() implies (#[trigger] candidate_child(
                    cands[i],
                    source,
                    reciprocal,
                ) is None || candidate_child(cands[i], source, reciprocal) == Some(ids[i])) by {
                    assert(cands[i].reference == Some(items@[i]));
                    assert(decode_reference(items@[i]) == Some(refs[i]));
                    assert(reference_target(refs[i], source) == Some(ids[i]));
                }
            }
        },
    }
}

proof fn lemma_canonical_picks(
    cands: Seq<CandidateView>,
    source: u128,
    reciprocal: Set<u128>,
    ids: Seq<u128>,
) -> (idx: Seq<int>)
    requires
        names_in_place(cands, source, reciprocal, ids),
    ensures
        picks(canonical_children(cands, source, reciprocal), ids, idx),
        !broken_candidate(cands, source, reciprocal) ==> canonical_children(cands, source, reciprocal)
            == ids,
    decreases cands.len(),
{
    if cands.len() == 0 {
        Seq::empty()
    } else {
        let n = cands.len() - 1;
        let prefix = cands.drop_last();
        assert forall|i: int| 0 <= i < prefix.len() implies (#[trigger] candidate_child(
            prefix[i],
            source,
            reciprocal,
        ) is None || candidate_child(prefix[i], source, reciprocal) == Some(ids.drop_last()[i])) by {
            assert(prefix[i] == cands[i]);
            assert(candidate_child(cands[i], source, reciprocal) is None || candidate_child(cands[i], source, reciprocal) == Some(ids[i]));
        }
        let idx0 = lemma_canonical_picks(prefix, source, reciprocal, ids.drop_last());
        let before = canonical_children(prefix, source, reciprocal);
        assert(candidate_child(cands[n], source, reciprocal) is None || candidate_child(cands[n], source, reciprocal) == Some(ids[n]));
        if !broken_candidate(cands, source, reciprocal) {
            assert forall|i: int| 0 <= i < prefix.len() implies candidate_child(
                #[trigger] prefix[i],
                source,
                reciprocal,
            ) is Some by {
                assert(prefix[i] == cands[i]);
            }
            assert(candidate_child(cands[n], source, reciprocal) is Some);
            assert(before == ids.drop_last());
            assert(ids.drop_last().push(ids[n]) =~= ids);
        }
        match candidate_child(cands.last(), source, reciprocal) {
            Some(id) => {
                let idx = idx0.push(n);
                assert(picks(before.push(id), ids, idx));
                idx
            },
            None => idx0,
        }
    }
}

proof fn lemma_status_picks(
    cands: Seq<CandidateView>,
    source: u128,
    reciprocal: Set<u128>,
    vocabulary: StatusVocabulary,
    status: StatusOption,
) -> (idx: Seq<int>)
    ensures
        picks(
            children_with_status(cands, source, reciprocal, vocabulary, status),
            canonical_children(cands, source, reciprocal),
            idx,
        ),
    decreases cands.len(),
{
    if cands.len() == 0 {
        Seq::empty()
    } else {
        let prefix = cands.drop_last();
        let idx0 = lemma_status_picks(prefix, source, reciprocal, vocabulary, status);
        let before = canonical_children(prefix, source, reciprocal);
        match candidate_child(cands.last(), source, reciprocal) {
            Some(id) => if status_of_value(vocabulary, cands.last().status_values) == Some(status) {
                idx0.push(before.len() as int)
            } else {
                idx0
            },
            None => idx0,
        }
    }
}

proof fn lemma_blocking_picks(
    cands: Seq<CandidateView>,
    source: u128,
    reciprocal: Set<u128>,
    vocabulary: StatusVocabulary,
) -> (idx: Seq<int>)
    ensures
        picks(
            blocking_children(cands, source, reciprocal, vocabulary),
            canonical_children(cands, source, reciprocal),
            idx,
        ),
    decreases cands.len(),
{
    if cands.len() == 0 {
        Seq::empty()
    } else {
        let prefix = cands.drop_last();
        let idx0 = lemma_blocking_picks(prefix, source, reciprocal, vocabulary);
        let before = canonical_children(prefix, source, reciprocal);
        match candidate_child(cands.last(), source, reciprocal) {
            Some(id) => if !is_terminal(cands.last().status_values, vocabulary) {
                idx0.push(before.len() as int)
            } else {
                idx0
            },
            None => idx0,
        }
    }
}

/// Positions in the stored list of the children with a given Status.
proof fn lemma_status_in_place(
    cands: Seq<CandidateView>,
    source: u128,
    reciprocal: Set<u128>,
    vocabulary: StatusVocabulary,
    status: StatusOption,
    ids: Seq<u128>,
) -> (idx: Seq<int>)
    requires
        names_in_place(cands, source, reciprocal, ids),
    ensures
        picks(children_with_status(cands, source, reciprocal, vocabulary, status), ids, idx),
        forall|k: int|
            0 <= k < idx.len() ==> status_of_value(vocabulary, cands[#[trigger] idx[k]].status_values)
                == Some(status),
    decreases cands.len(),
{
    if cands.len() == 0 {
        Seq::empty()
    } else {
        let n = cands.len() - 1;
        let prefix = cands.drop_last();
        assert forall|i: int| 0 <= i < prefix.len() implies (#[trigger] candidate_child(
            prefix[i],
            source,
            reciprocal,
        ) is None || candidate_child(prefix[i], source, reciprocal) == Some(ids.drop_last()[i])) by {
            assert(prefix[i] == cands[i]);
            assert(candidate_child(cands[i], source, reciprocal) is None || candidate_child(cands[i], source, reciprocal) == Some(ids[i]));
        }
        let idx0 = lemma_status_in_place(prefix, source, reciprocal, vocabulary, status, ids.drop_last());
        assert forall|k: int| 0 <= k < idx0.len() implies status_of_value(
            vocabulary,
            cands[#[trigger] idx0[k]].status_values,
        ) == Some(status) by {
            assert(cands[idx0[k]] == prefix[idx0[k]]);
        }
        assert(candidate_child(cands[n], source, reciprocal) is None || candidate_child(cands[n], source, reciprocal) == Some(ids[n]));
        match candidate_child(cands.last(), source, reciprocal) {
            Some(id) => if status_of_value(vocabulary, cands.last().status_values) == Some(status) {
                let idx = idx0.push(n);
                assert(idx[idx0.len() as int] == n);
                idx
            } else {
                idx0
            },
            None => idx0,
        }
    }
}

/// A task's Completed and Canceled children never share an id when the
/// candidates are the elements of its stored Subtasks list.
proof fn lemma_completed_canceled_disjoint(
    cands: Seq<CandidateView>,
    source: u128,
    reciprocal: Set<u128>,
    vocabulary: StatusVocabulary,
    ids: Seq<u128>,
)
    requires
        names_in_place(cands, source, reciprocal, ids),
        ids.no_duplicates(),
    ensures
        forall|i: int, j: int|
            0 <= i < children_with_status(
                cands,
                source,
                reciprocal,
                vocabulary,
                StatusOption::Completed,
            ).len() && 0 <= j < children_with_status(
                cands,
                source,
                reciprocal,
                vocabulary,
                StatusOption::Canceled,
            ).len() ==> #[trigger] children_with_status(
                cands,
                source,
                reciprocal,
                vocabulary,
                StatusOption::Completed,
            )[i] != #[trigger] children_with_status(
                cands,
                source,
                reciprocal,
                vocabulary,
                StatusOption::Canceled,
            )[j],
{
    let completed = children_with_status(cands, source, reciprocal, vocabulary, StatusOption::Completed);
    let canceled = children_with_status(cands, source, reciprocal, vocabulary, StatusOption::Canceled);
    let a = lemma_status_in_place(cands, source, reciprocal, vocabulary, StatusOption::Completed, ids);
    let b = lemma_status_in_place(cands, source, reciprocal, vocabulary, StatusOption::Canceled, ids);
    assert forall|i: int, j: int|
        0 <= i < completed.len() && 0 <= j < canceled.len() implies #[trigger] completed[i]
        != #[trigger] canceled[j] by {
        assert(completed[i] == ids[a[i]]);
        assert(canceled[j] == ids[b[j]]);
        assert(status_of_value(vocabulary, cands[a[i]].status_values) == Some(StatusOption::Completed));
        assert(status_of_value(vocabulary, cands[b[j]].status_values) == Some(StatusOption::Canceled));
    }
}

/// The shape of a progress snapshot: its Completed and Canceled ids are picked
/// in order out of its subtask ids and share none, and its subtask ids are
/// picked in order out of the stored Subtasks list (when the candidates are
/// that list's elements). When nothing is unavailable, the subtask ids are the
/// stored list itself, each task once and never the task itself, and they are
/// exactly the children whose Parent Task names the task back as its only
/// reference, with no child naming the task any other way.
pub proof fn lemma_progress_snapshot_structure(
    task_id: u128,
    vocabulary: StatusVocabulary,
    subtasks_values: Option<Json>,
    cands: Seq<CandidateView>,
    parents: Seq<ParentRowView>,
    snapshot: TaskSubtaskProgressSnapshot,
)
    requires
        progress_snapshot_of(task_id, vocabulary, subtasks_values, cands, parents, snapshot),
    ensures
        snapshot.task_id == task_id,
        is_subsequence(snapshot.completed_subtask_ids@, snapshot.subtask_ids@),
        is_subsequence(snapshot.canceled_subtask_ids@, snapshot.subtask_ids@),
        candidates_follow(cands, subtasks_values) ==> forall|i: int, j: int|
            0 <= i < snapshot.completed_subtask_ids@.len() && 0 <= j
                < snapshot.canceled_subtask_ids@.len() ==> #[trigger] snapshot.completed_subtask_ids@[i]
                != #[trigger] snapshot.canceled_subtask_ids@[j],
        candidates_follow(cands, subtasks_values) && stored_subtasks(subtasks_values, task_id) is Some
            ==> is_subsequence(
            snapshot.subtask_ids@,
            stored_subtasks(subtasks_values, task_id)->Some_0,
        ),
        !snapshot.has_unavailable_subtasks ==> {
            &&& stored_subtasks(subtasks_values, task_id) == Some(snapshot.subtask_ids@)
            &&& snapshot.subtask_ids@.no_duplicates()
            &&& !snapshot.subtask_ids@.contains(task_id)
            &&& snapshot.subtask_ids@.to_set() == reciprocal_children(parents, task_id)
            &&& !broken_parent_edge(parents, task_id)
        },
{
    let completed = snapshot.completed_subtask_ids@;
    let canceled = snapshot.canceled_subtask_ids@;
    let subtask_ids = snapshot.subtask_ids@;
    match stored_subtasks(subtasks_values, task_id) {
        None => {
            assert(picks(completed, subtask_ids, Seq::empty()));
            assert(picks(canceled, subtask_ids, Seq::empty()));
        },
        Some(ids) => {
            let reciprocal = reciprocal_children(parents, task_id);
            let a = lemma_status_picks(cands, task_id, reciprocal, vocabulary, StatusOption::Completed);
            assert(picks(completed, subtask_ids, a));
            let b = lemma_status_picks(cands, task_id, reciprocal, vocabulary, StatusOption::Canceled);
            assert(picks(canceled, subtask_ids, b));
            lemma_stored_subtasks_facts(subtasks_values, task_id, ids, cands, reciprocal);
            if candidates_follow(cands, subtasks_values) {
                lemma_completed_canceled_disjoint(cands, task_id, reciprocal, vocabulary, ids);
                let c = lemma_canonical_picks(cands, task_id, reciprocal, ids);
                assert(picks(subtask_ids, ids, c));
            }
        },
    }
}

/// The shape of a completion readiness: ready exactly when no subtask blocks
/// and none is unavailable; blocked with no ids when the Subtasks list is
/// malformed; the blocking ids are picked in order out of the subtask ids, and
/// those out of the stored Subtasks list (when the candidates are that list's
/// elements). When nothing is unavailable, the subtask ids are the stored list
/// itself, and they are exactly the children whose Parent Task names the task
/// back as its only reference, with no child naming the task any other way.
pub proof fn lemma_completion_readiness_structure(
    task_id: u128,
    vocabulary: StatusVocabulary,
    subtasks_values: Option<Json>,
    cands: Seq<CandidateView>,
    parents: Seq<ParentRowView>,
    r: SubtaskReadinessView,
)
    requires
        completion_readiness_of(task_id, vocabulary, subtasks_values, cands, parents, r),
    ensures
        r.task_id == task_id,
        (r.readiness == TaskReadiness::Ready) == (r.blocking_subtask_ids.len() == 0
            && !r.has_unavailable_subtasks),
        stored_subtasks(subtasks_values, task_id) is None ==> {
            &&& r.subtask_ids.len() == 0
            &&& r.blocking_subtask_ids.len() == 0
            &&& r.has_unavailable_subtasks
        },
        is_subsequence(r.blocking_subtask_ids, r.subtask_ids),
        candidates_follow(cands, subtasks_values) && stored_subtasks(subtasks_values, task_id) is Some
            ==> is_subsequence(r.subtask_ids, stored_subtasks(subtasks_values, task_id)->Some_0),
        candidates_follow(cands, subtasks_values) && !r.has_unavailable_subtasks ==> {
            &&& stored_subtasks(subtasks_values, task_id) == Some(r.subtask_ids)
            &&& !r.subtask_ids.contains(task_id)
            &&& r.subtask_ids.to_set() == reciprocal_children(parents, task_id)
            &&& !broken_parent_edge(parents, task_id)
        },
{
    match stored_subtasks(subtasks_values, task_id) {
        None => {
            assert(picks(r.blocking_subtask_ids, r.subtask_ids, Seq::empty()));
        },
        Some(ids) => {
            let reciprocal = reciprocal_children(parents, task_id);
            let a = lemma_blocking_picks(cands, task_id, reciprocal, vocabulary);
            assert(picks(r.blocking_subtask_ids, r.subtask_ids, a));
            lemma_stored_subtasks_facts(subtasks_values, task_id, ids, cands, reciprocal);
            if candidates_follow(cands, subtasks_values) {
                let c = lemma_canonical_picks(cands, task_id, reciprocal, ids);
                assert(picks(r.subtask_ids, ids, c));
            }
        },
    }
}

} // verus!
