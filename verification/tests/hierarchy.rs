use task_governance::property_value::PropertyValue;
use task_governance::status_transition::TaskLock;
use task_governance::task_hierarchy::{
    append_child, parse_parent_id, parse_task_ids, remove_child, removed_subtasks, HierarchyAction,
    HierarchyEvent, HierarchyFault, LinkParent, LinkSubtasks, TaskHierarchyMutationOutcome,
};

fn ids_of(value: &Option<PropertyValue>) -> Vec<String> {
    match value {
        Some(PropertyValue::EntityRef(refs)) => refs.iter().map(|r| r.entity_id.clone()).collect(),
        Some(_) => panic!("not a reference list"),
        None => Vec::new(),
    }
}

fn text(id: u128) -> String {
    uuid::Uuid::from_u128(id).to_string()
}

#[test]
fn subtask_list_edits_keep_order() {
    assert_eq!(remove_child(&vec![1, 2, 3, 2], 2), vec![1, 3]);
    assert_eq!(append_child(vec![1, 2], 3), vec![1, 2, 3]);
    assert_eq!(append_child(vec![1, 2], 2), vec![1, 2]);
    assert_eq!(removed_subtasks(&vec![4, 5, 6], &vec![6, 7]), vec![4, 5]);
}

#[test]
fn stored_ids_parse_all_or_nothing() {
    assert_eq!(parse_task_ids(&vec![text(1), text(2)]), Some(vec![1, 2]));
    assert_eq!(parse_task_ids(&vec![text(1), "x".to_owned()]), None);
    assert_eq!(parse_parent_id(None), Ok(None));
    assert_eq!(parse_parent_id(Some(text(9))), Ok(Some(9)));
    assert_eq!(parse_parent_id(Some("nope".to_owned())), Err(()));
}

#[test]
fn a_task_cannot_be_its_own_parent() {
    let mut link: LinkParent<()> = LinkParent::new(0x1, Some(0x1));
    assert!(matches!(
        link.step(HierarchyEvent::Begin),
        HierarchyAction::Finish(TaskHierarchyMutationOutcome::Cycle)
    ));
}

#[test]
fn reparenting_moves_the_child_between_subtask_lists() {
    let mut link: LinkParent<&str> = LinkParent::new(0x1, Some(0x3));
    assert!(matches!(link.step(HierarchyEvent::Begin), HierarchyAction::AcquireLock(TaskLock::Hierarchy)));
    assert!(matches!(
        link.step(HierarchyEvent::Locked),
        HierarchyAction::LockLiveTasks { task_ids } if task_ids == vec![0x1, 0x3]
    ));
    assert!(matches!(
        link.step(HierarchyEvent::LiveTasks(2)),
        HierarchyAction::CheckParentCycle { child: 0x1, parent: 0x3 }
    ));
    assert!(matches!(link.step(HierarchyEvent::CycleFound(false)), HierarchyAction::ReadParent { task_id: 0x1 }));
    assert!(matches!(link.step(HierarchyEvent::ParentRead(Some(0x2))), HierarchyAction::ReadSubtasks { task_id: 0x2 }));
    match link.step(HierarchyEvent::SubtasksRead(vec![0x1, 0x4])) {
        HierarchyAction::WriteSubtasks { task_id, value } => {
            assert_eq!(task_id, 0x2);
            assert_eq!(ids_of(&value), vec![text(0x4)]);
        }
        other => panic!("unexpected {other:?}"),
    }
    match link.step(HierarchyEvent::SubtasksWritten(true)) {
        HierarchyAction::WriteParent { task_id, value } => {
            assert_eq!(task_id, 0x1);
            assert_eq!(ids_of(&value), vec![text(0x3)]);
        }
        other => panic!("unexpected {other:?}"),
    }
    assert!(matches!(link.step(HierarchyEvent::ParentWritten(Some("parent"))), HierarchyAction::ReadSubtasks { task_id: 0x3 }));
    match link.step(HierarchyEvent::SubtasksRead(vec![0x5])) {
        HierarchyAction::WriteSubtasks { task_id, value } => {
            assert_eq!(task_id, 0x3);
            assert_eq!(ids_of(&value), vec![text(0x5), text(0x1)]);
        }
        other => panic!("unexpected {other:?}"),
    }
    assert!(matches!(link.step(HierarchyEvent::SubtasksWritten(true)), HierarchyAction::Commit));
    assert!(matches!(
        link.step(HierarchyEvent::Committed),
        HierarchyAction::Finish(TaskHierarchyMutationOutcome::Updated("parent"))
    ));
}

#[test]
fn parent_link_refusals() {
    let mut cyclic: LinkParent<()> = LinkParent::new(0x1, Some(0x3));
    cyclic.step(HierarchyEvent::Begin);
    cyclic.step(HierarchyEvent::Locked);
    cyclic.step(HierarchyEvent::LiveTasks(2));
    assert!(matches!(
        cyclic.step(HierarchyEvent::CycleFound(true)),
        HierarchyAction::Finish(TaskHierarchyMutationOutcome::Cycle)
    ));

    let mut dead: LinkParent<()> = LinkParent::new(0x1, Some(0x3));
    dead.step(HierarchyEvent::Begin);
    dead.step(HierarchyEvent::Locked);
    assert!(matches!(
        dead.step(HierarchyEvent::LiveTasks(1)),
        HierarchyAction::Finish(TaskHierarchyMutationOutcome::Unavailable)
    ));

    let mut orphan: LinkParent<()> = LinkParent::new(0x1, None);
    orphan.step(HierarchyEvent::Begin);
    orphan.step(HierarchyEvent::Locked);
    assert!(matches!(orphan.step(HierarchyEvent::LiveTasks(1)), HierarchyAction::ReadParent { task_id: 0x1 }));
    assert!(matches!(orphan.step(HierarchyEvent::ParentRead(Some(0x2))), HierarchyAction::ReadSubtasks { task_id: 0x2 }));
    orphan.step(HierarchyEvent::SubtasksRead(vec![0x1]));
    assert!(matches!(
        orphan.step(HierarchyEvent::SubtasksWritten(false)),
        HierarchyAction::Fail(HierarchyFault::MissingSubtasksRow)
    ));
}

#[test]
fn subtask_lists_cannot_name_the_task_or_repeat() {
    let mut own: LinkSubtasks<()> = LinkSubtasks::new(0x1, vec![0x2, 0x1]);
    assert!(matches!(
        own.step(HierarchyEvent::Begin),
        HierarchyAction::Finish(TaskHierarchyMutationOutcome::Cycle)
    ));
    let mut repeated: LinkSubtasks<()> = LinkSubtasks::new(0x1, vec![0x2, 0x2]);
    assert!(matches!(
        repeated.step(HierarchyEvent::Begin),
        HierarchyAction::Fail(HierarchyFault::DuplicateReferences)
    ));
}

#[test]
fn subtask_replacement_adopts_listed_children_and_releases_the_rest() {
    let mut link: LinkSubtasks<&str> = LinkSubtasks::new(0x1, vec![0x3, 0x2]);
    link.step(HierarchyEvent::Begin);
    assert!(matches!(
        link.step(HierarchyEvent::Locked),
        HierarchyAction::LockLiveTasks { task_ids } if task_ids == vec![0x1, 0x2, 0x3]
    ));
    assert!(matches!(link.step(HierarchyEvent::LiveTasks(3)), HierarchyAction::CheckParentCycle { child: 0x3, parent: 0x1 }));
    assert!(matches!(link.step(HierarchyEvent::CycleFound(false)), HierarchyAction::CheckParentCycle { child: 0x2, parent: 0x1 }));
    assert!(matches!(link.step(HierarchyEvent::CycleFound(false)), HierarchyAction::ReadSubtasks { task_id: 0x1 }));
    match link.step(HierarchyEvent::SubtasksRead(vec![0x2, 0x4])) {
        HierarchyAction::WriteSubtasks { task_id, value } => {
            assert_eq!(task_id, 0x1);
            assert_eq!(ids_of(&value), vec![text(0x3), text(0x2)]);
        }
        other => panic!("unexpected {other:?}"),
    }
    assert!(matches!(link.step(HierarchyEvent::SubtasksStored(Some("list"))), HierarchyAction::ReadParent { task_id: 0x3 }));
    // Child 3 moves away from parent 5.
    assert!(matches!(link.step(HierarchyEvent::ParentRead(Some(0x5))), HierarchyAction::ReadSubtasks { task_id: 0x5 }));
    match link.step(HierarchyEvent::SubtasksRead(vec![0x3])) {
        HierarchyAction::WriteSubtasks { task_id, value } => {
            assert_eq!(task_id, 0x5);
            assert!(value.is_none());
        }
        other => panic!("unexpected {other:?}"),
    }
    match link.step(HierarchyEvent::SubtasksWritten(true)) {
        HierarchyAction::WriteParent { task_id, value } => {
            assert_eq!(task_id, 0x3);
            assert_eq!(ids_of(&value), vec![text(0x1)]);
        }
        other => panic!("unexpected {other:?}"),
    }
    assert!(matches!(link.step(HierarchyEvent::ParentWritten(Some("c3"))), HierarchyAction::ReadParent { task_id: 0x2 }));
    // Child 2 already points at the task.
    assert!(matches!(link.step(HierarchyEvent::ParentRead(Some(0x1))), HierarchyAction::WriteParent { task_id: 0x2, .. }));
    // Child 4 is no longer listed and still points at the task: it is released.
    assert!(matches!(link.step(HierarchyEvent::ParentWritten(Some("c2"))), HierarchyAction::ReadParent { task_id: 0x4 }));
    assert!(matches!(
        link.step(HierarchyEvent::ParentRead(Some(0x1))),
        HierarchyAction::WriteParent { task_id: 0x4, value: None }
    ));
    assert!(matches!(link.step(HierarchyEvent::ParentWritten(Some("c4"))), HierarchyAction::Commit));
    assert!(matches!(
        link.step(HierarchyEvent::Committed),
        HierarchyAction::Finish(TaskHierarchyMutationOutcome::Updated("list"))
    ));
}
