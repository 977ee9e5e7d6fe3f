//! Entity access receipts as the properties logic reads them, and the shared
//! checks of the batch task reads.

use vstd::prelude::*;

use crate::errors::PropertiesErr;
use crate::ids::{text_equals, uuid_text, uuid_to_text};

verus! {

/// Kinds of entity an access receipt is minted for.
#[derive(Debug, Clone, Copy, PartialEq, Eq, Structural)]
pub enum AccessEntityType {
    Document,
    Project,
    Team,
    Chat,
    Thread,
    Channel,
    Call,
    User,
    Company,
}

/// Who a receipt was minted for.
#[derive(Debug)]
pub enum EntityAccessAuth {
    /// A human user, by user id.
    Authenticated(String),
    /// A bot, by bot id.
    Bot(String),
    /// No credentials.
    Unauthenticated,
    /// A trusted internal caller.
    Internal,
}

/// A minted access receipt for one entity.
#[derive(Debug)]
pub struct AccessReceipt {
    pub auth: EntityAccessAuth,
    pub entity_type: AccessEntityType,
    pub entity_id: String,
}

/// The human user a receipt was minted for, if any.
pub open spec fn receipt_user(receipt: AccessReceipt) -> Option<Seq<char>> {
    match receipt.auth {
        EntityAccessAuth::Authenticated(user) => Some(user@),
        _ => None,
    }
}

impl AccessReceipt {
    /// The human user the receipt was minted for.
    pub fn authenticated_user(&self) -> (user: Option<&String>)
        ensures
            match user {
                Some(u) => receipt_user(*self) == Some(u@),
                None => receipt_user(*self) is None,
            },
    {
        match &self.auth {
            EntityAccessAuth::Authenticated(user) => Some(user),
            _ => None,
        }
    }
}

/// Largest accepted batch of source tasks.
pub const TASK_BATCH_MAX: usize = 200;

/// The outcome of checking the source receipts of a batch read.
#[derive(Debug)]
pub enum ScopedSources {
    /// Nothing was requested; nothing is read.
    Empty,
    /// Every source is a Document receipt of the same human for its task.
    Actor(String),
}

/// Whether a source receipt is the Document receipt of `actor` for task `task_id`.
pub open spec fn source_matches(receipt: AccessReceipt, task_id: u128, actor: Seq<char>) -> bool {
    &&& receipt.entity_type == AccessEntityType::Document
    &&& receipt.entity_id@ == uuid_text(task_id)
    &&& receipt_user(receipt) == Some(actor)
}

/// Whether an error is the batch-size validation failure.
pub open spec fn is_batch_size_error(error: PropertiesErr) -> bool {
    error matches PropertiesErr::Validation(m) && m@ == "At most 200 task IDs may be requested"@
}

/// Checks the receipts of a batch read: at most 200 ids with one receipt each;
/// an empty batch reads nothing; otherwise every receipt must be the Document
/// receipt of the first receipt's human for the task at the same position.
pub fn check_task_sources(sources: &Vec<AccessReceipt>, task_ids: &Vec<u128>) -> (checked: Result<
    ScopedSources,
    PropertiesErr,
>)
    ensures
        (task_ids@.len() > TASK_BATCH_MAX || sources@.len() != task_ids@.len()) ==> (checked matches Err(
            e,
        ) && is_batch_size_error(e)),
        (task_ids@.len() <= TASK_BATCH_MAX && sources@.len() == task_ids@.len()) ==> {
            if sources@.len() == 0 {
                checked matches Ok(ScopedSources::Empty)
            } else {
                match receipt_user(sources@[0]) {
                    None => checked matches Err(PropertiesErr::PermissionDenied),
                    Some(actor) => if forall|i: int|
                        0 <= i < sources@.len() ==> source_matches(
                            #[trigger] sources@[i],
                            task_ids@[i],
                            actor,
                        ) {
                        checked matches Ok(ScopedSources::Actor(a)) && a@ == actor
                    } else {
                        checked matches Err(PropertiesErr::PermissionDenied)
                    },
                }
            }
        },
{
    if task_ids.len() > TASK_BATCH_MAX || sources.len() != task_ids.len() {
        return Err(PropertiesErr::Validation("At most 200 task IDs may be requested".to_owned()));
    }
    if sources.len() == 0 {
        return Ok(ScopedSources::Empty);
    }
    let actor = match sources[0].authenticated_user() {
        Some(user) => user.clone(),
        None => {
            return Err(PropertiesErr::PermissionDenied);
        },
    };
    let mut i: usize = 0;
    while i < sources.len()
        invariant
            0 <= i <= sources.len(),
            sources@.len() == task_ids@.len(),
            task_ids@.len() <= TASK_BATCH_MAX,
            sources@.len() > 0,
            receipt_user(sources@[0]) == Some(actor@),
            forall|j: int| 0 <= j < i ==> source_matches(#[trigger] sources@[j], task_ids@[j], actor@),
        decreases sources.len() - i,
    {
        let source = &sources[i];
        let text = uuid_to_text(task_ids[i]);
        let same_user = match source.authenticated_user() {
            Some(user) => *user == actor,
            None => false,
        };
        if source.entity_type != AccessEntityType::Document || !text_equals(
            source.entity_id.as_str(),
            text.as_str(),
        ) || !same_user {
            assert(!source_matches(sources@[i as int], task_ids@[i as int], actor@));
            return Err(PropertiesErr::PermissionDenied);
        }
        i = i + 1;
    }
    Ok(ScopedSources::Actor(actor))
}

} // verus!
