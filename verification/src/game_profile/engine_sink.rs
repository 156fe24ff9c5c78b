//! The engine's side of a game profile: what a commit and the journal's
//! timeline say about the Actions a profile applied, and what a rollback's
//! result means for the profile.
//!
//! Applying goes preview, commit, then a look-up of each Action's journal
//! item in the committed transaction; restoring rolls one journal item back.
//! The engine calls themselves belong to the caller.

use vstd::prelude::*;
use crate::action::{spec_action_id_str, ActionId};
use crate::engine::recovery::CommitResult;
use crate::error::CoreError;
use crate::ids::{parse_uuid, same_id, spec_uuid_text, uuid_parse, uuid_text};
use crate::text::text_eq;
use super::{AppliedAction, PlannedAction, ProfileError};

verus! {

/// One journal item as the timeline lists it: its ID, its transaction and the
/// textual ID of its Action.
#[derive(Debug, Clone)]
pub struct JournalItemRef {
    pub item_id: [u8; 16],
    pub transaction_id: [u8; 16],
    pub action_id: String,
}

pub open spec fn item_matches(item: JournalItemRef, transaction_id: [u8; 16], action: ActionId) -> bool {
    item.transaction_id == transaction_id && item.action_id@ == spec_action_id_str(action)
}

/// The first timeline entry of the transaction that belongs to `action`.
pub open spec fn is_first_match(
    timeline: Seq<JournalItemRef>,
    transaction_id: [u8; 16],
    action: ActionId,
    i: int,
) -> bool {
    &&& 0 <= i < timeline.len()
    &&& item_matches(timeline[i], transaction_id, action)
    &&& forall|j: int| 0 <= j < i ==> !item_matches(#[trigger] timeline[j], transaction_id, action)
}

pub open spec fn has_match(timeline: Seq<JournalItemRef>, transaction_id: [u8; 16], action: ActionId) -> bool {
    exists|i: int| 0 <= i < timeline.len() && item_matches(#[trigger] timeline[i], transaction_id, action)
}

pub open spec fn unresolved_item_message() -> Seq<char> {
    "適用後のjournal項目を特定できませんでした。"@
}

/// A failed engine call, as the profile sees it: the user message only.
pub fn sink_error(error: CoreError) -> (e: ProfileError)
    ensures
        e == ProfileError::Sink(error.user_message),
{
    ProfileError::Sink(error.user_message)
}

fn find_item(timeline: &[JournalItemRef], transaction_id: [u8; 16], action: ActionId) -> (r: Option<usize>)
    ensures
        match r {
            Some(i) => is_first_match(timeline@, transaction_id, action, i as int),
            None => !has_match(timeline@, transaction_id, action),
        },
{
    let wanted = action.as_str();
    let mut i: usize = 0;
    while i < timeline.len()
        invariant
            i <= timeline.len(),
            wanted@ == spec_action_id_str(action),
            forall|j: int| 0 <= j < i ==> !item_matches(#[trigger] timeline@[j], transaction_id, action),
        decreases timeline.len() - i,
    {
        let entry = &timeline[i];
        if same_id(&entry.transaction_id, &transaction_id) && text_eq(entry.action_id.as_str(), wanted) {
            return Some(i);
        }
        i = i + 1;
    }
    None
}

/// The restore references of a committed profile apply: for each Action, in
/// order, the textual ID of its journal item in the committed transaction.
///
/// A commit whose status is not "succeeded" hands its message back as the
/// sink's error; an Action without an item in the transaction means the
/// journal and the engine disagree, which is an invariant error.
pub fn applied_from_commit(
    actions: &[PlannedAction],
    commit: &CommitResult,
    timeline: &[JournalItemRef],
) -> (r: Result<Vec<AppliedAction>, ProfileError>)
    ensures
        commit.status@ != "succeeded"@ ==> r == Err::<Vec<AppliedAction>, ProfileError>(
            ProfileError::Sink(commit.message),
        ),
        commit.status@ == "succeeded"@ ==> (r is Ok <==> forall|k: int|
            0 <= k < actions.len() ==> has_match(
                timeline@,
                commit.transaction_id,
                #[trigger] actions@[k].action_id,
            )),
        r matches Err(ProfileError::Invariant(m)) ==> m@ == unresolved_item_message(),
        r matches Ok(v) ==> v@.len() == actions@.len() && forall|k: int|
            0 <= k < actions.len() ==> {
                &&& (#[trigger] v@[k]).action_id == actions@[k].action_id
                &&& exists|i: int|
                    is_first_match(timeline@, commit.transaction_id, actions@[k].action_id, i)
                        && v@[k].reference@ == spec_uuid_text(timeline@[i].item_id@)
            },
{
    if !text_eq(commit.status.as_str(), "succeeded") {
        return Err(ProfileError::Sink(commit.message.clone()));
    }
    let mut applied: Vec<AppliedAction> = Vec::new();
    let mut k: usize = 0;
    while k < actions.len()
        invariant
            k <= actions.len(),
            commit.status@ == "succeeded"@,
            applied@.len() == k,
            forall|q: int| 0 <= q < k ==> has_match(timeline@, commit.transaction_id, #[trigger] actions@[q].action_id),
            forall|q: int|
                0 <= q < k ==> {
                    &&& (#[trigger] applied@[q]).action_id == actions@[q].action_id
                    &&& exists|i: int|
                        is_first_match(timeline@, commit.transaction_id, actions@[q].action_id, i)
                            && applied@[q].reference@ == spec_uuid_text(timeline@[i].item_id@)
                },
        decreases actions.len() - k,
    {
        let action_id = actions[k].action_id;
        match find_item(timeline, commit.transaction_id, action_id) {
            None => {
                return Err(ProfileError::Invariant("適用後のjournal項目を特定できませんでした。".to_owned()));
            },
            Some(i) => {
                let reference = uuid_text(timeline[i].item_id);
                applied.push(AppliedAction { action_id, reference });
                proof {
                    assert(is_first_match(timeline@, commit.transaction_id, actions@[k as int].action_id, i as int));
                }
            },
        }
        k = k + 1;
    }
    Ok(applied)
}

pub open spec fn invalid_reference_message() -> Seq<char> {
    "復元参照が不正です。"@
}

/// The journal item a restore reference points to. A reference that
/// `applied_from_commit` made from an item's ID leads back to that item.
pub fn rollback_reference(applied: &AppliedAction) -> (r: Result<[u8; 16], ProfileError>)
    ensures
        match uuid_parse(applied.reference@) {
            Some(id) => r == Ok::<[u8; 16], ProfileError>(id),
            None => r matches Err(ProfileError::Invariant(m)) && m@ == invalid_reference_message(),
        },
        forall|item_id: [u8; 16]| applied.reference@ == #[trigger] spec_uuid_text(item_id@) ==> r
            == Ok::<[u8; 16], ProfileError>(item_id),
{
    match parse_uuid(applied.reference.as_str()) {
        Some(id) => Ok(id),
        None => Err(ProfileError::Invariant("復元参照が不正です。".to_owned())),
    }
}

/// What a rollback's status means for the profile: a rollback that needs
/// recovery or failed is the sink's error, with the rollback's message.
pub fn rollback_outcome(result: &CommitResult) -> (r: Result<(), ProfileError>)
    ensures
        (result.status@ == "recovery_required"@ || result.status@ == "rollback_failed"@) ==> r
            == Err::<(), ProfileError>(ProfileError::Sink(result.message)),
        !(result.status@ == "recovery_required"@ || result.status@ == "rollback_failed"@) ==> r
            is Ok,
{
    let status = result.status.as_str();
    if text_eq(status, "recovery_required") || text_eq(status, "rollback_failed") {
        return Err(ProfileError::Sink(result.message.clone()));
    }
    Ok(())
}

} // verus!
