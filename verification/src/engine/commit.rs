//! The checks that come before a preview is committed, the freshness of each
//! item, and the result of a commit that applied everything.
//!
//! The engine takes the preview out of its table, reads the Windows identity
//! and the journal's recovery count, and hands them here; the Action calls
//! and journal writes between the checks stay with the engine.

use vstd::prelude::*;
use crate::action::{ActionError, ActionErrorCode, ActionStage};
use crate::backup::fingerprint::{same_fingerprint, Fingerprint};
use crate::error::{CoreError, CoreResult};
use super::recovery::CommitResult;

verus! {

/// What a commit needs of the preview it commits.
#[derive(Debug, Clone, Copy)]
pub struct PreviewRecord {
    /// The fingerprint of the Windows identity when the preview was made.
    pub os_fingerprint: Fingerprint,
    /// After this instant (Unix milliseconds) the preview is expired.
    pub expires_at_ms: u64,
}

/// Why a commit does not start.
#[derive(Debug, Clone, Copy, PartialEq, Eq, Structural)]
pub enum CommitRefusal {
    /// No preview under that token: expired and dropped, or already used.
    UnknownPreview,
    /// The preview's time ran out.
    ExpiredPreview,
    /// The Windows identity changed since the preview.
    IdentityChanged,
    /// Items from earlier changes still need recovery.
    RecoveryPending,
}

/// The first check that refuses a commit, or none.
pub open spec fn spec_commit_step(
    preview: Option<PreviewRecord>,
    now_ms: u64,
    identity_now: Fingerprint,
    recovery_pending: bool,
) -> Option<CommitRefusal> {
    match preview {
        None => Some(CommitRefusal::UnknownPreview),
        Some(p) => if p.expires_at_ms < now_ms {
            Some(CommitRefusal::ExpiredPreview)
        } else if identity_now.0@ != p.os_fingerprint.0@ {
            Some(CommitRefusal::IdentityChanged)
        } else if recovery_pending {
            Some(CommitRefusal::RecoveryPending)
        } else {
            None
        },
    }
}

/// Decides whether a commit may start: the preview must exist and not be
/// expired, the Windows identity must be the one it was made under, and no
/// earlier item may still need recovery, checked in that order.
pub fn commit_step(
    preview: Option<PreviewRecord>,
    now_ms: u64,
    identity_now: Fingerprint,
    recovery_pending: bool,
) -> (r: Option<CommitRefusal>)
    ensures
        r == spec_commit_step(preview, now_ms, identity_now, recovery_pending),
{
    match preview {
        None => Some(CommitRefusal::UnknownPreview),
        Some(p) => {
            if p.expires_at_ms < now_ms {
                Some(CommitRefusal::ExpiredPreview)
            } else if !same_fingerprint(&identity_now, &p.os_fingerprint) {
                Some(CommitRefusal::IdentityChanged)
            } else if recovery_pending {
                Some(CommitRefusal::RecoveryPending)
            } else {
                None
            }
        },
    }
}

/// The user-facing message of a refusal.
pub open spec fn refusal_message(r: CommitRefusal) -> Seq<char> {
    match r {
        CommitRefusal::UnknownPreview => "プレビューが期限切れか、既に使用されています。"@,
        CommitRefusal::ExpiredPreview => "プレビューの期限が切れました。現在状態を確認し直してください。"@,
        CommitRefusal::IdentityChanged => "プレビュー後にWindows識別情報が変わったため、書き込みを停止しました。"@,
        CommitRefusal::RecoveryPending => "未復元項目を解決するまで、新しい適用は開始できません。"@,
    }
}

/// The error of a refusal: a problem with the preview is an invalid
/// request; a changed identity or pending recovery requires recovery.
pub fn refusal_error(refusal: CommitRefusal) -> (e: CoreError)
    ensures
        e.user_message@ == refusal_message(refusal),
        !e.retryable,
        (refusal == CommitRefusal::UnknownPreview || refusal == CommitRefusal::ExpiredPreview) ==> e.code@
            == "INVALID_REQUEST"@ && e.stage@ == "VALIDATE"@,
        (refusal == CommitRefusal::IdentityChanged || refusal == CommitRefusal::RecoveryPending) ==> e.code@
            == "RECOVERY_REQUIRED"@ && e.stage@ == "RECOVERY"@,
{
    match refusal {
        CommitRefusal::UnknownPreview => CoreError::invalid_request("プレビューが期限切れか、既に使用されています。"),
        CommitRefusal::ExpiredPreview => CoreError::invalid_request(
            "プレビューの期限が切れました。現在状態を確認し直してください。",
        ),
        CommitRefusal::IdentityChanged => CoreError::recovery_required(
            "プレビュー後にWindows識別情報が変わったため、書き込みを停止しました。",
        ),
        CommitRefusal::RecoveryPending => CoreError::recovery_required(
            "未復元項目を解決するまで、新しい適用は開始できません。",
        ),
    }
}

/// The commit's opening check as the caller sees it: `Ok` exactly when no
/// check refuses, otherwise the refusal's error.
pub fn check_commit(
    preview: Option<PreviewRecord>,
    now_ms: u64,
    identity_now: Fingerprint,
    recovery_pending: bool,
) -> (r: CoreResult<PreviewRecord>)
    ensures
        match spec_commit_step(preview, now_ms, identity_now, recovery_pending) {
            None => r == Ok::<PreviewRecord, CoreError>(preview->0),
            Some(refusal) => r matches Err(e) && e.user_message@ == refusal_message(refusal),
        },
{
    match commit_step(preview, now_ms, identity_now, recovery_pending) {
        None => match preview {
            Some(p) => Ok(p),
            None => Err(refusal_error(CommitRefusal::UnknownPreview)),
        },
        Some(refusal) => Err(refusal_error(refusal)),
    }
}

pub open spec fn stale_preview_message() -> Seq<char> {
    "確認後に状態が変わりました。差分を確認し直してください。"@
}

/// An item may be prepared only if its current state is the one the preview
/// showed; otherwise the preview is stale.
pub fn check_item_fresh(before: Option<Fingerprint>, current: Fingerprint) -> (r: CoreResult<()>)
    ensures
        r is Ok <==> (before matches Some(b) && b.0@ == current.0@),
        r matches Err(e) ==> e.code@ == "STALE_PREVIEW"@ && e.stage@ == "VALIDATE"@ && !e.retryable
            && e.user_message@ == stale_preview_message(),
{
    let fresh = match before {
        Some(b) => same_fingerprint(&b, &current),
        None => false,
    };
    if fresh {
        Ok(())
    } else {
        Err(CoreError::new("STALE_PREVIEW", "VALIDATE", false, "確認後に状態が変わりました。差分を確認し直してください。"))
    }
}

/// The error that stops a commit at an item whose verification after
/// applying did not end verified: the Action's own error, or, for a
/// read-back mismatch, a state-unknown error of the verification stage.
pub fn apply_verification_failure(outcome: Result<bool, ActionError>) -> (r: Option<ActionError>)
    ensures
        match outcome {
            Ok(true) => r is None,
            Ok(false) => r matches Some(e) && e.code == ActionErrorCode::StateUnknown && e.stage
                == ActionStage::VerifyApplied && !e.retryable && e.user_message_key@
                == "action.verify_applied.mismatch"@,
            Err(e) => r == Some(e),
        },
{
    match outcome {
        Ok(true) => None,
        Ok(false) => Some(
            ActionError::new(
                ActionErrorCode::StateUnknown,
                ActionStage::VerifyApplied,
                false,
                "action.verify_applied.mismatch",
            ),
        ),
        Err(e) => Some(e),
    }
}

/// The result of a commit whose every Action was applied and verified.
pub fn commit_succeeded_result(transaction_id: [u8; 16]) -> (r: CommitResult)
    ensures
        r.transaction_id == transaction_id,
        r.status@ == "succeeded"@,
        r.message@ == "全Actionを適用し、現在状態を再確認しました。"@,
{
    CommitResult {
        transaction_id,
        status: String::from_str("succeeded"),
        message: String::from_str("全Actionを適用し、現在状態を再確認しました。"),
    }
}

/// How many items, from the first, applied and verified.
pub open spec fn verified_prefix(outcomes: Seq<Result<bool, ActionError>>) -> nat
    decreases outcomes.len(),
{
    if outcomes.len() == 0 {
        0
    } else if outcomes[0] == Ok::<bool, ActionError>(true) {
        1 + verified_prefix(outcomes.subrange(1, outcomes.len() as int))
    } else {
        0
    }
}

proof fn lemma_verified_prefix(outcomes: Seq<Result<bool, ActionError>>)
    ensures
        verified_prefix(outcomes) <= outcomes.len(),
        forall|i: int| 0 <= i < verified_prefix(outcomes) ==> outcomes[i] == Ok::<bool, ActionError>(true),
        verified_prefix(outcomes) < outcomes.len() ==> outcomes[verified_prefix(outcomes) as int]
            != Ok::<bool, ActionError>(true),
    decreases outcomes.len(),
{
    if outcomes.len() > 0 && outcomes[0] == Ok::<bool, ActionError>(true) {
        let rest = outcomes.subrange(1, outcomes.len() as int);
        lemma_verified_prefix(rest);
        assert forall|i: int| 0 <= i < verified_prefix(outcomes) implies outcomes[i] == Ok::<
            bool,
            ActionError,
        >(true) by {
            if i > 0 {
                assert(outcomes[i] == rest[i - 1]);
            }
        }
    }
}

/// The apply loop of a commit, from what applying and verifying each item
/// gave, in order (`Ok(true)` verified, `Ok(false)` read back something
/// else, `Err` the Action's error): the items are applied one after the
/// other; the first that does not verify stops the loop, with the error the
/// rollback after failure is given; the items before it are the applied
/// ones, in order.
#[verifier::loop_isolation(false)]
pub fn commit_apply_pass(outcomes: Vec<Result<bool, ActionError>>) -> (r: (
    Vec<usize>,
    Option<(usize, ActionError)>,
))
    ensures
        ({
            let k = verified_prefix(outcomes@);
            &&& r.0@.len() == k
            &&& forall|i: int| 0 <= i < k ==> r.0@[i] == i
            &&& k == outcomes@.len() <==> r.1 is None
            &&& r.1 matches Some((index, e)) ==> {
                &&& index == k
                &&& outcomes@[k as int] matches Err(own) ==> e == own
                &&& outcomes@[k as int] == Ok::<bool, ActionError>(false) ==> e.code
                    == ActionErrorCode::StateUnknown && e.stage == ActionStage::VerifyApplied
                    && e.user_message_key@ == "action.verify_applied.mismatch"@
            }
        }),
{
    proof {
        lemma_verified_prefix(outcomes@);
    }
    let ghost all = outcomes@;
    let n = outcomes.len();
    let mut applied: Vec<usize> = Vec::new();
    let mut rest = outcomes;
    let mut index: usize = 0;
    while index < n
        invariant
            n == all.len(),
            index <= verified_prefix(all),
            verified_prefix(all) <= n,
            forall|i: int| 0 <= i < verified_prefix(all) ==> all[i] == Ok::<bool, ActionError>(true),
            verified_prefix(all) < n ==> all[verified_prefix(all) as int] != Ok::<bool, ActionError>(true),
            applied@.len() == index,
            forall|i: int| 0 <= i < index ==> applied@[i] == i,
            rest@ == all.subrange(index as int, n as int),
        decreases n - index,
    {
        let outcome = rest.remove(0);
        proof {
            assert(outcome == all[index as int]);
            assert(rest@ =~= all.subrange(index as int + 1, n as int));
        }
        match apply_verification_failure(outcome) {
            Some(e) => {
                proof {
                    if index < verified_prefix(all) {
                        assert(all[index as int] == Ok::<bool, ActionError>(true));
                    }
                    assert(index == verified_prefix(all));
                }
                return (applied, Some((index, e)));
            },
            None => {
                applied.push(index);
                index = index + 1;
            },
        }
    }
    (applied, None)
}

/// What the engine read for one item while preparing a commit: the state
/// fingerprint the preview showed for its Action, if any, and the one read
/// now.
#[derive(Debug, Clone, Copy)]
pub struct ItemFreshness {
    pub before: Option<Fingerprint>,
    pub current: Fingerprint,
}

pub open spec fn is_fresh(c: ItemFreshness) -> bool {
    c.before matches Some(b) && b.0@ == c.current.0@
}

/// The first item that is not fresh, or the number of items.
pub open spec fn first_stale(checks: Seq<ItemFreshness>) -> nat
    decreases checks.len(),
{
    if checks.len() == 0 {
        0
    } else if !is_fresh(checks[0]) {
        0
    } else {
        1 + first_stale(checks.subrange(1, checks.len() as int))
    }
}

proof fn lemma_first_stale(checks: Seq<ItemFreshness>)
    ensures
        first_stale(checks) <= checks.len(),
        forall|i: int| 0 <= i < first_stale(checks) ==> is_fresh(#[trigger] checks[i]),
        first_stale(checks) < checks.len() ==> !is_fresh(checks[first_stale(checks) as int]),
    decreases checks.len(),
{
    if checks.len() > 0 && is_fresh(checks[0]) {
        let rest = checks.subrange(1, checks.len() as int);
        lemma_first_stale(rest);
        assert forall|i: int| 0 <= i < first_stale(checks) implies is_fresh(#[trigger] checks[i]) by {
            if i > 0 {
                assert(checks[i] == rest[i - 1]);
            }
        }
    }
}

/// How a whole commit ends.
#[derive(Debug, Clone)]
pub enum CommitRun {
    /// Refused before anything was written to the journal or applied.
    Refused(CoreError),
    /// Every item was applied and verified.
    Succeeded(CommitResult),
    /// The item `failed` did not verify, with `error`; the items `applied`
    /// before it are to be rolled back.
    Failed { applied: Vec<usize>, failed: usize, error: ActionError },
}

/// A whole commit, from what the engine observed along the way: the preview
/// taken out under the token (`None` when there was none), the time, the
/// Windows identity, whether recovery is pending, each item's freshness
/// while preparing, and what applying and verifying each item gave. The
/// opening checks come first, then every item must still look as the
/// preview showed; only then is anything applied, in order, stopping at the
/// first item that does not verify. The commit succeeds only when every
/// item applied and verified.
#[verifier::loop_isolation(false)]
pub fn commit_sequence(
    preview: Option<PreviewRecord>,
    now_ms: u64,
    identity_now: Fingerprint,
    recovery_pending: bool,
    checks: &Vec<ItemFreshness>,
    outcomes: Vec<Result<bool, ActionError>>,
    transaction_id: [u8; 16],
) -> (r: CommitRun)
    ensures
        match spec_commit_step(preview, now_ms, identity_now, recovery_pending) {
            Some(refusal) => r matches CommitRun::Refused(e) && e.user_message@ == refusal_message(refusal),
            None => if first_stale(checks@) < checks@.len() {
                r matches CommitRun::Refused(e) && e.code@ == "STALE_PREVIEW"@ && e.user_message@
                    == stale_preview_message()
            } else {
                let k = verified_prefix(outcomes@);
                if k == outcomes@.len() {
                    r matches CommitRun::Succeeded(c) && c.transaction_id == transaction_id && c.status@
                        == "succeeded"@
                } else {
                    r matches CommitRun::Failed { applied, failed, error } && failed == k && applied@.len() == k
                        && (forall|i: int| 0 <= i < k ==> applied@[i] == i) && (outcomes@[k as int] matches Err(
                        own,
                    ) ==> error == own)
                }
            },
        },
{
    match check_commit(preview, now_ms, identity_now, recovery_pending) {
        Err(e) => {
            return CommitRun::Refused(e);
        },
        Ok(_) => {},
    }
    proof {
        lemma_first_stale(checks@);
    }
    let mut i: usize = 0;
    while i < checks.len()
        invariant
            i <= checks@.len(),
            i <= first_stale(checks@),
            first_stale(checks@) <= checks@.len(),
            forall|j: int| 0 <= j < first_stale(checks@) ==> is_fresh(#[trigger] checks@[j]),
            first_stale(checks@) < checks@.len() ==> !is_fresh(checks@[first_stale(checks@) as int]),
        decreases checks@.len() - i,
    {
        match check_item_fresh(checks[i].before, checks[i].current) {
            Err(e) => {
                proof {
                    if i < first_stale(checks@) {
                        assert(is_fresh(checks@[i as int]));
                    }
                }
                return CommitRun::Refused(e);
            },
            Ok(()) => {},
        }
        i = i + 1;
    }
    let (applied, failure) = commit_apply_pass(outcomes);
    match failure {
        None => CommitRun::Succeeded(commit_succeeded_result(transaction_id)),
        Some((failed, error)) => CommitRun::Failed { applied, failed, error },
    }
}

} // verus!
