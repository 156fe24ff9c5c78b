//! The decisions of running and restoring a manual profile (one without an
//! executable binding). The engine calls and the profile store are the
//! application's part.

use vstd::prelude::*;
use crate::action::ActionKind;
use crate::error::{CoreError, CoreResult};
use super::lease::strs;

verus! {

/// What running or restoring a manual profile did.
#[derive(Debug, Clone)]
pub struct ManualProfileResult {
    pub transaction_id: String,
    pub status: String,
    pub reversible_item_count: usize,
    pub message: String,
    pub details: Vec<String>,
}

/// One item of the committed transaction, as its timeline lists it.
#[derive(Debug, Clone)]
pub struct ManualRunItem {
    pub item_id: String,
    pub rollback_available: bool,
}

pub open spec fn not_manual_message() -> Seq<char> {
    "ゲームプロファイルは『いま実行』の対象ではありません。"@
}

pub open spec fn already_running_message() -> Seq<char> {
    "この手動モードは既に実行中です。先に実行した分を復元してください。"@
}

pub open spec fn nothing_to_run_message() -> Seq<char> {
    "実行するActionがありません。"@
}

/// A manual profile may run when it is manual, not already running and has
/// something to run; the first of these that fails is the error.
pub fn check_manual_run(is_manual: bool, has_active_run: bool, action_count: usize) -> (r: CoreResult<()>)
    ensures
        r is Ok <==> is_manual && !has_active_run && action_count > 0,
        r matches Err(e) ==> e.code@ == "INVALID_REQUEST"@ && e.user_message@ == (if !is_manual {
            not_manual_message()
        } else if has_active_run {
            already_running_message()
        } else {
            nothing_to_run_message()
        }),
{
    if !is_manual {
        return Err(CoreError::invalid_request("ゲームプロファイルは『いま実行』の対象ではありません。"));
    }
    if has_active_run {
        return Err(
            CoreError::invalid_request("この手動モードは既に実行中です。先に実行した分を復元してください。"),
        );
    }
    if action_count == 0 {
        return Err(CoreError::invalid_request("実行するActionがありません。"));
    }
    Ok(())
}

/// Only Actions that change something can run in a manual profile.
pub fn manual_kind_allowed(kind: ActionKind) -> (r: bool)
    ensures
        r == (kind == ActionKind::Persistent || kind == ActionKind::Session || kind == ActionKind::OneWay),
{
    match kind {
        ActionKind::Persistent | ActionKind::Session | ActionKind::OneWay => true,
        _ => false,
    }
}

pub open spec fn missing_items_message() -> Seq<char> {
    "手動モードの変更記録が不足しています。"@
}

/// The reversible item IDs, in timeline order.
pub open spec fn spec_reversible_ids(items: Seq<ManualRunItem>) -> Seq<Seq<char>>
    decreases items.len(),
{
    if items.len() == 0 {
        Seq::empty()
    } else {
        let before = spec_reversible_ids(items.drop_last());
        if items.last().rollback_available {
            before.push(items.last().item_id@)
        } else {
            before
        }
    }
}

/// Checks a manual run's commit: it must have succeeded and its timeline
/// must list one item per Action. Then the reversible items, in the
/// timeline's order (newest first, the order to restore in), are recorded.
pub fn manual_commit_items(
    commit_succeeded: bool,
    commit_message: &str,
    items: &[ManualRunItem],
    action_count: usize,
) -> (r: CoreResult<Vec<String>>)
    ensures
        !commit_succeeded ==> (r matches Err(e) && e.code@ == "RECOVERY_REQUIRED"@ && e.user_message@
            == commit_message@),
        commit_succeeded && items@.len() != action_count ==> (r matches Err(e) && e.code@
            == "RECOVERY_REQUIRED"@ && e.user_message@ == missing_items_message()),
        r is Ok <==> commit_succeeded && items@.len() == action_count,
        r matches Ok(ids) ==> strs(ids@) == spec_reversible_ids(items@),
{
    if !commit_succeeded {
        return Err(CoreError::recovery_required(commit_message));
    }
    if items.len() != action_count {
        return Err(CoreError::recovery_required("手動モードの変更記録が不足しています。"));
    }
    let mut ids: Vec<String> = Vec::new();
    let mut k: usize = 0;
    while k < items.len()
        invariant
            k <= items@.len(),
            strs(ids@) == spec_reversible_ids(items@.take(k as int)),
        decreases items@.len() - k,
    {
        proof {
            assert(items@.take(k as int + 1).drop_last() =~= items@.take(k as int));
        }
        if items[k].rollback_available {
            let ghost before = ids@;
            ids.push(items[k].item_id.clone());
            assert(strs(ids@) =~= strs(before).push(items@[k as int].item_id@));
        }
        k += 1;
    }
    proof {
        assert(items@.take(items@.len() as int) =~= items@);
    }
    Ok(ids)
}

/// The order to restore items in when the run could not be recorded: the
/// stored order, which is already newest first.
pub fn compensation_order(item_ids: &[String]) -> (r: Vec<String>)
    ensures
        strs(r@) == strs(item_ids@),
{
    let mut r: Vec<String> = Vec::new();
    let mut k: usize = 0;
    while k < item_ids.len()
        invariant
            k <= item_ids@.len(),
            strs(r@) == strs(item_ids@.take(k as int)),
        decreases item_ids@.len() - k,
    {
        let ghost before = r@;
        r.push(item_ids[k].clone());
        assert(strs(r@) =~= strs(before).push(item_ids@[k as int]@));
        assert(strs(item_ids@.take(k as int + 1)) =~= strs(item_ids@.take(k as int)).push(
            item_ids@[k as int]@,
        ));
        k += 1;
    }
    assert(item_ids@.take(item_ids@.len() as int) =~= item_ids@);
    r
}

pub open spec fn compensation_failed_message() -> Seq<char> {
    "手動モードの実行記録を保存できず、一部を復元できませんでした。変更履歴を確認してください。"@
}

/// What a failed save of the run record ends in: if compensating failed
/// anywhere, recovery is needed; otherwise the save error itself.
pub fn compensation_outcome(rollback_failed: bool, persist_error: CoreError) -> (e: CoreError)
    ensures
        rollback_failed ==> e.code@ == "RECOVERY_REQUIRED"@ && e.user_message@ == compensation_failed_message(),
        !rollback_failed ==> e == persist_error,
{
    if rollback_failed {
        CoreError::recovery_required(
            "手動モードの実行記録を保存できず、一部を復元できませんでした。変更履歴を確認してください。",
        )
    } else {
        persist_error
    }
}

pub open spec fn launched_only_message() -> Seq<char> {
    "アプリを起動しました。起動したアプリは自動で終了しません。"@
}

pub open spec fn workspace_started_message() -> Seq<char> {
    "一時ワークスペースを始めました。開始時に捕捉した窓と、このアプリが変更した設定だけを『終わる』で戻せます。"@
}

pub open spec fn manual_ran_message() -> Seq<char> {
    "手動モードを実行しました。『実行した分を戻す』で可逆な変更だけを元へ戻せます。起動したアプリは終了しません。"@
}

/// The message after a manual run.
pub fn manual_run_message(reversible_count: usize, has_window_layout: bool) -> (s: String)
    ensures
        s@ == (if reversible_count == 0 {
            launched_only_message()
        } else if has_window_layout {
            workspace_started_message()
        } else {
            manual_ran_message()
        }),
{
    if reversible_count == 0 {
        "アプリを起動しました。起動したアプリは自動で終了しません。".to_owned()
    } else if has_window_layout {
        "一時ワークスペースを始めました。開始時に捕捉した窓と、このアプリが変更した設定だけを『終わる』で戻せます。".to_owned()
    } else {
        "手動モードを実行しました。『実行した分を戻す』で可逆な変更だけを元へ戻せます。起動したアプリは終了しません。".to_owned()
    }
}

/// The result of a manual run whose commit succeeded and whose reversible
/// items (`reversible_item_ids`, as `manual_commit_items` gave them) were
/// recorded: status `succeeded`, how many items can be restored, the
/// message for that, and the commit's details.
pub fn manual_run_result(
    transaction_id: String,
    reversible_item_ids: &[String],
    has_window_layout: bool,
    details: Vec<String>,
) -> (r: ManualProfileResult)
    ensures
        r.transaction_id == transaction_id,
        r.status@ == "succeeded"@,
        r.reversible_item_count == reversible_item_ids@.len(),
        r.message@ == (if reversible_item_ids@.len() == 0 {
            launched_only_message()
        } else if has_window_layout {
            workspace_started_message()
        } else {
            manual_ran_message()
        }),
        r.details == details,
{
    let count = reversible_item_ids.len();
    ManualProfileResult {
        transaction_id,
        status: "succeeded".to_owned(),
        reversible_item_count: count,
        message: manual_run_message(count, has_window_layout),
        details,
    }
}

pub open spec fn workspace_ended_message() -> Seq<char> {
    "一時ワークスペースを終わりました。窓と設定を戻しました。アプリは閉じていません。"@
}

pub open spec fn manual_restored_message() -> Seq<char> {
    "この手動モードが変更した可逆項目を逆順に元へ戻しました。起動したアプリは終了していません。"@
}

/// The message after restoring a manual run.
pub fn manual_restore_message(has_window_layout: bool) -> (s: String)
    ensures
        s@ == (if has_window_layout {
            workspace_ended_message()
        } else {
            manual_restored_message()
        }),
{
    if has_window_layout {
        "一時ワークスペースを終わりました。窓と設定を戻しました。アプリは閉じていません。".to_owned()
    } else {
        "この手動モードが変更した可逆項目を逆順に元へ戻しました。起動したアプリは終了していません。".to_owned()
    }
}

/// The result of restoring every recorded item of a manual run: status
/// `rolled_back`, how many items were restored, the message for that, and
/// the details the restores reported.
pub fn manual_restore_result(
    transaction_id: String,
    restored_count: usize,
    has_window_layout: bool,
    details: Vec<String>,
) -> (r: ManualProfileResult)
    ensures
        r.transaction_id == transaction_id,
        r.status@ == "rolled_back"@,
        r.reversible_item_count == restored_count,
        r.message@ == (if has_window_layout {
            workspace_ended_message()
        } else {
            manual_restored_message()
        }),
        r.details == details,
{
    ManualProfileResult {
        transaction_id,
        status: "rolled_back".to_owned(),
        reversible_item_count: restored_count,
        message: manual_restore_message(has_window_layout),
        details,
    }
}

} // verus!
