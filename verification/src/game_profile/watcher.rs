//! The background watcher's health and the rules that judge one polling
//! cycle. The thread, the lock around the health and the process snapshot
//! itself live with the application.

use vstd::prelude::*;
use crate::action::ProcessFileIdentity;
use crate::error::CoreError;
use crate::text::{concat, decimal, spec_decimal};
use super::{EventOutcome, ExitOutcome, InstanceKey, ProfileError};

verus! {

/// One problem the watcher saw. A sticky issue comes from a failed apply or
/// restore and stays until the watcher restarts; any other clears at the next
/// clean cycle.
pub struct WatcherIssue {
    pub error: CoreError,
    pub sticky: bool,
}

/// The watcher's current problem, if any.
pub struct WatcherHealth {
    pub issue: Option<WatcherIssue>,
}

fn copy_error(e: &CoreError) -> (r: CoreError)
    ensures
        r == *e,
{
    CoreError {
        code: e.code.clone(),
        stage: e.stage.clone(),
        retryable: e.retryable,
        user_message: e.user_message.clone(),
        diagnostic_id: e.diagnostic_id,
    }
}

impl WatcherHealth {
    pub fn new() -> (h: WatcherHealth)
        ensures
            h.issue is None,
    {
        WatcherHealth { issue: None }
    }

    /// Records an issue; a transient one never replaces a sticky one.
    pub fn record(&mut self, error: CoreError, sticky: bool)
        ensures
            if (old(self).issue matches Some(i) && i.sticky) && !sticky {
                final(self).issue == old(self).issue
            } else {
                final(self).issue == Some(WatcherIssue { error, sticky })
            },
    {
        let keep = match &self.issue {
            Some(issue) => issue.sticky && !sticky,
            None => false,
        };
        if keep {
            return;
        }
        self.issue = Some(WatcherIssue { error, sticky });
    }

    /// Forgets a transient issue; a sticky one stays.
    pub fn clear_transient(&mut self)
        ensures
            if old(self).issue matches Some(i) && !i.sticky {
                final(self).issue is None
            } else {
                final(self).issue == old(self).issue
            },
    {
        let transient = match &self.issue {
            Some(issue) => !issue.sticky,
            None => false,
        };
        if transient {
            self.issue = None;
        }
    }

    pub fn has_sticky_issue(&self) -> (r: bool)
        ensures
            r == (self.issue matches Some(i) && i.sticky),
    {
        match &self.issue {
            Some(issue) => issue.sticky,
            None => false,
        }
    }

    /// The error to show, if there is an issue.
    pub fn error(&self) -> (r: Option<CoreError>)
        ensures
            match self.issue {
                Some(i) => r == Some(i.error),
                None => r is None,
            },
    {
        match &self.issue {
            Some(issue) => Some(copy_error(&issue.error)),
            None => None,
        }
    }
}

pub open spec fn spec_sync_failures_message(count: nat) -> Seq<char> {
    "ゲームプロファイル監視で"@ + spec_decimal(count)
        + "件の定義または復元エラーを検出しました。自動適用を無効化し、変更記録を確認してください。"@
}

/// One error for all the profile definitions or restores that failed while
/// syncing, and whether it is sticky: it is when any of them needs recovery.
pub fn sync_failures_error(failures: &[(String, CoreError)]) -> (r: Option<(CoreError, bool)>)
    ensures
        failures@.len() == 0 <==> r is None,
        r matches Some((e, sticky)) ==> {
            &&& sticky == exists|i: int|
                0 <= i < failures@.len() && #[trigger] failures@[i].1.code@ == "RECOVERY_REQUIRED"@
            &&& e.user_message@ == spec_sync_failures_message(failures@.len())
            &&& !e.retryable
            &&& sticky ==> e.code@ == "RECOVERY_REQUIRED"@ && e.stage@ == "RECOVERY"@
            &&& !sticky ==> e.code@ == "PROFILE_DEFINITION_INVALID"@ && e.stage@ == "PROFILE_WATCHER"@
        },
{
    if failures.len() == 0 {
        return None;
    }
    let recovery_code = "RECOVERY_REQUIRED".to_owned();
    let mut recovery_required = false;
    let mut i: usize = 0;
    while i < failures.len()
        invariant
            i <= failures@.len(),
            recovery_code@ == "RECOVERY_REQUIRED"@,
            recovery_required == exists|j: int|
                0 <= j < i && #[trigger] failures@[j].1.code@ == "RECOVERY_REQUIRED"@,
        decreases failures@.len() - i,
    {
        if failures[i].1.code == recovery_code {
            recovery_required = true;
        }
        i += 1;
    }
    let message = concat(
        concat("ゲームプロファイル監視で".to_owned(), decimal(failures.len() as u64).as_str()),
        "件の定義または復元エラーを検出しました。自動適用を無効化し、変更記録を確認してください。",
    );
    let error = if recovery_required {
        CoreError::recovery_required(message.as_str())
    } else {
        CoreError::new("PROFILE_DEFINITION_INVALID", "PROFILE_WATCHER", false, message.as_str())
    };
    Some((error, recovery_required))
}

/// Whether any exit left a restore unfinished.
pub fn has_partial_rollback(outcomes: &[EventOutcome]) -> (r: bool)
    ensures
        r == exists|i: int|
            0 <= i < outcomes@.len() && #[trigger] outcomes@[i] matches EventOutcome::Exit(
                ExitOutcome::PartiallyFailed { .. },
            ),
{
    let mut i: usize = 0;
    while i < outcomes.len()
        invariant
            i <= outcomes@.len(),
            forall|j: int|
                0 <= j < i ==> !(#[trigger] outcomes@[j] matches EventOutcome::Exit(
                    ExitOutcome::PartiallyFailed { .. },
                )),
        decreases outcomes@.len() - i,
    {
        match &outcomes[i] {
            EventOutcome::Exit(ExitOutcome::PartiallyFailed { .. }) => {
                return true;
            },
            _ => {},
        }
        i += 1;
    }
    false
}

pub open spec fn spec_runtime_error_message() -> Seq<char> {
    "ゲームプロファイルの適用または復元を完了できませんでした。自動適用を無効化し、変更記録を確認してください。"@
}

/// Any failure of the supervisor needs recovery; its detail stays out of the
/// message.
pub fn runtime_error(_error: ProfileError) -> (e: CoreError)
    ensures
        e.code@ == "RECOVERY_REQUIRED"@,
        !e.retryable,
        e.user_message@ == spec_runtime_error_message(),
{
    CoreError::recovery_required(
        "ゲームプロファイルの適用または復元を完了できませんでした。自動適用を無効化し、変更記録を確認してください。",
    )
}

pub open spec fn spec_partial_rollback_message() -> Seq<char> {
    "ゲームプロファイルの一部設定を復元できませんでした。変更記録からの復旧が必要です。"@
}

/// Records what one tick of the runtime did, and says whether it went
/// cleanly. A failure or an unfinished restore is a sticky issue.
pub fn record_tick_result(tick_result: Result<Vec<EventOutcome>, ProfileError>, health: &mut WatcherHealth) -> (r:
    bool)
    ensures
        r == (tick_result matches Ok(outcomes) && !exists|i: int|
            0 <= i < outcomes@.len() && #[trigger] outcomes@[i] matches EventOutcome::Exit(
                ExitOutcome::PartiallyFailed { .. },
            )),
        r ==> final(health).issue == old(health).issue,
        !r ==> (final(health).issue matches Some(i) && i.sticky && i.error.code@ == "RECOVERY_REQUIRED"@),
        !r && tick_result is Err ==> (final(health).issue matches Some(i)
            && i.error.user_message@ == spec_runtime_error_message()),
        !r && tick_result is Ok ==> (final(health).issue matches Some(i)
            && i.error.user_message@ == spec_partial_rollback_message()),
{
    match tick_result {
        Err(error) => {
            health.record(runtime_error(error), true);
            false
        },
        Ok(outcomes) => {
            if has_partial_rollback(outcomes.as_slice()) {
                health.record(
                    CoreError::recovery_required(
                        "ゲームプロファイルの一部設定を復元できませんでした。変更記録からの復旧が必要です。",
                    ),
                    true,
                );
                false
            } else {
                true
            }
        },
    }
}

/// What checking one known instance on its own found.
#[derive(Debug, Clone, Copy, PartialEq, Eq, Structural)]
pub enum ExitCheck {
    Exited,
    Running,
    /// The instance's state could not be read.
    Unknown,
}

/// The instances whose exit was confirmed, in order.
pub open spec fn confirmed_of(checks: Seq<(InstanceKey, ExitCheck)>) -> Seq<InstanceKey>
    decreases checks.len(),
{
    if checks.len() == 0 {
        Seq::empty()
    } else {
        let before = confirmed_of(checks.drop_last());
        if checks.last().1 == ExitCheck::Exited {
            before.push(checks.last().0)
        } else {
            before
        }
    }
}

/// How many instances could not be checked.
pub open spec fn unknown_of(checks: Seq<(InstanceKey, ExitCheck)>) -> nat
    decreases checks.len(),
{
    if checks.len() == 0 {
        0
    } else {
        unknown_of(checks.drop_last()) + if checks.last().1 == ExitCheck::Unknown {
            1nat
        } else {
            0nat
        }
    }
}

proof fn lemma_unknown_bound(checks: Seq<(InstanceKey, ExitCheck)>)
    ensures
        unknown_of(checks) <= checks.len(),
    decreases checks.len(),
{
    if checks.len() > 0 {
        lemma_unknown_bound(checks.drop_last());
    }
}

/// Sorts the individual checks of known instances into confirmed exits and
/// the number that could not be read; a running instance is neither.
pub fn tally_exit_checks(checks: &[(InstanceKey, ExitCheck)]) -> (r: (Vec<InstanceKey>, usize))
    ensures
        r.0@ == confirmed_of(checks@),
        r.1 == unknown_of(checks@),
{
    let mut confirmed: Vec<InstanceKey> = Vec::new();
    let mut unknown: usize = 0;
    let mut i: usize = 0;
    while i < checks.len()
        invariant
            i <= checks@.len(),
            confirmed@ == confirmed_of(checks@.take(i as int)),
            unknown == unknown_of(checks@.take(i as int)),
        decreases checks@.len() - i,
    {
        proof {
            assert(checks@.take(i + 1).drop_last() =~= checks@.take(i as int));
            lemma_unknown_bound(checks@.take(i as int));
        }
        let (instance, check) = checks[i];
        match check {
            ExitCheck::Exited => confirmed.push(instance),
            ExitCheck::Running => {},
            ExitCheck::Unknown => unknown = unknown + 1,
        }
        i = i + 1;
    }
    proof {
        assert(checks@.take(checks@.len() as int) =~= checks@);
    }
    (confirmed, unknown)
}

pub open spec fn spec_unknown_exit_message(count: nat) -> Seq<char> {
    "実行状態を確認できないゲームプロセスが"@ + spec_decimal(count) + "件あるため、終了判定を保留しています。"@
}

/// The transient issue for instances whose exit could not be decided.
pub fn unknown_exit_error(count: usize) -> (e: CoreError)
    ensures
        e.code@ == "PROFILE_PROCESS_EXIT_UNKNOWN"@,
        e.stage@ == "PROFILE_WATCHER"@,
        e.retryable,
        e.user_message@ == spec_unknown_exit_message(count as nat),
{
    let message = concat(
        concat("実行状態を確認できないゲームプロセスが".to_owned(), decimal(count as u64).as_str()),
        "件あるため、終了判定を保留しています。",
    );
    CoreError::new("PROFILE_PROCESS_EXIT_UNKNOWN", "PROFILE_WATCHER", true, message.as_str())
}

/// One running process as the process snapshot reports it.
#[derive(Debug, Clone)]
pub struct ProcessIdentity {
    pub process_id: u32,
    pub creation_time_100ns: u64,
    pub canonical_path: String,
    pub file_identity: ProcessFileIdentity,
}

/// What one process snapshot could and could not see.
#[derive(Debug, Clone)]
pub struct ProcessSnapshotReport {
    pub processes: Vec<ProcessIdentity>,
    pub inaccessible_or_vanished: u32,
    pub inaccessible_executable_names: Vec<String>,
    pub first_identity_error_code: Option<i32>,
    pub wmi_available: bool,
    pub wmi_failure_operation: Option<&'static str>,
    pub wmi_failure_code: Option<i32>,
}

/// A snapshot is complete only when every process's identity was read and
/// WMI answered without failure; only then may a missing instance count as
/// exited.
pub fn snapshot_is_complete(report: &ProcessSnapshotReport) -> (r: bool)
    ensures
        r == (report.inaccessible_or_vanished == 0 && report.wmi_available
            && report.wmi_failure_operation is None && report.wmi_failure_code is None),
{
    report.inaccessible_or_vanished == 0 && report.wmi_available && report.wmi_failure_operation.is_none()
        && report.wmi_failure_code.is_none()
}

} // verus!
