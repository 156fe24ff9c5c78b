use std::cell::RefCell;
use std::rc::Rc;

use pc_custom::action::{ActionId, ProcessFileIdentity};
use pc_custom::error::CoreError;
use pc_custom::game_profile::manual::{
    check_manual_run, compensation_order, compensation_outcome, manual_commit_items,
    manual_kind_allowed, manual_restore_message, manual_restore_result, manual_run_message,
    manual_run_result, ManualRunItem,
};
use pc_custom::action::ActionKind;
use pc_custom::game_profile::supervisor::{accept_applied, ProfileSupervisor};
use pc_custom::game_profile::watcher::{
    record_tick_result, snapshot_is_complete, sync_failures_error, ProcessSnapshotReport,
    WatcherHealth,
    tally_exit_checks, unknown_exit_error, ExitCheck,
};
use pc_custom::game_profile::{
    AppliedAction, ApplyRecord, RollbackRecord, ConflictPolicy, EventOutcome, ExitOutcome, GameProfile, GameProfileId,
    InstanceKey, LaunchOutcome, ObservedEvent, PlannedAction, ProfileActionSink, ProfileBinding,
    ProfileError, ProfileSessionId, ResourceIntent, TrackingMode,
};
use serde_json::Value;
use vstd::seq::Seq;
use uuid::Uuid;

#[derive(Default)]
struct FakeLog {
    applied: Vec<Vec<ActionId>>,
    rolled_back: Vec<String>,
    counter: u64,
    fail_rollback: bool,
}

#[derive(Clone)]
struct FakeSink {
    log: Rc<RefCell<FakeLog>>,
}

impl FakeSink {
    fn new() -> Self {
        Self {
            log: Rc::new(RefCell::new(FakeLog::default())),
        }
    }
    fn apply_calls(&self) -> usize {
        self.log.borrow().applied.len()
    }
    fn total_applied(&self) -> usize {
        self.log.borrow().applied.iter().map(Vec::len).sum()
    }
    fn rolled_back(&self) -> Vec<String> {
        self.log.borrow().rolled_back.clone()
    }
}

impl ProfileActionSink for FakeSink {
    // The logs are the trait's specification; a test sink is never verified
    // and they are never called.
    fn apply_log(&self) -> Seq<ApplyRecord> {
        unreachable!()
    }

    fn rollback_log(&self) -> Seq<RollbackRecord> {
        unreachable!()
    }

    fn apply(
        &mut self,
        _session: ProfileSessionId,
        actions: &[PlannedAction],
    ) -> Result<Vec<AppliedAction>, ProfileError> {
        let mut log = self.log.borrow_mut();
        log.applied.push(actions.iter().map(|a| a.action_id).collect());
        let mut out = Vec::with_capacity(actions.len());
        for action in actions {
            log.counter += 1;
            out.push(AppliedAction {
                action_id: action.action_id,
                reference: format!("ref-{}", log.counter),
            });
        }
        Ok(out)
    }

    fn rollback(&mut self, applied: &AppliedAction) -> Result<(), ProfileError> {
        let mut log = self.log.borrow_mut();
        if log.fail_rollback {
            return Err(ProfileError::Sink("forced rollback failure".to_owned()));
        }
        log.rolled_back.push(applied.reference.clone());
        Ok(())
    }
}

fn binding() -> ProfileBinding {
    ProfileBinding {
        canonical_path: r"C:\Games\Example\game.exe".to_owned(),
        file_identity: ProcessFileIdentity {
            volume_serial_number: 1,
            file_id: [0u8; 16],
        },
        tracking: TrackingMode::ExactExecutable,
    }
}

fn action(id: ActionId, key: &str, desired: &str, optional: bool) -> PlannedAction {
    PlannedAction {
        action_id: id,
        parameters_json: Value::Null,
        intents: vec![ResourceIntent {
            resource_key: key.to_owned(),
            desired: desired.to_owned(),
        }],
        optional,
    }
}

fn profile(seed: u128, actions: Vec<PlannedAction>, policy: ConflictPolicy) -> GameProfile {
    GameProfile {
        id: GameProfileId(Uuid::from_u128(seed).as_u128()),
        name: format!("Profile {seed}"),
        binding: binding(),
        actions,
        conflict_policy: policy,
        automation_enabled: true,
    }
}

fn instance(pid: u32) -> InstanceKey {
    InstanceKey {
        process_id: pid,
        creation_time_100ns: u64::from(pid) * 1000,
    }
}

fn launched(p: &GameProfile, pid: u32) -> ObservedEvent {
    ObservedEvent::Launched {
        profile: p.id,
        instance: instance(pid),
    }
}

fn exited(p: &GameProfile, pid: u32) -> ObservedEvent {
    ObservedEvent::Exited {
        profile: p.id,
        instance: instance(pid),
    }
}

#[test]
fn single_profile_applies_on_launch_and_restores_on_exit() {
    let sink = FakeSink::new();
    let mut sup = ProfileSupervisor::new(sink.clone());
    let p = profile(1, vec![action(ActionId::ThemeColorMode, "theme.color_mode", "dark", false)], ConflictPolicy::AbortProfile);
    sup.register_profile(p.clone());

    let out = sup.handle(launched(&p, 100)).unwrap();
    assert!(matches!(out, EventOutcome::Launch(LaunchOutcome::Applied { .. })));
    assert!(sup.is_active(p.id));
    assert_eq!(sink.total_applied(), 1);

    let out = sup.handle(exited(&p, 100)).unwrap();
    match out {
        EventOutcome::Exit(ExitOutcome::Restored { rolled_back }) => {
            assert_eq!(rolled_back.len(), 1);
        }
        other => panic!("expected Restored, got {other:?}"),
    }
    assert!(!sup.is_active(p.id));
    assert_eq!(sink.rolled_back(), vec!["ref-1".to_owned()]);
}

#[test]
fn duplicate_start_event_does_not_double_apply() {
    let sink = FakeSink::new();
    let mut sup = ProfileSupervisor::new(sink.clone());
    let p = profile(1, vec![action(ActionId::ThemeColorMode, "theme.color_mode", "dark", false)], ConflictPolicy::AbortProfile);
    sup.register_profile(p.clone());

    assert!(matches!(
        sup.handle(launched(&p, 100)).unwrap(),
        EventOutcome::Launch(LaunchOutcome::Applied { .. })
    ));
    assert_eq!(
        sup.handle(launched(&p, 100)).unwrap(),
        EventOutcome::Launch(LaunchOutcome::AlreadyActive)
    );
    assert_eq!(sink.apply_calls(), 1);
    assert_eq!(sink.total_applied(), 1);
}

#[test]
fn two_instances_apply_once_and_restore_once() {
    let sink = FakeSink::new();
    let mut sup = ProfileSupervisor::new(sink.clone());
    let p = profile(1, vec![action(ActionId::ThemeColorMode, "theme.color_mode", "dark", false)], ConflictPolicy::AbortProfile);
    sup.register_profile(p.clone());

    assert!(matches!(
        sup.handle(launched(&p, 100)).unwrap(),
        EventOutcome::Launch(LaunchOutcome::Applied { .. })
    ));
    assert_eq!(
        sup.handle(launched(&p, 200)).unwrap(),
        EventOutcome::Launch(LaunchOutcome::AlreadyActive)
    );
    assert_eq!(
        sup.handle(exited(&p, 100)).unwrap(),
        EventOutcome::Exit(ExitOutcome::StillActive)
    );
    assert!(sup.is_active(p.id));
    match sup.handle(exited(&p, 200)).unwrap() {
        EventOutcome::Exit(ExitOutcome::Restored { rolled_back }) => {
            assert_eq!(rolled_back.len(), 1);
        }
        other => panic!("expected Restored, got {other:?}"),
    }
    assert_eq!(sink.apply_calls(), 1);
    assert_eq!(sink.rolled_back().len(), 1);
}

#[test]
fn two_profiles_same_desired_share_lease_until_last_exit() {
    let sink = FakeSink::new();
    let mut sup = ProfileSupervisor::new(sink.clone());
    let p1 = profile(1, vec![action(ActionId::ThemeColorMode, "theme.color_mode", "dark", false)], ConflictPolicy::AbortProfile);
    let p2 = profile(2, vec![action(ActionId::ThemeColorMode, "theme.color_mode", "dark", false)], ConflictPolicy::AbortProfile);
    sup.register_profile(p1.clone());
    sup.register_profile(p2.clone());

    assert!(matches!(
        sup.handle(launched(&p1, 100)).unwrap(),
        EventOutcome::Launch(LaunchOutcome::Applied { .. })
    ));
    match sup.handle(launched(&p2, 200)).unwrap() {
        EventOutcome::Launch(LaunchOutcome::Applied { applied, joined, .. }) => {
            assert!(applied.is_empty());
            assert_eq!(joined, vec!["theme.color_mode".to_owned()]);
        }
        other => panic!("expected shared Applied, got {other:?}"),
    }
    assert_eq!(sink.apply_calls(), 1);

    match sup.handle(exited(&p1, 100)).unwrap() {
        EventOutcome::Exit(ExitOutcome::Restored { rolled_back }) => {
            assert!(rolled_back.is_empty());
        }
        other => panic!("expected empty Restored, got {other:?}"),
    }
    assert_eq!(sink.rolled_back().len(), 0);
    match sup.handle(exited(&p2, 200)).unwrap() {
        EventOutcome::Exit(ExitOutcome::Restored { rolled_back }) => {
            assert_eq!(rolled_back.len(), 1);
        }
        other => panic!("expected Restored, got {other:?}"),
    }
    assert_eq!(sink.rolled_back(), vec!["ref-1".to_owned()]);
}

#[test]
fn opposite_desired_second_profile_is_conflict_stopped() {
    let sink = FakeSink::new();
    let mut sup = ProfileSupervisor::new(sink.clone());
    let p1 = profile(1, vec![action(ActionId::ThemeColorMode, "theme.color_mode", "dark", false)], ConflictPolicy::AbortProfile);
    let p2 = profile(2, vec![action(ActionId::ThemeColorMode, "theme.color_mode", "light", false)], ConflictPolicy::AbortProfile);
    sup.register_profile(p1.clone());
    sup.register_profile(p2.clone());

    assert!(matches!(
        sup.handle(launched(&p1, 100)).unwrap(),
        EventOutcome::Launch(LaunchOutcome::Applied { .. })
    ));
    match sup.handle(launched(&p2, 200)).unwrap() {
        EventOutcome::Launch(LaunchOutcome::ConflictStopped { conflicts }) => {
            assert_eq!(conflicts, vec!["theme.color_mode".to_owned()]);
        }
        other => panic!("expected ConflictStopped, got {other:?}"),
    }
    assert_eq!(sink.apply_calls(), 1);
    assert_eq!(sink.total_applied(), 1);

    match sup.handle(exited(&p2, 200)).unwrap() {
        EventOutcome::Exit(ExitOutcome::Restored { rolled_back }) => assert!(rolled_back.is_empty()),
        other => panic!("expected empty Restored, got {other:?}"),
    }
    assert_eq!(sink.rolled_back().len(), 0);
    match sup.handle(exited(&p1, 100)).unwrap() {
        EventOutcome::Exit(ExitOutcome::Restored { rolled_back }) => {
            assert_eq!(rolled_back.len(), 1);
        }
        other => panic!("expected Restored, got {other:?}"),
    }
}

#[test]
fn skip_policy_applies_nonconflicting_and_skips_conflicting() {
    let sink = FakeSink::new();
    let mut sup = ProfileSupervisor::new(sink.clone());
    let p1 = profile(1, vec![action(ActionId::ThemeColorMode, "theme.color_mode", "dark", false)], ConflictPolicy::AbortProfile);
    let p2 = profile(
        2,
        vec![
            action(ActionId::ThemeColorMode, "theme.color_mode", "light", false),
            action(ActionId::ExplorerShowExtensions, "explorer.hide_file_ext", "show", false),
        ],
        ConflictPolicy::SkipConflicting,
    );
    sup.register_profile(p1.clone());
    sup.register_profile(p2.clone());

    sup.handle(launched(&p1, 100)).unwrap();
    match sup.handle(launched(&p2, 200)).unwrap() {
        EventOutcome::Launch(LaunchOutcome::Applied { applied, .. }) => {
            assert_eq!(applied.len(), 1);
            assert_eq!(applied[0].action_id, ActionId::ExplorerShowExtensions);
        }
        other => panic!("expected Applied(1), got {other:?}"),
    }
}

#[test]
fn optional_conflicting_action_is_skipped_under_abort_policy() {
    let sink = FakeSink::new();
    let mut sup = ProfileSupervisor::new(sink.clone());
    let p1 = profile(1, vec![action(ActionId::ThemeColorMode, "theme.color_mode", "dark", false)], ConflictPolicy::AbortProfile);
    let p2 = profile(2, vec![action(ActionId::ThemeColorMode, "theme.color_mode", "light", true)], ConflictPolicy::AbortProfile);
    sup.register_profile(p1.clone());
    sup.register_profile(p2.clone());

    sup.handle(launched(&p1, 100)).unwrap();
    match sup.handle(launched(&p2, 200)).unwrap() {
        EventOutcome::Launch(LaunchOutcome::Applied { applied, joined, .. }) => {
            assert!(applied.is_empty());
            assert!(joined.is_empty());
        }
        other => panic!("expected empty Applied, got {other:?}"),
    }
}

#[test]
fn disabled_or_unregistered_profile_is_ignored() {
    let sink = FakeSink::new();
    let mut sup = ProfileSupervisor::new(sink.clone());
    let mut p = profile(1, vec![action(ActionId::ThemeColorMode, "theme.color_mode", "dark", false)], ConflictPolicy::AbortProfile);
    p.automation_enabled = false;
    sup.register_profile(p.clone());

    assert_eq!(
        sup.handle(launched(&p, 100)).unwrap(),
        EventOutcome::Launch(LaunchOutcome::Ignored)
    );
    assert_eq!(sink.apply_calls(), 0);
}

#[test]
fn rollback_failure_is_reported_not_swallowed() {
    let sink = FakeSink::new();
    sink.log.borrow_mut().fail_rollback = true;
    let mut sup = ProfileSupervisor::new(sink.clone());
    let p = profile(1, vec![action(ActionId::ThemeColorMode, "theme.color_mode", "dark", false)], ConflictPolicy::AbortProfile);
    sup.register_profile(p.clone());

    sup.handle(launched(&p, 100)).unwrap();
    match sup.handle(exited(&p, 100)).unwrap() {
        EventOutcome::Exit(ExitOutcome::PartiallyFailed { rolled_back, failed }) => {
            assert!(rolled_back.is_empty());
            assert_eq!(failed.len(), 1);
        }
        other => panic!("expected PartiallyFailed, got {other:?}"),
    }
}

#[test]
fn restores_run_newest_first() {
    let sink = FakeSink::new();
    let mut sup = ProfileSupervisor::new(sink.clone());
    let p = profile(
        1,
        vec![
            action(ActionId::ThemeColorMode, "theme.color_mode", "dark", false),
            action(ActionId::ExplorerShowExtensions, "explorer.hide_file_ext", "show", false),
        ],
        ConflictPolicy::AbortProfile,
    );
    sup.register_profile(p.clone());
    sup.handle(launched(&p, 100)).unwrap();
    sup.handle(exited(&p, 100)).unwrap();
    assert_eq!(sink.rolled_back(), vec!["ref-2".to_owned(), "ref-1".to_owned()]);
}

#[test]
fn an_unknown_exit_is_ignored_and_a_relaunch_applies_again() {
    let sink = FakeSink::new();
    let mut sup = ProfileSupervisor::new(sink.clone());
    let p = profile(1, vec![action(ActionId::ThemeColorMode, "theme.color_mode", "dark", false)], ConflictPolicy::AbortProfile);
    sup.register_profile(p.clone());
    assert_eq!(
        sup.handle(exited(&p, 100)).unwrap(),
        EventOutcome::Exit(ExitOutcome::Ignored)
    );
    sup.handle(launched(&p, 100)).unwrap();
    sup.handle(exited(&p, 100)).unwrap();
    assert!(matches!(
        sup.handle(launched(&p, 300)).unwrap(),
        EventOutcome::Launch(LaunchOutcome::Applied { .. })
    ));
    assert_eq!(sink.apply_calls(), 2);
}

fn test_error(code: &str) -> CoreError {
    CoreError::new(code, "PROFILE_WATCHER", false, "test")
}

#[test]
fn transient_health_clears_but_sticky_runtime_health_does_not() {
    let mut health = WatcherHealth::new();
    health.record(test_error("SNAPSHOT"), false);
    assert_eq!(health.error().expect("transient").code, "SNAPSHOT");
    health.clear_transient();
    assert!(health.error().is_none());

    health.record(test_error("RUNTIME"), true);
    health.record(test_error("SNAPSHOT"), false);
    health.clear_transient();
    assert_eq!(health.error().expect("sticky").code, "RUNTIME");
    assert!(health.has_sticky_issue());
}

#[test]
fn sync_failures_are_aggregated_and_recovery_is_sticky() {
    let failures = vec![
        ("one".to_owned(), test_error("INVALID_REQUEST")),
        ("two".to_owned(), CoreError::recovery_required("rollback failed")),
    ];
    let (error, sticky) = sync_failures_error(&failures).expect("aggregate");
    assert_eq!(error.code, "RECOVERY_REQUIRED");
    assert!(error.user_message.contains("2件"));
    assert!(sticky);
}

#[test]
fn definition_failures_alone_are_not_sticky() {
    assert!(sync_failures_error(&[]).is_none());
    let failures = vec![("one".to_owned(), test_error("INVALID_REQUEST"))];
    let (error, sticky) = sync_failures_error(&failures).expect("aggregate");
    assert_eq!(error.code, "PROFILE_DEFINITION_INVALID");
    assert!(!sticky);
}

#[test]
fn any_identity_gap_or_wmi_failure_marks_snapshot_incomplete() {
    let mut report = ProcessSnapshotReport {
        processes: Vec::new(),
        inaccessible_or_vanished: 0,
        inaccessible_executable_names: Vec::new(),
        first_identity_error_code: None,
        wmi_available: true,
        wmi_failure_operation: None,
        wmi_failure_code: None,
    };
    assert!(snapshot_is_complete(&report));

    report.inaccessible_or_vanished = 1;
    assert!(!snapshot_is_complete(&report));
    report.inaccessible_or_vanished = 0;
    report.wmi_available = false;
    report.wmi_failure_operation = Some("WMI query");
    assert!(!snapshot_is_complete(&report));
}

#[test]
fn an_unfinished_restore_makes_the_tick_a_sticky_failure() {
    let mut health = WatcherHealth::new();
    let outcomes = vec![EventOutcome::Exit(ExitOutcome::PartiallyFailed {
        rolled_back: Vec::new(),
        failed: Vec::new(),
    })];
    assert!(!record_tick_result(Ok(outcomes), &mut health));
    assert!(health.has_sticky_issue());
    let mut clean = WatcherHealth::new();
    assert!(record_tick_result(Ok(Vec::new()), &mut clean));
    assert!(clean.error().is_none());
}

#[test]
fn failed_manual_run_persistence_compensates_in_saved_rollback_order() {
    let ids = vec!["second-applied".to_owned(), "first-applied".to_owned()];
    assert_eq!(
        compensation_order(&ids),
        ids,
        "timeline already stores reverse durable ordinal, the rollback order"
    );
}

#[test]
fn a_manual_run_needs_a_manual_idle_profile_with_actions() {
    assert!(check_manual_run(true, false, 1).is_ok());
    assert_eq!(
        check_manual_run(false, false, 1).unwrap_err().user_message,
        "ゲームプロファイルは『いま実行』の対象ではありません。"
    );
    assert_eq!(
        check_manual_run(true, true, 1).unwrap_err().user_message,
        "この手動モードは既に実行中です。先に実行した分を復元してください。"
    );
    assert_eq!(
        check_manual_run(true, false, 0).unwrap_err().user_message,
        "実行するActionがありません。"
    );
}

#[test]
fn only_reversible_items_are_recorded_and_a_short_timeline_needs_recovery() {
    let items = vec![
        ManualRunItem { item_id: "b".to_owned(), rollback_available: true },
        ManualRunItem { item_id: "launch".to_owned(), rollback_available: false },
        ManualRunItem { item_id: "a".to_owned(), rollback_available: true },
    ];
    assert_eq!(
        manual_commit_items(true, "ok", &items, 3).unwrap(),
        vec!["b".to_owned(), "a".to_owned()]
    );
    assert_eq!(
        manual_commit_items(true, "ok", &items, 4).unwrap_err().code,
        "RECOVERY_REQUIRED"
    );
    assert_eq!(
        manual_commit_items(false, "commit failed", &items, 3).unwrap_err().user_message,
        "commit failed"
    );
    assert_eq!(
        manual_run_message(0, true),
        "アプリを起動しました。起動したアプリは自動で終了しません。"
    );
}

#[test]
fn individual_exit_checks_confirm_only_exited_instances() {
    let key = |pid: u32| InstanceKey { process_id: pid, creation_time_100ns: u64::from(pid) * 10 };
    let (confirmed, unknown) = tally_exit_checks(&[
        (key(1), ExitCheck::Exited),
        (key(2), ExitCheck::Running),
        (key(3), ExitCheck::Unknown),
        (key(4), ExitCheck::Exited),
    ]);
    assert_eq!(confirmed, vec![key(1), key(4)]);
    assert_eq!(unknown, 1);
    let error = unknown_exit_error(unknown);
    assert_eq!(error.code, "PROFILE_PROCESS_EXIT_UNKNOWN");
    assert!(error.retryable);
    assert_eq!(
        error.user_message,
        "実行状態を確認できないゲームプロセスが1件あるため、終了判定を保留しています。"
    );
}

#[test]
fn manual_profiles_run_only_actions_that_change_something() {
    assert!(manual_kind_allowed(ActionKind::Persistent));
    assert!(manual_kind_allowed(ActionKind::Session));
    assert!(manual_kind_allowed(ActionKind::OneWay));
    assert!(!manual_kind_allowed(ActionKind::Observation));
    assert!(!manual_kind_allowed(ActionKind::Guided));
}

#[test]
fn a_failed_run_record_save_reports_what_compensation_left() {
    let saved = CoreError::storage();
    let kept = compensation_outcome(false, saved.clone());
    assert_eq!(kept.code, "STORAGE_FAILURE");
    assert_eq!(kept.diagnostic_id, saved.diagnostic_id);
    let failed = compensation_outcome(true, saved);
    assert_eq!(failed.code, "RECOVERY_REQUIRED");
    assert_eq!(
        failed.user_message,
        "手動モードの実行記録を保存できず、一部を復元できませんでした。変更履歴を確認してください。"
    );
    assert_eq!(
        manual_restore_message(true),
        "一時ワークスペースを終わりました。窓と設定を戻しました。アプリは閉じていません。"
    );
    assert_eq!(
        manual_restore_message(false),
        "この手動モードが変更した可逆項目を逆順に元へ戻しました。起動したアプリは終了していません。"
    );
}

#[test]
fn a_manual_run_result_counts_the_reversible_items() {
    let ids = vec!["b".to_owned(), "a".to_owned()];
    let result = manual_run_result("tx-1".to_owned(), &ids, false, vec!["detail".to_owned()]);
    assert_eq!(result.transaction_id, "tx-1");
    assert_eq!(result.status, "succeeded");
    assert_eq!(result.reversible_item_count, 2);
    assert_eq!(result.message, manual_run_message(2, false));
    assert_eq!(result.details, vec!["detail".to_owned()]);

    let launched_only = manual_run_result("tx-2".to_owned(), &[], true, Vec::new());
    assert_eq!(launched_only.reversible_item_count, 0);
    assert_eq!(launched_only.message, "アプリを起動しました。起動したアプリは自動で終了しません。");

    let restored = manual_restore_result("tx-1".to_owned(), 2, true, Vec::new());
    assert_eq!(restored.status, "rolled_back");
    assert_eq!(restored.reversible_item_count, 2);
    assert_eq!(restored.message, manual_restore_message(true));
}

#[test]
fn a_reply_with_the_wrong_number_of_references_is_refused() {
    let one = vec![AppliedAction { action_id: ActionId::ThemeColorMode, reference: "ref-1".to_owned() }];
    assert_eq!(accept_applied(1, Ok(one.clone())), Ok(one.clone()));
    assert_eq!(
        accept_applied(2, Ok(one)),
        Err(ProfileError::Invariant(
            "sink が適用 Action 数と一致する復元参照を返しませんでした。".to_owned()
        ))
    );
    let failure = ProfileError::Sink("down".to_owned());
    assert_eq!(accept_applied(1, Err(failure.clone())), Err(failure));
}

#[test]
fn a_launch_that_only_joins_leases_calls_no_sink() {
    let sink = FakeSink::new();
    let mut sup = ProfileSupervisor::new(sink.clone());
    let p1 = profile(1, vec![action(ActionId::ThemeColorMode, "theme.color_mode", "dark", false)], ConflictPolicy::AbortProfile);
    let p2 = profile(2, vec![action(ActionId::ThemeColorMode, "theme.color_mode", "dark", false)], ConflictPolicy::AbortProfile);
    sup.register_profile(p1.clone());
    sup.register_profile(p2.clone());
    sup.handle(launched(&p1, 100)).unwrap();
    assert_eq!(sink.apply_calls(), 1);
    match sup.handle(launched(&p2, 200)).unwrap() {
        EventOutcome::Launch(LaunchOutcome::Applied { applied, joined, .. }) => {
            assert!(applied.is_empty());
            assert_eq!(joined, vec!["theme.color_mode".to_owned()]);
        }
        other => panic!("unexpected outcome {other:?}"),
    }
    assert_eq!(sink.apply_calls(), 1);
}

struct ForgetfulSink;

impl ProfileActionSink for ForgetfulSink {
    fn apply_log(&self) -> Seq<ApplyRecord> {
        unreachable!()
    }

    fn rollback_log(&self) -> Seq<RollbackRecord> {
        unreachable!()
    }

    fn apply(
        &mut self,
        _session: ProfileSessionId,
        _actions: &[PlannedAction],
    ) -> Result<Vec<AppliedAction>, ProfileError> {
        Ok(Vec::new())
    }

    fn rollback(&mut self, _applied: &AppliedAction) -> Result<(), ProfileError> {
        Ok(())
    }
}

#[test]
fn a_sink_that_loses_references_stops_the_launch() {
    let mut sup = ProfileSupervisor::new(ForgetfulSink);
    let p = profile(1, vec![action(ActionId::ThemeColorMode, "theme.color_mode", "dark", false)], ConflictPolicy::AbortProfile);
    sup.register_profile(p.clone());
    assert_eq!(
        sup.handle(launched(&p, 100)),
        Err(ProfileError::Invariant(
            "sink が適用 Action 数と一致する復元参照を返しませんでした。".to_owned()
        ))
    );
    // No lease was taken, so the exit restores nothing.
    assert_eq!(
        sup.handle(exited(&p, 100)),
        Ok(EventOutcome::Exit(ExitOutcome::Ignored))
    );
}
