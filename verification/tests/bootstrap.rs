use pc_custom::bootstrap::{bootstrap_status, engine_gate, fail_closed_status};
use pc_custom::error::CoreError;
use pc_custom::presentation::BootstrapStatus;

fn ready() -> BootstrapStatus {
    BootstrapStatus {
        mode: "ready".to_owned(),
        os_label: "Windows 11 24H2".to_owned(),
        build: Some(26_100),
        message: "変更前を保存し、適用後と復元後を検証します。".to_owned(),
        recovery_count: 0,
    }
}

#[test]
fn a_failed_start_keeps_every_change_closed() {
    let init = Some(CoreError::storage());
    let error = engine_gate(&init, None, true).unwrap_err();
    assert_eq!(error.code, "STORAGE_FAILURE");
    let status = bootstrap_status(&init, None, Some(Ok(ready())));
    assert_eq!(status.mode, "recovery_required");
    assert_eq!(status.os_label, "安全コアを開始できません");
    assert_eq!(status.message, "変更記録を安全に保存できませんでした。設定は変更していません。");
}

#[test]
fn a_watcher_problem_closes_the_gate_after_a_clean_start() {
    let watcher = CoreError::recovery_required("監視");
    assert_eq!(engine_gate(&None, Some(watcher.clone()), true).unwrap_err().user_message, "監視");
    assert_eq!(bootstrap_status(&None, Some(watcher), Some(Ok(ready()))).message, "監視");
}

#[test]
fn without_an_engine_nothing_changes() {
    let error = engine_gate(&None, None, false).unwrap_err();
    assert_eq!(error.code, "RECOVERY_REQUIRED");
    assert_eq!(
        bootstrap_status(&None, None, None).message,
        "安全コアを初期化できないため、変更操作を停止しています。"
    );
}

#[test]
fn a_clean_start_shows_the_engine_status() {
    assert!(engine_gate(&None, None, true).is_ok());
    assert_eq!(bootstrap_status(&None, None, Some(Ok(ready()))), ready());
    let failed = bootstrap_status(&None, None, Some(Err(CoreError::storage())));
    assert_eq!(failed.mode, "recovery_required");
    let closed = fail_closed_status("x".to_owned());
    assert_eq!(closed.build, None);
    assert_eq!(closed.recovery_count, 0);
}
