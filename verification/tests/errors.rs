use pc_custom::action::{ActionError, ActionErrorCode, ActionStage};
use pc_custom::engine::token::random_token;
use pc_custom::error::CoreError;

#[test]
fn an_action_failure_keeps_its_code_stage_and_diagnostic_id() {
    let error = ActionError::new(
        ActionErrorCode::ExternalConflict,
        ActionStage::Rollback,
        false,
        "action.test.external_change",
    );
    let diagnostic = error.diagnostic_id;
    let outward: CoreError = error.into();
    assert_eq!(outward.code, "EXTERNAL_CONFLICT");
    assert_eq!(outward.stage, "ROLLBACK");
    assert!(!outward.retryable);
    assert_eq!(outward.user_message, "適用後に別の変更を検出したため、自動では上書きしません。");
    assert_eq!(outward.diagnostic_id, diagnostic);
}

#[test]
fn a_changed_topology_says_no_window_was_moved() {
    let error = ActionError::new(
        ActionErrorCode::DisplayTopologyChanged,
        ActionStage::Apply,
        true,
        "action.window_layout.display_topology_changed",
    );
    let outward = CoreError::from_action_error(error);
    assert_eq!(outward.code, "DISPLAY_TOPOLOGY_CHANGED");
    assert!(outward.retryable);
    assert_eq!(
        outward.user_message,
        "画面の構成が保存したときと違います。ウィンドウは動かしていません。"
    );
}

#[test]
fn a_recovery_failure_names_the_unverified_build() {
    let outward = CoreError::from(ActionError::recovery_required(ActionStage::Recovery, "x"));
    assert_eq!(outward.code, "RECOVERY_REQUIRED");
    assert_eq!(
        outward.user_message,
        "未検証のWindowsビルドです。自動書き込みを止め、復旧確認が必要です。"
    );
}

#[test]
fn a_preview_token_is_64_lower_hex_digits_and_fresh() {
    let first = random_token().expect("secure random source");
    let second = random_token().expect("secure random source");
    assert_eq!(first.len(), 64);
    assert!(first.chars().all(|c| c.is_ascii_digit() || ('a'..='f').contains(&c)));
    assert_ne!(first, second);
}

#[test]
fn errors_carry_fresh_diagnostic_ids() {
    let a = CoreError::storage();
    let b = CoreError::storage();
    assert_eq!(a.code, "STORAGE_FAILURE");
    assert_ne!(a.diagnostic_id, b.diagnostic_id);
}
