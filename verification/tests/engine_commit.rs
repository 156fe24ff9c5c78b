use pc_custom::action::{ActionError, ActionErrorCode, ActionStage};
use pc_custom::backup::fingerprint::Fingerprint;
use pc_custom::engine::commit::{
    apply_verification_failure, check_commit, check_item_fresh, commit_apply_pass, commit_sequence,
    commit_step, CommitRun, ItemFreshness,
    commit_succeeded_result, refusal_error, CommitRefusal, PreviewRecord,
};

fn preview(expires_at_ms: u64) -> PreviewRecord {
    PreviewRecord { os_fingerprint: Fingerprint::of_bytes(b"26100"), expires_at_ms }
}

#[test]
fn a_commit_starts_only_from_a_live_preview_on_the_same_windows() {
    let same = Fingerprint::of_bytes(b"26100");
    let other = Fingerprint::of_bytes(b"26200");
    assert_eq!(commit_step(None, 10, same, false), Some(CommitRefusal::UnknownPreview));
    assert_eq!(commit_step(Some(preview(9)), 10, same, false), Some(CommitRefusal::ExpiredPreview));
    assert_eq!(commit_step(Some(preview(10)), 10, other, false), Some(CommitRefusal::IdentityChanged));
    assert_eq!(commit_step(Some(preview(10)), 10, same, true), Some(CommitRefusal::RecoveryPending));
    assert_eq!(commit_step(Some(preview(10)), 10, same, false), None);
    // Expiry is checked before the identity.
    assert_eq!(commit_step(Some(preview(9)), 10, other, true), Some(CommitRefusal::ExpiredPreview));

    let error = check_commit(None, 10, same, false).unwrap_err();
    assert_eq!(error.code, "INVALID_REQUEST");
    assert_eq!(error.user_message, "プレビューが期限切れか、既に使用されています。");
    let error = check_commit(Some(preview(10)), 10, other, false).unwrap_err();
    assert_eq!(error.code, "RECOVERY_REQUIRED");
    assert_eq!(error.user_message, "プレビュー後にWindows識別情報が変わったため、書き込みを停止しました。");
    let record = check_commit(Some(preview(10)), 10, same, false).unwrap();
    assert_eq!(record.expires_at_ms, 10);

    assert_eq!(
        refusal_error(CommitRefusal::ExpiredPreview).user_message,
        "プレビューの期限が切れました。現在状態を確認し直してください。"
    );
    assert_eq!(
        refusal_error(CommitRefusal::RecoveryPending).user_message,
        "未復元項目を解決するまで、新しい適用は開始できません。"
    );
}

#[test]
fn a_changed_item_makes_the_preview_stale() {
    let before = Fingerprint::of_bytes(b"dark");
    assert!(check_item_fresh(Some(before), Fingerprint::of_bytes(b"dark")).is_ok());
    let error = check_item_fresh(Some(before), Fingerprint::of_bytes(b"light")).unwrap_err();
    assert_eq!(error.code, "STALE_PREVIEW");
    assert_eq!(error.stage, "VALIDATE");
    assert_eq!(error.user_message, "確認後に状態が変わりました。差分を確認し直してください。");
    assert!(check_item_fresh(None, before).is_err());
}

#[test]
fn an_unverified_apply_stops_the_commit_with_the_right_error() {
    assert!(apply_verification_failure(Ok(true)).is_none());
    let mismatch = apply_verification_failure(Ok(false)).unwrap();
    assert_eq!(mismatch.code, ActionErrorCode::StateUnknown);
    assert_eq!(mismatch.stage, ActionStage::VerifyApplied);
    assert_eq!(mismatch.user_message_key, "action.verify_applied.mismatch");
    let own = ActionError::new(ActionErrorCode::AccessDenied, ActionStage::Apply, false, "denied");
    assert_eq!(apply_verification_failure(Err(own)).unwrap().code, ActionErrorCode::AccessDenied);

    let result = commit_succeeded_result([3u8; 16]);
    assert_eq!(result.status, "succeeded");
    assert_eq!(result.message, "全Actionを適用し、現在状態を再確認しました。");
    assert_eq!(result.transaction_id, [3u8; 16]);
}

#[test]
fn the_apply_loop_stops_at_the_first_item_that_does_not_verify() {
    let (applied, failure) = commit_apply_pass(vec![Ok(true), Ok(true), Ok(false), Ok(true)]);
    assert_eq!(applied, vec![0, 1]);
    let (index, error) = failure.unwrap();
    assert_eq!(index, 2);
    assert_eq!(error.user_message_key, "action.verify_applied.mismatch");

    let own = ActionError::new(ActionErrorCode::AccessDenied, ActionStage::Apply, false, "denied");
    let (applied, failure) = commit_apply_pass(vec![Err(own), Ok(true)]);
    assert!(applied.is_empty());
    assert_eq!(failure.unwrap().1.code, ActionErrorCode::AccessDenied);

    let (applied, failure) = commit_apply_pass(vec![Ok(true), Ok(true)]);
    assert_eq!(applied, vec![0, 1]);
    assert!(failure.is_none());
}

#[test]
fn a_whole_commit_applies_only_after_every_check_passed() {
    let same = Fingerprint::of_bytes(b"26100");
    let fresh = ItemFreshness { before: Some(Fingerprint::of_bytes(b"dark")), current: Fingerprint::of_bytes(b"dark") };
    let stale = ItemFreshness { before: Some(Fingerprint::of_bytes(b"dark")), current: Fingerprint::of_bytes(b"light") };

    match commit_sequence(None, 10, same, false, &vec![fresh], vec![Ok(true)], [1u8; 16]) {
        CommitRun::Refused(e) => assert_eq!(e.code, "INVALID_REQUEST"),
        _ => panic!("an unknown preview must be refused"),
    }
    match commit_sequence(Some(preview(10)), 10, same, false, &vec![fresh, stale], vec![Ok(true), Ok(true)], [1u8; 16]) {
        CommitRun::Refused(e) => assert_eq!(e.code, "STALE_PREVIEW"),
        _ => panic!("a stale item must be refused"),
    }
    match commit_sequence(Some(preview(10)), 10, same, false, &vec![fresh, fresh], vec![Ok(true), Ok(true)], [1u8; 16]) {
        CommitRun::Succeeded(result) => {
            assert_eq!(result.status, "succeeded");
            assert_eq!(result.transaction_id, [1u8; 16]);
        }
        _ => panic!("every item verified"),
    }
    match commit_sequence(Some(preview(10)), 10, same, false, &vec![fresh, fresh], vec![Ok(true), Ok(false)], [1u8; 16]) {
        CommitRun::Failed { applied, failed, error } => {
            assert_eq!(applied, vec![0]);
            assert_eq!(failed, 1);
            assert_eq!(error.code, ActionErrorCode::StateUnknown);
        }
        _ => panic!("the second item did not verify"),
    }
}
