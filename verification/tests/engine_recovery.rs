use pc_custom::action::ActionKind;
use pc_custom::engine::recovery::{
    clean_reconcile_result, ensure_item_rollbackable, ensure_kind_rollbackable,
    failed_item_disposition, item_rollback_outcome, item_rollback_step, reconcile_pass,
    recovery_step, rollback_failure, rollback_order, undispatched_items, CommitRollback,
    FailedItemDisposition, ItemRollbackStep, ReconcileItemVisit, ReconcileRun,
    ReconcileTransactionVisit, RecoveryItemFacts, RecoveryStep,
};
use pc_custom::action::{ActionError, ActionErrorCode, ActionStage};
use pc_custom::journal::models::{
    bool_i64, timeline_status, to_i64, ItemState, RecoveryClassification, TransactionState,
};

fn facts(state: ItemState, classification: RecoveryClassification) -> RecoveryItemFacts {
    RecoveryItemFacts {
        state,
        identity_known: true,
        action_registered: true,
        classification,
        mutation_allowed: true,
    }
}

#[test]
fn reconciliation_rolls_back_only_values_it_owns() {
    assert_eq!(
        recovery_step(facts(ItemState::RolledBack, RecoveryClassification::Applied)),
        RecoveryStep::Skip
    );
    assert_eq!(
        recovery_step(facts(ItemState::Applied, RecoveryClassification::Original)),
        RecoveryStep::MarkRolledBack
    );
    assert_eq!(
        recovery_step(facts(ItemState::Applied, RecoveryClassification::Applied)),
        RecoveryStep::RollBack
    );
    assert_eq!(
        recovery_step(facts(ItemState::Applied, RecoveryClassification::Third)),
        RecoveryStep::RecordRecovery(RecoveryClassification::Third)
    );
    let mut blocked = facts(ItemState::Applied, RecoveryClassification::Applied);
    blocked.mutation_allowed = false;
    assert_eq!(
        recovery_step(blocked),
        RecoveryStep::RecordRecovery(RecoveryClassification::Unknown)
    );
    let mut unknown_identity = facts(ItemState::Applied, RecoveryClassification::Original);
    unknown_identity.identity_known = false;
    assert_eq!(
        recovery_step(unknown_identity),
        RecoveryStep::RecordRecovery(RecoveryClassification::Unknown)
    );
}

#[test]
fn a_prepared_item_is_never_overwritten() {
    assert_eq!(
        recovery_step(facts(ItemState::Prepared, RecoveryClassification::Applied)),
        RecoveryStep::RecordRecovery(RecoveryClassification::Third)
    );
    assert_eq!(
        recovery_step(facts(ItemState::Prepared, RecoveryClassification::Unknown)),
        RecoveryStep::RecordRecovery(RecoveryClassification::Unknown)
    );
    assert_eq!(
        recovery_step(facts(ItemState::Prepared, RecoveryClassification::Original)),
        RecoveryStep::MarkRolledBack
    );
}

#[test]
fn a_reconciliation_pass_counts_and_summarises() {
    let mut run = ReconcileRun::new();
    run.decide(facts(ItemState::Applied, RecoveryClassification::Original));
    assert_eq!(run.recovered, 1);
    run.decide(facts(ItemState::Applied, RecoveryClassification::Applied));
    run.record_rollback(true);
    assert_eq!(run.recovered, 2);
    assert_eq!(run.finish_transaction(TransactionState::RollingBack), (TransactionState::RolledBack, true));
    let clean = run.result();
    assert_eq!(clean.status, "recovered");
    assert_eq!(clean.recovered_count, 2);
    assert_eq!(clean.message, "未完了の変更を確認し、変更直前へ戻しました。");

    run.decide(facts(ItemState::Applied, RecoveryClassification::Third));
    assert_eq!(
        run.finish_transaction(TransactionState::Applying),
        (TransactionState::RecoveryRequired, false)
    );
    run.record_rollback(false);
    assert_eq!(
        run.finish_transaction(TransactionState::Applying),
        (TransactionState::RollbackFailed, false)
    );
    assert_eq!(
        run.finish_transaction(TransactionState::Succeeded),
        (TransactionState::Succeeded, true)
    );
    let summary = run.result();
    assert_eq!(summary.status, "recovery_required");
    assert_eq!(summary.remaining_count, 2);
    assert_eq!(summary.message, "自動で上書きできない項目があります。タイムラインを確認してください。");

    let nothing = clean_reconcile_result(3);
    assert_eq!(nothing.status, "clean");
    assert_eq!(nothing.remaining_count, 3);
    assert_eq!(nothing.message, "未完了の変更はありません。");
}

#[test]
fn a_failed_commit_rolls_back_in_reverse_apply_order() {
    assert_eq!(
        failed_item_disposition(RecoveryClassification::Original),
        FailedItemDisposition::MarkRolledBack
    );
    assert_eq!(
        failed_item_disposition(RecoveryClassification::Applied),
        FailedItemDisposition::RollBackWithOthers
    );
    assert_eq!(
        failed_item_disposition(RecoveryClassification::Third),
        FailedItemDisposition::RecordRecovery(RecoveryClassification::Third)
    );
    assert_eq!(rollback_order(&vec![0, 1, 2], 3, RecoveryClassification::Applied), vec![3, 2, 1, 0]);
    assert_eq!(rollback_order(&vec![0, 1, 2], 3, RecoveryClassification::Original), vec![2, 1, 0]);
    assert_eq!(undispatched_items(1, 4), vec![2, 3]);
    assert!(undispatched_items(3, 4).is_empty());
}

#[test]
fn a_failed_commit_ends_rolled_back_only_without_any_problem() {
    let clean = CommitRollback::new(FailedItemDisposition::RollBackWithOthers);
    let (state, result) = clean.finish([7; 16]);
    assert_eq!(state, TransactionState::RolledBack);
    assert_eq!(result.status, "rolled_back");
    assert_eq!(result.transaction_id, [7; 16]);
    assert_eq!(result.message, "適用失敗のため、変更済み項目を逆順で元へ戻しました。");

    let kept = CommitRollback::new(FailedItemDisposition::RecordRecovery(RecoveryClassification::Unknown));
    assert_eq!(kept.finish([0; 16]).0, TransactionState::RecoveryRequired);

    let mut blocked = CommitRollback::new(FailedItemDisposition::MarkRolledBack);
    blocked.record_blocked();
    assert_eq!(blocked.finish([0; 16]).0, TransactionState::RecoveryRequired);
    blocked.record_rollback(false);
    let (state, result) = blocked.finish([0; 16]);
    assert_eq!(state, TransactionState::RollbackFailed);
    assert_eq!(result.status, "recovery_required");
    assert_eq!(result.message, "自動で戻せない項目があります。タイムラインを確認してください。");
}

#[test]
fn an_explicit_rollback_needs_an_applied_reversible_item() {
    assert!(ensure_item_rollbackable(ItemState::Applied).is_ok());
    assert!(ensure_item_rollbackable(ItemState::RollingBack).is_ok());
    assert_eq!(
        ensure_item_rollbackable(ItemState::RolledBack).unwrap_err().user_message,
        "この項目は適用中ではないため、重ねて復元できません。"
    );
    assert!(ensure_kind_rollbackable(ActionKind::Persistent).is_ok());
    assert_eq!(
        ensure_kind_rollbackable(ActionKind::OneWay).unwrap_err().user_message,
        "読み取り専用または元に戻せないActionは、この履歴から復元できません。"
    );
    assert!(ensure_kind_rollbackable(ActionKind::Observation).is_err());
    assert_eq!(item_rollback_step(RecoveryClassification::Original), ItemRollbackStep::MarkRolledBack);
    assert_eq!(item_rollback_step(RecoveryClassification::Applied), ItemRollbackStep::RollBack);
    assert_eq!(
        item_rollback_step(RecoveryClassification::Unknown),
        ItemRollbackStep::RecordAndRefuse(RecoveryClassification::Unknown)
    );
}

#[test]
fn the_timeline_status_follows_the_item_then_the_transaction() {
    assert_eq!(timeline_status("ROLLED_BACK", "RECOVERY_REQUIRED"), "rolled_back");
    assert_eq!(timeline_status("APPLYING", "APPLIED"), "applying");
    assert_eq!(timeline_status("APPLIED", "RECOVERY_REQUIRED"), "recovery_required");
    assert_eq!(timeline_status("APPLIED", "ROLLBACK_FAILED"), "rollback_failed");
    assert_eq!(timeline_status("APPLIED", "SUCCEEDED"), "succeeded");
    assert_eq!(bool_i64(true), 1);
    assert_eq!(bool_i64(false), 0);
    assert_eq!(to_i64(5), 5);
    assert_eq!(to_i64(u64::MAX), i64::MAX);
}

fn visit(state: ItemState, classification: RecoveryClassification, verified: bool) -> ReconcileItemVisit {
    ReconcileItemVisit { facts: facts(state, classification), rollback_verified: verified }
}

#[test]
fn a_reconcile_pass_counts_every_item_and_ends_each_transaction() {
    let transactions = vec![
        ReconcileTransactionVisit {
            previous: TransactionState::Applying,
            items: vec![
                visit(ItemState::Applied, RecoveryClassification::Applied, true),
                visit(ItemState::Applied, RecoveryClassification::Original, false),
                visit(ItemState::RolledBack, RecoveryClassification::Applied, false),
            ],
        },
        ReconcileTransactionVisit {
            previous: TransactionState::Applying,
            items: vec![
                visit(ItemState::Applied, RecoveryClassification::Third, false),
                visit(ItemState::Applied, RecoveryClassification::Applied, false),
            ],
        },
        ReconcileTransactionVisit { previous: TransactionState::Succeeded, items: Vec::new() },
    ];
    let (states, result) = reconcile_pass(&transactions, 9);
    assert_eq!(
        states,
        vec![TransactionState::RolledBack, TransactionState::RollbackFailed, TransactionState::Succeeded]
    );
    assert_eq!(result.recovered_count, 2);
    assert_eq!(result.remaining_count, 2);
    assert_eq!(result.status, "recovery_required");

    let (states, clean) = reconcile_pass(&Vec::new(), 3);
    assert!(states.is_empty());
    assert_eq!(clean.status, "clean");
    assert_eq!(clean.remaining_count, 3);
}

#[test]
fn an_explicit_rollback_reports_each_of_its_three_outcomes() {
    let id = [7u8; 16];
    let done = item_rollback_outcome(id, RecoveryClassification::Applied, true).unwrap();
    assert_eq!(done.status, "rolled_back");
    assert_eq!(done.message, "この項目を変更直前の状態へ戻し、再確認しました。");
    assert_eq!(done.transaction_id, id);
    let original = item_rollback_outcome(id, RecoveryClassification::Original, false).unwrap();
    assert_eq!(original.status, "rolled_back");
    let unverified = item_rollback_outcome(id, RecoveryClassification::Applied, false).unwrap();
    assert_eq!(unverified.status, "recovery_required");
    assert_eq!(unverified.message, "復元を確認できない項目があります。新しい変更を停止しました。");
    let refused = item_rollback_outcome(id, RecoveryClassification::Third, true).unwrap_err();
    assert_eq!(refused.code, "RECOVERY_REQUIRED");
    assert_eq!(refused.user_message, "適用値と異なる現在状態を検出したため、自動では上書きしません。");
    assert!(item_rollback_outcome(id, RecoveryClassification::Unknown, true).is_err());
}

#[test]
fn an_unverified_rollback_records_the_right_error() {
    assert!(rollback_failure(Ok(true), "rollback.verify.mismatch").is_none());
    let mismatch = rollback_failure(Ok(false), "rollback.verify.mismatch").unwrap();
    assert_eq!(mismatch.code, ActionErrorCode::RecoveryRequired);
    assert_eq!(mismatch.stage, ActionStage::VerifyRolledBack);
    assert_eq!(mismatch.user_message_key, "rollback.verify.mismatch");
    let own = ActionError::new(ActionErrorCode::AccessDenied, ActionStage::Rollback, true, "denied");
    let passed = rollback_failure(Err(own.clone()), "recovery.verify_rolled_back.mismatch").unwrap();
    assert_eq!(passed.code, ActionErrorCode::AccessDenied);
    assert_eq!(passed.user_message_key, "denied");
}

#[test]
fn journal_state_texts_round_trip_both_ways() {
    for state in [
        TransactionState::Applying,
        TransactionState::Succeeded,
        TransactionState::RolledBack,
        TransactionState::RollbackFailed,
        TransactionState::RecoveryRequired,
    ] {
        assert_eq!(TransactionState::from_db(state.as_db()), Some(state));
    }
    for state in [ItemState::Prepared, ItemState::Applied, ItemState::RollingBack, ItemState::RolledBack] {
        assert_eq!(ItemState::from_db(state.as_db()), Some(state));
    }
    assert_eq!(ItemState::from_db("APPLIED").map(ItemState::as_db), Some("APPLIED"));
    assert_eq!(ItemState::from_db("applied"), None);
}
