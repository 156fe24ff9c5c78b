//! The decisions of commit failure handling, explicit rollback and crash
//! reconciliation.
//!
//! The engine interleaves journal writes and Action calls with these
//! decisions. Each decision here is a function of what the engine observed:
//! the item's journal state, how its current value relates to its backup,
//! and whether the Action's compatibility check allows a write.

use vstd::prelude::*;
use crate::action::{ActionError, ActionErrorCode, ActionKind, ActionStage};
use crate::error::{CoreError, CoreResult};
use crate::journal::models::{ItemState, RecoveryClassification, ReconcileResult, TransactionState};

verus! {

/// The result of a commit or rollback, as the user interface shows it.
#[derive(Debug, Clone)]
pub struct CommitResult {
    pub transaction_id: [u8; 16],
    pub status: String,
    pub message: String,
}

// ---------------------------------------------------------------------------
// Crash reconciliation
// ---------------------------------------------------------------------------

/// What reconciliation observed about one unfinished journal item.
#[derive(Debug, Clone, Copy)]
pub struct RecoveryItemFacts {
    pub state: ItemState,
    /// The Windows identity from start-up is known.
    pub identity_known: bool,
    /// The item's Action is still registered.
    pub action_registered: bool,
    /// How the current value relates to the backup (only looked at when the
    /// identity and the Action are known).
    pub classification: RecoveryClassification,
    /// The compatibility check allows writing the backup back (only looked
    /// at for an applied value).
    pub mutation_allowed: bool,
}

/// What reconciliation does with one item.
#[derive(Debug, Clone, Copy, PartialEq, Eq, Structural)]
pub enum RecoveryStep {
    /// Already rolled back; nothing to do.
    Skip,
    /// Keep the item for manual recovery with this ownership.
    RecordRecovery(RecoveryClassification),
    /// The value is already the original: finish the item.
    MarkRolledBack,
    /// Write the backup back, then verify.
    RollBack,
}

pub open spec fn spec_recovery_step(f: RecoveryItemFacts) -> RecoveryStep {
    if f.state == ItemState::RolledBack {
        RecoveryStep::Skip
    } else if !f.identity_known || !f.action_registered {
        RecoveryStep::RecordRecovery(RecoveryClassification::Unknown)
    } else if f.state == ItemState::Prepared && f.classification != RecoveryClassification::Original {
        RecoveryStep::RecordRecovery(
            if f.classification == RecoveryClassification::Applied || f.classification
                == RecoveryClassification::Third {
                RecoveryClassification::Third
            } else {
                RecoveryClassification::Unknown
            },
        )
    } else {
        match f.classification {
            RecoveryClassification::Original => RecoveryStep::MarkRolledBack,
            RecoveryClassification::Applied => if f.mutation_allowed {
                RecoveryStep::RollBack
            } else {
                RecoveryStep::RecordRecovery(RecoveryClassification::Unknown)
            },
            c => RecoveryStep::RecordRecovery(c),
        }
    }
}

/// The decision for one item.
pub fn recovery_step(facts: RecoveryItemFacts) -> (s: RecoveryStep)
    ensures
        s == spec_recovery_step(facts),
{
    if facts.state == ItemState::RolledBack {
        return RecoveryStep::Skip;
    }
    if !facts.identity_known || !facts.action_registered {
        return RecoveryStep::RecordRecovery(RecoveryClassification::Unknown);
    }
    if facts.state == ItemState::Prepared && facts.classification != RecoveryClassification::Original {
        let ownership = match facts.classification {
            RecoveryClassification::Applied | RecoveryClassification::Third => RecoveryClassification::Third,
            _ => RecoveryClassification::Unknown,
        };
        return RecoveryStep::RecordRecovery(ownership);
    }
    match facts.classification {
        RecoveryClassification::Original => RecoveryStep::MarkRolledBack,
        RecoveryClassification::Applied => {
            if facts.mutation_allowed {
                RecoveryStep::RollBack
            } else {
                RecoveryStep::RecordRecovery(RecoveryClassification::Unknown)
            }
        },
        c => RecoveryStep::RecordRecovery(c),
    }
}

/// Running totals of a reconciliation pass, and the failure flags of the
/// transaction being processed.
#[derive(Debug, Clone, Copy)]
pub struct ReconcileRun {
    pub recovered: u32,
    pub remaining: u32,
    pub recovery_failure: bool,
    pub rollback_failure: bool,
}

pub open spec fn sat_inc(x: u32) -> u32 {
    if x == u32::MAX {
        x
    } else {
        (x + 1) as u32
    }
}

pub open spec fn spec_transaction_outcome(previous: TransactionState, rollback_failure: bool, recovery_failure: bool) -> TransactionState {
    if previous == TransactionState::Succeeded {
        TransactionState::Succeeded
    } else if rollback_failure {
        TransactionState::RollbackFailed
    } else if recovery_failure {
        TransactionState::RecoveryRequired
    } else {
        TransactionState::RolledBack
    }
}

impl ReconcileRun {
    /// Nothing recovered, nothing remaining, no failures.
    pub fn new() -> (r: ReconcileRun)
        ensures
            r.recovered == 0 && r.remaining == 0 && !r.recovery_failure && !r.rollback_failure,
    {
        ReconcileRun { recovered: 0, remaining: 0, recovery_failure: false, rollback_failure: false }
    }

    /// Decides one item and counts it: finished items as recovered, items
    /// kept for recovery as remaining.
    pub fn decide(&mut self, facts: RecoveryItemFacts) -> (s: RecoveryStep)
        ensures
            s == spec_recovery_step(facts),
            s == RecoveryStep::MarkRolledBack ==> *final(self) == (ReconcileRun {
                recovered: sat_inc(old(self).recovered),
                ..*old(self)
            }),
            s matches RecoveryStep::RecordRecovery(_) ==> *final(self) == (ReconcileRun {
                remaining: sat_inc(old(self).remaining),
                recovery_failure: true,
                ..*old(self)
            }),
            (s == RecoveryStep::Skip || s == RecoveryStep::RollBack) ==> *final(self) == *old(self),
    {
        let step = recovery_step(facts);
        match step {
            RecoveryStep::MarkRolledBack => {
                self.recovered = self.recovered.saturating_add(1);
            },
            RecoveryStep::RecordRecovery(_) => {
                self.remaining = self.remaining.saturating_add(1);
                self.recovery_failure = true;
            },
            _ => {},
        }
        step
    }

    /// Counts a rollback once it has run: verified means recovered; anything
    /// else keeps the item as an applied value needing recovery.
    pub fn record_rollback(&mut self, verified: bool)
        ensures
            verified ==> *final(self) == (ReconcileRun { recovered: sat_inc(old(self).recovered), ..*old(self) }),
            !verified ==> *final(self) == (ReconcileRun {
                remaining: sat_inc(old(self).remaining),
                rollback_failure: true,
                ..*old(self)
            }),
    {
        if verified {
            self.recovered = self.recovered.saturating_add(1);
        } else {
            self.remaining = self.remaining.saturating_add(1);
            self.rollback_failure = true;
        }
    }

    /// The state a transaction ends in, and whether that state is terminal;
    /// clears the failure flags for the next transaction.
    pub fn finish_transaction(&mut self, previous: TransactionState) -> (r: (TransactionState, bool))
        ensures
            r.0 == spec_transaction_outcome(previous, old(self).rollback_failure, old(self).recovery_failure),
            r.1 == (r.0 == TransactionState::RolledBack || r.0 == TransactionState::Succeeded),
            final(self).recovered == old(self).recovered,
            final(self).remaining == old(self).remaining,
            !final(self).recovery_failure && !final(self).rollback_failure,
    {
        let state = if previous == TransactionState::Succeeded {
            TransactionState::Succeeded
        } else if self.rollback_failure {
            TransactionState::RollbackFailed
        } else if self.recovery_failure {
            TransactionState::RecoveryRequired
        } else {
            TransactionState::RolledBack
        };
        self.rollback_failure = false;
        self.recovery_failure = false;
        (state, state == TransactionState::RolledBack || state == TransactionState::Succeeded)
    }

    /// The summary shown after the pass.
    pub fn result(&self) -> (r: ReconcileResult)
        ensures
            r.recovered_count == self.recovered,
            r.remaining_count == self.remaining,
            self.remaining == 0 ==> r.status@ == "recovered"@ && r.message@
                == "未完了の変更を確認し、変更直前へ戻しました。"@,
            self.remaining != 0 ==> r.status@ == "recovery_required"@ && r.message@
                == "自動で上書きできない項目があります。タイムラインを確認してください。"@,
    {
        if self.remaining == 0 {
            ReconcileResult {
                status: String::from_str("recovered"),
                recovered_count: self.recovered,
                remaining_count: self.remaining,
                message: String::from_str("未完了の変更を確認し、変更直前へ戻しました。"),
            }
        } else {
            ReconcileResult {
                status: String::from_str("recovery_required"),
                recovered_count: self.recovered,
                remaining_count: self.remaining,
                message: String::from_str("自動で上書きできない項目があります。タイムラインを確認してください。"),
            }
        }
    }
}

/// The summary when no transaction was left unfinished.
pub fn clean_reconcile_result(remaining_count: u32) -> (r: ReconcileResult)
    ensures
        r.status@ == "clean"@,
        r.recovered_count == 0,
        r.remaining_count == remaining_count,
        r.message@ == "未完了の変更はありません。"@,
{
    ReconcileResult {
        status: String::from_str("clean"),
        recovered_count: 0,
        remaining_count,
        message: String::from_str("未完了の変更はありません。"),
    }
}

/// One unfinished item as reconciliation saw it when it reached it: the
/// facts that decide it and, had it to be rolled back, whether that
/// rollback was verified.
#[derive(Debug, Clone, Copy)]
pub struct ReconcileItemVisit {
    pub facts: RecoveryItemFacts,
    pub rollback_verified: bool,
}

/// One unfinished transaction: the state it was left in and its items, in
/// journal order.
#[derive(Debug, Clone)]
pub struct ReconcileTransactionVisit {
    pub previous: TransactionState,
    pub items: Vec<ReconcileItemVisit>,
}

/// The counts and flags after one item.
pub open spec fn spec_item_visit(run: ReconcileRun, v: ReconcileItemVisit) -> ReconcileRun {
    match spec_recovery_step(v.facts) {
        RecoveryStep::Skip => run,
        RecoveryStep::MarkRolledBack => ReconcileRun { recovered: sat_inc(run.recovered), ..run },
        RecoveryStep::RecordRecovery(_) => ReconcileRun {
            remaining: sat_inc(run.remaining),
            recovery_failure: true,
            ..run
        },
        RecoveryStep::RollBack => if v.rollback_verified {
            ReconcileRun { recovered: sat_inc(run.recovered), ..run }
        } else {
            ReconcileRun { remaining: sat_inc(run.remaining), rollback_failure: true, ..run }
        },
    }
}

/// The counts and flags after visiting `items` newest first: every later
/// item, then the first.
pub open spec fn spec_visit_items(run: ReconcileRun, items: Seq<ReconcileItemVisit>) -> ReconcileRun
    decreases items.len(),
{
    if items.len() == 0 {
        run
    } else {
        spec_item_visit(spec_visit_items(run, items.subrange(1, items.len() as int)), items[0])
    }
}

/// The whole pass over the transactions, in order: the counts afterwards,
/// and the state each transaction ends in.
pub open spec fn spec_reconcile_pass(txs: Seq<ReconcileTransactionVisit>) -> (ReconcileRun, Seq<TransactionState>)
    decreases txs.len(),
{
    if txs.len() == 0 {
        (ReconcileRun { recovered: 0, remaining: 0, recovery_failure: false, rollback_failure: false }, Seq::empty())
    } else {
        let (before, states) = spec_reconcile_pass(txs.drop_last());
        let after = spec_visit_items(before, txs.last().items@);
        (
            ReconcileRun { recovery_failure: false, rollback_failure: false, ..after },
            states.push(spec_transaction_outcome(txs.last().previous, after.rollback_failure, after.recovery_failure)),
        )
    }
}

/// A reconciliation pass, from what was observed at each item: the
/// transactions are visited in order and each one's items newest first,
/// already rolled-back items skipped. Returns the state each transaction
/// ends in and the summary; with no unfinished transaction the summary is
/// the clean one, with the journal's own count of items needing recovery.
pub fn reconcile_pass(transactions: &Vec<ReconcileTransactionVisit>, journal_recovery_count: u32) -> (r: (
    Vec<TransactionState>,
    ReconcileResult,
))
    ensures
        transactions@.len() == 0 ==> r.0@.len() == 0 && r.1.status@ == "clean"@ && r.1.recovered_count == 0
            && r.1.remaining_count == journal_recovery_count,
        transactions@.len() > 0 ==> {
            let (run, states) = spec_reconcile_pass(transactions@);
            &&& r.0@ == states
            &&& r.1.recovered_count == run.recovered
            &&& r.1.remaining_count == run.remaining
            &&& r.1.status@ == (if run.remaining == 0 {
                "recovered"@
            } else {
                "recovery_required"@
            })
        },
{
    if transactions.len() == 0 {
        return (Vec::new(), clean_reconcile_result(journal_recovery_count));
    }
    let mut run = ReconcileRun::new();
    let mut states: Vec<TransactionState> = Vec::new();
    let mut t: usize = 0;
    while t < transactions.len()
        invariant
            t <= transactions@.len(),
            (run, states@) == spec_reconcile_pass(transactions@.take(t as int)),
        decreases transactions@.len() - t,
    {
        proof {
            assert(transactions@.take(t as int + 1).drop_last() =~= transactions@.take(t as int));
        }
        let items = &transactions[t].items;
        let ghost start = run;
        let mut i: usize = items.len();
        while i > 0
            invariant
                i <= items@.len(),
                run == spec_visit_items(start, items@.subrange(i as int, items@.len() as int)),
            decreases i,
        {
            i = i - 1;
            let visit = items[i];
            proof {
                assert(items@.subrange(i as int, items@.len() as int).subrange(
                    1,
                    items@.len() - i,
                ) =~= items@.subrange(i as int + 1, items@.len() as int));
            }
            let step = run.decide(visit.facts);
            if step == RecoveryStep::RollBack {
                run.record_rollback(visit.rollback_verified);
            }
        }
        proof {
            assert(items@.subrange(0, items@.len() as int) =~= items@);
        }
        let (state, _) = run.finish_transaction(transactions[t].previous);
        states.push(state);
        t += 1;
    }
    proof {
        assert(transactions@.take(transactions@.len() as int) =~= transactions@);
    }
    (states, run.result())
}

/// How many of the items are not rolled back yet.
pub open spec fn count_unfinished(items: Seq<ReconcileItemVisit>) -> nat
    decreases items.len(),
{
    if items.len() == 0 {
        0
    } else {
        count_unfinished(items.subrange(1, items.len() as int)) + if items[0].facts.state
            != ItemState::RolledBack {
            1nat
        } else {
            0nat
        }
    }
}

/// How many items the transactions hold, and how many of them are unfinished.
pub open spec fn pass_totals(txs: Seq<ReconcileTransactionVisit>) -> (nat, nat)
    decreases txs.len(),
{
    if txs.len() == 0 {
        (0, 0)
    } else {
        let (all, unfinished) = pass_totals(txs.drop_last());
        (all + txs.last().items@.len(), unfinished + count_unfinished(txs.last().items@))
    }
}

proof fn lemma_visit_counts(run: ReconcileRun, items: Seq<ReconcileItemVisit>)
    requires
        run.recovered + run.remaining + items.len() <= u32::MAX,
    ensures
        count_unfinished(items) <= items.len(),
        spec_visit_items(run, items).recovered + spec_visit_items(run, items).remaining == run.recovered
            + run.remaining + count_unfinished(items),
    decreases items.len(),
{
    if items.len() > 0 {
        lemma_visit_counts(run, items.subrange(1, items.len() as int));
    }
}

/// Every unfinished item is counted once, as recovered or as remaining:
/// unless the counts would overflow, the two add up to the number of items
/// that were not already rolled back.
pub proof fn lemma_reconcile_counts_add_up(txs: Seq<ReconcileTransactionVisit>)
    requires
        pass_totals(txs).0 <= u32::MAX,
    ensures
        spec_reconcile_pass(txs).0.recovered + spec_reconcile_pass(txs).0.remaining == pass_totals(txs).1,
        pass_totals(txs).1 <= pass_totals(txs).0,
    decreases txs.len(),
{
    if txs.len() > 0 {
        lemma_reconcile_counts_add_up(txs.drop_last());
        let before = spec_reconcile_pass(txs.drop_last()).0;
        lemma_visit_counts(before, txs.last().items@);
    }
}

/// A PREPARED item never had an OS write dispatched. Reconciliation never
/// writes to it nor finishes it unless its value is already the original:
/// a value matching the intended one then belongs to someone else.
pub proof fn lemma_prepared_items_are_never_overwritten(f: RecoveryItemFacts)
    requires
        f.state == ItemState::Prepared,
    ensures
        spec_recovery_step(f) != RecoveryStep::RollBack,
        spec_recovery_step(f) == RecoveryStep::MarkRolledBack ==> f.classification
            == RecoveryClassification::Original,
        f.identity_known && f.action_registered && f.classification == RecoveryClassification::Applied
            ==> spec_recovery_step(f) == RecoveryStep::RecordRecovery(RecoveryClassification::Third),
{
}

/// Reconciliation writes only over a value that still holds exactly what was
/// applied, and only when compatibility allows it.
pub proof fn lemma_rollback_only_over_applied(f: RecoveryItemFacts)
    requires
        spec_recovery_step(f) == RecoveryStep::RollBack,
    ensures
        f.classification == RecoveryClassification::Applied,
        f.mutation_allowed,
        f.identity_known && f.action_registered,
        f.state != ItemState::Prepared && f.state != ItemState::RolledBack,
{
}

/// A transaction that was not already successful ends rolled back exactly
/// when no item failed.
pub proof fn lemma_rolled_back_only_without_failures(previous: TransactionState, rollback_failure: bool, recovery_failure: bool)
    requires
        previous != TransactionState::Succeeded,
    ensures
        (spec_transaction_outcome(previous, rollback_failure, recovery_failure) == TransactionState::RolledBack)
            == (!rollback_failure && !recovery_failure),
{
}

// ---------------------------------------------------------------------------
// Failure during commit
// ---------------------------------------------------------------------------

/// What happens to the item whose apply or verification failed.
#[derive(Debug, Clone, Copy, PartialEq, Eq, Structural)]
pub enum FailedItemDisposition {
    /// Its value is still the original: finish it.
    MarkRolledBack,
    /// Its value is the applied one: roll it back with the others.
    RollBackWithOthers,
    /// Someone else's value, or unreadable: keep it for recovery.
    RecordRecovery(RecoveryClassification),
}

pub open spec fn spec_failed_item_disposition(c: RecoveryClassification) -> FailedItemDisposition {
    match c {
        RecoveryClassification::Original => FailedItemDisposition::MarkRolledBack,
        RecoveryClassification::Applied => FailedItemDisposition::RollBackWithOthers,
        c => FailedItemDisposition::RecordRecovery(c),
    }
}

pub fn failed_item_disposition(classification: RecoveryClassification) -> (d: FailedItemDisposition)
    ensures
        d == spec_failed_item_disposition(classification),
{
    match classification {
        RecoveryClassification::Original => FailedItemDisposition::MarkRolledBack,
        RecoveryClassification::Applied => FailedItemDisposition::RollBackWithOthers,
        c => FailedItemDisposition::RecordRecovery(c),
    }
}

/// The items to roll back, in reverse apply order: the successfully applied
/// ones, plus the failed item when its value is the applied one.
pub open spec fn spec_rollback_order(applied: Seq<usize>, failed: usize, c: RecoveryClassification) -> Seq<usize> {
    let all = if c == RecoveryClassification::Applied {
        applied.push(failed)
    } else {
        applied
    };
    all.reverse()
}

pub fn rollback_order(applied_indices: &Vec<usize>, failed_index: usize, failed_classification: RecoveryClassification) -> (r: Vec<usize>)
    ensures
        r@ == spec_rollback_order(applied_indices@, failed_index, failed_classification),
{
    let mut all = applied_indices.clone();
    if failed_classification == RecoveryClassification::Applied {
        all.push(failed_index);
    }
    let mut out: Vec<usize> = Vec::new();
    let mut i: usize = all.len();
    while i > 0
        invariant
            i <= all@.len(),
            out@ == all@.subrange(i as int, all@.len() as int).reverse(),
        decreases i,
    {
        i = i - 1;
        out.push(all[i]);
        assert(all@.subrange(i as int, all@.len() as int).reverse() =~= all@.subrange(
            (i + 1) as int,
            all@.len() as int,
        ).reverse().push(all@[i as int]));
    }
    assert(all@.subrange(0, all@.len() as int) =~= all@);
    out
}

/// The items prepared after the failed one: they were never dispatched and
/// are finished without any rollback write.
pub fn undispatched_items(failed_index: usize, item_count: usize) -> (r: Vec<usize>)
    requires
        failed_index < item_count,
    ensures
        r@.len() == item_count - failed_index - 1,
        forall|k: int| 0 <= k < r@.len() ==> r@[k] == failed_index + 1 + k,
{
    let mut out: Vec<usize> = Vec::new();
    let mut i: usize = failed_index + 1;
    while i < item_count
        invariant
            failed_index + 1 <= i <= item_count,
            out@.len() == i - failed_index - 1,
            forall|k: int| 0 <= k < out@.len() ==> out@[k] == failed_index + 1 + k,
        decreases item_count - i,
    {
        out.push(i);
        i = i + 1;
    }
    out
}

/// Failure flags while rolling back after a failed commit.
#[derive(Debug, Clone, Copy)]
pub struct CommitRollback {
    pub recovery_required: bool,
    pub rollback_failed: bool,
}

pub open spec fn spec_commit_rollback_state(rollback_failed: bool, recovery_required: bool) -> TransactionState {
    if rollback_failed {
        TransactionState::RollbackFailed
    } else if recovery_required {
        TransactionState::RecoveryRequired
    } else {
        TransactionState::RolledBack
    }
}

impl CommitRollback {
    /// Starts after the failed item's disposition: keeping it for recovery
    /// already requires recovery.
    pub fn new(disposition: FailedItemDisposition) -> (r: CommitRollback)
        ensures
            r.recovery_required == (disposition is RecordRecovery),
            !r.rollback_failed,
    {
        CommitRollback {
            recovery_required: match disposition {
                FailedItemDisposition::RecordRecovery(_) => true,
                _ => false,
            },
            rollback_failed: false,
        }
    }

    /// An item the compatibility check does not allow to be written back.
    pub fn record_blocked(&mut self)
        ensures
            final(self).recovery_required,
            final(self).rollback_failed == old(self).rollback_failed,
    {
        self.recovery_required = true;
    }

    /// An item whose rollback ran; unverified means the rollback failed.
    pub fn record_rollback(&mut self, verified: bool)
        ensures
            final(self).recovery_required == old(self).recovery_required,
            final(self).rollback_failed == (old(self).rollback_failed || !verified),
    {
        if !verified {
            self.rollback_failed = true;
        }
    }

    /// The transaction's final state and what the user is told.
    pub fn finish(&self, transaction_id: [u8; 16]) -> (r: (TransactionState, CommitResult))
        ensures
            r.0 == spec_commit_rollback_state(self.rollback_failed, self.recovery_required),
            r.1.transaction_id == transaction_id,
            r.0 == TransactionState::RolledBack ==> r.1.status@ == "rolled_back"@ && r.1.message@
                == "適用失敗のため、変更済み項目を逆順で元へ戻しました。"@,
            r.0 != TransactionState::RolledBack ==> r.1.status@ == "recovery_required"@ && r.1.message@
                == "自動で戻せない項目があります。タイムラインを確認してください。"@,
    {
        let state = if self.rollback_failed {
            TransactionState::RollbackFailed
        } else if self.recovery_required {
            TransactionState::RecoveryRequired
        } else {
            TransactionState::RolledBack
        };
        let result = if state == TransactionState::RolledBack {
            CommitResult {
                transaction_id,
                status: String::from_str("rolled_back"),
                message: String::from_str("適用失敗のため、変更済み項目を逆順で元へ戻しました。"),
            }
        } else {
            CommitResult {
                transaction_id,
                status: String::from_str("recovery_required"),
                message: String::from_str("自動で戻せない項目があります。タイムラインを確認してください。"),
            }
        };
        (state, result)
    }
}

/// Rollback after a failed commit visits exactly the applied items, newest first.
pub proof fn lemma_rollback_reverses_apply_order(applied: Seq<usize>, failed: usize, c: RecoveryClassification, k: int)
    requires
        c != RecoveryClassification::Applied,
        0 <= k < applied.len(),
    ensures
        spec_rollback_order(applied, failed, c).len() == applied.len(),
        spec_rollback_order(applied, failed, c)[k] == applied[applied.len() - 1 - k],
{
}

/// When the failed item's value is the applied one, it is rolled back first.
pub proof fn lemma_failed_applied_item_rolls_back_first(applied: Seq<usize>, failed: usize)
    ensures
        spec_rollback_order(applied, failed, RecoveryClassification::Applied)[0] == failed,
        spec_rollback_order(applied, failed, RecoveryClassification::Applied).len() == applied.len() + 1,
{
}

// ---------------------------------------------------------------------------
// Explicit rollback of one item
// ---------------------------------------------------------------------------

/// Only an applied (or half rolled back) item can be rolled back explicitly.
pub fn ensure_item_rollbackable(state: ItemState) -> (r: CoreResult<()>)
    ensures
        (state == ItemState::Applied || state == ItemState::RollingBack) ==> r is Ok,
        !(state == ItemState::Applied || state == ItemState::RollingBack) ==> (r matches Err(e) && e.code@
            == "INVALID_REQUEST"@ && e.user_message@ == "この項目は適用中ではないため、重ねて復元できません。"@),
{
    if !(state == ItemState::Applied || state == ItemState::RollingBack) {
        return Err(CoreError::invalid_request("この項目は適用中ではないため、重ねて復元できません。"));
    }
    Ok(())
}

/// Observations and one-way Actions have nothing to roll back.
pub fn ensure_kind_rollbackable(kind: ActionKind) -> (r: CoreResult<()>)
    ensures
        !(kind == ActionKind::Observation || kind == ActionKind::OneWay) ==> r is Ok,
        (kind == ActionKind::Observation || kind == ActionKind::OneWay) ==> (r matches Err(e) && e.code@
            == "INVALID_REQUEST"@ && e.user_message@
            == "読み取り専用または元に戻せないActionは、この履歴から復元できません。"@),
{
    if kind == ActionKind::Observation || kind == ActionKind::OneWay {
        return Err(CoreError::invalid_request("読み取り専用または元に戻せないActionは、この履歴から復元できません。"));
    }
    Ok(())
}

/// What an explicit rollback does with the item.
#[derive(Debug, Clone, Copy, PartialEq, Eq, Structural)]
pub enum ItemRollbackStep {
    MarkRolledBack,
    RollBack,
    /// Keep for recovery with this ownership and refuse to overwrite.
    RecordAndRefuse(RecoveryClassification),
}

pub fn item_rollback_step(classification: RecoveryClassification) -> (s: ItemRollbackStep)
    ensures
        classification == RecoveryClassification::Original ==> s == ItemRollbackStep::MarkRolledBack,
        classification == RecoveryClassification::Applied ==> s == ItemRollbackStep::RollBack,
        (classification == RecoveryClassification::Third || classification == RecoveryClassification::Unknown)
            ==> s == ItemRollbackStep::RecordAndRefuse(classification),
{
    match classification {
        RecoveryClassification::Original => ItemRollbackStep::MarkRolledBack,
        RecoveryClassification::Applied => ItemRollbackStep::RollBack,
        c => ItemRollbackStep::RecordAndRefuse(c),
    }
}

/// The error recorded for a rollback that did not end verified: the
/// Action's own error, or, when its verification read back a mismatch, a
/// recovery-required error of the verification stage with `mismatch_key`.
/// A verified rollback records nothing.
pub fn rollback_failure(outcome: Result<bool, ActionError>, mismatch_key: &str) -> (r: Option<ActionError>)
    ensures
        match outcome {
            Ok(true) => r is None,
            Ok(false) => r matches Some(e) && e.code == ActionErrorCode::RecoveryRequired && e.stage
                == ActionStage::VerifyRolledBack && !e.retryable && e.user_message_key@ == mismatch_key@,
            Err(e) => r == Some(e),
        },
{
    match outcome {
        Ok(true) => None,
        Ok(false) => Some(
            ActionError::new(ActionErrorCode::RecoveryRequired, ActionStage::VerifyRolledBack, false, mismatch_key),
        ),
        Err(e) => Some(e),
    }
}

pub open spec fn item_rolled_back_message() -> Seq<char> {
    "この項目を変更直前の状態へ戻し、再確認しました。"@
}

pub open spec fn item_unverified_message() -> Seq<char> {
    "復元を確認できない項目があります。新しい変更を停止しました。"@
}

pub open spec fn overwrite_refused_message() -> Seq<char> {
    "適用値と異なる現在状態を検出したため、自動では上書きしません。"@
}

/// What an explicit rollback of one item ends in, from how its current
/// value related to its backup and, for an applied value, whether the
/// rollback was verified: an original value is finished and an applied one
/// rolled back, both reported `rolled_back`; an unverified rollback leaves
/// the item for recovery and reports `recovery_required`; another party's
/// value, or an unreadable one, is refused.
pub fn item_rollback_outcome(
    transaction_id: [u8; 16],
    classification: RecoveryClassification,
    verified: bool,
) -> (r: CoreResult<CommitResult>)
    ensures
        match classification {
            RecoveryClassification::Original => r matches Ok(c) && c.transaction_id == transaction_id
                && c.status@ == "rolled_back"@ && c.message@ == item_rolled_back_message(),
            RecoveryClassification::Applied => r matches Ok(c) && c.transaction_id == transaction_id && if verified {
                c.status@ == "rolled_back"@ && c.message@ == item_rolled_back_message()
            } else {
                c.status@ == "recovery_required"@ && c.message@ == item_unverified_message()
            },
            _ => r matches Err(e) && e.code@ == "RECOVERY_REQUIRED"@ && e.stage@ == "RECOVERY"@
                && !e.retryable && e.user_message@ == overwrite_refused_message(),
        },
{
    match item_rollback_step(classification) {
        ItemRollbackStep::RecordAndRefuse(_) => Err(
            CoreError::recovery_required("適用値と異なる現在状態を検出したため、自動では上書きしません。"),
        ),
        ItemRollbackStep::RollBack if !verified => Ok(
            CommitResult {
                transaction_id,
                status: String::from_str("recovery_required"),
                message: String::from_str("復元を確認できない項目があります。新しい変更を停止しました。"),
            },
        ),
        _ => Ok(
            CommitResult {
                transaction_id,
                status: String::from_str("rolled_back"),
                message: String::from_str("この項目を変更直前の状態へ戻し、再確認しました。"),
            },
        ),
    }
}

} // verus!
