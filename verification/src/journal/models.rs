//! Transaction and item states and their stored text.

use vstd::prelude::*;
use crate::text::text_eq;

verus! {

#[derive(Debug, Clone, Copy, PartialEq, Eq, Structural)]
pub enum TransactionState {
    Planned,
    Preflighting,
    Prepared,
    Applying,
    Applied,
    Succeeded,
    RollingBack,
    RolledBack,
    RollbackFailed,
    RecoveryRequired,
}

pub open spec fn spec_transaction_db(s: TransactionState) -> Seq<char> {
    match s {
        TransactionState::Planned => "PLANNED"@,
        TransactionState::Preflighting => "PREFLIGHTING"@,
        TransactionState::Prepared => "PREPARED"@,
        TransactionState::Applying => "APPLYING"@,
        TransactionState::Applied => "APPLIED"@,
        TransactionState::Succeeded => "SUCCEEDED"@,
        TransactionState::RollingBack => "ROLLING_BACK"@,
        TransactionState::RolledBack => "ROLLED_BACK"@,
        TransactionState::RollbackFailed => "ROLLBACK_FAILED"@,
        TransactionState::RecoveryRequired => "RECOVERY_REQUIRED"@,
    }
}

pub open spec fn spec_transaction_from_db(v: Seq<char>) -> Option<TransactionState> {
    if v == "PLANNED"@ {
        Some(TransactionState::Planned)
    } else if v == "PREFLIGHTING"@ {
        Some(TransactionState::Preflighting)
    } else if v == "PREPARED"@ {
        Some(TransactionState::Prepared)
    } else if v == "APPLYING"@ {
        Some(TransactionState::Applying)
    } else if v == "APPLIED"@ {
        Some(TransactionState::Applied)
    } else if v == "SUCCEEDED"@ {
        Some(TransactionState::Succeeded)
    } else if v == "ROLLING_BACK"@ {
        Some(TransactionState::RollingBack)
    } else if v == "ROLLED_BACK"@ {
        Some(TransactionState::RolledBack)
    } else if v == "ROLLBACK_FAILED"@ {
        Some(TransactionState::RollbackFailed)
    } else if v == "RECOVERY_REQUIRED"@ {
        Some(TransactionState::RecoveryRequired)
    } else {
        None
    }
}

impl TransactionState {
    /// The text stored in the journal.
    pub fn as_db(self) -> (s: &'static str)
        ensures
            s@ == spec_transaction_db(self),
    {
        match self {
            TransactionState::Planned => "PLANNED",
            TransactionState::Preflighting => "PREFLIGHTING",
            TransactionState::Prepared => "PREPARED",
            TransactionState::Applying => "APPLYING",
            TransactionState::Applied => "APPLIED",
            TransactionState::Succeeded => "SUCCEEDED",
            TransactionState::RollingBack => "ROLLING_BACK",
            TransactionState::RolledBack => "ROLLED_BACK",
            TransactionState::RollbackFailed => "ROLLBACK_FAILED",
            TransactionState::RecoveryRequired => "RECOVERY_REQUIRED",
        }
    }

    /// The state a stored text names, if any.
    pub fn from_db(value: &str) -> (r: Option<TransactionState>)
        ensures
            r == spec_transaction_from_db(value@),
    {
        if text_eq(value, "PLANNED") {
            Some(TransactionState::Planned)
        } else if text_eq(value, "PREFLIGHTING") {
            Some(TransactionState::Preflighting)
        } else if text_eq(value, "PREPARED") {
            Some(TransactionState::Prepared)
        } else if text_eq(value, "APPLYING") {
            Some(TransactionState::Applying)
        } else if text_eq(value, "APPLIED") {
            Some(TransactionState::Applied)
        } else if text_eq(value, "SUCCEEDED") {
            Some(TransactionState::Succeeded)
        } else if text_eq(value, "ROLLING_BACK") {
            Some(TransactionState::RollingBack)
        } else if text_eq(value, "ROLLED_BACK") {
            Some(TransactionState::RolledBack)
        } else if text_eq(value, "ROLLBACK_FAILED") {
            Some(TransactionState::RollbackFailed)
        } else if text_eq(value, "RECOVERY_REQUIRED") {
            Some(TransactionState::RecoveryRequired)
        } else {
            None
        }
    }
}

#[derive(Debug, Clone, Copy, PartialEq, Eq, Structural)]
pub enum ItemState {
    Prepared,
    Applying,
    Applied,
    ApplyFailed,
    RollingBack,
    RolledBack,
    RollbackFailed,
    RecoveryRequired,
}

pub open spec fn spec_item_db(s: ItemState) -> Seq<char> {
    match s {
        ItemState::Prepared => "PREPARED"@,
        ItemState::Applying => "APPLYING"@,
        ItemState::Applied => "APPLIED"@,
        ItemState::ApplyFailed => "APPLY_FAILED"@,
        ItemState::RollingBack => "ROLLING_BACK"@,
        ItemState::RolledBack => "ROLLED_BACK"@,
        ItemState::RollbackFailed => "ROLLBACK_FAILED"@,
        ItemState::RecoveryRequired => "RECOVERY_REQUIRED"@,
    }
}

pub open spec fn spec_item_from_db(v: Seq<char>) -> Option<ItemState> {
    if v == "PREPARED"@ {
        Some(ItemState::Prepared)
    } else if v == "APPLYING"@ {
        Some(ItemState::Applying)
    } else if v == "APPLIED"@ {
        Some(ItemState::Applied)
    } else if v == "APPLY_FAILED"@ {
        Some(ItemState::ApplyFailed)
    } else if v == "ROLLING_BACK"@ {
        Some(ItemState::RollingBack)
    } else if v == "ROLLED_BACK"@ {
        Some(ItemState::RolledBack)
    } else if v == "ROLLBACK_FAILED"@ {
        Some(ItemState::RollbackFailed)
    } else if v == "RECOVERY_REQUIRED"@ {
        Some(ItemState::RecoveryRequired)
    } else {
        None
    }
}

impl ItemState {
    /// The text stored in the journal.
    pub fn as_db(self) -> (s: &'static str)
        ensures
            s@ == spec_item_db(self),
    {
        match self {
            ItemState::Prepared => "PREPARED",
            ItemState::Applying => "APPLYING",
            ItemState::Applied => "APPLIED",
            ItemState::ApplyFailed => "APPLY_FAILED",
            ItemState::RollingBack => "ROLLING_BACK",
            ItemState::RolledBack => "ROLLED_BACK",
            ItemState::RollbackFailed => "ROLLBACK_FAILED",
            ItemState::RecoveryRequired => "RECOVERY_REQUIRED",
        }
    }

    /// The state a stored text names, if any.
    pub fn from_db(value: &str) -> (r: Option<ItemState>)
        ensures
            r == spec_item_from_db(value@),
    {
        if text_eq(value, "PREPARED") {
            Some(ItemState::Prepared)
        } else if text_eq(value, "APPLYING") {
            Some(ItemState::Applying)
        } else if text_eq(value, "APPLIED") {
            Some(ItemState::Applied)
        } else if text_eq(value, "APPLY_FAILED") {
            Some(ItemState::ApplyFailed)
        } else if text_eq(value, "ROLLING_BACK") {
            Some(ItemState::RollingBack)
        } else if text_eq(value, "ROLLED_BACK") {
            Some(ItemState::RolledBack)
        } else if text_eq(value, "ROLLBACK_FAILED") {
            Some(ItemState::RollbackFailed)
        } else if text_eq(value, "RECOVERY_REQUIRED") {
            Some(ItemState::RecoveryRequired)
        } else {
            None
        }
    }
}

#[derive(Debug, Clone, Copy, PartialEq, Eq, Structural)]
pub enum RecoveryClassification {
    Original,
    Applied,
    Third,
    Unknown,
}

impl RecoveryClassification {
    /// The text stored in the journal.
    pub fn as_db(self) -> (s: &'static str)
        ensures
            self == RecoveryClassification::Original ==> s@ == "original"@,
            self == RecoveryClassification::Applied ==> s@ == "applied"@,
            self == RecoveryClassification::Third ==> s@ == "third"@,
            self == RecoveryClassification::Unknown ==> s@ == "unknown"@,
    {
        match self {
            RecoveryClassification::Original => "original",
            RecoveryClassification::Applied => "applied",
            RecoveryClassification::Third => "third",
            RecoveryClassification::Unknown => "unknown",
        }
    }
}

/// Reading back the stored text of a transaction state gives the same state.
pub proof fn lemma_transaction_state_round_trip(s: TransactionState)
    ensures
        spec_transaction_from_db(spec_transaction_db(s)) == Some(s),
{
    reveal_strlit("PLANNED");
    reveal_strlit("PREFLIGHTING");
    reveal_strlit("PREPARED");
    reveal_strlit("APPLYING");
    reveal_strlit("APPLIED");
    reveal_strlit("APPLY_FAILED");
    reveal_strlit("SUCCEEDED");
    reveal_strlit("ROLLING_BACK");
    reveal_strlit("ROLLED_BACK");
    reveal_strlit("ROLLBACK_FAILED");
    reveal_strlit("RECOVERY_REQUIRED");
    assert("PLANNED"@.len() != "PREFLIGHTING"@.len());
    assert("PLANNED"@.len() != "PREPARED"@.len());
    assert("PLANNED"@.len() != "APPLYING"@.len());
    assert("PLANNED"@[0] != "APPLIED"@[0]);
    assert("PLANNED"@.len() != "SUCCEEDED"@.len());
    assert("PLANNED"@.len() != "ROLLING_BACK"@.len());
    assert("PLANNED"@.len() != "ROLLED_BACK"@.len());
    assert("PLANNED"@.len() != "ROLLBACK_FAILED"@.len());
    assert("PLANNED"@.len() != "RECOVERY_REQUIRED"@.len());
    assert("PREFLIGHTING"@.len() != "PREPARED"@.len());
    assert("PREFLIGHTING"@.len() != "APPLYING"@.len());
    assert("PREFLIGHTING"@.len() != "APPLIED"@.len());
    assert("PREFLIGHTING"@.len() != "SUCCEEDED"@.len());
    assert("PREFLIGHTING"@[0] != "ROLLING_BACK"@[0]);
    assert("PREFLIGHTING"@.len() != "ROLLED_BACK"@.len());
    assert("PREFLIGHTING"@.len() != "ROLLBACK_FAILED"@.len());
    assert("PREFLIGHTING"@.len() != "RECOVERY_REQUIRED"@.len());
    assert("PREPARED"@[0] != "APPLYING"@[0]);
    assert("PREPARED"@.len() != "APPLIED"@.len());
    assert("PREPARED"@.len() != "SUCCEEDED"@.len());
    assert("PREPARED"@.len() != "ROLLING_BACK"@.len());
    assert("PREPARED"@.len() != "ROLLED_BACK"@.len());
    assert("PREPARED"@.len() != "ROLLBACK_FAILED"@.len());
    assert("PREPARED"@.len() != "RECOVERY_REQUIRED"@.len());
    assert("APPLYING"@.len() != "APPLIED"@.len());
    assert("APPLYING"@.len() != "SUCCEEDED"@.len());
    assert("APPLYING"@.len() != "ROLLING_BACK"@.len());
    assert("APPLYING"@.len() != "ROLLED_BACK"@.len());
    assert("APPLYING"@.len() != "ROLLBACK_FAILED"@.len());
    assert("APPLYING"@.len() != "RECOVERY_REQUIRED"@.len());
    assert("APPLIED"@.len() != "SUCCEEDED"@.len());
    assert("APPLIED"@.len() != "ROLLING_BACK"@.len());
    assert("APPLIED"@.len() != "ROLLED_BACK"@.len());
    assert("APPLIED"@.len() != "ROLLBACK_FAILED"@.len());
    assert("APPLIED"@.len() != "RECOVERY_REQUIRED"@.len());
    assert("SUCCEEDED"@.len() != "ROLLING_BACK"@.len());
    assert("SUCCEEDED"@.len() != "ROLLED_BACK"@.len());
    assert("SUCCEEDED"@.len() != "ROLLBACK_FAILED"@.len());
    assert("SUCCEEDED"@.len() != "RECOVERY_REQUIRED"@.len());
    assert("ROLLING_BACK"@.len() != "ROLLED_BACK"@.len());
    assert("ROLLING_BACK"@.len() != "ROLLBACK_FAILED"@.len());
    assert("ROLLING_BACK"@.len() != "RECOVERY_REQUIRED"@.len());
    assert("ROLLED_BACK"@.len() != "ROLLBACK_FAILED"@.len());
    assert("ROLLED_BACK"@.len() != "RECOVERY_REQUIRED"@.len());
    assert("ROLLBACK_FAILED"@.len() != "RECOVERY_REQUIRED"@.len());
}

/// Reading back the stored text of an item state gives the same state.
pub proof fn lemma_item_state_round_trip(s: ItemState)
    ensures
        spec_item_from_db(spec_item_db(s)) == Some(s),
{
    reveal_strlit("PLANNED");
    reveal_strlit("PREFLIGHTING");
    reveal_strlit("PREPARED");
    reveal_strlit("APPLYING");
    reveal_strlit("APPLIED");
    reveal_strlit("APPLY_FAILED");
    reveal_strlit("SUCCEEDED");
    reveal_strlit("ROLLING_BACK");
    reveal_strlit("ROLLED_BACK");
    reveal_strlit("ROLLBACK_FAILED");
    reveal_strlit("RECOVERY_REQUIRED");
    assert("PREPARED"@[0] != "APPLYING"@[0]);
    assert("PREPARED"@.len() != "APPLIED"@.len());
    assert("PREPARED"@.len() != "APPLY_FAILED"@.len());
    assert("PREPARED"@.len() != "ROLLING_BACK"@.len());
    assert("PREPARED"@.len() != "ROLLED_BACK"@.len());
    assert("PREPARED"@.len() != "ROLLBACK_FAILED"@.len());
    assert("PREPARED"@.len() != "RECOVERY_REQUIRED"@.len());
    assert("APPLYING"@.len() != "APPLIED"@.len());
    assert("APPLYING"@.len() != "APPLY_FAILED"@.len());
    assert("APPLYING"@.len() != "ROLLING_BACK"@.len());
    assert("APPLYING"@.len() != "ROLLED_BACK"@.len());
    assert("APPLYING"@.len() != "ROLLBACK_FAILED"@.len());
    assert("APPLYING"@.len() != "RECOVERY_REQUIRED"@.len());
    assert("APPLIED"@.len() != "APPLY_FAILED"@.len());
    assert("APPLIED"@.len() != "ROLLING_BACK"@.len());
    assert("APPLIED"@.len() != "ROLLED_BACK"@.len());
    assert("APPLIED"@.len() != "ROLLBACK_FAILED"@.len());
    assert("APPLIED"@.len() != "RECOVERY_REQUIRED"@.len());
    assert("APPLY_FAILED"@[0] != "ROLLING_BACK"@[0]);
    assert("APPLY_FAILED"@.len() != "ROLLED_BACK"@.len());
    assert("APPLY_FAILED"@.len() != "ROLLBACK_FAILED"@.len());
    assert("APPLY_FAILED"@.len() != "RECOVERY_REQUIRED"@.len());
    assert("ROLLING_BACK"@.len() != "ROLLED_BACK"@.len());
    assert("ROLLING_BACK"@.len() != "ROLLBACK_FAILED"@.len());
    assert("ROLLING_BACK"@.len() != "RECOVERY_REQUIRED"@.len());
    assert("ROLLED_BACK"@.len() != "ROLLBACK_FAILED"@.len());
    assert("ROLLED_BACK"@.len() != "RECOVERY_REQUIRED"@.len());
    assert("ROLLBACK_FAILED"@.len() != "RECOVERY_REQUIRED"@.len());
}

/// The status a timeline shows for an item, given the stored texts of the
/// item's and its transaction's states.
pub open spec fn spec_timeline_status(item_state: Seq<char>, transaction_state: Seq<char>) -> Seq<char> {
    if item_state == "ROLLED_BACK"@ {
        "rolled_back"@
    } else if item_state == "ROLLBACK_FAILED"@ {
        "rollback_failed"@
    } else if item_state == "RECOVERY_REQUIRED"@ {
        "recovery_required"@
    } else if item_state == "ROLLING_BACK"@ {
        "rolling_back"@
    } else if item_state == "APPLYING"@ {
        "applying"@
    } else if transaction_state == "RECOVERY_REQUIRED"@ {
        "recovery_required"@
    } else if transaction_state == "ROLLBACK_FAILED"@ {
        "rollback_failed"@
    } else {
        "succeeded"@
    }
}

/// The status a timeline shows for an item.
pub fn timeline_status(item_state: &str, transaction_state: &str) -> (s: &'static str)
    ensures
        s@ == spec_timeline_status(item_state@, transaction_state@),
{
    if text_eq(item_state, "ROLLED_BACK") {
        "rolled_back"
    } else if text_eq(item_state, "ROLLBACK_FAILED") {
        "rollback_failed"
    } else if text_eq(item_state, "RECOVERY_REQUIRED") {
        "recovery_required"
    } else if text_eq(item_state, "ROLLING_BACK") {
        "rolling_back"
    } else if text_eq(item_state, "APPLYING") {
        "applying"
    } else if text_eq(transaction_state, "RECOVERY_REQUIRED") {
        "recovery_required"
    } else if text_eq(transaction_state, "ROLLBACK_FAILED") {
        "rollback_failed"
    } else {
        "succeeded"
    }
}

/// The integer the journal stores for a flag.
pub fn bool_i64(value: bool) -> (r: i64)
    ensures
        r == (if value { 1i64 } else { 0i64 }),
{
    if value {
        1
    } else {
        0
    }
}

/// A timestamp as the journal's signed integer, saturating at `i64::MAX`.
pub fn to_i64(value: u64) -> (r: i64)
    ensures
        r == (if value <= i64::MAX { value as i64 } else { i64::MAX }),
{
    if value <= 9223372036854775807u64 {
        value as i64
    } else {
        i64::MAX
    }
}

/// One stage of a timeline item.
#[derive(Debug, Clone)]
pub struct TimelineStage {
    pub name: String,
    pub status: String,
}

/// The outcome of a reconciliation run, as the user interface shows it.
#[derive(Debug, Clone)]
pub struct ReconcileResult {
    pub status: String,
    pub recovered_count: u32,
    pub remaining_count: u32,
    pub message: String,
}

/// A stored text that names a transaction state is exactly that state's
/// stored text.
pub proof fn lemma_transaction_text_round_trip(v: Seq<char>)
    ensures
        spec_transaction_from_db(v) matches Some(s) ==> spec_transaction_db(s) == v,
{
}

/// A stored text that names an item state is exactly that state's stored
/// text.
pub proof fn lemma_item_text_round_trip(v: Seq<char>)
    ensures
        spec_item_from_db(v) matches Some(s) ==> spec_item_db(s) == v,
{
}

} // verus!
