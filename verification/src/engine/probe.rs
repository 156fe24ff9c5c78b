//! Comparing backed-up values with current ones for the health report.
//!
//! A partial revert is never called healthy: mixed results read as "neither".

use vstd::prelude::*;
use crate::action::ActionId;
use crate::ids::same_id;
use crate::backup::registry::RegistryClassification;
use crate::health_report::HealthProbe;
use crate::journal::models::{ItemState, RecoveryClassification};

verus! {

#[derive(Debug, Default, Clone, Copy, PartialEq, Eq, Structural)]
pub struct ProbeCounts {
    pub holds: usize,
    pub previous: usize,
    pub neither: usize,
}

pub open spec fn spec_combine_probe(c: ProbeCounts) -> HealthProbe {
    if c.neither > 0 || (c.holds > 0 && c.previous > 0) {
        HealthProbe::Neither
    } else if c.previous > 0 {
        HealthProbe::BackToPrevious
    } else {
        HealthProbe::HoldsApplied
    }
}

/// Summarises several compared values as one probe: a third value anywhere,
/// or a mix of applied and previous values, reads as "neither".
pub fn combine_probe(counts: ProbeCounts) -> (p: HealthProbe)
    ensures
        p == spec_combine_probe(counts),
{
    if counts.neither > 0 || (counts.holds > 0 && counts.previous > 0) {
        HealthProbe::Neither
    } else if counts.previous > 0 {
        HealthProbe::BackToPrevious
    } else {
        HealthProbe::HoldsApplied
    }
}

pub open spec fn no_mechanism_reason() -> Seq<char> {
    "この項目は、あとから見比べるしくみがありません。"@
}

pub open spec fn unreadable_reason() -> Seq<char> {
    "いまの状態を読み取れませんでした。"@
}

/// Counts of applied, previous and third values among classified registry values.
pub open spec fn spec_registry_counts(results: Seq<Option<RegistryClassification>>) -> ProbeCounts
    decreases results.len(),
{
    if results.len() == 0 {
        ProbeCounts { holds: 0, previous: 0, neither: 0 }
    } else {
        let c = spec_registry_counts(results.drop_last());
        match results.last() {
            Some(RegistryClassification::Applied) => ProbeCounts { holds: (c.holds + 1) as usize, ..c },
            Some(RegistryClassification::Original) => ProbeCounts { previous: (c.previous + 1) as usize, ..c },
            Some(RegistryClassification::CreatedKeyWithoutValue) => ProbeCounts {
                previous: (c.previous + 1) as usize,
                ..c
            },
            Some(RegistryClassification::Third) => ProbeCounts { neither: (c.neither + 1) as usize, ..c },
            None => c,
        }
    }
}

pub open spec fn any_unreadable(results: Seq<Option<RegistryClassification>>) -> bool {
    exists|i: int| 0 <= i < results.len() && results[i] is None
}

proof fn lemma_counts_bounded(results: Seq<Option<RegistryClassification>>)
    ensures
        spec_registry_counts(results).holds + spec_registry_counts(results).previous
            + spec_registry_counts(results).neither <= results.len(),
    decreases results.len(),
{
    if results.len() > 0 {
        lemma_counts_bounded(results.drop_last());
    }
}

/// The probe of an item backed up as registry values, from the current
/// classification of each value (`None` where the value could not be read).
/// No values means there is nothing to compare; one unreadable value makes
/// the whole item unknown.
pub fn probe_registry_entries(results: &[Option<RegistryClassification>]) -> (r: (HealthProbe, Option<String>))
    ensures
        results@.len() == 0 ==> (r.1 matches Some(reason) && reason@ == no_mechanism_reason() && r.0
            == HealthProbe::Uncomparable),
        results@.len() > 0 && any_unreadable(results@) ==> (r.1 matches Some(reason) && reason@
            == unreadable_reason() && r.0 == HealthProbe::Uncomparable),
        results@.len() > 0 && !any_unreadable(results@) ==> (r.0 == spec_combine_probe(
            spec_registry_counts(results@),
        ) && r.1 is None),
{
    if results.len() == 0 {
        return (HealthProbe::Uncomparable, Some(String::from_str("この項目は、あとから見比べるしくみがありません。")));
    }
    let mut counts = ProbeCounts { holds: 0, previous: 0, neither: 0 };
    let mut i: usize = 0;
    while i < results.len()
        invariant
            i <= results@.len(),
            counts == spec_registry_counts(results@.subrange(0, i as int)),
            forall|k: int| 0 <= k < i ==> results@[k] is Some,
        decreases results@.len() - i,
    {
        proof {
            lemma_counts_bounded(results@.subrange(0, i as int));
            assert(results@.subrange(0, i + 1).drop_last() =~= results@.subrange(0, i as int));
        }
        match results[i] {
            Some(RegistryClassification::Applied) => {
                counts.holds = counts.holds + 1;
            },
            Some(RegistryClassification::Original) | Some(RegistryClassification::CreatedKeyWithoutValue) => {
                counts.previous = counts.previous + 1;
            },
            Some(RegistryClassification::Third) => {
                counts.neither = counts.neither + 1;
            },
            None => {
                return (HealthProbe::Uncomparable, Some(String::from_str("いまの状態を読み取れませんでした。")));
            },
        }
        i = i + 1;
    }
    assert(results@.subrange(0, results@.len() as int) =~= results@);
    (combine_probe(counts), None)
}

/// What reading one power-mode overlay gave.
#[derive(Debug, Clone, Copy)]
pub enum PowerModeReading {
    /// The read itself failed.
    ReadFailed,
    /// This machine does not expose the value.
    Unavailable,
    /// The raw overlay GUID bytes, known or not.
    Bytes([u8; 16]),
}

pub open spec fn spec_power_count(c: ProbeCounts, current: Seq<u8>, intended: Seq<u8>, original: Seq<u8>) -> ProbeCounts {
    if current == intended {
        ProbeCounts { holds: (c.holds + 1) as usize, ..c }
    } else if current == original {
        ProbeCounts { previous: (c.previous + 1) as usize, ..c }
    } else {
        ProbeCounts { neither: (c.neither + 1) as usize, ..c }
    }
}

/// The probe of a power-mode item from the current AC and DC readings and
/// the backed-up raw bytes.
pub fn probe_power_mode(
    intended: [u8; 16],
    original_ac: [u8; 16],
    original_dc: [u8; 16],
    ac: PowerModeReading,
    dc: PowerModeReading,
) -> (r: (HealthProbe, Option<String>))
    ensures
        (ac is ReadFailed || dc is ReadFailed) ==> (r.1 matches Some(reason) && reason@ == unreadable_reason()
            && r.0 == HealthProbe::Uncomparable),
        !(ac is ReadFailed || dc is ReadFailed) && (ac is Unavailable || dc is Unavailable) ==> (r.1 matches Some(
            reason,
        ) && reason@ == "この環境ではこの項目を確認できません。"@ && r.0 == HealthProbe::Uncomparable),
        (ac is Bytes && dc is Bytes) ==> {
            let zero = ProbeCounts { holds: 0, previous: 0, neither: 0 };
            let c = spec_power_count(
                spec_power_count(zero, ac->Bytes_0@, intended@, original_ac@),
                dc->Bytes_0@,
                intended@,
                original_dc@,
            );
            r.0 == spec_combine_probe(c) && r.1 is None
        },
{
    let (current_ac, current_dc) = match (ac, dc) {
        (PowerModeReading::ReadFailed, _) | (_, PowerModeReading::ReadFailed) => {
            return (HealthProbe::Uncomparable, Some(String::from_str("いまの状態を読み取れませんでした。")));
        },
        (PowerModeReading::Bytes(a), PowerModeReading::Bytes(d)) => (a, d),
        _ => {
            return (HealthProbe::Uncomparable, Some(String::from_str("この環境ではこの項目を確認できません。")));
        },
    };
    let mut counts = ProbeCounts { holds: 0, previous: 0, neither: 0 };
    if same_id(&current_ac, &intended) {
        counts.holds = counts.holds + 1;
    } else if same_id(&current_ac, &original_ac) {
        counts.previous = counts.previous + 1;
    } else {
        counts.neither = counts.neither + 1;
    }
    if same_id(&current_dc, &intended) {
        counts.holds = counts.holds + 1;
    } else if same_id(&current_dc, &original_dc) {
        counts.previous = counts.previous + 1;
    } else {
        counts.neither = counts.neither + 1;
    }
    (combine_probe(counts), None)
}

/// Once a window-layout item has left PREPARED, recovery must re-assert the
/// original placement before finishing the item.
pub fn needs_original_rollback_fence(action_id: ActionId, state: ItemState) -> (r: bool)
    ensures
        r == (action_id == ActionId::SetupWindowLayout && state != ItemState::Prepared),
{
    action_id == ActionId::SetupWindowLayout && state != ItemState::Prepared
}

/// How the keyboard-accessibility guard's settings relate to its backup.
#[derive(Debug, Clone, Copy, PartialEq, Eq, Structural)]
pub enum ShiftGuardTransactionState {
    Original,
    Desired,
    MixedOwned,
    Third,
}

pub open spec fn spec_shift_guard_classification(
    state: ShiftGuardTransactionState,
    item_state: ItemState,
    applied_fingerprint_recorded: bool,
) -> RecoveryClassification {
    match state {
        ShiftGuardTransactionState::Original => RecoveryClassification::Original,
        ShiftGuardTransactionState::Desired => RecoveryClassification::Applied,
        ShiftGuardTransactionState::MixedOwned => if item_state == ItemState::RollingBack || (
        !applied_fingerprint_recorded && (item_state == ItemState::Applying || item_state
            == ItemState::ApplyFailed)) {
            RecoveryClassification::Applied
        } else {
            RecoveryClassification::Third
        },
        ShiftGuardTransactionState::Third => RecoveryClassification::Third,
    }
}

/// A mixed state belongs to this application only while it was itself
/// writing (rolling back, or applying before the applied value was recorded).
pub fn classify_shift_guard_recovery_state(
    state: ShiftGuardTransactionState,
    item_state: ItemState,
    applied_fingerprint_recorded: bool,
) -> (c: RecoveryClassification)
    ensures
        c == spec_shift_guard_classification(state, item_state, applied_fingerprint_recorded),
{
    match state {
        ShiftGuardTransactionState::Original => RecoveryClassification::Original,
        ShiftGuardTransactionState::Desired => RecoveryClassification::Applied,
        ShiftGuardTransactionState::MixedOwned => {
            if item_state == ItemState::RollingBack || (!applied_fingerprint_recorded && (item_state
                == ItemState::Applying || item_state == ItemState::ApplyFailed)) {
                RecoveryClassification::Applied
            } else {
                RecoveryClassification::Third
            }
        },
        ShiftGuardTransactionState::Third => RecoveryClassification::Third,
    }
}

/// How a saved window layout's windows relate to the backup and the
/// intended layout.
#[derive(Debug, Clone, Copy, PartialEq, Eq, Structural)]
pub enum WindowLayoutTransactionState {
    Desired,
    MixedOwned,
    AppliedWithExternal,
    Original,
    OriginalWithExternal,
    Third,
}

/// The kind of state an Action's detection observed, as far as recovery
/// tells them apart.
#[derive(Debug, Clone, Copy, PartialEq, Eq, Structural)]
pub enum ObservedKind {
    Known,
    NeedsRestart,
    Conflict,
    Other,
}

/// What an Action's verification reported: it holds, it does not (with what
/// was observed instead), or the check itself failed.
#[derive(Debug, Clone, Copy, PartialEq, Eq, Structural)]
pub enum VerificationReading {
    Holds,
    DoesNotHold(ObservedKind),
    Failed,
}

/// An Action-specific reading of the transaction's state, for the Actions
/// whose partial states need one; `None` inside means the reading failed.
#[derive(Debug, Clone, Copy, PartialEq, Eq, Structural)]
pub enum SpecificReading {
    General,
    WindowLayout(Option<WindowLayoutTransactionState>),
    ShiftGuard(Option<ShiftGuardTransactionState>),
}

pub open spec fn spec_window_layout_classification(state: WindowLayoutTransactionState) -> RecoveryClassification {
    match state {
        WindowLayoutTransactionState::Desired | WindowLayoutTransactionState::MixedOwned
        | WindowLayoutTransactionState::AppliedWithExternal => RecoveryClassification::Applied,
        WindowLayoutTransactionState::Original | WindowLayoutTransactionState::OriginalWithExternal
            => RecoveryClassification::Original,
        WindowLayoutTransactionState::Third => RecoveryClassification::Third,
    }
}

/// Who owns an unfinished item's current value: already the original when
/// the rollback verifies; ours when the apply verifies; otherwise the
/// Action-specific reading decides, or, without one, a known but different
/// state belongs to a third party. Any failed check leaves it unknown.
pub open spec fn spec_classify_action(
    rolled_back: VerificationReading,
    applied: VerificationReading,
    specific: SpecificReading,
    item_state: ItemState,
    applied_fingerprint_recorded: bool,
) -> RecoveryClassification {
    match rolled_back {
        VerificationReading::Holds => RecoveryClassification::Original,
        VerificationReading::Failed => RecoveryClassification::Unknown,
        VerificationReading::DoesNotHold(_) => match applied {
            VerificationReading::Holds => RecoveryClassification::Applied,
            VerificationReading::Failed => RecoveryClassification::Unknown,
            VerificationReading::DoesNotHold(observed) => match specific {
                SpecificReading::WindowLayout(Some(state)) => spec_window_layout_classification(state),
                SpecificReading::WindowLayout(None) => RecoveryClassification::Unknown,
                SpecificReading::ShiftGuard(Some(state)) => spec_shift_guard_classification(
                    state,
                    item_state,
                    applied_fingerprint_recorded,
                ),
                SpecificReading::ShiftGuard(None) => RecoveryClassification::Unknown,
                SpecificReading::General => match observed {
                    ObservedKind::Other => RecoveryClassification::Unknown,
                    _ => RecoveryClassification::Third,
                },
            },
        },
    }
}

/// Classifies an unfinished item from its Action's verifications.
pub fn classify_action(
    rolled_back: VerificationReading,
    applied: VerificationReading,
    specific: SpecificReading,
    item_state: ItemState,
    applied_fingerprint_recorded: bool,
) -> (c: RecoveryClassification)
    ensures
        c == spec_classify_action(rolled_back, applied, specific, item_state, applied_fingerprint_recorded),
{
    match rolled_back {
        VerificationReading::Holds => return RecoveryClassification::Original,
        VerificationReading::Failed => return RecoveryClassification::Unknown,
        VerificationReading::DoesNotHold(_) => {},
    }
    let observed = match applied {
        VerificationReading::Holds => return RecoveryClassification::Applied,
        VerificationReading::Failed => return RecoveryClassification::Unknown,
        VerificationReading::DoesNotHold(observed) => observed,
    };
    match specific {
        SpecificReading::WindowLayout(reading) => match reading {
            Some(WindowLayoutTransactionState::Desired)
            | Some(WindowLayoutTransactionState::MixedOwned)
            | Some(WindowLayoutTransactionState::AppliedWithExternal) => RecoveryClassification::Applied,
            Some(WindowLayoutTransactionState::Original)
            | Some(WindowLayoutTransactionState::OriginalWithExternal) => RecoveryClassification::Original,
            Some(WindowLayoutTransactionState::Third) => RecoveryClassification::Third,
            None => RecoveryClassification::Unknown,
        },
        SpecificReading::ShiftGuard(reading) => match reading {
            Some(state) => classify_shift_guard_recovery_state(state, item_state, applied_fingerprint_recorded),
            None => RecoveryClassification::Unknown,
        },
        SpecificReading::General => match observed {
            ObservedKind::Known | ObservedKind::NeedsRestart | ObservedKind::Conflict => RecoveryClassification::Third,
            ObservedKind::Other => RecoveryClassification::Unknown,
        },
    }
}

/// A value whose rollback verifies is never written back: it is already the
/// original, whatever the other checks say.
pub proof fn lemma_verified_original_is_never_rolled_back(
    applied: VerificationReading,
    specific: SpecificReading,
    item_state: ItemState,
    recorded: bool,
)
    ensures
        spec_classify_action(VerificationReading::Holds, applied, specific, item_state, recorded)
            == RecoveryClassification::Original,
{
}

/// A failed verification never lets recovery claim the value as ours.
pub proof fn lemma_failed_checks_are_unknown(
    rolled_back: VerificationReading,
    specific: SpecificReading,
    item_state: ItemState,
    recorded: bool,
)
    requires
        rolled_back != VerificationReading::Holds,
    ensures
        spec_classify_action(rolled_back, VerificationReading::Failed, specific, item_state, recorded)
            == RecoveryClassification::Unknown,
{
}

/// A partial revert is never reported as healthy.
pub proof fn lemma_partial_revert_is_not_healthy(c: ProbeCounts)
    requires
        c.previous > 0,
    ensures
        spec_combine_probe(c) != HealthProbe::HoldsApplied,
{
}

/// "Holds applied" is reported only when every compared value still holds it.
pub proof fn lemma_holds_only_when_all_hold(c: ProbeCounts)
    requires
        spec_combine_probe(c) == HealthProbe::HoldsApplied,
    ensures
        c.previous == 0 && c.neither == 0,
{
}

/// When neither verification holds, a window layout whose saved windows still
/// sit where this app put them (all of them, some of them, or alongside
/// windows someone else moved) is ours to roll back; one back at the
/// original placements is the original; anything else is a third party's.
/// A layout that could not be read is unknown.
pub proof fn lemma_window_layout_ownership(
    rolled_back: ObservedKind,
    applied: ObservedKind,
    state: WindowLayoutTransactionState,
    item_state: ItemState,
    recorded: bool,
)
    ensures
        (state == WindowLayoutTransactionState::Desired || state == WindowLayoutTransactionState::MixedOwned
            || state == WindowLayoutTransactionState::AppliedWithExternal) ==> spec_classify_action(
            VerificationReading::DoesNotHold(rolled_back),
            VerificationReading::DoesNotHold(applied),
            SpecificReading::WindowLayout(Some(state)),
            item_state,
            recorded,
        ) == RecoveryClassification::Applied,
        (state == WindowLayoutTransactionState::Original || state
            == WindowLayoutTransactionState::OriginalWithExternal) ==> spec_classify_action(
            VerificationReading::DoesNotHold(rolled_back),
            VerificationReading::DoesNotHold(applied),
            SpecificReading::WindowLayout(Some(state)),
            item_state,
            recorded,
        ) == RecoveryClassification::Original,
        state == WindowLayoutTransactionState::Third ==> spec_classify_action(
            VerificationReading::DoesNotHold(rolled_back),
            VerificationReading::DoesNotHold(applied),
            SpecificReading::WindowLayout(Some(state)),
            item_state,
            recorded,
        ) == RecoveryClassification::Third,
        spec_classify_action(
            VerificationReading::DoesNotHold(rolled_back),
            VerificationReading::DoesNotHold(applied),
            SpecificReading::WindowLayout(None),
            item_state,
            recorded,
        ) == RecoveryClassification::Unknown,
{
}

/// How recovery decides whose an unfinished item's value is: a verified
/// rollback means the original, whatever else was read; otherwise a
/// verified apply means ours; a failed check or an unreadable specific
/// reading means unknown; without an Action-specific reading, a known but
/// different state is a third party's and an unrecognised one unknown. The
/// keyboard guard's mixed state is ours only while this application was
/// itself writing it: rolling back, or applying before the applied value was
/// recorded.
pub proof fn lemma_classification_table(
    rolled_back: VerificationReading,
    applied: VerificationReading,
    specific: SpecificReading,
    item_state: ItemState,
    recorded: bool,
    observed: ObservedKind,
    guard: ShiftGuardTransactionState,
)
    ensures
        rolled_back == VerificationReading::Failed ==> spec_classify_action(rolled_back, applied, specific, item_state, recorded)
            == RecoveryClassification::Unknown,
        rolled_back is DoesNotHold ==> {
            &&& applied == VerificationReading::Holds ==> spec_classify_action(rolled_back, applied, specific, item_state, recorded)
                == RecoveryClassification::Applied
            &&& applied == VerificationReading::Failed ==> spec_classify_action(rolled_back, applied, specific, item_state, recorded)
                == RecoveryClassification::Unknown
        },
        ({
            let c = spec_classify_action(
                VerificationReading::DoesNotHold(observed),
                VerificationReading::DoesNotHold(observed),
                SpecificReading::General,
                item_state,
                recorded,
            );
            &&& observed == ObservedKind::Other ==> c == RecoveryClassification::Unknown
            &&& observed != ObservedKind::Other ==> c == RecoveryClassification::Third
        }),
        spec_classify_action(
            VerificationReading::DoesNotHold(observed),
            VerificationReading::DoesNotHold(observed),
            SpecificReading::ShiftGuard(None),
            item_state,
            recorded,
        ) == RecoveryClassification::Unknown,
        ({
            let c = spec_classify_action(
                VerificationReading::DoesNotHold(observed),
                VerificationReading::DoesNotHold(observed),
                SpecificReading::ShiftGuard(Some(guard)),
                item_state,
                recorded,
            );
            &&& guard == ShiftGuardTransactionState::Original ==> c == RecoveryClassification::Original
            &&& guard == ShiftGuardTransactionState::Desired ==> c == RecoveryClassification::Applied
            &&& guard == ShiftGuardTransactionState::Third ==> c == RecoveryClassification::Third
            &&& guard == ShiftGuardTransactionState::MixedOwned ==> (c == RecoveryClassification::Applied <==> (item_state
                == ItemState::RollingBack || (!recorded && (item_state == ItemState::Applying || item_state
                == ItemState::ApplyFailed))))
            &&& guard == ShiftGuardTransactionState::MixedOwned ==> (c == RecoveryClassification::Applied || c
                == RecoveryClassification::Third)
        }),
{
}

/// Several compared values read as one: all applied means "holds", all
/// previous means "back to previous", and anything else, a third value or
/// a mix, means "neither"; no values at all read as "holds" only when
/// nothing was compared.
pub proof fn lemma_combined_probe(c: ProbeCounts)
    ensures
        (spec_combine_probe(c) == HealthProbe::HoldsApplied) <==> (c.previous == 0 && c.neither == 0),
        (spec_combine_probe(c) == HealthProbe::BackToPrevious) <==> (c.previous > 0 && c.holds == 0 && c.neither
            == 0),
        (spec_combine_probe(c) == HealthProbe::Neither) <==> (c.neither > 0 || (c.holds > 0 && c.previous > 0)),
        spec_combine_probe(c) != HealthProbe::Uncomparable,
{
}

} // verus!
