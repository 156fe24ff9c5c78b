use pc_custom::action::ActionId;
use pc_custom::engine::probe::{
    classify_action, combine_probe, needs_original_rollback_fence, probe_power_mode,
    probe_registry_entries, ObservedKind, PowerModeReading, ProbeCounts,
    ShiftGuardTransactionState, SpecificReading, VerificationReading, WindowLayoutTransactionState,
};
use pc_custom::backup::registry::RegistryClassification;
use pc_custom::journal::models::RecoveryClassification;
use pc_custom::health_report::HealthProbe;
use pc_custom::journal::models::ItemState;

fn counts(holds: usize, previous: usize, neither: usize) -> ProbeCounts {
    ProbeCounts {
        holds,
        previous,
        neither,
    }
}

#[test]
fn every_value_still_applied_reads_as_applied() {
    assert_eq!(combine_probe(counts(3, 0, 0)), HealthProbe::HoldsApplied);
}

#[test]
fn every_value_back_to_the_previous_one_reads_as_reverted() {
    assert_eq!(combine_probe(counts(0, 2, 0)), HealthProbe::BackToPrevious);
}

#[test]
fn a_partial_revert_is_not_reported_as_healthy() {
    assert_eq!(combine_probe(counts(1, 1, 0)), HealthProbe::Neither);
}

#[test]
fn a_third_value_anywhere_wins_over_the_rest() {
    assert_eq!(combine_probe(counts(5, 0, 1)), HealthProbe::Neither);
    assert_eq!(combine_probe(counts(0, 5, 1)), HealthProbe::Neither);
}

#[test]
fn prepared_layout_has_no_dispatch_but_every_later_state_requires_a_fence() {
    assert!(!needs_original_rollback_fence(
        ActionId::SetupWindowLayout,
        ItemState::Prepared
    ));
    for state in [
        ItemState::Applying,
        ItemState::Applied,
        ItemState::ApplyFailed,
        ItemState::RollingBack,
        ItemState::RollbackFailed,
        ItemState::RecoveryRequired,
    ] {
        assert!(needs_original_rollback_fence(
            ActionId::SetupWindowLayout,
            state
        ));
    }
    assert!(!needs_original_rollback_fence(
        ActionId::PowerActiveSchemeCheck,
        ItemState::Applying
    ));
}

#[test]
fn a_single_reverted_value_with_none_applied_reads_as_reverted() {
    assert_eq!(combine_probe(counts(0, 1, 0)), HealthProbe::BackToPrevious);
}

#[test]
fn recovery_classifies_an_item_from_its_verifications() {
    let (holds, failed) = (VerificationReading::Holds, VerificationReading::Failed);
    let general = SpecificReading::General;
    let state = ItemState::Applied;
    assert_eq!(classify_action(holds, failed, general, state, true), RecoveryClassification::Original);
    assert_eq!(classify_action(failed, holds, general, state, true), RecoveryClassification::Unknown);
    let not_original = VerificationReading::DoesNotHold(ObservedKind::Known);
    assert_eq!(classify_action(not_original, holds, general, state, true), RecoveryClassification::Applied);
    assert_eq!(classify_action(not_original, failed, general, state, true), RecoveryClassification::Unknown);
    assert_eq!(
        classify_action(not_original, VerificationReading::DoesNotHold(ObservedKind::Conflict), general, state, true),
        RecoveryClassification::Third
    );
    assert_eq!(
        classify_action(not_original, VerificationReading::DoesNotHold(ObservedKind::Other), general, state, true),
        RecoveryClassification::Unknown
    );
    let layout = |s| SpecificReading::WindowLayout(Some(s));
    let differs = VerificationReading::DoesNotHold(ObservedKind::Other);
    assert_eq!(
        classify_action(not_original, differs, layout(WindowLayoutTransactionState::MixedOwned), state, true),
        RecoveryClassification::Applied
    );
    assert_eq!(
        classify_action(not_original, differs, layout(WindowLayoutTransactionState::OriginalWithExternal), state, true),
        RecoveryClassification::Original
    );
    assert_eq!(
        classify_action(not_original, differs, SpecificReading::WindowLayout(None), state, true),
        RecoveryClassification::Unknown
    );
    let mixed = SpecificReading::ShiftGuard(Some(ShiftGuardTransactionState::MixedOwned));
    assert_eq!(
        classify_action(not_original, differs, mixed, ItemState::RollingBack, true),
        RecoveryClassification::Applied
    );
    assert_eq!(
        classify_action(not_original, differs, mixed, ItemState::Applied, true),
        RecoveryClassification::Third
    );
}

#[test]
fn registry_items_are_compared_value_by_value() {
    let (probe, reason) = probe_registry_entries(&[]);
    assert_eq!(probe, HealthProbe::Uncomparable);
    assert_eq!(reason.as_deref(), Some("この項目は、あとから見比べるしくみがありません。"));
    let (probe, reason) = probe_registry_entries(&[Some(RegistryClassification::Applied), None]);
    assert_eq!(probe, HealthProbe::Uncomparable);
    assert_eq!(reason.as_deref(), Some("いまの状態を読み取れませんでした。"));
    let all_applied = [Some(RegistryClassification::Applied), Some(RegistryClassification::Applied)];
    assert_eq!(probe_registry_entries(&all_applied), (HealthProbe::HoldsApplied, None));
    let back = [Some(RegistryClassification::Original), Some(RegistryClassification::CreatedKeyWithoutValue)];
    assert_eq!(probe_registry_entries(&back), (HealthProbe::BackToPrevious, None));
    let third = [Some(RegistryClassification::Applied), Some(RegistryClassification::Third)];
    assert_eq!(probe_registry_entries(&third), (HealthProbe::Neither, None));
}

#[test]
fn power_mode_compares_both_overlays() {
    let (intended, ac, dc) = ([1; 16], [2; 16], [3; 16]);
    let bytes = PowerModeReading::Bytes;
    assert_eq!(
        probe_power_mode(intended, ac, dc, bytes(intended), bytes(intended)),
        (HealthProbe::HoldsApplied, None)
    );
    assert_eq!(probe_power_mode(intended, ac, dc, bytes(ac), bytes(dc)), (HealthProbe::BackToPrevious, None));
    assert_eq!(probe_power_mode(intended, ac, dc, bytes(intended), bytes(dc)), (HealthProbe::Neither, None));
    assert_eq!(probe_power_mode(intended, ac, dc, bytes([9; 16]), bytes(intended)), (HealthProbe::Neither, None));
    let (probe, reason) = probe_power_mode(intended, ac, dc, PowerModeReading::ReadFailed, PowerModeReading::Unavailable);
    assert_eq!(probe, HealthProbe::Uncomparable);
    assert_eq!(reason.as_deref(), Some("いまの状態を読み取れませんでした。"));
    let (_, reason) = probe_power_mode(intended, ac, dc, bytes(ac), PowerModeReading::Unavailable);
    assert_eq!(reason.as_deref(), Some("この環境ではこの項目を確認できません。"));
}
