use pc_custom::compatibility::catalog::{
    CompatibilityCatalog, CompatibilityMode, WINDOWS_11_23H2, WINDOWS_11_24H2, WINDOWS_11_25H2,
    WINDOWS_11_26H1,
};

#[test]
fn unknown_build_is_never_mutable() {
    let decision = CompatibilityCatalog::decision_for_build(99_999);
    assert_eq!(decision.mode, CompatibilityMode::UnknownBuild);
    assert!(!decision.rollback_across_unknown_build);
}

#[test]
fn current_known_builds_have_explicit_modes() {
    assert_eq!(
        CompatibilityCatalog::decision_for_build(WINDOWS_11_24H2).mode,
        CompatibilityMode::TestedMutable
    );
    assert_eq!(
        CompatibilityCatalog::decision_for_build(WINDOWS_11_26H1).mode,
        CompatibilityMode::TestedDetectOnly
    );
}

#[test]
fn every_listed_build_has_its_own_mode() {
    assert_eq!(
        CompatibilityCatalog::decision_for_build(WINDOWS_11_25H2).mode,
        CompatibilityMode::TestedMutable
    );
    assert_eq!(
        CompatibilityCatalog::decision_for_build(WINDOWS_11_23H2).mode,
        CompatibilityMode::Unsupported
    );
}

use pc_custom::action::{ActionErrorCode, ActionId, ActionKind, ActionMetadata, ActionStage};
use pc_custom::compatibility::os_identity::{
    architecture_from_text, combine_observations, parse_u32, Architecture, OsIdentity,
    OsIdentityErrorKind, RegistryObservation, WmiIdentity,
};

fn metadata(kind: ActionKind) -> ActionMetadata {
    ActionMetadata {
        id: ActionId::ExplorerShowExtensions,
        action_version: 1,
        kind,
        minimum_build: 26_100,
        maximum_tested_build: 26_200,
        auto_apply_eligible: true,
    }
}

#[test]
fn mutation_needs_a_tested_mutable_build_inside_the_actions_range() {
    let tested = OsIdentity::from_test_build(WINDOWS_11_24H2);
    let persistent = metadata(ActionKind::Persistent);
    let decision = CompatibilityCatalog::ensure_mutation_allowed(&tested, &persistent, ActionStage::Apply).unwrap();
    assert_eq!(decision.mode, CompatibilityMode::TestedMutable);

    let unknown = OsIdentity::from_test_build(99_999);
    let error = CompatibilityCatalog::ensure_mutation_allowed(&unknown, &persistent, ActionStage::Apply).unwrap_err();
    assert_eq!(error.code, ActionErrorCode::RecoveryRequired);
    assert_eq!(error.stage, ActionStage::Apply);

    let detect_only = OsIdentity::from_test_build(WINDOWS_11_26H1);
    let error = CompatibilityCatalog::ensure_mutation_allowed(&detect_only, &persistent, ActionStage::Rollback).unwrap_err();
    assert_eq!(error.code, ActionErrorCode::CompatibilityBlocked);
    assert_eq!(error.stage, ActionStage::Rollback);

    let mut narrow = persistent;
    narrow.maximum_tested_build = 26_100;
    let outside = OsIdentity::from_test_build(WINDOWS_11_25H2);
    assert!(CompatibilityCatalog::ensure_mutation_allowed(&outside, &narrow, ActionStage::Apply).is_err());

    let observation = metadata(ActionKind::Observation);
    assert!(CompatibilityCatalog::ensure_mutation_allowed(&detect_only, &observation, ActionStage::Apply).is_ok());
    let unsupported = OsIdentity::from_test_build(WINDOWS_11_23H2);
    let error = CompatibilityCatalog::ensure_mutation_allowed(&unsupported, &observation, ActionStage::Apply).unwrap_err();
    assert_eq!(error.stage, ActionStage::Detect);
}

#[test]
fn the_two_observations_must_agree_on_the_build() {
    let wmi = WmiIdentity { major: 10, minor: 0, base_build: 26_100, operating_system_sku: 48, product_type: 1 };
    let registry = RegistryObservation { base_build: 26_100, revision: Some(4061), architecture: Architecture::X64 };
    let identity = combine_observations(wmi, registry, 77).unwrap();
    assert_eq!(identity.base_build, 26_100);
    assert_eq!(identity.revision, Some(4061));
    assert_eq!(identity.observed_at_unix_ms, 77);
    let other = RegistryObservation { base_build: 26_200, ..registry };
    assert_eq!(
        combine_observations(wmi, other, 77).unwrap_err().kind,
        OsIdentityErrorKind::ConflictingObservation
    );
}

#[test]
fn registry_numbers_and_architectures_parse_like_std() {
    for text in ["26100", "+7", "0", "4294967295", "4294967296", "", "+", "-1", "12a", "007"] {
        assert_eq!(parse_u32(text.as_bytes()), text.parse::<u32>().ok(), "{text}");
    }
    assert_eq!(architecture_from_text("AMD64"), Architecture::X64);
    assert_eq!(architecture_from_text("ARM64"), Architecture::Arm64);
    assert_eq!(architecture_from_text("x86"), Architecture::X86);
    assert_eq!(architecture_from_text("IA64"), Architecture::Unknown);
}

#[test]
fn a_narrowed_decision_names_the_tested_range_and_keeps_the_rest() {
    let tested = OsIdentity::from_test_build(WINDOWS_11_24H2);
    let mut narrow = metadata(ActionKind::Persistent);
    narrow.maximum_tested_build = 22_000;
    let decision = CompatibilityCatalog::evaluate(&tested, &narrow);
    assert_eq!(decision.mode, CompatibilityMode::TestedDetectOnly);
    assert_eq!(decision.evidence_id, "totonoe.action-build-outside-tested-range");
    assert!(!decision.rollback_across_unknown_build);

    let inside = CompatibilityCatalog::evaluate(&tested, &metadata(ActionKind::Persistent));
    let identity = CompatibilityCatalog::decision_for_identity(&tested);
    assert_eq!(inside.mode, identity.mode);
    assert_eq!(inside.evidence_id, identity.evidence_id);
}

#[test]
fn compatibility_refusals_carry_their_message_keys() {
    let persistent = metadata(ActionKind::Persistent);
    let unknown = OsIdentity::from_test_build(99_999);
    let error = CompatibilityCatalog::ensure_mutation_allowed(&unknown, &persistent, ActionStage::Apply).unwrap_err();
    assert_eq!(error.user_message_key, "action.compatibility.unknown_build_recovery_required");
    assert!(!error.retryable);

    let detect_only = OsIdentity::from_test_build(WINDOWS_11_26H1);
    let error = CompatibilityCatalog::ensure_mutation_allowed(&detect_only, &persistent, ActionStage::Apply).unwrap_err();
    assert_eq!(error.user_message_key, "action.compatibility.detect_only");

    let unsupported = OsIdentity::from_test_build(WINDOWS_11_23H2);
    let error = CompatibilityCatalog::ensure_mutation_allowed(&unsupported, &persistent, ActionStage::Apply).unwrap_err();
    assert_eq!(error.user_message_key, "action.compatibility.unsupported");
    assert_eq!(error.code, ActionErrorCode::CompatibilityBlocked);

    let observation = metadata(ActionKind::Observation);
    let error = CompatibilityCatalog::ensure_detect_allowed(&unsupported, &observation).unwrap_err();
    assert_eq!(error.user_message_key, "action.compatibility.unsupported");
    assert_eq!(error.stage, ActionStage::Detect);
    assert!(!error.retryable);
    assert!(CompatibilityCatalog::ensure_detect_allowed(&detect_only, &observation).is_ok());
}
