use pc_custom::action::ActionId;
use pc_custom::backup::envelope::{BackupDraft, BackupEnvelope, BackupPayload, ObservationBackup};
use pc_custom::backup::fingerprint::{same_fingerprint, Fingerprint};
use uuid::Uuid;

const PAYLOAD_JSON: &[u8] = br#"{"observation":{"source":"test observation"}}"#;

fn sample_envelope() -> BackupEnvelope {
    let draft = BackupDraft {
        precondition_fingerprint: Fingerprint::of_bytes(b"before"),
        intended_fingerprint: Fingerprint::of_bytes(b"after"),
        payload: BackupPayload::Observation(ObservationBackup {
            source: "test observation".to_owned(),
        }),
    };
    BackupEnvelope::from_draft(
        draft,
        PAYLOAD_JSON,
        Uuid::new_v4().into_bytes(),
        Uuid::new_v4().into_bytes(),
        ActionId::PowerActiveSchemeCheck,
        1,
        123,
        26_100,
    )
    .expect("the random source is available")
}

#[test]
fn framing_keeps_parts_unambiguous() {
    let left = Fingerprint::of_parts(&[b"ab".as_slice(), b"c".as_slice()]);
    let right = Fingerprint::of_parts(&[b"a".as_slice(), b"bc".as_slice()]);
    assert_ne!(left, right);
    assert_eq!(left.to_hex().len(), 64);
}

#[test]
fn integrity_covers_timestamp_and_unknown_build_policy() {
    let envelope = sample_envelope();
    assert!(envelope.verify_integrity(PAYLOAD_JSON));

    let mut changed_timestamp = envelope.clone();
    changed_timestamp.created_at_unix_ms += 1;
    assert!(!changed_timestamp.verify_integrity(PAYLOAD_JSON));

    let mut changed_policy = envelope;
    changed_policy.rollback_across_unknown_build = true;
    assert!(!changed_policy.verify_integrity(PAYLOAD_JSON));
}

#[test]
fn integrity_distinguishes_missing_and_zero_applied_fingerprint() {
    let envelope = sample_envelope();
    let mut tampered = envelope.clone();
    tampered.applied_fingerprint = Some(Fingerprint([0; 32]));
    assert!(!tampered.verify_integrity(PAYLOAD_JSON));

    let mut recorded = envelope;
    recorded.record_applied(Fingerprint([0; 32]), PAYLOAD_JSON);
    assert!(recorded.verify_integrity(PAYLOAD_JSON));
}

#[test]
fn integrity_covers_the_payload_bytes() {
    let envelope = sample_envelope();
    assert!(!envelope.verify_integrity(br#"{"observation":{"source":"other"}}"#));
}

#[test]
fn a_fingerprint_is_the_sha256_of_its_bytes() {
    assert_eq!(
        Fingerprint::of_bytes(b"abc").to_hex(),
        "ba7816bf8f01cfea414140de5dae2223b00361a396177a9cb410ff61f20015ad"
    );
}

use pc_custom::backup::envelope::{PowerScheme, PowerSchemeGuid};
use pc_custom::backup::registry::{
    classify_registry_backup, prepare_registry_backup, registry_state_from_observation,
    restore_registry_backup, verify_registry_backup_restored, RegistryClassification,
    RegistryErrorKind, RegistryRestoreOutcome, RegistryRestoreStep, RegistryTarget,
};

const ADVANCED: &str = r"Software\Microsoft\Windows\CurrentVersion\Explorer\Advanced";

#[test]
fn built_in_power_schemes_have_their_windows_guids() {
    assert_eq!(
        PowerSchemeGuid::for_scheme(PowerScheme::Balanced).canonical_string(),
        "{381b4222-f694-41f0-9685-ff5bb260df2e}"
    );
    assert_eq!(
        PowerSchemeGuid::for_scheme(PowerScheme::PowerSaver).canonical_string(),
        "{a1841308-3541-4fab-bc81-f71556f20b4a}"
    );
    assert_eq!(
        PowerSchemeGuid::for_scheme(PowerScheme::HighPerformance).canonical_string(),
        "{8c5e7fda-e8bf-4a96-9a85-a6e23a8c635c}"
    );
}

#[test]
fn a_registry_backup_restores_only_over_the_applied_value() {
    let target = RegistryTarget::current_user_64(ADVANCED, "HideFileExt");
    let original = registry_state_from_observation(true, Some((4, vec![1, 0, 0, 0])));
    let backup = prepare_registry_backup(target, 4, vec![0, 0, 0, 0], 1, 26_100, original.clone()).unwrap();
    assert_eq!(backup.location.canonical_subkey, ADVANCED);
    assert_eq!(backup.location.value_name, "HideFileExt");
    let intended = backup.intended_state();
    assert_eq!(intended.raw_bytes, vec![0, 0, 0, 0]);

    assert_eq!(classify_registry_backup(&backup, &intended), RegistryClassification::Applied);
    assert_eq!(
        restore_registry_backup(&backup, &intended).unwrap(),
        RegistryRestoreStep::WriteOriginal { value_type: 4, outcome: RegistryRestoreOutcome::Restored }
    );
    assert_eq!(
        restore_registry_backup(&backup, &original).unwrap(),
        RegistryRestoreStep::Finished(RegistryRestoreOutcome::AlreadyOriginal)
    );
    let someone_else = registry_state_from_observation(true, Some((4, vec![2, 0, 0, 0])));
    assert_eq!(classify_registry_backup(&backup, &someone_else), RegistryClassification::Third);
    assert_eq!(
        restore_registry_backup(&backup, &someone_else).unwrap(),
        RegistryRestoreStep::Finished(RegistryRestoreOutcome::ExternalConflict)
    );
    assert!(verify_registry_backup_restored(&backup, &original));
    assert!(!verify_registry_backup_restored(&backup, &intended));
}

#[test]
fn a_missing_value_is_deleted_again_and_a_missing_key_is_refused() {
    let target = RegistryTarget::current_user_64(ADVANCED, "New");
    let absent = registry_state_from_observation(true, None);
    assert!(!absent.value_existed && absent.value_type.is_none() && absent.raw_bytes.is_empty());
    let backup = prepare_registry_backup(target, 4, vec![1], 1, 26_100, absent).unwrap();
    assert_eq!(
        restore_registry_backup(&backup, &backup.applied_state()).unwrap(),
        RegistryRestoreStep::DeleteValue { outcome: RegistryRestoreOutcome::Restored }
    );
    let no_key = registry_state_from_observation(false, None);
    let error = prepare_registry_backup(target, 4, vec![1], 1, 26_100, no_key).unwrap_err();
    assert_eq!(error.kind, RegistryErrorKind::InvalidData);
    let huge = prepare_registry_backup(target, 3, vec![0; 1024 * 1024 + 1], 1, 26_100, registry_state_from_observation(true, None));
    assert_eq!(huge.unwrap_err().kind, RegistryErrorKind::ResourceLimit);
}

const REG_BINARY: u32 = 3;
const REG_DWORD: u32 = 4;

/// Carries out a restore step on a simulated value, as the registry writer would.
fn perform(
    step: RegistryRestoreStep,
    backup: &pc_custom::backup::registry::RegistryBackup,
    value: &mut pc_custom::backup::registry::RegistryValueState,
) -> RegistryRestoreOutcome {
    match step {
        RegistryRestoreStep::Finished(outcome) => outcome,
        RegistryRestoreStep::WriteOriginal { value_type, outcome } => {
            *value = registry_state_from_observation(true, Some((value_type, backup.original.raw_bytes.clone())));
            outcome
        }
        RegistryRestoreStep::DeleteValue { outcome } => {
            *value = registry_state_from_observation(true, None);
            outcome
        }
    }
}

fn isolated(name: &'static str) -> RegistryTarget {
    RegistryTarget::current_user_64(r"Software\Totonoe\Tests", name)
}

#[test]
fn missing_key_is_rejected_before_backup() {
    let current = registry_state_from_observation(false, None);
    let error = prepare_registry_backup(isolated("RoundTripValue"), REG_DWORD, 1u32.to_le_bytes().to_vec(), 1, 26_100, current.clone())
        .unwrap_err();
    assert_eq!(error.kind, RegistryErrorKind::InvalidData);
    assert!(!current.key_existed);
    assert!(!current.value_existed);
}

#[test]
fn legacy_missing_key_backup_removes_only_target_and_preserves_sibling() {
    let target = isolated("LegacyTarget");
    let backup = pc_custom::backup::registry::RegistryBackup {
        location: target.location(),
        original: registry_state_from_observation(false, None),
        intended_type: REG_DWORD,
        intended_raw: 1u32.to_le_bytes().to_vec(),
        applied_type: REG_DWORD,
        applied_raw: 1u32.to_le_bytes().to_vec(),
        action_version: 1,
        windows_build: 26_100,
    };
    let mut value = backup.applied_state();
    let sibling_raw = vec![0xde, 0xad, 0xbe, 0xef];
    let sibling = registry_state_from_observation(true, Some((REG_BINARY, sibling_raw.clone())));
    assert_eq!(classify_registry_backup(&backup, &value), RegistryClassification::Applied);
    let step = restore_registry_backup(&backup, &value).unwrap();
    assert_eq!(perform(step, &backup, &mut value), RegistryRestoreOutcome::RestoredValueKeyRetained);
    assert!(value.key_existed);
    assert!(!value.value_existed);
    assert_eq!(sibling.value_type, Some(REG_BINARY));
    assert_eq!(sibling.raw_bytes, sibling_raw);
    assert!(!verify_registry_backup_restored(&backup, &value));
}

#[test]
fn existing_type_and_raw_bytes_round_trip_losslessly() {
    let original_raw = vec![0x00, 0xff, 0x10, 0x00, 0x80];
    let original = registry_state_from_observation(true, Some((REG_BINARY, original_raw.clone())));
    let backup = prepare_registry_backup(isolated("RawValue"), REG_DWORD, 0u32.to_le_bytes().to_vec(), 1, 26_100, original)
        .unwrap();
    let mut value = backup.intended_state();
    let step = restore_registry_backup(&backup, &value).unwrap();
    perform(step, &backup, &mut value);
    assert_eq!(value.value_type, Some(REG_BINARY));
    assert_eq!(value.raw_bytes, original_raw);
}

#[test]
fn absent_value_round_trips_without_deleting_preexisting_key() {
    let original = registry_state_from_observation(true, None);
    let backup = prepare_registry_backup(isolated("AbsentValue"), REG_DWORD, 1u32.to_le_bytes().to_vec(), 1, 26_100, original)
        .unwrap();
    assert!(backup.original.key_existed);
    assert!(!backup.original.value_existed);
    let mut value = backup.intended_state();
    let step = restore_registry_backup(&backup, &value).unwrap();
    assert_eq!(perform(step, &backup, &mut value), RegistryRestoreOutcome::Restored);
    assert!(value.key_existed);
    assert!(!value.value_existed);
}

#[test]
fn third_state_is_reported_and_never_overwritten() {
    let original = registry_state_from_observation(true, None);
    let backup = prepare_registry_backup(isolated("ExternalChange"), REG_DWORD, 1u32.to_le_bytes().to_vec(), 1, 26_100, original)
        .unwrap();
    let external_bytes = vec![0xde, 0xad, 0xbe, 0xef];
    let mut value = registry_state_from_observation(true, Some((REG_BINARY, external_bytes.clone())));
    let step = restore_registry_backup(&backup, &value).unwrap();
    assert_eq!(perform(step, &backup, &mut value), RegistryRestoreOutcome::ExternalConflict);
    assert_eq!(value.value_type, Some(REG_BINARY));
    assert_eq!(value.raw_bytes, external_bytes);
}

#[test]
fn a_fresh_backup_id_is_a_version_four_uuid() {
    for _ in 0..16 {
        let envelope = sample_envelope();
        assert_eq!(envelope.backup_id[6] & 0xf0, 0x40);
        assert_eq!(envelope.backup_id[8] & 0xc0, 0x80);
        assert_eq!(Uuid::from_bytes(envelope.backup_id).get_version_num(), 4);
    }
}

#[test]
fn restoring_an_applied_registry_value_round_trips_to_the_original() {
    let target = RegistryTarget::current_user_64(ADVANCED, "HideFileExt");
    let original = registry_state_from_observation(true, Some((3, vec![0x00, 0xff, 0x10, 0x00, 0x80])));
    let backup = prepare_registry_backup(target, 4, vec![0, 0, 0, 0], 1, 26_100, original.clone()).unwrap();
    let applied = backup.applied_state();
    match restore_registry_backup(&backup, &applied).unwrap() {
        RegistryRestoreStep::WriteOriginal { value_type, outcome } => {
            assert_eq!(outcome, RegistryRestoreOutcome::Restored);
            let after = registry_state_from_observation(true, Some((value_type, backup.original.raw_bytes.clone())));
            assert!(verify_registry_backup_restored(&backup, &after));
            assert_eq!(classify_registry_backup(&backup, &after), RegistryClassification::Original);
        }
        other => panic!("unexpected step {other:?}"),
    }

    let absent = registry_state_from_observation(true, None);
    let target = RegistryTarget::current_user_64(ADVANCED, "AbsentValue");
    let backup = prepare_registry_backup(target, 4, vec![1, 0, 0, 0], 1, 26_100, absent).unwrap();
    let applied = backup.applied_state();
    assert_eq!(
        restore_registry_backup(&backup, &applied).unwrap(),
        RegistryRestoreStep::DeleteValue { outcome: RegistryRestoreOutcome::Restored }
    );
    let after = registry_state_from_observation(true, None);
    assert!(verify_registry_backup_restored(&backup, &after));
}

#[test]
fn fingerprints_compare_byte_for_byte() {
    let a = Fingerprint::of_bytes(b"one");
    assert!(same_fingerprint(&a, &Fingerprint::of_bytes(b"one")));
    assert!(!same_fingerprint(&a, &Fingerprint::of_bytes(b"two")));
}

#[test]
fn sealing_keeps_the_given_backup_id_and_seals_the_rest() {
    let draft = BackupDraft {
        precondition_fingerprint: Fingerprint::of_bytes(b"before"),
        intended_fingerprint: Fingerprint::of_bytes(b"after"),
        payload: BackupPayload::Observation(ObservationBackup {
            source: "test observation".to_owned(),
        }),
    };
    let envelope = BackupEnvelope::seal(
        draft,
        PAYLOAD_JSON,
        [9u8; 16],
        [1u8; 16],
        [2u8; 16],
        ActionId::PowerActiveSchemeCheck,
        3,
        456,
        26_200,
    );
    assert_eq!(envelope.backup_id, [9u8; 16]);
    assert_eq!(envelope.transaction_id, [1u8; 16]);
    assert_eq!(envelope.action_version, 3);
    assert_eq!(envelope.created_at_unix_ms, 456);
    assert_eq!(envelope.os_build, 26_200);
    assert!(envelope.applied_fingerprint.is_none());
    assert!(envelope.verify_integrity(PAYLOAD_JSON));
}
