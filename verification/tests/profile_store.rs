use pc_custom::error::CoreError;
use pc_custom::game_profile::store::{
    check_enable, check_import_file, import_preview_item, manual_run_record,
    normalize_conflict_policy, parse_conflict_policy, record_import, ImportResult,
};
use pc_custom::game_profile::runtime::to_game_profile;
use pc_custom::game_profile::{ConflictPolicy, GameProfileId, TrackingMode};

#[test]
fn a_run_with_nothing_reversible_leaves_no_record() {
    assert!(manual_run_record("t".to_owned(), Vec::new()).is_none());
    let record = manual_run_record("t".to_owned(), vec!["b".to_owned(), "a".to_owned()]).unwrap();
    assert_eq!(record.reversible_item_ids, vec!["b".to_owned(), "a".to_owned()]);
}

#[test]
fn the_conflict_policy_defaults_to_abort_and_rejects_unknown_values() {
    assert_eq!(normalize_conflict_policy(None).unwrap(), "abort_profile");
    assert_eq!(normalize_conflict_policy(Some("skip_conflicting")).unwrap(), "skip_conflicting");
    assert_eq!(
        normalize_conflict_policy(Some("whatever")).unwrap_err().user_message,
        "競合方針の値が不正です。"
    );
    assert_eq!(parse_conflict_policy("abort_profile").unwrap(), ConflictPolicy::AbortProfile);
    assert_eq!(parse_conflict_policy("skip_conflicting").unwrap(), ConflictPolicy::SkipConflicting);
    assert!(parse_conflict_policy("Skip_Conflicting").is_err());
}

#[test]
fn manual_mode_can_never_enable_automation() {
    assert!(check_enable(true, true).is_err());
    assert!(check_enable(true, false).is_ok());
    assert!(check_enable(false, true).is_ok());
}

#[test]
fn a_backup_of_another_version_or_too_many_profiles_is_refused() {
    assert!(check_import_file(1, 200).is_ok());
    assert_eq!(check_import_file(2, 1).unwrap_err().user_message, "バックアップの版が対応外です。");
    assert_eq!(
        check_import_file(1, 201).unwrap_err().user_message,
        "バックアップのプロファイル数が多すぎます。"
    );
}

#[test]
fn the_import_preview_says_what_happens_here() {
    let manual = import_preview_item("集中".to_owned(), None, 2, Ok(()));
    assert!(manual.resolvable);
    assert_eq!(manual.note, "手動モードとして2件の準備を取り込みます");
    let game = import_preview_item("ゲーム".to_owned(), Some(r"C:\g.exe".to_owned()), 3, Ok(()));
    assert_eq!(game.note, "3件の準備を取り込みます");
    let missing = import_preview_item(
        "ゲーム".to_owned(),
        Some(r"C:\g.exe".to_owned()),
        3,
        Err("見つかりません".to_owned()),
    );
    assert!(!missing.resolvable);
    assert_eq!(missing.note, "見つかりません");
}

#[test]
fn an_import_records_created_and_skipped_profiles() {
    let mut result = ImportResult {
        imported: Vec::new(),
        skipped: Vec::new(),
    };
    record_import(&mut result, "a".to_owned(), Ok("a".to_owned()));
    record_import(&mut result, "b".to_owned(), Err(CoreError::invalid_request("だめ")));
    assert_eq!(result.imported, vec!["a".to_owned()]);
    assert_eq!(result.skipped.len(), 1);
    assert_eq!(result.skipped[0].reason, "だめ");
}

use pc_custom::action::ProcessFileIdentity;
use pc_custom::game_profile::store::{
    check_loaded_profiles, check_persist_size, merge_game_identities, validate_loaded_profiles,
    CreateProfileRequest,
    ProfileStore, ResolvedBinding, StoredProfile, StoredProfileAction,
};

fn action(id: &str) -> StoredProfileAction {
    StoredProfileAction {
        action_id: id.to_owned(),
        parameters: serde_json::Value::Object(serde_json::Map::new()),
    }
}

fn game_request(name: &str) -> CreateProfileRequest {
    CreateProfileRequest {
        name: name.to_owned(),
        executable_path: Some(r"C:\Games\game.exe".to_owned()),
        conflict_policy: None,
        actions: vec![action("explorer.show_extensions")],
    }
}

fn manual_request(name: &str) -> CreateProfileRequest {
    CreateProfileRequest {
        name: name.to_owned(),
        executable_path: None,
        conflict_policy: Some("skip_conflicting".to_owned()),
        actions: vec![action("explorer.show_extensions")],
    }
}

fn found() -> ResolvedBinding {
    ResolvedBinding {
        canonical_path: r"C:\Games\Game.exe".to_owned(),
        volume_serial_number: 7,
        file_id: [0xab; 16],
    }
}

fn is_uuid_text(text: &str) -> bool {
    text.len() == 36 && uuid::Uuid::parse_str(text).is_ok()
}

#[test]
fn creating_a_game_profile_trims_the_name_and_keeps_automation_off() {
    let mut store = ProfileStore::new();
    let index = store.create(game_request("  テストゲーム \t"), Ok(()), Some(Ok(found()))).unwrap();
    assert_eq!(index, 0);
    let created = &store.list()[0];
    assert_eq!(created.name, "テストゲーム");
    assert!(!created.automation_enabled);
    assert!(!created.is_manual());
    assert_eq!(created.executable_path.as_deref(), Some(r"C:\Games\Game.exe"));
    assert_eq!(created.volume_serial_number, Some(7));
    assert_eq!(created.file_id_hex.as_deref(), Some("abababababababababababababababab"));
    assert_eq!(created.conflict_policy, "abort_profile");
    assert!(is_uuid_text(&created.id));
    assert!(created.active_run.is_none());
}

#[test]
fn profile_names_must_have_one_to_a_hundred_and_twenty_characters() {
    let mut store = ProfileStore::new();
    let empty = store.create(game_request("   "), Ok(()), Some(Ok(found()))).unwrap_err();
    assert_eq!(empty.code, "INVALID_REQUEST");
    assert_eq!(empty.user_message, "プロファイル名は1〜120文字で入力してください。");
    let long: String = std::iter::repeat('名').take(121).collect();
    assert!(store.create(game_request(&long), Ok(()), Some(Ok(found()))).is_err());
    let fits: String = std::iter::repeat('名').take(120).collect();
    assert!(store.create(game_request(&fits), Ok(()), Some(Ok(found()))).is_ok());
    assert_eq!(store.list().len(), 1);
}

#[test]
fn create_checks_run_in_order_and_leave_the_store_unchanged() {
    let mut store = ProfileStore::new();
    let mut many = game_request("多い");
    many.actions = (0..33).map(|_| action("explorer.show_extensions")).collect();
    assert_eq!(
        store.create(many, Ok(()), Some(Ok(found()))).unwrap_err().user_message,
        "1プロファイルのActionが多すぎます。"
    );
    let refused = CoreError::invalid_request(
        "このActionは自動適用が許可されていないため、ゲームプロファイルには登録できません。",
    );
    let error = store.create(game_request("拒否"), Err(refused), Some(Ok(found()))).unwrap_err();
    assert!(error.user_message.contains("自動適用"));
    let mut bad_policy = game_request("方針");
    bad_policy.conflict_policy = Some("later".to_owned());
    assert_eq!(
        store.create(bad_policy, Ok(()), Some(Ok(found()))).unwrap_err().user_message,
        "競合方針の値が不正です。"
    );
    let missing = CoreError::invalid_request("対象の実行ファイルを確認できません。");
    assert_eq!(
        store.create(game_request("無い"), Ok(()), Some(Err(missing))).unwrap_err().user_message,
        "対象の実行ファイルを確認できません。"
    );
    assert!(store.list().is_empty());
}

#[test]
fn the_store_holds_at_most_two_hundred_profiles() {
    let mut store = ProfileStore::new();
    for n in 0..200 {
        store.create(manual_request(&format!("手動{n}")), Ok(()), None).unwrap();
    }
    let error = store.create(manual_request("もう一つ"), Ok(()), None).unwrap_err();
    assert_eq!(error.user_message, "登録できるプロファイル数の上限に達しました。");
    assert_eq!(store.list().len(), 200);
}

#[test]
fn manual_profile_has_no_executable_and_can_never_enable_automation() {
    let mut store = ProfileStore::new();
    store.create(manual_request("集中"), Ok(()), None).unwrap();
    let profile = store.list()[0].clone();
    assert!(profile.is_manual());
    assert_eq!(profile.volume_serial_number, None);
    assert_eq!(profile.file_id_hex, None);
    assert_eq!(profile.conflict_policy, "skip_conflicting");
    let error = store.set_enabled(&profile.id, true, Ok(())).unwrap_err();
    assert_eq!(error.code, "INVALID_REQUEST");
    assert_eq!(error.user_message, "手動モードは自動適用を有効にできません。");
    assert!(!store.list()[0].automation_enabled);
}

#[test]
fn enabling_asks_the_registry_again_and_disabling_always_works() {
    let mut store = ProfileStore::new();
    store.create(game_request("ゲーム"), Ok(()), Some(Ok(found()))).unwrap();
    let id = store.list()[0].id.clone();
    let refused = CoreError::invalid_request("このActionは自動適用が許可されていません。");
    assert!(store.set_enabled(&id, true, Err(refused)).is_err());
    assert!(!store.list()[0].automation_enabled);
    store.set_enabled(&id, true, Ok(())).unwrap();
    assert!(store.list()[0].automation_enabled);
    let refused = CoreError::invalid_request("x");
    store.set_enabled(&id, false, Err(refused)).unwrap();
    assert!(!store.list()[0].automation_enabled);
    assert_eq!(
        store.set_enabled("missing", true, Ok(())).unwrap_err().user_message,
        "対象のプロファイルがありません。"
    );
}

#[test]
fn a_manual_run_is_recorded_narrowed_and_cleared() {
    let mut store = ProfileStore::new();
    store.create(manual_request("集中"), Ok(()), None).unwrap();
    let id = store.list()[0].id.clone();
    let run = manual_run_record("t1".to_owned(), vec!["a".to_owned(), "b".to_owned()]).unwrap();
    store.set_active_run(&id, run.clone()).unwrap();
    assert_eq!(store.get(&id).unwrap().active_run, Some(run.clone()));
    assert_eq!(
        store.set_active_run(&id, run.clone()).unwrap_err().user_message,
        "この手動モードは現在実行できません。"
    );
    let mismatch = store.update_active_run_items(&id, "t2", vec![]).unwrap_err();
    assert_eq!(mismatch.code, "RECOVERY_REQUIRED");
    assert_eq!(mismatch.user_message, "手動モードの復元記録が一致しません。");
    store.update_active_run_items(&id, "t1", vec!["b".to_owned()]).unwrap();
    assert_eq!(
        store.get(&id).unwrap().active_run.as_ref().unwrap().reversible_item_ids,
        vec!["b".to_owned()]
    );
    store.update_active_run_items(&id, "t1", vec![]).unwrap();
    assert!(store.get(&id).unwrap().active_run.is_none());
    assert_eq!(
        store.update_active_run_items(&id, "t1", vec![]).unwrap_err().user_message,
        "この手動モードは実行中ではありません。"
    );
    store.set_active_run(&id, run).unwrap();
    store.clear_active_run(&id).unwrap();
    assert!(store.get(&id).unwrap().active_run.is_none());
}

#[test]
fn a_bound_profile_cannot_start_a_manual_run() {
    let mut store = ProfileStore::new();
    store.create(game_request("ゲーム"), Ok(()), Some(Ok(found()))).unwrap();
    let id = store.list()[0].id.clone();
    let run = manual_run_record("t".to_owned(), vec!["a".to_owned()]).unwrap();
    assert!(store.set_active_run(&id, run).is_err());
}

#[test]
fn deleting_refuses_an_unrestored_run_and_removes_only_that_profile() {
    let mut store = ProfileStore::new();
    store.create(manual_request("一"), Ok(()), None).unwrap();
    store.create(manual_request("二"), Ok(()), None).unwrap();
    let first = store.list()[0].id.clone();
    let second = store.list()[1].id.clone();
    let run = manual_run_record("t".to_owned(), vec!["a".to_owned()]).unwrap();
    store.set_active_run(&first, run).unwrap();
    assert_eq!(
        store.delete(&first).unwrap_err().user_message,
        "実行中の手動モードは、先に実行した分を復元してください。"
    );
    store.clear_active_run(&first).unwrap();
    store.delete(&first).unwrap();
    assert_eq!(store.list().len(), 1);
    assert_eq!(store.list()[0].id, second);
    assert_eq!(store.delete(&first).unwrap_err().user_message, "対象のプロファイルがありません。");
}

fn stored(id: &str) -> StoredProfile {
    StoredProfile {
        id: id.to_owned(),
        name: "ゲーム".to_owned(),
        executable_path: Some(r"C:\Games\game.EXE".to_owned()),
        volume_serial_number: Some(1),
        file_id_hex: Some("00112233445566778899AABBCCDDEEFF".to_owned()),
        conflict_policy: "abort_profile".to_owned(),
        automation_enabled: true,
        actions: vec![action("explorer.show_extensions")],
        active_run: None,
    }
}

const ID_A: &str = "550e8400-e29b-41d4-a716-446655440000";
const ID_B: &str = "6ba7b810-9dad-11d1-80b4-00c04fd430c8";

#[test]
fn a_loaded_file_is_checked_like_a_new_profile() {
    let valid = stored(ID_A);
    let corrupt = |profiles: &[StoredProfile], allowed: &[bool]| {
        let error = validate_loaded_profiles(profiles, allowed).unwrap_err();
        assert_eq!(error.code, "PROFILES_FILE_CORRUPT");
    };
    corrupt(&[stored(ID_A), stored(ID_A)], &[true, true]);
    corrupt(&[stored("not-a-uuid")], &[true]);
    corrupt(&[valid.clone()], &[false]);
    corrupt(&[valid.clone()], &[]);
    let mut untrimmed = valid.clone();
    untrimmed.name = " ゲーム".to_owned();
    corrupt(&[untrimmed], &[true]);
    let mut short_id = valid.clone();
    short_id.file_id_hex = Some("0011".to_owned());
    corrupt(&[short_id], &[true]);
    let mut not_exe = valid.clone();
    not_exe.executable_path = Some(r"C:\Games\game.bat".to_owned());
    corrupt(&[not_exe], &[true]);
    let mut half_bound = valid.clone();
    half_bound.volume_serial_number = None;
    corrupt(&[half_bound], &[true]);
    let mut manual_enabled = valid.clone();
    manual_enabled.executable_path = None;
    manual_enabled.volume_serial_number = None;
    manual_enabled.file_id_hex = None;
    corrupt(&[manual_enabled.clone()], &[true]);
    let mut manual = manual_enabled;
    manual.automation_enabled = false;
    assert!(validate_loaded_profiles(&[manual.clone()], &[true]).is_ok());
    manual.active_run = manual_run_record("bad".to_owned(), vec![ID_B.to_owned()]);
    corrupt(&[manual.clone()], &[true]);
    manual.active_run = manual_run_record(ID_A.to_owned(), vec![ID_B.to_owned()]);
    assert!(validate_loaded_profiles(&[manual], &[true]).is_ok());
}

#[test]
fn loading_refuses_oversized_unreadable_and_foreign_versions() {
    let too_large = ProfileStore::load(1024 * 1024 + 1, Some((1, vec![])), &[]).unwrap_err();
    assert_eq!(too_large.code, "PROFILES_FILE_TOO_LARGE");
    let unreadable = ProfileStore::load(10, None, &[]).unwrap_err();
    assert_eq!(unreadable.code, "PROFILES_FILE_CORRUPT");
    assert_eq!(unreadable.user_message, "プロファイル定義ファイルを読めません。破損の可能性があります。");
    let version = ProfileStore::load(10, Some((2, vec![])), &[]).unwrap_err();
    assert_eq!(version.code, "PROFILES_FILE_VERSION");
    let empty = ProfileStore::load(10, Some((1, vec![])), &[]).unwrap();
    assert!(empty.list().is_empty());
}

#[test]
fn registered_games_keep_both_stored_and_current_identities_sorted() {
    let mut store = ProfileStore::new();
    store.create(game_request("ゲーム"), Ok(()), Some(Ok(found()))).unwrap();
    store.create(manual_request("手動"), Ok(()), None).unwrap();
    let bindings = store.game_bindings().unwrap();
    assert_eq!(bindings.len(), 1);
    assert_eq!(bindings[0].path, r"C:\Games\Game.exe");
    assert_eq!(bindings[0].identity.volume_serial_number, 7);
    assert_eq!(bindings[0].identity.file_id, [0xab; 16]);

    let replaced = ProcessFileIdentity { volume_serial_number: 7, file_id: [0x01; 16] };
    let merged = merge_game_identities(&bindings, &[Some(replaced)]).unwrap();
    assert_eq!(merged, vec![replaced, bindings[0].identity]);
    let same = merge_game_identities(&bindings, &[Some(bindings[0].identity)]).unwrap();
    assert_eq!(same, vec![bindings[0].identity]);
    let unreadable = merge_game_identities(&bindings, &[None]).unwrap_err();
    assert_eq!(unreadable.code, "RECOVERY_REQUIRED");
    assert!(merge_game_identities(&bindings, &[]).is_err());
}

#[test]
fn a_loaded_manual_profile_has_no_game_binding() {
    let store = ProfileStore::load(10, Some((1, vec![manual_profile()])), &[true]).unwrap();
    assert_eq!(store.list().len(), 1);
    assert!(store.game_bindings().unwrap().is_empty());
}

fn manual_profile() -> StoredProfile {
    let mut p = stored(ID_B);
    p.executable_path = None;
    p.volume_serial_number = None;
    p.file_id_hex = None;
    p.automation_enabled = false;
    p
}

#[test]
fn the_saved_file_must_fit_the_read_limit() {
    assert!(check_persist_size(1024 * 1024).is_ok());
    assert_eq!(
        check_persist_size(1024 * 1024 + 1).unwrap_err().user_message,
        "プロファイル定義の合計サイズが保存上限を超えています。"
    );
}

#[test]
fn a_stored_game_profile_becomes_a_watched_profile() {
    let mut profile = stored("00000000-0000-0000-0000-00000000002a");
    profile.conflict_policy = "skip_conflicting".to_owned();
    let converted = to_game_profile(&profile, Ok(Vec::new())).unwrap();
    assert_eq!(converted.id, GameProfileId(42));
    assert_eq!(converted.name, "ゲーム");
    assert_eq!(converted.binding.canonical_path, r"C:\Games\game.EXE");
    assert_eq!(converted.binding.file_identity.volume_serial_number, 1);
    assert_eq!(
        converted.binding.file_identity.file_id,
        [0x00, 0x11, 0x22, 0x33, 0x44, 0x55, 0x66, 0x77, 0x88, 0x99, 0xaa, 0xbb, 0xcc, 0xdd, 0xee, 0xff]
    );
    assert_eq!(converted.binding.tracking, TrackingMode::ExactExecutable);
    assert_eq!(converted.conflict_policy, ConflictPolicy::SkipConflicting);
    assert!(converted.automation_enabled);
    let big = stored(ID_A);
    assert_eq!(
        to_game_profile(&big, Ok(Vec::new())).unwrap().id,
        GameProfileId(0x550e8400_e29b_41d4_a716_446655440000)
    );
}

#[test]
fn an_unconvertible_profile_is_refused_with_its_reason() {
    let message = |p: &StoredProfile| to_game_profile(p, Ok(Vec::new())).unwrap_err().user_message;
    assert_eq!(message(&stored("nope")), "プロファイルIDが不正です。");
    let mut bad = stored(ID_A);
    bad.file_id_hex = Some("zz".to_owned());
    assert_eq!(message(&bad), "プロファイルの本人性情報が不正です。");
    assert_eq!(message(&manual_profile()), "手動モードはプロセス監視の対象ではありません。");
    let mut policy = stored(ID_A);
    policy.conflict_policy = "other".to_owned();
    assert_eq!(message(&policy), "プロファイルの競合方針が不正です。");
    let refused = CoreError::invalid_request("このActionは自動適用が許可されていないため、ゲームプロファイルでは実行できません。");
    let error = to_game_profile(&stored(ID_A), Err(refused)).unwrap_err();
    assert!(error.user_message.contains("自動適用"));
}

#[test]
fn empty_manual_profile_is_rejected() {
    let mut store = ProfileStore::new();
    let mut request = manual_request("空");
    request.actions.clear();
    let error = store.create(request, Ok(()), None).unwrap_err();
    assert_eq!(error.code, "INVALID_REQUEST");
    assert_eq!(error.user_message, "手動モードには1件以上のActionを選んでください。");
    assert!(store.list().is_empty());
}

#[test]
fn nonexistent_executable_is_rejected() {
    let mut store = ProfileStore::new();
    let mut request = game_request("存在しない");
    request.executable_path = Some(r"C:\definitely\missing\game.exe".to_owned());
    let unresolved = CoreError::invalid_request(
        "対象の実行ファイルを確認できません。ローカルドライブ上の実在する .exe を選んでください。",
    );
    assert!(store.create(request, Ok(()), Some(Err(unresolved))).is_err());
    assert!(store.list().is_empty());
}

#[test]
fn manual_only_action_is_rejected_when_legacy_profile_is_enabled() {
    let mut store = ProfileStore::new();
    store.create(game_request("ゲーム"), Ok(()), Some(Ok(found()))).unwrap();
    let id = store.list()[0].id.clone();
    let refused = CoreError::invalid_request(
        "このActionは自動適用が許可されていないため、ゲームプロファイルには登録できません。",
    );
    let error = store.set_enabled(&id, true, Err(refused)).unwrap_err();
    assert!(error.user_message.contains("自動適用"));
    assert!(!store.list()[0].automation_enabled);
}

#[test]
fn game_exclusions_include_stored_and_fresh_executable_identities() {
    let mut store = ProfileStore::new();
    store.create(game_request("ゲーム"), Ok(()), Some(Ok(found()))).unwrap();
    let bindings = store.game_bindings().unwrap();
    let stored_identity = ProcessFileIdentity { volume_serial_number: 7, file_id: [0xab; 16] };
    let current = ProcessFileIdentity { volume_serial_number: 9, file_id: [0x01; 16] };
    let identities = merge_game_identities(&bindings, &[Some(current)]).unwrap();
    assert!(identities.contains(&stored_identity));
    assert!(identities.contains(&current));
}

#[test]
fn unreadable_registered_game_identity_fails_closed() {
    let mut store = ProfileStore::new();
    store.create(game_request("ゲーム"), Ok(()), Some(Ok(found()))).unwrap();
    let bindings = store.game_bindings().unwrap();
    let error = merge_game_identities(&bindings, &[None]).unwrap_err();
    assert_eq!(error.code, "RECOVERY_REQUIRED");
}

#[test]
fn a_profile_created_under_a_given_id_carries_that_id() {
    let mut store = ProfileStore::new();
    let raw = [0x55u8, 0x0e, 0x84, 0x00, 0xe2, 0x9b, 0x41, 0xd4, 0xa7, 0x16, 0x44, 0x66, 0x55, 0x44, 0x00, 0x00];
    let index = store.create_with_id(manual_request("手動"), Ok(()), None, raw).unwrap();
    assert_eq!(index, 0);
    assert_eq!(store.list()[0].id, ID_A);
    let error = store.create_with_id(manual_request("   "), Ok(()), None, raw).unwrap_err();
    assert_eq!(error.code, "INVALID_REQUEST");
    assert_eq!(store.list().len(), 1);
}

#[test]
fn a_valid_profiles_file_loads_with_the_paths_judged_absolute() {
    let profiles = vec![stored(ID_A), manual_profile()];
    assert!(check_loaded_profiles(&profiles, &[true, true], &[true, false]).is_ok());
    let error = check_loaded_profiles(&profiles, &[true, true], &[false, true]).unwrap_err();
    assert_eq!(error.code, "PROFILES_FILE_CORRUPT");
    let store = ProfileStore::load_with(10, Some((1, profiles.clone())), &[true, true], &[true, false]).unwrap();
    assert_eq!(store.list().len(), 2);
    assert_eq!(store.list()[0].id, ID_A);
    let error = ProfileStore::load_with(10, Some((1, profiles)), &[true, true], &[]).unwrap_err();
    assert_eq!(error.code, "PROFILES_FILE_CORRUPT");
}
