use pc_custom::config_snapshot::{
    build_settings_snapshot, inspect_custom_card, SettingsSnapshot, SettingsSnapshotEntry,
    MAX_CUSTOM_CARD_ENTRIES, MAX_CUSTOM_CARD_JSON_BYTES, SETTINGS_SNAPSHOT_VERSION,
};
use pc_custom::presentation::{ActionPresentation, UiActionState};

fn presentation(id: &str, kind: &str, availability: &str, state: Option<UiActionState>) -> ActionPresentation {
    ActionPresentation {
        id: id.to_owned(),
        action_version: 1,
        name: format!("テスト項目 {id}"),
        description: "説明".to_owned(),
        audience: "誰か".to_owned(),
        category: "appearance".to_owned(),
        tags: vec![],
        supported_windows_versions: vec![],
        minimum_build: 26_100,
        maximum_tested_build: None,
        risk_level: "安全".to_owned(),
        requires_admin: false,
        requires_restart: false,
        requires_explorer_restart: false,
        update_impact: "低".to_owned(),
        reversible: true,
        kind: kind.to_owned(),
        auto_apply_eligible: true,
        availability: availability.to_owned(),
        method_class: "documented_registry".to_owned(),
        method_summary: "HKCU".to_owned(),
        desired_state: "オン".to_owned(),
        current_state: state,
        detail_points: vec![],
        settings_page: None,
    }
}

fn state(kind: &str, label: &str) -> UiActionState {
    UiActionState {
        kind: kind.to_owned(),
        label: label.to_owned(),
        detail: "現在の値".to_owned(),
        items: vec![],
        observed_at: Some("2026-07-25T00:00:00Z".to_owned()),
        integration: None,
    }
}

// The card as the application decodes it from JSON.
fn card(actions: &[ActionPresentation], os_build: Option<u32>) -> (String, SettingsSnapshot) {
    let snapshot = build_settings_snapshot(actions, os_build, "2026-08-01T12:00:00Z".to_owned());
    ("{\"version\":1}".to_owned(), snapshot)
}

#[test]
fn snapshot_records_every_action_and_is_stable_json() {
    let actions = vec![
        presentation("explorer.show_extensions", "persistent", "mutable", Some(state("known", "オン"))),
        presentation("taskbar.alignment", "guided", "detect_only", Some(state("known", "中央"))),
    ];
    let snapshot = build_settings_snapshot(&actions, Some(26_200), "2026-07-25T00:00:00Z".to_owned());
    assert_eq!(snapshot.version, SETTINGS_SNAPSHOT_VERSION);
    assert_eq!(snapshot.entry_count, 2);
    assert_eq!(snapshot.entries.len(), 2);
    assert_eq!(snapshot.os_build, Some(26_200));
    assert_eq!(snapshot.entries[1].state_label, "中央");
}

#[test]
fn undetected_action_is_recorded_without_guessing_state() {
    let actions = vec![presentation(
        "power.active_scheme_check",
        "observation",
        "read_only",
        None,
    )];
    let snapshot = build_settings_snapshot(&actions, None, "2026-07-25T00:00:00Z".to_owned());
    let entry = &snapshot.entries[0];
    assert_eq!(entry.state_kind, "not_detected");
    assert_eq!(entry.state_label, "未取得");
    assert_eq!(snapshot.os_build, None);
}

#[test]
fn missing_in_card_and_missing_in_current_land_in_correct_sections() {
    let card_actions = vec![presentation("action.only_in_card", "persistent", "mutable", Some(state("known", "オン")))];
    let (json, parsed) = card(&card_actions, Some(26_100));
    let current_actions = vec![presentation("action.only_in_current", "persistent", "mutable", Some(state("known", "オフ")))];

    let report = inspect_custom_card(&json, Some(parsed), &current_actions, Some(26_100)).unwrap();

    assert_eq!(report.missing_in_current.len(), 1);
    assert_eq!(report.missing_in_current[0].action_id, "action.only_in_card");
    assert_eq!(report.missing_in_card.len(), 1);
    assert_eq!(report.missing_in_card[0].action_id, "action.only_in_current");
    assert!(report.matching.is_empty());
    assert!(report.changed.is_empty());
    assert!(report.unknown.is_empty());
}

#[test]
fn uncomparable_items_never_mix_into_matching() {
    let card_actions = vec![presentation("action.undetected", "persistent", "mutable", None)];
    let (json, parsed) = card(&card_actions, Some(26_100));
    let current_actions = vec![presentation("action.undetected", "persistent", "mutable", Some(state("known", "オン")))];

    let report = inspect_custom_card(&json, Some(parsed), &current_actions, Some(26_100)).unwrap();

    assert_eq!(report.unknown.len(), 1);
    assert_eq!(report.unknown[0].action_id, "action.undetected");
    assert!(report.matching.is_empty());
    assert!(report.changed.is_empty());
}

#[test]
fn cause_is_never_asserted_in_messages() {
    let card_actions = vec![presentation("action.changed", "persistent", "mutable", Some(state("known", "オン")))];
    let (json, parsed) = card(&card_actions, Some(26_100));
    let current_actions = vec![presentation("action.changed", "persistent", "mutable", Some(state("known", "オフ")))];

    let report = inspect_custom_card(&json, Some(parsed), &current_actions, Some(26_200)).unwrap();

    assert_eq!(report.changed.len(), 1);
    let item = &report.changed[0];
    assert!(!item.note.contains("Update"));
    assert!(!item.note.contains("更新"));
    assert!(!item.note.contains("原因"));
    assert!(!item.note.contains("せい"));
    assert!(!item.note.contains("理由"));

    if let Some(os_note) = &report.os_build_note {
        assert!(!os_note.contains("原因"));
        assert!(!os_note.contains("せい"));
        assert!(!os_note.contains("理由"));
        assert!(os_note.contains("異なります"));
    }

    assert!(!report.summary.contains("原因"));
    assert!(!report.summary.contains("せい"));
}

#[test]
fn invalid_json_and_unknown_action_ids_do_not_panic() {
    let bad_json = "{ invalid json }";
    let res = inspect_custom_card(bad_json, None, &[], None);
    assert!(res.is_err());

    let raw_json = "{\"version\":1}";
    let parsed = SettingsSnapshot {
        version: 1,
        captured_at: "2026-08-01T12:00:00Z".to_owned(),
        os_build: Some(26100),
        entry_count: 1,
        entries: vec![SettingsSnapshotEntry {
            action_id: "unknown.future_action_id".to_owned(),
            name: "将来の機能".to_owned(),
            category: "appearance".to_owned(),
            kind: "persistent".to_owned(),
            availability: "mutable".to_owned(),
            state_kind: "known".to_owned(),
            state_label: "有効".to_owned(),
            state_detail: "詳細".to_owned(),
        }],
    };
    let report_res = inspect_custom_card(raw_json, Some(parsed), &[], None);
    assert!(report_res.is_ok());
    let report = report_res.unwrap();
    assert_eq!(report.missing_in_current.len(), 1);
    assert_eq!(report.missing_in_current[0].action_id, "unknown.future_action_id");
}

#[test]
fn inspecting_card_is_read_only_and_never_modifies_windows() {
    let card_actions = vec![presentation("explorer.show_extensions", "persistent", "mutable", Some(state("known", "表示")))];
    let (json, parsed) = card(&card_actions, Some(26_100));
    let current_actions = vec![presentation("explorer.show_extensions", "persistent", "mutable", Some(state("known", "非表示")))];

    let report = inspect_custom_card(&json, Some(parsed), &current_actions, Some(26_100)).unwrap();
    assert_eq!(report.changed.len(), 1);
    assert_eq!(current_actions[0].current_state.as_ref().unwrap().label, "非表示");
}

#[test]
fn a_changed_entry_names_both_labels_and_the_summary_counts_every_section() {
    let card_actions = vec![
        presentation("a.same", "persistent", "mutable", Some(state("known", "オン"))),
        presentation("a.changed", "persistent", "mutable", Some(state("known", "オン"))),
    ];
    let (json, parsed) = card(&card_actions, Some(26_100));
    let current_actions = vec![
        presentation("a.same", "persistent", "mutable", Some(state("known", "オン"))),
        presentation("a.changed", "persistent", "mutable", Some(state("known", "オフ"))),
        presentation("a.new", "persistent", "mutable", None),
    ];
    let report = inspect_custom_card(&json, Some(parsed), &current_actions, Some(26_200)).unwrap();
    assert_eq!(report.changed[0].note, "カードの記録は「オン」、現在は「オフ」です。");
    assert_eq!(
        report.summary,
        "照合結果: 同じ状態が1件、変更あり1件、確認不可0件、カードに無い項目1件、今に無い項目0件です。"
    );
    assert_eq!(
        report.os_build_note.as_deref(),
        Some("カードを作成した時点のWindowsビルド(26100)と現在のビルド(26200)が異なります。")
    );
    assert_eq!(report.captured_at, "2026-08-01T12:00:00Z");
}

#[test]
fn an_oversized_or_overlong_card_is_refused() {
    let huge = " ".repeat(MAX_CUSTOM_CARD_JSON_BYTES + 1);
    let error = inspect_custom_card(&huge, None, &[], None).unwrap_err();
    assert_eq!(error.user_message, "カスタムカードのデータサイズが大きすぎます。");

    let entry = SettingsSnapshotEntry {
        action_id: "x".to_owned(),
        name: "x".to_owned(),
        category: "x".to_owned(),
        kind: "x".to_owned(),
        availability: "x".to_owned(),
        state_kind: "known".to_owned(),
        state_label: "x".to_owned(),
        state_detail: "x".to_owned(),
    };
    let parsed = SettingsSnapshot {
        version: 1,
        captured_at: String::new(),
        os_build: None,
        entry_count: MAX_CUSTOM_CARD_ENTRIES + 1,
        entries: vec![entry; MAX_CUSTOM_CARD_ENTRIES + 1],
    };
    let error = inspect_custom_card("{}", Some(parsed), &[], None).unwrap_err();
    assert_eq!(error.user_message, "カスタムカードに含まれる項目数が多すぎます。");
}
