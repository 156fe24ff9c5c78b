use pc_custom::health_report::{
    build_health_report, format_local_timestamp, health_input, unreadable_input, update_reference_note,
    HealthInput,
    HealthProbe,
};

fn input(action_id: &str, probe: HealthProbe) -> HealthInput {
    HealthInput {
        action_id: action_id.to_owned(),
        name: "テスト項目".to_owned(),
        applied_at: "2026-07-20 10:00".to_owned(),
        probe,
        uncomparable_reason: None,
    }
}

#[test]
fn without_a_baseline_it_says_so_instead_of_reporting_health() {
    let report = build_health_report(Vec::new(), Some("2026-07-25"));
    assert!(!report.has_baseline);
    assert!(report.no_baseline_note.is_some());
    assert!(report.holding.is_empty());
    assert!(report.changed.is_empty());
    assert!(report.unknown.is_empty());
    assert!(report.update_reference.is_none());
}

#[test]
fn unreadable_items_never_land_in_the_healthy_list() {
    let report = build_health_report(
        vec![
            input("a", HealthProbe::HoldsApplied),
            input("b", HealthProbe::Uncomparable),
        ],
        None,
    );
    assert_eq!(report.holding.len(), 1);
    assert_eq!(report.unknown.len(), 1);
    assert_eq!(report.unknown[0].action_id, "b");
    assert!(report.changed.is_empty());
    assert!(!report.holding.iter().any(|entry| entry.action_id == "b"));
    assert!(report.summary.contains("確認できません"));
}

#[test]
fn a_changed_item_is_never_blamed_on_windows_update() {
    let report = build_health_report(
        vec![
            input("a", HealthProbe::BackToPrevious),
            input("b", HealthProbe::Neither),
        ],
        Some("2026-07-25"),
    );
    assert_eq!(report.changed.len(), 2);
    for entry in &report.changed {
        assert!(!entry.note.contains("Update"));
        assert!(!entry.note.contains("更新"));
        assert!(!entry.note.contains("原因"));
        assert!(!entry.note.contains("せい"));
    }
    assert!(!report.summary.contains("更新"));
    let reference = report.update_reference.expect("参考情報");
    assert!(reference.starts_with("参考:"));
    assert!(reference.contains("別の話"));
    assert!(reference.contains("可能性"));
}

#[test]
fn uncomparable_reason_is_shown_when_given() {
    let mut item = input("c", HealthProbe::Uncomparable);
    item.uncomparable_reason = Some("この項目は照合のしくみがありません。".to_owned());
    let report = build_health_report(vec![item], None);
    assert_eq!(report.unknown[0].note, "この項目は照合のしくみがありません。");
}

#[test]
fn all_healthy_reads_as_all_healthy() {
    let report = build_health_report(
        vec![
            input("a", HealthProbe::HoldsApplied),
            input("b", HealthProbe::HoldsApplied),
        ],
        None,
    );
    assert_eq!(report.summary, "2件すべて、適用したときの状態のままです。");
    assert!(report.changed.is_empty());
    assert!(report.unknown.is_empty());
}

#[test]
fn every_input_lands_in_exactly_one_bucket() {
    let report = build_health_report(
        vec![
            input("a", HealthProbe::HoldsApplied),
            input("b", HealthProbe::BackToPrevious),
            input("c", HealthProbe::Uncomparable),
            input("d", HealthProbe::Neither),
        ],
        None,
    );
    assert_eq!(report.holding.len() + report.changed.len() + report.unknown.len(), 4);
    assert_eq!(
        report.summary,
        "2件が適用したときと違う状態です。（そのままが1件、確認できないものが1件）"
    );
}

#[test]
fn the_reference_note_names_the_date_and_no_cause() {
    let note = update_reference_note("2026-07-25");
    assert!(note.starts_with("参考: Windows が更新を最後に確認したのは 2026-07-25 です。"));
}

#[test]
fn applied_times_are_shown_to_the_minute() {
    assert_eq!(format_local_timestamp(0), "1970-01-01 00:00");
    assert_eq!(format_local_timestamp(1_700_000_059_999), "2023-11-14 22:14");
    assert_eq!(format_local_timestamp(i64::MAX), "時刻不明");
    let input = health_input("theme.color_mode".to_owned(), None, 0, HealthProbe::HoldsApplied, None);
    assert_eq!(input.name, "名前の分からない項目");
    assert_eq!(input.applied_at, "1970-01-01 00:00");
    let named = health_input("a".to_owned(), Some("テーマ".to_owned()), 0, HealthProbe::Neither, None);
    assert_eq!(named.name, "テーマ");
}

#[test]
fn an_unreadable_backup_is_counted_as_uncomparable() {
    let input = unreadable_input(12);
    assert_eq!(input.action_id, "__unreadable_12");
    assert_eq!(input.name, "記録を読めなかった変更");
    assert_eq!(input.applied_at, "不明");
    assert_eq!(input.probe, HealthProbe::Uncomparable);
    let report = build_health_report(vec![input], None);
    assert!(report.has_baseline);
}
