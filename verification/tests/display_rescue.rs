use pc_custom::display_profile::{DisplayPathFacts, DisplayProfile};
use pc_custom::display_rescue::{bounded_count, build_report, DisplayRescueReport, DisplayRescueState};
use pc_custom::window_layout::{
    WindowLayoutExclusion, WindowLayoutInspection, WindowLayoutIssue, WindowLayoutIssueReason,
    WindowLayoutObservation, WindowLayoutSnapshot,
};

fn profile(source_x: i32) -> DisplayProfile {
    DisplayProfile {
        paths: vec![path_facts(1, source_x, 1920, 1080)],
    }
}

fn inspection(positioned: u32, issues: Vec<WindowLayoutIssue>) -> WindowLayoutInspection {
    WindowLayoutInspection {
        observation: WindowLayoutObservation {
            saved_window_count: 1,
            matched_window_count: 1,
            positioned_window_count: positioned,
            issues,
            geometry_fingerprint: "geometry".to_owned(),
        },
        exclusions: Vec::new(),
    }
}

fn snapshot(saved_display: DisplayProfile) -> WindowLayoutSnapshot {
    WindowLayoutSnapshot {
        snapshot_id: uuid::Uuid::new_v4().into_bytes(),
        captured_at_unix_ms: 1,
        display_profile: Some(saved_display),
        entries: Vec::new(),
        excluded_game_windows: 0,
        skipped_windows: 0,
        exclusions: Vec::new(),
    }
}

fn path_facts(target_id: u32, source_x: i32, width: u32, height: u32) -> DisplayPathFacts {
    DisplayPathFacts {
        target_id,
        source_id: target_id,
        clone_group: 0,
        adapter_id_low: 1,
        adapter_id_high: 0,
        source_x,
        source_y: 0,
        width,
        height,
        pixel_format: 1,
        rotation: 1,
        scaling: 1,
        output_technology: 5,
        refresh_numerator: 60,
        refresh_denominator: 1,
        boost_refresh_rate: false,
    }
}

#[test]
fn a_different_topology_blocks_restore_before_geometry_is_used() {
    let report = build_report(&snapshot(profile(0)), &profile(1920), inspection(0, Vec::new()));
    assert_eq!(report.state, DisplayRescueState::DisplayTopologyChanged);
    assert!(!report.can_restore);
    assert_eq!(report.drifted_window_count, 0);
}

#[test]
fn a_real_saved_current_difference_offers_only_explicit_restore() {
    let issue = WindowLayoutIssue {
        target: "owned-test.exe".to_owned(),
        reason: WindowLayoutIssueReason::VerificationMismatch,
    };
    let report = build_report(&snapshot(profile(0)), &profile(0), inspection(0, vec![issue]));
    assert_eq!(report.state, DisplayRescueState::RescueAvailable);
    assert!(report.can_restore);
    assert_eq!(report.drifted_window_count, 1);
    assert!(report.unavailable_targets.is_empty());
    assert_eq!(
        report.message,
        "保存時から配置が変わったウィンドウを1個検出しました。自動では動かしません。内容を確認してから復元できます。"
    );
}

#[test]
fn saved_two_displays_current_one_display_detected_as_topology_changed() {
    let saved = DisplayProfile {
        paths: vec![path_facts(1, 0, 1920, 1080), path_facts(2, 1920, 1920, 1080)],
    };
    let current = DisplayProfile {
        paths: vec![path_facts(1, 0, 1920, 1080)],
    };
    let report = build_report(&snapshot(saved), &current, inspection(0, Vec::new()));
    assert_eq!(report.state, DisplayRescueState::DisplayTopologyChanged);
    assert!(!report.can_restore);
    assert_eq!(report.drifted_window_count, 0);
}

#[test]
fn saved_one_display_current_two_displays_detected_as_topology_changed() {
    let saved = DisplayProfile {
        paths: vec![path_facts(1, 0, 1920, 1080)],
    };
    let current = DisplayProfile {
        paths: vec![path_facts(1, 0, 1920, 1080), path_facts(2, 1920, 1920, 1080)],
    };
    let report = build_report(&snapshot(saved), &current, inspection(0, Vec::new()));
    assert_eq!(report.state, DisplayRescueState::DisplayTopologyChanged);
    assert!(!report.can_restore);
    assert_eq!(report.drifted_window_count, 0);
}

#[test]
fn same_display_count_different_resolution_detected_as_topology_changed() {
    let saved = DisplayProfile {
        paths: vec![path_facts(1, 0, 1920, 1080)],
    };
    let current = DisplayProfile {
        paths: vec![path_facts(1, 0, 2560, 1440)],
    };
    let report = build_report(&snapshot(saved), &current, inspection(0, Vec::new()));
    assert_eq!(report.state, DisplayRescueState::DisplayTopologyChanged);
    assert!(!report.can_restore);
    assert_eq!(report.drifted_window_count, 0);
}

#[test]
fn same_display_count_different_position_detected_as_topology_changed() {
    let saved = DisplayProfile {
        paths: vec![path_facts(1, 0, 1920, 1080)],
    };
    let current = DisplayProfile {
        paths: vec![path_facts(1, 1920, 1920, 1080)],
    };
    let report = build_report(&snapshot(saved), &current, inspection(0, Vec::new()));
    assert_eq!(report.state, DisplayRescueState::DisplayTopologyChanged);
    assert!(!report.can_restore);
    assert_eq!(report.drifted_window_count, 0);
}

#[test]
fn identical_topology_does_not_say_topology_changed() {
    let saved = DisplayProfile {
        paths: vec![path_facts(1, 0, 1920, 1080)],
    };
    let current = DisplayProfile {
        paths: vec![path_facts(1, 0, 1920, 1080)],
    };
    let report = build_report(&snapshot(saved), &current, inspection(1, Vec::new()));
    assert_ne!(report.state, DisplayRescueState::DisplayTopologyChanged);
    assert_eq!(report.state, DisplayRescueState::Stable);
    assert!(!report.can_restore);
}

#[test]
fn saved_window_not_in_any_work_area_handled_safely_when_unmatched() {
    let saved = DisplayProfile {
        paths: vec![path_facts(1, 0, 1920, 1080)],
    };
    let current = DisplayProfile {
        paths: vec![path_facts(1, 0, 1920, 1080)],
    };
    let issue = WindowLayoutIssue {
        target: "unmatched-app.exe".to_owned(),
        reason: WindowLayoutIssueReason::NotRunning,
    };
    let mut insp = inspection(0, vec![issue.clone()]);
    insp.observation.matched_window_count = 0;

    let report = build_report(&snapshot(saved), &current, insp);
    assert_eq!(report.state, DisplayRescueState::TargetsUnavailable);
    assert!(!report.can_restore);
    assert_eq!(report.unavailable_targets.len(), 1);
    assert_eq!(report.unavailable_targets[0].reason, WindowLayoutIssueReason::NotRunning);
}

#[test]
fn a_layout_saved_without_its_displays_must_be_saved_again() {
    let mut legacy = snapshot(profile(0));
    legacy.display_profile = None;
    let report = build_report(&legacy, &profile(0), inspection(0, Vec::new()));
    assert_eq!(report.state, DisplayRescueState::SavedDisplayUnknown);
    assert!(!report.can_restore);
    let empty = DisplayRescueReport::no_saved_layout();
    assert_eq!(empty.state, DisplayRescueState::NoSavedLayout);
}

#[test]
fn exclusions_are_merged_without_repeats() {
    let mut saved = snapshot(profile(0));
    let games = WindowLayoutExclusion {
        reason: "game".to_owned(),
        count: 2,
    };
    saved.exclusions = vec![games.clone()];
    let mut insp = inspection(1, Vec::new());
    insp.exclusions = vec![
        games.clone(),
        WindowLayoutExclusion {
            reason: "elevated".to_owned(),
            count: 1,
        },
    ];
    let report = build_report(&saved, &profile(0), insp);
    assert_eq!(report.exclusions.len(), 2);
    assert_eq!(report.exclusions[0], games);
}

#[test]
fn counts_saturate_at_u32_max() {
    assert_eq!(bounded_count(7), 7);
    assert_eq!(bounded_count(usize::MAX), u32::MAX);
}
