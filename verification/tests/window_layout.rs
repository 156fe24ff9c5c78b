use std::cell::Cell;

use pc_custom::action::{ActionErrorCode, ActionKind, ActionStage, ProcessFileIdentity};
use pc_custom::actions::window_layout::WindowLayoutAction;
use pc_custom::display_profile::{DisplayPathFacts, DisplayProfile};
use pc_custom::error::CoreError;
use pc_custom::window_layout::{
    SavedWindowPlacement, SavedWindowPlacementEntry, WindowLayoutIssue, WindowLayoutIssueReason,
    WindowLayoutObservation, WindowLayoutSnapshot, WindowPoint, WindowRect,
};
use uuid::Uuid;

fn display_path(target_id: u32, source_x: i32, width: u32, height: u32) -> DisplayPathFacts {
    DisplayPathFacts {
        target_id,
        source_id: target_id,
        clone_group: 0,
        adapter_id_low: 1,
        adapter_id_high: 0,
        source_x,
        source_y: 0,
        width,
        height,
        pixel_format: 1,
        rotation: 1,
        scaling: 1,
        output_technology: 5,
        refresh_numerator: 60,
        refresh_denominator: 1,
        boost_refresh_rate: false,
    }
}

fn fixed_display_profile() -> DisplayProfile {
    DisplayProfile {
        paths: vec![display_path(1, 0, 1920, 1080)],
    }
}

fn snapshot(private_title: &str) -> WindowLayoutSnapshot {
    WindowLayoutSnapshot {
        snapshot_id: Uuid::new_v4().into_bytes(),
        captured_at_unix_ms: 1,
        display_profile: Some(fixed_display_profile()),
        entries: vec![SavedWindowPlacementEntry {
            entry_id: Uuid::new_v4().into_bytes(),
            process_file_identity: ProcessFileIdentity {
                volume_serial_number: u64::MAX,
                file_id: [0xf3; 16],
            },
            application_label: "missing-test.exe".to_owned(),
            class_name: "PcCustomMissingWindowClass".to_owned(),
            title: private_title.to_owned(),
            placement: SavedWindowPlacement {
                flags: 0,
                show_cmd: 1,
                min_position: WindowPoint { x: -1, y: -1 },
                max_position: WindowPoint { x: -1, y: -1 },
                normal_position: WindowRect {
                    left: 100,
                    top: 100,
                    right: 500,
                    bottom: 400,
                },
            },
            observed_rect: WindowRect {
                left: 100,
                top: 100,
                right: 500,
                bottom: 400,
            },
        }],
        excluded_game_windows: 0,
        skipped_windows: 0,
        exclusions: Vec::new(),
    }
}

#[test]
fn matching_display_topology_allows_the_coordinate_write() {
    let snapshot = snapshot("matching topology");
    let writes = Cell::new(0);

    let result = WindowLayoutAction::with_matching_display_topology(
        &snapshot,
        || Ok(fixed_display_profile()),
        || writes.set(writes.get() + 1),
    );

    assert!(result.is_ok());
    assert_eq!(writes.get(), 1);
}

#[test]
fn changed_display_count_resolution_or_position_blocks_every_coordinate_write() {
    let mut snapshot = snapshot("changed topology");
    snapshot.display_profile = Some(DisplayProfile {
        paths: vec![display_path(1, 0, 1920, 1080), display_path(2, 1920, 2560, 1440)],
    });
    let cases = [
        (
            "count",
            DisplayProfile {
                paths: vec![display_path(1, 0, 1920, 1080)],
            },
        ),
        (
            "resolution",
            DisplayProfile {
                paths: vec![display_path(1, 0, 1920, 1080), display_path(2, 1920, 1920, 1080)],
            },
        ),
        (
            "position",
            DisplayProfile {
                paths: vec![display_path(1, 0, 1920, 1080), display_path(2, -2560, 2560, 1440)],
            },
        ),
    ];

    for (case, current) in cases {
        let writes = Cell::new(0);
        let error = WindowLayoutAction::with_matching_display_topology(
            &snapshot,
            || Ok(current),
            || writes.set(writes.get() + 1),
        )
        .expect_err(case);

        assert_eq!(error.code, ActionErrorCode::DisplayTopologyChanged, "{case}");
        assert_ne!(error.code, ActionErrorCode::ExternalConflict, "{case}");
        assert_eq!(writes.get(), 0, "{case}");
        assert!(error.safe_detail.is_some(), "{case}");
        let outward: CoreError = error.into();
        assert_eq!(outward.code, "DISPLAY_TOPOLOGY_CHANGED", "{case}");
        assert_eq!(
            outward.user_message,
            "画面の構成が保存したときと違います。ウィンドウは動かしていません。",
            "{case}"
        );
    }
}

#[test]
fn legacy_layout_without_display_topology_requires_resave_and_writes_nothing() {
    let mut snapshot = snapshot("legacy topology");
    snapshot.display_profile = None;
    let reads = Cell::new(0);
    let writes = Cell::new(0);

    let error = WindowLayoutAction::with_matching_display_topology(
        &snapshot,
        || {
            reads.set(reads.get() + 1);
            Ok(fixed_display_profile())
        },
        || writes.set(writes.get() + 1),
    )
    .expect_err("legacy snapshots must fail closed");

    assert_eq!(error.code, ActionErrorCode::SavedDisplayTopologyMissing);
    assert_eq!(
        error.user_message_key,
        "action.window_layout.saved_display_topology_missing"
    );
    assert_eq!(reads.get(), 0);
    assert_eq!(writes.get(), 0);
    let outward: CoreError = error.into();
    assert_eq!(outward.code, "SAVED_DISPLAY_TOPOLOGY_MISSING");
    assert_eq!(
        outward.user_message,
        "保存時の画面構成が記録されていません。現在の正しい配置を保存し直してください。ウィンドウは動かしていません。"
    );
}

#[test]
fn exclusions_keep_the_saved_ones_first_and_add_only_new_games() {
    let a = ProcessFileIdentity { volume_serial_number: 1, file_id: [1; 16] };
    let b = ProcessFileIdentity { volume_serial_number: 2, file_id: [2; 16] };
    let c = ProcessFileIdentity { volume_serial_number: 3, file_id: [3; 16] };
    let merged = WindowLayoutAction::effective_exclusions(&[a, b], &[b, c], ActionStage::Apply).unwrap();
    assert_eq!(merged, vec![a, b, c]);
}

#[test]
fn too_many_excluded_games_needs_recovery() {
    let many: Vec<ProcessFileIdentity> = (0..801u64)
        .map(|n| ProcessFileIdentity { volume_serial_number: n, file_id: [0; 16] })
        .collect();
    let error = WindowLayoutAction::effective_exclusions(&many, &[], ActionStage::Rollback).unwrap_err();
    assert_eq!(error.code, ActionErrorCode::RecoveryRequired);
    assert_eq!(error.stage, ActionStage::Rollback);
    assert_eq!(error.user_message_key, "action.window_layout.game_exclusion_limit");
}

#[test]
fn a_moved_back_window_is_not_fully_positioned() {
    let mut observation = WindowLayoutObservation {
        saved_window_count: 2,
        matched_window_count: 2,
        positioned_window_count: 2,
        issues: Vec::new(),
        geometry_fingerprint: String::new(),
    };
    assert!(WindowLayoutAction::fully_positioned(&observation));
    observation.issues.push(WindowLayoutIssue {
        target: "app.exe".to_owned(),
        reason: WindowLayoutIssueReason::VerificationMismatch,
    });
    assert!(!WindowLayoutAction::fully_positioned(&observation));
    let external = WindowLayoutAction::external_change(ActionStage::Apply);
    assert_eq!(external.code, ActionErrorCode::ExternalConflict);
}

#[test]
fn window_layout_is_explicit_only_public_api_action() {
    let metadata = WindowLayoutAction::metadata();
    assert_eq!(metadata.kind, ActionKind::Persistent);
    assert!(!metadata.auto_apply_eligible);
}
