use pc_custom::hot_corner::{
    external_corner_at, external_corner_points, HotCorner, HotCornerAction, HotCornerDecision,
    HotCornerSample, HotCornerSetting, HotCornerTracker, ScreenPoint, ScreenRect,
    DEFAULT_DWELL_MS,
};

fn enabled() -> HotCornerSetting {
    HotCornerSetting {
        top_left: HotCornerAction::OpenModes,
        ..HotCornerSetting::default()
    }
}

fn sample(now_ms: u64, position: ScreenPoint, corner: Option<HotCorner>) -> HotCornerSample {
    HotCornerSample {
        now_ms,
        position,
        corner,
        fullscreen: false,
        maximized: false,
    }
}

#[test]
fn dwell_time_must_elapse_before_firing() {
    let mut tracker = HotCornerTracker::default();
    let position = ScreenPoint { x: 0, y: 0 };
    assert_eq!(
        tracker.evaluate(enabled(), sample(0, position, Some(HotCorner::TopLeft))),
        HotCornerDecision::Idle
    );
    assert_eq!(
        tracker.evaluate(
            enabled(),
            sample(DEFAULT_DWELL_MS - 1, position, Some(HotCorner::TopLeft))
        ),
        HotCornerDecision::Idle
    );
    assert_eq!(
        tracker.evaluate(
            enabled(),
            sample(DEFAULT_DWELL_MS, position, Some(HotCorner::TopLeft))
        ),
        HotCornerDecision::OpenModes
    );
}

#[test]
fn moving_through_the_corner_never_accumulates_dwell() {
    let mut tracker = HotCornerTracker::default();
    for tick in 0..20 {
        let position = ScreenPoint {
            x: tick % 2,
            y: (tick / 2) % 2,
        };
        assert_eq!(
            tracker.evaluate(
                enabled(),
                sample(
                    tick as u64 * DEFAULT_DWELL_MS,
                    position,
                    Some(HotCorner::TopLeft)
                )
            ),
            HotCornerDecision::Idle
        );
    }
}

#[test]
fn cooldown_blocks_a_second_activation() {
    let mut tracker = HotCornerTracker::default();
    let corner = ScreenPoint { x: 0, y: 0 };
    let away = ScreenPoint { x: 50, y: 50 };
    tracker.evaluate(enabled(), sample(0, corner, Some(HotCorner::TopLeft)));
    assert_eq!(
        tracker.evaluate(
            enabled(),
            sample(DEFAULT_DWELL_MS, corner, Some(HotCorner::TopLeft))
        ),
        HotCornerDecision::OpenModes
    );
    tracker.evaluate(enabled(), sample(DEFAULT_DWELL_MS + 1, away, None));
    tracker.evaluate(
        enabled(),
        sample(DEFAULT_DWELL_MS + 2, corner, Some(HotCorner::TopLeft)),
    );
    assert_eq!(
        tracker.evaluate(
            enabled(),
            sample(DEFAULT_DWELL_MS * 2 + 2, corner, Some(HotCorner::TopLeft))
        ),
        HotCornerDecision::Idle
    );
}

#[test]
fn fullscreen_and_maximized_windows_suppress_activation() {
    for (fullscreen, maximized) in [(true, false), (false, true), (true, true)] {
        let mut tracker = HotCornerTracker::default();
        let position = ScreenPoint { x: 0, y: 0 };
        let mut current = sample(0, position, Some(HotCorner::TopLeft));
        current.fullscreen = fullscreen;
        current.maximized = maximized;
        tracker.evaluate(enabled(), current);
        current.now_ms = DEFAULT_DWELL_MS * 2;
        assert_eq!(tracker.evaluate(enabled(), current), HotCornerDecision::Idle);
    }
}

#[test]
fn corners_on_a_monitor_seam_are_not_external() {
    let left = ScreenRect {
        left: 0,
        top: 0,
        right: 1920,
        bottom: 1080,
    };
    let right = ScreenRect {
        left: 1920,
        top: 0,
        right: 3840,
        bottom: 1080,
    };
    let monitors = [left, right];
    assert_eq!(
        external_corner_at(left.corner_point(HotCorner::TopRight), left, &monitors),
        None
    );
    assert_eq!(
        external_corner_at(left.corner_point(HotCorner::BottomRight), left, &monitors),
        None
    );
    assert_eq!(
        external_corner_at(left.corner_point(HotCorner::TopLeft), left, &monitors),
        Some(HotCorner::TopLeft)
    );
}

#[test]
fn default_setting_never_fires_any_corner() {
    let mut tracker = HotCornerTracker::default();
    let setting = HotCornerSetting::default();
    for (index, corner) in [
        HotCorner::TopLeft,
        HotCorner::TopRight,
        HotCorner::BottomLeft,
        HotCorner::BottomRight,
    ]
    .into_iter()
    .enumerate()
    {
        let position = ScreenPoint {
            x: index as i32,
            y: index as i32,
        };
        tracker.evaluate(setting, sample(index as u64 * 10_000, position, Some(corner)));
        assert_eq!(
            tracker.evaluate(
                setting,
                sample(index as u64 * 10_000 + 9_000, position, Some(corner))
            ),
            HotCornerDecision::Idle
        );
    }
}

#[test]
fn a_corner_fires_once_per_visit_until_the_pointer_leaves() {
    let setting = HotCornerSetting {
        cooldown_ms: 3_000,
        ..enabled()
    };
    let mut tracker = HotCornerTracker::default();
    let corner = ScreenPoint { x: 0, y: 0 };
    tracker.evaluate(setting, sample(0, corner, Some(HotCorner::TopLeft)));
    assert_eq!(
        tracker.evaluate(setting, sample(DEFAULT_DWELL_MS, corner, Some(HotCorner::TopLeft))),
        HotCornerDecision::OpenModes
    );
    // Staying in the corner far past the cooldown does not fire again.
    assert_eq!(
        tracker.evaluate(setting, sample(60_000, corner, Some(HotCorner::TopLeft))),
        HotCornerDecision::Idle
    );
}

#[test]
fn a_disabled_corner_never_fires_even_after_a_long_dwell() {
    let mut tracker = HotCornerTracker::default();
    let position = ScreenPoint { x: 1919, y: 0 };
    tracker.evaluate(enabled(), sample(0, position, Some(HotCorner::TopRight)));
    assert_eq!(
        tracker.evaluate(enabled(), sample(20_000, position, Some(HotCorner::TopRight))),
        HotCornerDecision::Idle
    );
}

#[test]
fn a_single_monitor_has_four_external_corners() {
    let only = ScreenRect {
        left: 0,
        top: 0,
        right: 1920,
        bottom: 1080,
    };
    let points = external_corner_points(only, &[only]);
    assert_eq!(points.len(), 4);
    assert!(points.contains(&(HotCorner::BottomRight, ScreenPoint { x: 1919, y: 1079 })));
}

#[test]
fn out_of_range_dwell_is_rejected() {
    let setting = HotCornerSetting {
        dwell_ms: 100,
        ..enabled()
    };
    assert!(setting.validate().is_err());
    assert!(enabled().validate().is_ok());
    assert!(HotCornerSetting::default().is_disabled());
    assert!(!enabled().is_disabled());
}

#[test]
fn corner_points_lie_inside_a_rectangle_at_the_coordinate_minimum() {
    let rect = ScreenRect {
        left: i32::MIN,
        top: i32::MIN,
        right: i32::MIN + 10,
        bottom: i32::MIN + 5,
    };
    assert_eq!(rect.corner_point(HotCorner::TopLeft), ScreenPoint { x: i32::MIN, y: i32::MIN });
    assert_eq!(rect.corner_point(HotCorner::TopRight), ScreenPoint { x: i32::MIN + 9, y: i32::MIN });
    assert_eq!(rect.corner_point(HotCorner::BottomLeft), ScreenPoint { x: i32::MIN, y: i32::MIN + 4 });
    assert_eq!(rect.corner_point(HotCorner::BottomRight), ScreenPoint { x: i32::MIN + 9, y: i32::MIN + 4 });
    assert!(rect.contains(rect.corner_point(HotCorner::BottomRight)));
}

#[test]
fn nothing_fires_again_until_the_cooldown_ends() {
    let mut tracker = HotCornerTracker::default();
    let setting = enabled();
    let position = ScreenPoint { x: 0, y: 0 };
    tracker.evaluate(setting, sample(0, position, Some(HotCorner::TopLeft)));
    assert_eq!(
        tracker.evaluate(setting, sample(DEFAULT_DWELL_MS, position, Some(HotCorner::TopLeft))),
        HotCornerDecision::OpenModes
    );
    let fired_at = DEFAULT_DWELL_MS;
    // Leave, come back and rest for the dwell time, all inside the cooldown.
    let away = ScreenPoint { x: 500, y: 500 };
    tracker.evaluate(setting, sample(fired_at + 10, away, None));
    tracker.evaluate(setting, sample(fired_at + 20, position, Some(HotCorner::TopLeft)));
    let rested = fired_at + 20 + DEFAULT_DWELL_MS;
    assert!(rested < fired_at + setting.cooldown_ms);
    assert_eq!(
        tracker.evaluate(setting, sample(rested, position, Some(HotCorner::TopLeft))),
        HotCornerDecision::Idle
    );
    assert_eq!(
        tracker.evaluate(setting, sample(fired_at + setting.cooldown_ms, position, Some(HotCorner::TopLeft))),
        HotCornerDecision::OpenModes
    );
}
