//! Safe hot corners.
//!
//! Reaching a corner changes no Windows setting and runs no Action. When a
//! corner fires, the application only brings its own window forward and opens
//! the modes screen. The decision is a small state machine without I/O.

use vstd::prelude::*;
use crate::error::{CoreError, CoreResult};

verus! {

pub const SETTING_FILE_VERSION: u32 = 1;
pub const MAX_SETTING_FILE_BYTES: u64 = 8192;
pub const DEFAULT_DWELL_MS: u64 = 1500;
pub const DEFAULT_COOLDOWN_MS: u64 = 15000;
pub const MIN_DWELL_MS: u64 = 600;
pub const MAX_DWELL_MS: u64 = 10000;
pub const MIN_COOLDOWN_MS: u64 = 3000;
pub const MAX_COOLDOWN_MS: u64 = 60000;
pub const HOT_ZONE_RADIUS: i32 = 1;
pub const HOT_CORNER_EVENT: &'static str = "hot-corner-open-modes";

#[derive(Debug, Clone, Copy, PartialEq, Eq, Structural)]
pub enum HotCornerAction {
    /// The corner does nothing.
    NoAction,
    OpenModes,
}

#[derive(Debug, Clone, Copy, PartialEq, Eq, Structural)]
pub enum HotCorner {
    TopLeft,
    TopRight,
    BottomLeft,
    BottomRight,
}

#[derive(Debug, Clone, Copy, PartialEq, Eq, Structural)]
pub struct ScreenPoint {
    pub x: i32,
    pub y: i32,
}

#[derive(Debug, Clone, Copy, PartialEq, Eq, Structural)]
pub struct ScreenRect {
    pub left: i32,
    pub top: i32,
    pub right: i32,
    pub bottom: i32,
}

/// The rectangle's four edges are far enough from `i32::MIN` for the
/// one-pixel-outside probes of the corner checks.
pub open spec fn rect_in_range(r: ScreenRect) -> bool {
    r.left > i32::MIN && r.top > i32::MIN && r.right > i32::MIN && r.bottom > i32::MIN
}

pub open spec fn spec_rect_contains(r: ScreenRect, p: ScreenPoint) -> bool {
    p.x >= r.left && p.x < r.right && p.y >= r.top && p.y < r.bottom
}

pub open spec fn spec_corner_point(r: ScreenRect, corner: HotCorner) -> ScreenPoint {
    match corner {
        HotCorner::TopLeft => ScreenPoint { x: r.left, y: r.top },
        HotCorner::TopRight => ScreenPoint { x: (r.right - 1) as i32, y: r.top },
        HotCorner::BottomLeft => ScreenPoint { x: r.left, y: (r.bottom - 1) as i32 },
        HotCorner::BottomRight => ScreenPoint { x: (r.right - 1) as i32, y: (r.bottom - 1) as i32 },
    }
}

impl ScreenRect {
    /// A rectangle with positive width and height.
    pub fn is_valid(self) -> (r: bool)
        ensures
            r == (self.right > self.left && self.bottom > self.top),
    {
        self.right > self.left && self.bottom > self.top
    }

    /// Whether the point lies inside (right and bottom edges exclusive).
    pub fn contains(self, point: ScreenPoint) -> (r: bool)
        ensures
            r == spec_rect_contains(self, point),
    {
        point.x >= self.left && point.x < self.right && point.y >= self.top && point.y < self.bottom
    }

    /// The innermost pixel of the rectangle at the given corner; for a valid
    /// rectangle it lies inside it.
    pub fn corner_point(self, corner: HotCorner) -> (p: ScreenPoint)
        requires
            self.right > i32::MIN,
            self.bottom > i32::MIN,
        ensures
            p == spec_corner_point(self, corner),
            self.right > self.left && self.bottom > self.top ==> spec_rect_contains(self, p),
    {
        match corner {
            HotCorner::TopLeft => ScreenPoint { x: self.left, y: self.top },
            HotCorner::TopRight => ScreenPoint { x: self.right - 1, y: self.top },
            HotCorner::BottomLeft => ScreenPoint { x: self.left, y: self.bottom - 1 },
            HotCorner::BottomRight => ScreenPoint { x: self.right - 1, y: self.bottom - 1 },
        }
    }
}

#[derive(Debug, Clone, Copy, PartialEq, Eq, Structural)]
pub struct HotCornerSetting {
    pub top_left: HotCornerAction,
    pub top_right: HotCornerAction,
    pub bottom_left: HotCornerAction,
    pub bottom_right: HotCornerAction,
    pub dwell_ms: u64,
    pub cooldown_ms: u64,
}

/// Every corner does nothing; dwell and cooldown at their defaults.
pub open spec fn spec_default_setting() -> HotCornerSetting {
    HotCornerSetting {
        top_left: HotCornerAction::NoAction,
        top_right: HotCornerAction::NoAction,
        bottom_left: HotCornerAction::NoAction,
        bottom_right: HotCornerAction::NoAction,
        dwell_ms: 1500,
        cooldown_ms: 15000,
    }
}

impl Default for HotCornerSetting {
    fn default() -> (s: Self)
        ensures
            s == spec_default_setting(),
    {
        HotCornerSetting {
            top_left: HotCornerAction::NoAction,
            top_right: HotCornerAction::NoAction,
            bottom_left: HotCornerAction::NoAction,
            bottom_right: HotCornerAction::NoAction,
            dwell_ms: DEFAULT_DWELL_MS,
            cooldown_ms: DEFAULT_COOLDOWN_MS,
        }
    }
}

pub open spec fn spec_setting_valid(s: HotCornerSetting) -> bool {
    600 <= s.dwell_ms <= 10000 && 3000 <= s.cooldown_ms <= 60000
}

pub open spec fn spec_action(s: HotCornerSetting, corner: HotCorner) -> HotCornerAction {
    match corner {
        HotCorner::TopLeft => s.top_left,
        HotCorner::TopRight => s.top_right,
        HotCorner::BottomLeft => s.bottom_left,
        HotCorner::BottomRight => s.bottom_right,
    }
}

pub open spec fn spec_is_disabled(s: HotCornerSetting) -> bool {
    &&& s.top_left == HotCornerAction::NoAction
    &&& s.top_right == HotCornerAction::NoAction
    &&& s.bottom_left == HotCornerAction::NoAction
    &&& s.bottom_right == HotCornerAction::NoAction
}

impl HotCornerSetting {
    /// Dwell between 0.6 s and 10 s, cooldown between 3 s and 60 s.
    pub fn validate(self) -> (r: CoreResult<()>)
        ensures
            r is Ok <==> spec_setting_valid(self),
            !(600 <= self.dwell_ms <= 10000) ==> (r matches Err(e) && e.code@ == "INVALID_REQUEST"@
                && e.user_message@ == "角の滞在時間は0.6秒〜10秒の範囲で指定してください。"@),
            (600 <= self.dwell_ms <= 10000) && !(3000 <= self.cooldown_ms <= 60000) ==> (r matches Err(e)
                && e.code@ == "INVALID_REQUEST"@
                && e.user_message@ == "角のクールダウンは3秒〜60秒の範囲で指定してください。"@),
    {
        if !(MIN_DWELL_MS <= self.dwell_ms && self.dwell_ms <= MAX_DWELL_MS) {
            return Err(CoreError::invalid_request("角の滞在時間は0.6秒〜10秒の範囲で指定してください。"));
        }
        if !(MIN_COOLDOWN_MS <= self.cooldown_ms && self.cooldown_ms <= MAX_COOLDOWN_MS) {
            return Err(CoreError::invalid_request("角のクールダウンは3秒〜60秒の範囲で指定してください。"));
        }
        Ok(())
    }

    /// What the given corner is assigned to do.
    pub fn action(self, corner: HotCorner) -> (a: HotCornerAction)
        ensures
            a == spec_action(self, corner),
    {
        match corner {
            HotCorner::TopLeft => self.top_left,
            HotCorner::TopRight => self.top_right,
            HotCorner::BottomLeft => self.bottom_left,
            HotCorner::BottomRight => self.bottom_right,
        }
    }

    /// No corner is assigned anything.
    pub fn is_disabled(self) -> (r: bool)
        ensures
            r == spec_is_disabled(self),
    {
        self.top_left == HotCornerAction::NoAction && self.top_right == HotCornerAction::NoAction
            && self.bottom_left == HotCornerAction::NoAction && self.bottom_right == HotCornerAction::NoAction
    }
}

/// The setting that takes effect when the stored file is read: the stored one
/// only when the file is small enough, decodes, has the current version and
/// validates; otherwise every corner does nothing.
pub open spec fn spec_loaded_setting(
    file_len: Option<u64>,
    decoded: Option<(u32, HotCornerSetting)>,
) -> HotCornerSetting {
    match (file_len, decoded) {
        (Some(len), Some((version, setting))) => if len <= 8192 && version == 1 && spec_setting_valid(
            setting,
        ) {
            setting
        } else {
            spec_default_setting()
        },
        _ => spec_default_setting(),
    }
}

/// Picks the setting to use at start-up from the stored file. `file_len` is
/// the file's size (`None` when it cannot be read); `decoded` is its strict
/// JSON decoding into version and setting (`None` when that fails).
pub fn loaded_setting(file_len: Option<u64>, decoded: Option<(u32, HotCornerSetting)>) -> (s:
    HotCornerSetting)
    ensures
        s == spec_loaded_setting(file_len, decoded),
{
    match (file_len, decoded) {
        (Some(len), Some((version, setting))) => {
            if len <= MAX_SETTING_FILE_BYTES && version == SETTING_FILE_VERSION && setting.validate().is_ok() {
                setting
            } else {
                HotCornerSetting::default()
            }
        },
        _ => HotCornerSetting::default(),
    }
}

/// The setting and the last problem, as the settings screen shows them.
#[derive(Debug, Clone)]
pub struct HotCornerState {
    pub setting: HotCornerSetting,
    pub last_error: Option<String>,
}

#[derive(Debug, Clone, Copy, PartialEq, Eq, Structural)]
pub struct HotCornerSample {
    pub now_ms: u64,
    pub position: ScreenPoint,
    pub corner: Option<HotCorner>,
    pub fullscreen: bool,
    pub maximized: bool,
}

#[derive(Debug, Clone, Copy, PartialEq, Eq, Structural)]
pub enum HotCornerDecision {
    Idle,
    OpenModes,
}

/// The tracker's memory between samples.
pub struct TrackerView {
    pub last_position: Option<ScreenPoint>,
    pub dwell_corner: Option<HotCorner>,
    pub stationary_since_ms: Option<u64>,
    pub cooldown_until_ms: Option<u64>,
    pub fired_corner: Option<HotCorner>,
}

/// A fresh tracker remembers nothing.
pub open spec fn spec_initial_tracker() -> TrackerView {
    TrackerView {
        last_position: None,
        dwell_corner: None,
        stationary_since_ms: None,
        cooldown_until_ms: None,
        fired_corner: None,
    }
}

pub open spec fn sat_sub(a: u64, b: u64) -> int {
    if a >= b {
        a - b
    } else {
        0
    }
}

pub open spec fn sat_add(a: u64, b: u64) -> u64 {
    if a + b > u64::MAX {
        u64::MAX
    } else {
        (a + b) as u64
    }
}

/// One step of the corner state machine.
///
/// Leaving every corner forgets the dwell and re-arms the fired corner; a
/// disabled or suppressed corner forgets the dwell; any movement or a switch
/// of corner restarts the dwell; the corner fires once the pointer has rested
/// for the dwell time and the cooldown has passed, and not again until the
/// pointer has left it.
pub open spec fn spec_step(t: TrackerView, setting: HotCornerSetting, sample: HotCornerSample) -> (
    TrackerView,
    HotCornerDecision,
) {
    match sample.corner {
        None => (
            TrackerView {
                last_position: Some(sample.position),
                dwell_corner: None,
                stationary_since_ms: None,
                fired_corner: None,
                ..t
            },
            HotCornerDecision::Idle,
        ),
        Some(corner) => if spec_is_disabled(setting) || spec_action(setting, corner)
            == HotCornerAction::NoAction || sample.fullscreen || sample.maximized {
            (
                TrackerView {
                    last_position: Some(sample.position),
                    dwell_corner: None,
                    stationary_since_ms: None,
                    ..t
                },
                HotCornerDecision::Idle,
            )
        } else if t.fired_corner == Some(corner) {
            (TrackerView { last_position: Some(sample.position), ..t }, HotCornerDecision::Idle)
        } else if t.last_position != Some(sample.position) || t.dwell_corner != Some(corner)
            || t.stationary_since_ms is None {
            (
                TrackerView {
                    last_position: Some(sample.position),
                    dwell_corner: Some(corner),
                    stationary_since_ms: Some(sample.now_ms),
                    ..t
                },
                HotCornerDecision::Idle,
            )
        } else if sat_sub(sample.now_ms, t.stationary_since_ms.unwrap()) < setting.dwell_ms {
            (TrackerView { last_position: Some(sample.position), ..t }, HotCornerDecision::Idle)
        } else if t.cooldown_until_ms matches Some(until) && sample.now_ms < until {
            (TrackerView { last_position: Some(sample.position), ..t }, HotCornerDecision::Idle)
        } else {
            (
                TrackerView {
                    last_position: Some(sample.position),
                    cooldown_until_ms: Some(sat_add(sample.now_ms, setting.cooldown_ms)),
                    fired_corner: Some(corner),
                    ..t
                },
                HotCornerDecision::OpenModes,
            )
        },
    }
}

/// The false-trigger guard: a state machine without I/O.
#[derive(Debug)]
pub struct HotCornerTracker {
    last_position: Option<ScreenPoint>,
    dwell_corner: Option<HotCorner>,
    stationary_since_ms: Option<u64>,
    cooldown_until_ms: Option<u64>,
    fired_corner: Option<HotCorner>,
}

impl View for HotCornerTracker {
    type V = TrackerView;

    closed spec fn view(&self) -> TrackerView {
        TrackerView {
            last_position: self.last_position,
            dwell_corner: self.dwell_corner,
            stationary_since_ms: self.stationary_since_ms,
            cooldown_until_ms: self.cooldown_until_ms,
            fired_corner: self.fired_corner,
        }
    }
}

impl Default for HotCornerTracker {
    fn default() -> (t: Self)
        ensures
            t@ == spec_initial_tracker(),
    {
        HotCornerTracker {
            last_position: None,
            dwell_corner: None,
            stationary_since_ms: None,
            cooldown_until_ms: None,
            fired_corner: None,
        }
    }
}

fn same_point(a: Option<ScreenPoint>, b: ScreenPoint) -> (r: bool)
    ensures
        r == (a == Some(b)),
{
    match a {
        Some(p) => p.x == b.x && p.y == b.y,
        None => false,
    }
}

fn same_corner(a: Option<HotCorner>, b: HotCorner) -> (r: bool)
    ensures
        r == (a == Some(b)),
{
    match a {
        Some(c) => c == b,
        None => false,
    }
}

impl HotCornerTracker {
    /// Feeds one sample and says whether the modes screen should open now.
    pub fn evaluate(&mut self, setting: HotCornerSetting, sample: HotCornerSample) -> (d:
        HotCornerDecision)
        ensures
            (final(self)@, d) == spec_step(old(self)@, setting, sample),
    {
        let corner = match sample.corner {
            None => {
                self.reset_dwell();
                self.fired_corner = None;
                self.last_position = Some(sample.position);
                return HotCornerDecision::Idle;
            },
            Some(c) => c,
        };
        if setting.is_disabled() || setting.action(corner) == HotCornerAction::NoAction || sample.fullscreen
            || sample.maximized {
            self.reset_dwell();
            self.last_position = Some(sample.position);
            return HotCornerDecision::Idle;
        }
        if same_corner(self.fired_corner, corner) {
            self.last_position = Some(sample.position);
            return HotCornerDecision::Idle;
        }
        let moved = !same_point(self.last_position, sample.position);
        let switched_corner = !same_corner(self.dwell_corner, corner);
        self.last_position = Some(sample.position);
        if moved || switched_corner || self.stationary_since_ms.is_none() {
            self.dwell_corner = Some(corner);
            self.stationary_since_ms = Some(sample.now_ms);
            return HotCornerDecision::Idle;
        }
        let stationary_since = match self.stationary_since_ms {
            Some(s) => s,
            None => sample.now_ms,
        };
        if sample.now_ms.saturating_sub(stationary_since) < setting.dwell_ms {
            return HotCornerDecision::Idle;
        }
        match self.cooldown_until_ms {
            Some(until) => {
                if sample.now_ms < until {
                    return HotCornerDecision::Idle;
                }
            },
            None => {},
        }
        self.cooldown_until_ms = Some(sample.now_ms.saturating_add(setting.cooldown_ms));
        self.fired_corner = Some(corner);
        HotCornerDecision::OpenModes
    }

    fn reset_dwell(&mut self)
        ensures
            final(self)@ == (TrackerView { dwell_corner: None, stationary_since_ms: None, ..old(self)@ }),
    {
        self.dwell_corner = None;
        self.stationary_since_ms = None;
    }
}

/// With every corner disabled, no sample ever opens the modes screen.
pub proof fn lemma_disabled_setting_never_fires(
    t: TrackerView,
    setting: HotCornerSetting,
    sample: HotCornerSample,
)
    requires
        spec_is_disabled(setting),
    ensures
        spec_step(t, setting, sample).1 == HotCornerDecision::Idle,
{
}

/// A full-screen or maximized foreground window always suppresses activation.
pub proof fn lemma_fullscreen_or_maximized_never_fires(
    t: TrackerView,
    setting: HotCornerSetting,
    sample: HotCornerSample,
)
    requires
        sample.fullscreen || sample.maximized,
    ensures
        spec_step(t, setting, sample).1 == HotCornerDecision::Idle,
{
}

/// Firing needs the pointer to have rested at the same point of the same
/// corner for at least the dwell time, and to be outside the cooldown.
pub proof fn lemma_fires_only_after_dwell(
    t: TrackerView,
    setting: HotCornerSetting,
    sample: HotCornerSample,
)
    requires
        spec_step(t, setting, sample).1 == HotCornerDecision::OpenModes,
    ensures
        sample.corner is Some,
        t.last_position == Some(sample.position),
        t.dwell_corner == sample.corner,
        t.stationary_since_ms matches Some(since) && sat_sub(sample.now_ms, since) >= setting.dwell_ms
            && (setting.dwell_ms > 0 ==> sample.now_ms >= since + setting.dwell_ms),
        t.cooldown_until_ms matches Some(until) ==> sample.now_ms >= until,
        spec_action(setting, sample.corner.unwrap()) == HotCornerAction::OpenModes,
        !sample.fullscreen && !sample.maximized,
{
}

/// A sample that moved the pointer never fires.
pub proof fn lemma_movement_never_fires(
    t: TrackerView,
    setting: HotCornerSetting,
    sample: HotCornerSample,
)
    requires
        t.last_position != Some(sample.position),
    ensures
        spec_step(t, setting, sample).1 == HotCornerDecision::Idle,
{
}

/// After firing, the same corner stays quiet until the pointer has left
/// every corner, and every sample before the cooldown ends stays quiet.
pub proof fn lemma_fires_once_per_visit(
    t: TrackerView,
    setting: HotCornerSetting,
    sample: HotCornerSample,
    next: HotCornerSample,
)
    requires
        spec_step(t, setting, sample).1 == HotCornerDecision::OpenModes,
    ensures
        next.corner == sample.corner ==> spec_step(spec_step(t, setting, sample).0, setting, next).1
            == HotCornerDecision::Idle,
        spec_step(t, setting, sample).0.fired_corner == sample.corner,
        spec_step(t, setting, sample).0.cooldown_until_ms == Some(
            sat_add(sample.now_ms, setting.cooldown_ms),
        ),
{
}

/// Before the cooldown ends, no sample fires.
pub proof fn lemma_cooldown_blocks_firing(t: TrackerView, setting: HotCornerSetting, sample: HotCornerSample)
    requires
        t.cooldown_until_ms matches Some(until) && sample.now_ms < until,
    ensures
        spec_step(t, setting, sample).1 == HotCornerDecision::Idle,
{
}

/// A step that does not fire leaves the cooldown as it was, so a cooldown
/// set by firing lasts until it ends, whatever the pointer does meanwhile.
pub proof fn lemma_quiet_steps_keep_the_cooldown(t: TrackerView, setting: HotCornerSetting, sample: HotCornerSample)
    requires
        spec_step(t, setting, sample).1 == HotCornerDecision::Idle,
    ensures
        spec_step(t, setting, sample).0.cooldown_until_ms == t.cooldown_until_ms,
{
}

/// The tracker after feeding it `inputs`, each a setting and a sample, in order.
pub open spec fn spec_run(t: TrackerView, inputs: Seq<(HotCornerSetting, HotCornerSample)>) -> TrackerView
    decreases inputs.len(),
{
    if inputs.len() == 0 {
        t
    } else {
        spec_step(spec_run(t, inputs.drop_last()), inputs.last().0, inputs.last().1).0
    }
}

/// The decision on the `i`-th of `inputs`, fed after the ones before it.
pub open spec fn spec_decision_at(t: TrackerView, inputs: Seq<(HotCornerSetting, HotCornerSample)>, i: int) -> HotCornerDecision {
    spec_step(spec_run(t, inputs.take(i)), inputs[i].0, inputs[i].1).1
}

/// After firing, the cooldown never ends earlier than the one set then, and
/// while the pointer stays on the corner that fired, that corner stays
/// marked as fired.
proof fn lemma_after_firing(
    t: TrackerView,
    setting: HotCornerSetting,
    sample: HotCornerSample,
    later: Seq<(HotCornerSetting, HotCornerSample)>,
)
    requires
        spec_step(t, setting, sample).1 == HotCornerDecision::OpenModes,
    ensures
        spec_run(spec_step(t, setting, sample).0, later).cooldown_until_ms matches Some(until) && until
            >= sat_add(sample.now_ms, setting.cooldown_ms),
        (forall|j: int| 0 <= j < later.len() ==> (#[trigger] later[j]).1.corner == sample.corner) ==> spec_run(
            spec_step(t, setting, sample).0,
            later,
        ).fired_corner == sample.corner,
    decreases later.len(),
{
    if later.len() > 0 {
        let rest = later.drop_last();
        lemma_after_firing(t, setting, sample, rest);
        let st = spec_run(spec_step(t, setting, sample).0, rest);
        let (s2, x) = later.last();
        if spec_step(st, s2, x).1 == HotCornerDecision::OpenModes {
            lemma_fires_only_after_dwell(st, s2, x);
        }
        if forall|j: int| 0 <= j < later.len() ==> (#[trigger] later[j]).1.corner == sample.corner {
            assert forall|j: int| 0 <= j < rest.len() implies (#[trigger] rest[j]).1.corner == sample.corner by {
                assert(rest[j] == later[j]);
            }
            assert(later[later.len() - 1].1.corner == sample.corner);
        }
    }
}

/// Once the corner fired at time `t0`, every later sample, whatever the
/// settings and however many, stays quiet while its time is before
/// `t0 + cooldown`; and every later sample stays quiet while the pointer has
/// not left the corner that fired.
pub proof fn lemma_cooldown_blocks_every_later_call(
    t: TrackerView,
    setting: HotCornerSetting,
    sample: HotCornerSample,
    later: Seq<(HotCornerSetting, HotCornerSample)>,
    i: int,
)
    requires
        spec_step(t, setting, sample).1 == HotCornerDecision::OpenModes,
        0 <= i < later.len(),
    ensures
        later[i].1.now_ms < sat_add(sample.now_ms, setting.cooldown_ms) ==> spec_decision_at(
            spec_step(t, setting, sample).0,
            later,
            i,
        ) == HotCornerDecision::Idle,
        (forall|j: int| 0 <= j <= i ==> (#[trigger] later[j]).1.corner == sample.corner) ==> spec_decision_at(
            spec_step(t, setting, sample).0,
            later,
            i,
        ) == HotCornerDecision::Idle,
{
    let before = later.take(i);
    lemma_after_firing(t, setting, sample, before);
    let st = spec_run(spec_step(t, setting, sample).0, before);
    if later[i].1.now_ms < sat_add(sample.now_ms, setting.cooldown_ms) {
        lemma_cooldown_blocks_firing(st, later[i].0, later[i].1);
    }
    if forall|j: int| 0 <= j <= i ==> (#[trigger] later[j]).1.corner == sample.corner {
        assert forall|j: int| 0 <= j < before.len() implies (#[trigger] before[j]).1.corner == sample.corner by {
            assert(before[j] == later[j]);
        }
        assert(later[i].1.corner == sample.corner);
    }
}

// ---------------------------------------------------------------------------
// Corner geometry
// ---------------------------------------------------------------------------

pub open spec fn abs_diff(a: i32, b: i32) -> int {
    if a >= b {
        a - b
    } else {
        b - a
    }
}

pub open spec fn spec_near(left: ScreenPoint, right: ScreenPoint) -> bool {
    abs_diff(left.x, right.x) <= 1 && abs_diff(left.y, right.y) <= 1
}

/// The three pixels just outside the corner: beside it, above or below it, and diagonal.
pub open spec fn outside_probes(m: ScreenRect, corner: HotCorner) -> (ScreenPoint, ScreenPoint, ScreenPoint) {
    let p = spec_corner_point(m, corner);
    match corner {
        HotCorner::TopLeft => (
            ScreenPoint { x: (m.left - 1) as i32, y: p.y },
            ScreenPoint { x: p.x, y: (m.top - 1) as i32 },
            ScreenPoint { x: (m.left - 1) as i32, y: (m.top - 1) as i32 },
        ),
        HotCorner::TopRight => (
            ScreenPoint { x: m.right, y: p.y },
            ScreenPoint { x: p.x, y: (m.top - 1) as i32 },
            ScreenPoint { x: m.right, y: (m.top - 1) as i32 },
        ),
        HotCorner::BottomLeft => (
            ScreenPoint { x: (m.left - 1) as i32, y: p.y },
            ScreenPoint { x: p.x, y: m.bottom },
            ScreenPoint { x: (m.left - 1) as i32, y: m.bottom },
        ),
        HotCorner::BottomRight => (
            ScreenPoint { x: m.right, y: p.y },
            ScreenPoint { x: p.x, y: m.bottom },
            ScreenPoint { x: m.right, y: m.bottom },
        ),
    }
}

/// Some other monitor covers a pixel just outside the corner.
pub open spec fn covered_by(other: ScreenRect, m: ScreenRect, corner: HotCorner) -> bool {
    let probes = outside_probes(m, corner);
    other != m && (spec_rect_contains(other, probes.0) || spec_rect_contains(other, probes.1)
        || spec_rect_contains(other, probes.2))
}

/// The corner lies on the outer edge of the whole desktop: no other monitor
/// continues past it.
pub open spec fn spec_on_outer_edge(m: ScreenRect, monitors: Seq<ScreenRect>, corner: HotCorner) -> bool {
    forall|i: int| 0 <= i < monitors.len() ==> !covered_by(#[trigger] monitors[i], m, corner)
}

pub open spec fn corner_hit(position: ScreenPoint, m: ScreenRect, monitors: Seq<ScreenRect>, corner: HotCorner) -> bool {
    spec_near(position, spec_corner_point(m, corner)) && spec_on_outer_edge(m, monitors, corner)
}

/// The first of top-left, top-right, bottom-left, bottom-right that the
/// position is at, counting only outer corners of the desktop.
pub open spec fn spec_external_corner_at(position: ScreenPoint, m: ScreenRect, monitors: Seq<ScreenRect>) -> Option<HotCorner> {
    if !(m.right > m.left && m.bottom > m.top) || !spec_rect_contains(m, position) {
        None
    } else if corner_hit(position, m, monitors, HotCorner::TopLeft) {
        Some(HotCorner::TopLeft)
    } else if corner_hit(position, m, monitors, HotCorner::TopRight) {
        Some(HotCorner::TopRight)
    } else if corner_hit(position, m, monitors, HotCorner::BottomLeft) {
        Some(HotCorner::BottomLeft)
    } else if corner_hit(position, m, monitors, HotCorner::BottomRight) {
        Some(HotCorner::BottomRight)
    } else {
        None
    }
}

/// Whether two points are at most one pixel apart on each axis.
pub fn near(left: ScreenPoint, right: ScreenPoint) -> (r: bool)
    ensures
        r == spec_near(left, right),
{
    let dx: i64 = left.x as i64 - right.x as i64;
    let dy: i64 = left.y as i64 - right.y as i64;
    -1 <= dx && dx <= 1 && -1 <= dy && dy <= 1
}

/// Whether no other monitor continues past the given corner of `monitor`.
pub fn corner_is_on_desktop_outer_edge(monitor: ScreenRect, monitors: &[ScreenRect], corner: HotCorner) -> (r:
    bool)
    requires
        rect_in_range(monitor),
    ensures
        r == spec_on_outer_edge(monitor, monitors@, corner),
{
    let point = monitor.corner_point(corner);
    let (horizontal, vertical, diagonal) = match corner {
        HotCorner::TopLeft => (
            ScreenPoint { x: monitor.left - 1, y: point.y },
            ScreenPoint { x: point.x, y: monitor.top - 1 },
            ScreenPoint { x: monitor.left - 1, y: monitor.top - 1 },
        ),
        HotCorner::TopRight => (
            ScreenPoint { x: monitor.right, y: point.y },
            ScreenPoint { x: point.x, y: monitor.top - 1 },
            ScreenPoint { x: monitor.right, y: monitor.top - 1 },
        ),
        HotCorner::BottomLeft => (
            ScreenPoint { x: monitor.left - 1, y: point.y },
            ScreenPoint { x: point.x, y: monitor.bottom },
            ScreenPoint { x: monitor.left - 1, y: monitor.bottom },
        ),
        HotCorner::BottomRight => (
            ScreenPoint { x: monitor.right, y: point.y },
            ScreenPoint { x: point.x, y: monitor.bottom },
            ScreenPoint { x: monitor.right, y: monitor.bottom },
        ),
    };
    assert((horizontal, vertical, diagonal) == outside_probes(monitor, corner));
    let mut i: usize = 0;
    while i < monitors.len()
        invariant
            i <= monitors@.len(),
            (horizontal, vertical, diagonal) == outside_probes(monitor, corner),
            forall|k: int| 0 <= k < i ==> !covered_by(#[trigger] monitors@[k], monitor, corner),
        decreases monitors@.len() - i,
    {
        let other = monitors[i];
        if other != monitor && (other.contains(horizontal) || other.contains(vertical) || other.contains(
            diagonal,
        )) {
            assert(covered_by(monitors@[i as int], monitor, corner));
            return false;
        }
        i = i + 1;
    }
    true
}

fn corner_hit_exec(position: ScreenPoint, monitor: ScreenRect, monitors: &[ScreenRect], corner: HotCorner) -> (r:
    bool)
    requires
        rect_in_range(monitor),
    ensures
        r == corner_hit(position, monitor, monitors@, corner),
{
    near(position, monitor.corner_point(corner)) && corner_is_on_desktop_outer_edge(monitor, monitors, corner)
}

/// The outer desktop corner the position is at, on the monitor it is on.
pub fn external_corner_at(position: ScreenPoint, monitor: ScreenRect, monitors: &[ScreenRect]) -> (r:
    Option<HotCorner>)
    requires
        (monitor.right > monitor.left && monitor.bottom > monitor.top) ==> rect_in_range(monitor),
    ensures
        r == spec_external_corner_at(position, monitor, monitors@),
{
    if !monitor.is_valid() || !monitor.contains(position) {
        return None;
    }
    assert(rect_in_range(monitor));
    if corner_hit_exec(position, monitor, monitors, HotCorner::TopLeft) {
        Some(HotCorner::TopLeft)
    } else if corner_hit_exec(position, monitor, monitors, HotCorner::TopRight) {
        Some(HotCorner::TopRight)
    } else if corner_hit_exec(position, monitor, monitors, HotCorner::BottomLeft) {
        Some(HotCorner::BottomLeft)
    } else if corner_hit_exec(position, monitor, monitors, HotCorner::BottomRight) {
        Some(HotCorner::BottomRight)
    } else {
        None
    }
}

/// The outer desktop corners of a monitor, in top-left, top-right,
/// bottom-left, bottom-right order, each with its corner pixel.
pub open spec fn spec_external_corner_points(m: ScreenRect, monitors: Seq<ScreenRect>) -> Seq<(HotCorner, ScreenPoint)> {
    let with = |s: Seq<(HotCorner, ScreenPoint)>, c: HotCorner|
        if spec_on_outer_edge(m, monitors, c) {
            s.push((c, spec_corner_point(m, c)))
        } else {
            s
        };
    with(
        with(with(with(Seq::empty(), HotCorner::TopLeft), HotCorner::TopRight), HotCorner::BottomLeft),
        HotCorner::BottomRight,
    )
}

fn push_if_outer(
    out: &mut Vec<(HotCorner, ScreenPoint)>,
    monitor: ScreenRect,
    monitors: &[ScreenRect],
    corner: HotCorner,
)
    requires
        rect_in_range(monitor),
    ensures
        final(out)@ == (if spec_on_outer_edge(monitor, monitors@, corner) {
            old(out)@.push((corner, spec_corner_point(monitor, corner)))
        } else {
            old(out)@
        }),
{
    if corner_is_on_desktop_outer_edge(monitor, monitors, corner) {
        out.push((corner, monitor.corner_point(corner)));
    }
}

/// Lists the outer desktop corners of `monitor` with their corner pixels.
pub fn external_corner_points(monitor: ScreenRect, monitors: &[ScreenRect]) -> (r: Vec<(HotCorner, ScreenPoint)>)
    requires
        rect_in_range(monitor),
    ensures
        r@ == spec_external_corner_points(monitor, monitors@),
{
    let mut out: Vec<(HotCorner, ScreenPoint)> = Vec::new();
    push_if_outer(&mut out, monitor, monitors, HotCorner::TopLeft);
    push_if_outer(&mut out, monitor, monitors, HotCorner::TopRight);
    push_if_outer(&mut out, monitor, monitors, HotCorner::BottomLeft);
    push_if_outer(&mut out, monitor, monitors, HotCorner::BottomRight);
    out
}

/// Each corner does what the setting's field named for it says, and nothing
/// another corner's field says.
pub proof fn lemma_each_corner_reads_its_own_field(s: HotCornerSetting)
    ensures
        spec_action(s, HotCorner::TopLeft) == s.top_left,
        spec_action(s, HotCorner::TopRight) == s.top_right,
        spec_action(s, HotCorner::BottomLeft) == s.bottom_left,
        spec_action(s, HotCorner::BottomRight) == s.bottom_right,
{
}

/// A pointer resting on a corner set to open the modes screen, for at least
/// the dwell time, outside the cooldown and not already fired there, with
/// nothing fullscreen or maximized, opens it.
pub proof fn lemma_resting_on_an_enabled_corner_fires(
    t: TrackerView,
    setting: HotCornerSetting,
    sample: HotCornerSample,
    corner: HotCorner,
    since: u64,
)
    requires
        sample.corner == Some(corner),
        spec_action(setting, corner) == HotCornerAction::OpenModes,
        !sample.fullscreen && !sample.maximized,
        t.fired_corner != Some(corner),
        t.last_position == Some(sample.position),
        t.dwell_corner == Some(corner),
        t.stationary_since_ms == Some(since),
        since <= sample.now_ms,
        sample.now_ms - since >= setting.dwell_ms,
        t.cooldown_until_ms matches Some(until) ==> sample.now_ms >= until,
    ensures
        spec_step(t, setting, sample).1 == HotCornerDecision::OpenModes,
{
}

pub open spec fn within_one(a: i32, b: int) -> bool {
    b - 1 <= a <= b + 1
}

/// A corner is reported only for a position inside a valid monitor and
/// within one pixel of that monitor's own pixel in that corner.
pub proof fn lemma_reported_corner_is_where_the_pointer_is(
    position: ScreenPoint,
    m: ScreenRect,
    monitors: Seq<ScreenRect>,
    corner: HotCorner,
)
    requires
        spec_external_corner_at(position, m, monitors) == Some(corner),
    ensures
        m.right > m.left && m.bottom > m.top,
        m.left <= position.x < m.right && m.top <= position.y < m.bottom,
        corner == HotCorner::TopLeft ==> within_one(position.x, m.left as int) && within_one(position.y, m.top as int),
        corner == HotCorner::TopRight ==> within_one(position.x, m.right - 1) && within_one(position.y, m.top as int),
        corner == HotCorner::BottomLeft ==> within_one(position.x, m.left as int) && within_one(position.y, m.bottom - 1),
        corner == HotCorner::BottomRight ==> within_one(position.x, m.right - 1) && within_one(position.y, m.bottom - 1),
{
}

/// On a lone monitor of at least 3 by 3 pixels, the pixel in each corner is
/// that corner, and it is an outer corner of the desktop.
pub proof fn lemma_lone_monitor_corners(m: ScreenRect)
    requires
        m.right - m.left >= 3,
        m.bottom - m.top >= 3,
        m.left > i32::MIN && m.top > i32::MIN,
    ensures
        spec_external_corner_at(ScreenPoint { x: m.left, y: m.top }, m, seq![m]) == Some(HotCorner::TopLeft),
        spec_external_corner_at(ScreenPoint { x: (m.right - 1) as i32, y: m.top }, m, seq![m]) == Some(
            HotCorner::TopRight,
        ),
        spec_external_corner_at(ScreenPoint { x: m.left, y: (m.bottom - 1) as i32 }, m, seq![m]) == Some(
            HotCorner::BottomLeft,
        ),
        spec_external_corner_at(ScreenPoint { x: (m.right - 1) as i32, y: (m.bottom - 1) as i32 }, m, seq![m])
            == Some(HotCorner::BottomRight),
{
    let ms = seq![m];
    assert forall|c: HotCorner| #[trigger] spec_on_outer_edge(m, ms, c) by {
        assert forall|i: int| 0 <= i < ms.len() implies !covered_by(#[trigger] ms[i], m, c) by {
            assert(ms[i] == m);
        }
    }
}

/// Where a second monitor continues the desktop to the right of `m`, with the
/// same top and bottom, `m`'s right-hand corners are not outer corners.
pub proof fn lemma_a_seam_is_not_a_corner(position: ScreenPoint, m: ScreenRect, other: ScreenRect)
    requires
        m.right > m.left && m.bottom > m.top,
        other.left == m.right,
        other.right > other.left,
        other.top == m.top,
        other.bottom == m.bottom,
    ensures
        spec_external_corner_at(position, m, seq![m, other]) != Some(HotCorner::TopRight),
        spec_external_corner_at(position, m, seq![m, other]) != Some(HotCorner::BottomRight),
{
    let ms = seq![m, other];
    assert(ms[1] == other);
    assert(other != m);
    assert(covered_by(ms[1], m, HotCorner::TopRight));
    assert(covered_by(ms[1], m, HotCorner::BottomRight));
}

} // verus!
