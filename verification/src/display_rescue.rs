//! Read-only detection for restoring a saved layout after the displays
//! changed. Nothing here moves a window: a restore still goes through the
//! explicit preview, commit and journaled window-layout Action.

use vstd::prelude::*;
use crate::display_profile::{
    compare_topology, geometry_reason, saved_count_reason, spec_same_topology,
    spec_usable_topology, unreadable_reason, DisplayPathFacts, DisplayProfile,
};
use crate::text::{concat, decimal, spec_decimal};
use crate::window_layout::{
    WindowLayoutExclusion, WindowLayoutInspection, WindowLayoutIssue, WindowLayoutIssueReason,
    WindowLayoutSnapshot,
};

verus! {

#[derive(Debug, Clone, Copy, PartialEq, Eq, Structural)]
pub enum DisplayRescueState {
    NoSavedLayout,
    SavedDisplayUnknown,
    DisplayTopologyChanged,
    Stable,
    RescueAvailable,
    TargetsUnavailable,
}

#[derive(Debug, Clone)]
pub struct DisplayRescueReport {
    pub state: DisplayRescueState,
    pub can_restore: bool,
    pub saved_window_count: u32,
    pub matched_window_count: u32,
    pub drifted_window_count: u32,
    pub message: String,
    pub exclusions: Vec<WindowLayoutExclusion>,
    pub unavailable_targets: Vec<WindowLayoutIssue>,
}

pub open spec fn spec_bounded_count(n: nat) -> u32 {
    if n > u32::MAX {
        u32::MAX
    } else {
        n as u32
    }
}

/// Why two display configurations are not the same desktop, in the words
/// `compare_topology` uses.
pub open spec fn spec_topology_reason(saved: Seq<DisplayPathFacts>, current: Seq<DisplayPathFacts>) -> Seq<char> {
    if !(spec_usable_topology(saved) && spec_usable_topology(current)) {
        unreadable_reason()
    } else if saved.len() != current.len() {
        saved_count_reason()
    } else {
        geometry_reason()
    }
}

pub open spec fn spec_no_saved_layout_message() -> Seq<char> {
    "戻す先がありません。先に正しいウィンドウ配置を保存してください。"@
}

pub open spec fn spec_saved_display_unknown_message() -> Seq<char> {
    "保存時の表示構成が記録されていません。現在の正しい配置を保存し直してください。"@
}

pub open spec fn spec_topology_changed_message(reason: Seq<char>) -> Seq<char> {
    "保存時と表示構成が違うため、ウィンドウは動かしません。"@ + reason
        + " 元の画面構成へ戻してから確認してください。"@
}

pub open spec fn spec_rescue_message(drifted: nat) -> Seq<char> {
    "保存時から配置が変わったウィンドウを"@ + spec_decimal(drifted)
        + "個検出しました。自動では動かしません。内容を確認してから復元できます。"@
}

pub open spec fn spec_targets_unavailable_message() -> Seq<char> {
    "保存済みの対象ウィンドウを現在のセッションで確認できません。何も動かしません。"@
}

pub open spec fn spec_stable_message() -> Seq<char> {
    "保存済みの対象ウィンドウに配置の差はありません。"@
}

pub open spec fn same_exclusion(a: WindowLayoutExclusion, b: WindowLayoutExclusion) -> bool {
    a.reason@ == b.reason@ && a.count == b.count
}

pub open spec fn has_exclusion(s: Seq<WindowLayoutExclusion>, x: WindowLayoutExclusion) -> bool {
    exists|i: int| 0 <= i < s.len() && same_exclusion(#[trigger] s[i], x)
}

/// The saved exclusions followed by those of the inspection that are new.
pub open spec fn spec_merge_exclusions(
    base: Seq<WindowLayoutExclusion>,
    extra: Seq<WindowLayoutExclusion>,
) -> Seq<WindowLayoutExclusion>
    decreases extra.len(),
{
    if extra.len() == 0 {
        base
    } else {
        let merged = spec_merge_exclusions(base, extra.drop_last());
        if has_exclusion(merged, extra.last()) {
            merged
        } else {
            merged.push(extra.last())
        }
    }
}

/// An issue that says the target cannot be reached now, as opposed to one
/// that says it moved.
pub open spec fn is_unavailable(issue: WindowLayoutIssue) -> bool {
    !(issue.reason == WindowLayoutIssueReason::ExternalChange || issue.reason
        == WindowLayoutIssueReason::VerificationMismatch)
}

pub open spec fn spec_unavailable(issues: Seq<WindowLayoutIssue>) -> Seq<WindowLayoutIssue>
    decreases issues.len(),
{
    if issues.len() == 0 {
        issues
    } else {
        let before = spec_unavailable(issues.drop_last());
        if is_unavailable(issues.last()) {
            before.push(issues.last())
        } else {
            before
        }
    }
}

/// A count as a `u32`, saturating.
pub fn bounded_count(value: usize) -> (r: u32)
    ensures
        r == spec_bounded_count(value as nat),
{
    if value > 4294967295usize {
        4294967295u32
    } else {
        value as u32
    }
}

fn clone_exclusion(e: &WindowLayoutExclusion) -> (r: WindowLayoutExclusion)
    ensures
        r == *e,
{
    WindowLayoutExclusion { reason: e.reason.clone(), count: e.count }
}

fn clone_exclusions(v: &Vec<WindowLayoutExclusion>) -> (r: Vec<WindowLayoutExclusion>)
    ensures
        r@ == v@,
{
    let mut r: Vec<WindowLayoutExclusion> = Vec::new();
    let mut k: usize = 0;
    while k < v.len()
        invariant
            k <= v.len(),
            r@ == v@.take(k as int),
        decreases v.len() - k,
    {
        r.push(clone_exclusion(&v[k]));
        assert(v@.take(k as int + 1) =~= v@.take(k as int).push(v@[k as int]));
        k += 1;
    }
    assert(v@.take(v.len() as int) =~= v@);
    r
}

fn contains_exclusion(v: &Vec<WindowLayoutExclusion>, x: &WindowLayoutExclusion) -> (r: bool)
    ensures
        r == has_exclusion(v@, *x),
{
    let mut k: usize = 0;
    while k < v.len()
        invariant
            k <= v.len(),
            forall|j: int| 0 <= j < k ==> !same_exclusion(#[trigger] v@[j], *x),
        decreases v.len() - k,
    {
        if v[k].reason == x.reason && v[k].count == x.count {
            assert(same_exclusion(v@[k as int], *x));
            return true;
        }
        k += 1;
    }
    false
}

impl DisplayRescueReport {
    /// There is no saved layout to return to.
    pub fn no_saved_layout() -> (r: DisplayRescueReport)
        ensures
            r.state == DisplayRescueState::NoSavedLayout,
            !r.can_restore,
            r.saved_window_count == 0 && r.matched_window_count == 0 && r.drifted_window_count == 0,
            r.message@ == spec_no_saved_layout_message(),
            r.exclusions@.len() == 0,
            r.unavailable_targets@.len() == 0,
    {
        DisplayRescueReport {
            state: DisplayRescueState::NoSavedLayout,
            can_restore: false,
            saved_window_count: 0,
            matched_window_count: 0,
            drifted_window_count: 0,
            message: "戻す先がありません。先に正しいウィンドウ配置を保存してください。".to_owned(),
            exclusions: Vec::new(),
            unavailable_targets: Vec::new(),
        }
    }

    /// The layout was saved without its display configuration.
    pub fn saved_display_unknown(snapshot: &WindowLayoutSnapshot) -> (r: DisplayRescueReport)
        ensures
            r.state == DisplayRescueState::SavedDisplayUnknown,
            !r.can_restore,
            r.saved_window_count == spec_bounded_count(snapshot.entries@.len()),
            r.matched_window_count == 0 && r.drifted_window_count == 0,
            r.message@ == spec_saved_display_unknown_message(),
            r.exclusions@ == snapshot.exclusions@,
            r.unavailable_targets@.len() == 0,
    {
        DisplayRescueReport {
            state: DisplayRescueState::SavedDisplayUnknown,
            can_restore: false,
            saved_window_count: bounded_count(snapshot.entries.len()),
            matched_window_count: 0,
            drifted_window_count: 0,
            message: "保存時の表示構成が記録されていません。現在の正しい配置を保存し直してください。".to_owned(),
            exclusions: clone_exclusions(&snapshot.exclusions),
            unavailable_targets: Vec::new(),
        }
    }

    /// The displays are not the ones the layout was saved on.
    pub fn topology_changed(snapshot: &WindowLayoutSnapshot, reason: String) -> (r: DisplayRescueReport)
        ensures
            r.state == DisplayRescueState::DisplayTopologyChanged,
            !r.can_restore,
            r.saved_window_count == spec_bounded_count(snapshot.entries@.len()),
            r.matched_window_count == 0 && r.drifted_window_count == 0,
            r.message@ == spec_topology_changed_message(reason@),
            r.exclusions@ == snapshot.exclusions@,
            r.unavailable_targets@.len() == 0,
    {
        let message = concat(
            concat("保存時と表示構成が違うため、ウィンドウは動かしません。".to_owned(), reason.as_str()),
            " 元の画面構成へ戻してから確認してください。",
        );
        DisplayRescueReport {
            state: DisplayRescueState::DisplayTopologyChanged,
            can_restore: false,
            saved_window_count: bounded_count(snapshot.entries.len()),
            matched_window_count: 0,
            drifted_window_count: 0,
            message,
            exclusions: clone_exclusions(&snapshot.exclusions),
            unavailable_targets: Vec::new(),
        }
    }
}

/// Compares a saved layout with the current displays and what was found of
/// its windows. Restoring is offered only when the displays are the same
/// desktop and some found window has drifted.
pub fn build_report(
    snapshot: &WindowLayoutSnapshot,
    current_display: &DisplayProfile,
    inspection: WindowLayoutInspection,
) -> (r: DisplayRescueReport)
    ensures
        match snapshot.display_profile {
            None => {
                &&& r.state == DisplayRescueState::SavedDisplayUnknown
                &&& !r.can_restore
                &&& r.saved_window_count == spec_bounded_count(snapshot.entries@.len())
                &&& r.matched_window_count == 0 && r.drifted_window_count == 0
                &&& r.message@ == spec_saved_display_unknown_message()
                &&& r.exclusions@ == snapshot.exclusions@
                &&& r.unavailable_targets@.len() == 0
            },
            Some(saved) => if !spec_same_topology(saved.paths@, current_display.paths@) {
                &&& r.state == DisplayRescueState::DisplayTopologyChanged
                &&& !r.can_restore
                &&& r.saved_window_count == spec_bounded_count(snapshot.entries@.len())
                &&& r.matched_window_count == 0 && r.drifted_window_count == 0
                &&& r.message@ == spec_topology_changed_message(
                    spec_topology_reason(saved.paths@, current_display.paths@),
                )
                &&& r.exclusions@ == snapshot.exclusions@
                &&& r.unavailable_targets@.len() == 0
            } else {
                let o = inspection.observation;
                let drifted: u32 = if o.matched_window_count > o.positioned_window_count {
                    (o.matched_window_count - o.positioned_window_count) as u32
                } else {
                    0
                };
                &&& r.state == (if drifted > 0 {
                    DisplayRescueState::RescueAvailable
                } else if o.matched_window_count == 0 {
                    DisplayRescueState::TargetsUnavailable
                } else {
                    DisplayRescueState::Stable
                })
                &&& r.can_restore == (drifted > 0)
                &&& r.saved_window_count == o.saved_window_count
                &&& r.matched_window_count == o.matched_window_count
                &&& r.drifted_window_count == drifted
                &&& r.message@ == (if drifted > 0 {
                    spec_rescue_message(drifted as nat)
                } else if o.matched_window_count == 0 {
                    spec_targets_unavailable_message()
                } else {
                    spec_stable_message()
                })
                &&& r.exclusions@ == spec_merge_exclusions(snapshot.exclusions@, inspection.exclusions@)
                &&& r.unavailable_targets@ == spec_unavailable(o.issues@)
            },
        },
{
    let saved_display = match &snapshot.display_profile {
        None => {
            return DisplayRescueReport::saved_display_unknown(snapshot);
        },
        Some(saved) => saved,
    };
    match compare_topology(saved_display, current_display) {
        Err(reason) => {
            return DisplayRescueReport::topology_changed(snapshot, reason);
        },
        Ok(()) => {},
    }

    let observation = inspection.observation;
    let drifted: u32 = observation.matched_window_count.saturating_sub(observation.positioned_window_count);
    let state: DisplayRescueState;
    let message: String;
    if drifted > 0 {
        state = DisplayRescueState::RescueAvailable;
        message = concat(
            concat("保存時から配置が変わったウィンドウを".to_owned(), decimal(drifted as u64).as_str()),
            "個検出しました。自動では動かしません。内容を確認してから復元できます。",
        );
    } else if observation.matched_window_count == 0 {
        state = DisplayRescueState::TargetsUnavailable;
        message = "保存済みの対象ウィンドウを現在のセッションで確認できません。何も動かしません。".to_owned();
    } else {
        state = DisplayRescueState::Stable;
        message = "保存済みの対象ウィンドウに配置の差はありません。".to_owned();
    }

    let mut exclusions = clone_exclusions(&snapshot.exclusions);
    let ghost base = snapshot.exclusions@;
    let ghost extra = inspection.exclusions@;
    let mut k: usize = 0;
    while k < inspection.exclusions.len()
        invariant
            k <= extra.len(),
            extra == inspection.exclusions@,
            exclusions@ == spec_merge_exclusions(base, extra.take(k as int)),
        decreases extra.len() - k,
    {
        proof {
            assert(extra.take(k as int + 1).drop_last() =~= extra.take(k as int));
        }
        let exclusion = &inspection.exclusions[k];
        if !contains_exclusion(&exclusions, exclusion) {
            exclusions.push(clone_exclusion(exclusion));
        }
        k += 1;
    }
    proof {
        assert(extra.take(extra.len() as int) =~= extra);
    }

    let ghost issues = observation.issues@;
    let mut unavailable_targets: Vec<WindowLayoutIssue> = Vec::new();
    let mut k: usize = 0;
    while k < observation.issues.len()
        invariant
            k <= issues.len(),
            issues == observation.issues@,
            unavailable_targets@ == spec_unavailable(issues.take(k as int)),
        decreases issues.len() - k,
    {
        proof {
            assert(issues.take(k as int + 1).drop_last() =~= issues.take(k as int));
        }
        let issue = &observation.issues[k];
        let hidden = match issue.reason {
            WindowLayoutIssueReason::ExternalChange => true,
            WindowLayoutIssueReason::VerificationMismatch => true,
            _ => false,
        };
        if !hidden {
            unavailable_targets.push(WindowLayoutIssue { target: issue.target.clone(), reason: issue.reason });
        }
        k += 1;
    }
    proof {
        assert(issues.take(issues.len() as int) =~= issues);
    }

    DisplayRescueReport {
        state,
        can_restore: drifted > 0,
        saved_window_count: observation.saved_window_count,
        matched_window_count: observation.matched_window_count,
        drifted_window_count: drifted,
        message,
        exclusions,
        unavailable_targets,
    }
}

} // verus!
