//! A saved layout of top-level windows and what one look at the desktop
//! found of it.

use vstd::prelude::*;
use crate::action::ProcessFileIdentity;
use crate::display_profile::DisplayProfile;

verus! {

#[derive(Debug, Clone, Copy, PartialEq, Eq, Structural)]
pub struct WindowPoint {
    pub x: i32,
    pub y: i32,
}

#[derive(Debug, Clone, Copy, PartialEq, Eq, Structural)]
pub struct WindowRect {
    pub left: i32,
    pub top: i32,
    pub right: i32,
    pub bottom: i32,
}

/// The placement of one window as the window manager reports it.
#[derive(Debug, Clone, Copy, PartialEq, Eq, Structural)]
pub struct SavedWindowPlacement {
    pub flags: u32,
    pub show_cmd: u32,
    pub min_position: WindowPoint,
    pub max_position: WindowPoint,
    pub normal_position: WindowRect,
}

/// One saved window: which program and window it was, and where it was.
#[derive(Debug, Clone)]
pub struct SavedWindowPlacementEntry {
    pub entry_id: [u8; 16],
    pub process_file_identity: ProcessFileIdentity,
    pub application_label: String,
    pub class_name: String,
    pub title: String,
    pub placement: SavedWindowPlacement,
    pub observed_rect: WindowRect,
}

/// A group of windows left out of a saved layout, and how many.
#[derive(Debug, Clone, PartialEq, Eq)]
pub struct WindowLayoutExclusion {
    pub reason: String,
    pub count: u32,
}

/// An explicitly saved layout, with the display configuration it was saved
/// on (absent in layouts saved before that was recorded).
#[derive(Debug, Clone)]
pub struct WindowLayoutSnapshot {
    pub snapshot_id: [u8; 16],
    pub captured_at_unix_ms: u64,
    pub display_profile: Option<DisplayProfile>,
    pub entries: Vec<SavedWindowPlacementEntry>,
    pub excluded_game_windows: u32,
    pub skipped_windows: u32,
    pub exclusions: Vec<WindowLayoutExclusion>,
}

#[derive(Debug, Clone, Copy, PartialEq, Eq, Structural)]
pub enum WindowLayoutIssueReason {
    /// The saved program is not running.
    NotRunning,
    /// Something else moved the window.
    ExternalChange,
    /// The window is not where it was put.
    VerificationMismatch,
}

/// One saved window that could not be handled, named by its program.
#[derive(Debug, Clone, PartialEq, Eq)]
pub struct WindowLayoutIssue {
    pub target: String,
    pub reason: WindowLayoutIssueReason,
}

/// How many saved windows were found and how many sit where they were saved.
#[derive(Debug, Clone)]
pub struct WindowLayoutObservation {
    pub saved_window_count: u32,
    pub matched_window_count: u32,
    pub positioned_window_count: u32,
    pub issues: Vec<WindowLayoutIssue>,
    pub geometry_fingerprint: String,
}

impl WindowLayoutObservation {
    pub fn has_verification_mismatch(&self) -> (r: bool)
        ensures
            r == exists|i: int|
                0 <= i < self.issues@.len() && #[trigger] self.issues@[i].reason
                    == WindowLayoutIssueReason::VerificationMismatch,
    {
        let mut i: usize = 0;
        while i < self.issues.len()
            invariant
                i <= self.issues@.len(),
                forall|j: int|
                    0 <= j < i ==> #[trigger] self.issues@[j].reason
                        != WindowLayoutIssueReason::VerificationMismatch,
            decreases self.issues@.len() - i,
        {
            if self.issues[i].reason == WindowLayoutIssueReason::VerificationMismatch {
                return true;
            }
            i += 1;
        }
        false
    }
}

/// An observation together with the windows it had to leave out.
#[derive(Debug, Clone)]
pub struct WindowLayoutInspection {
    pub observation: WindowLayoutObservation,
    pub exclusions: Vec<WindowLayoutExclusion>,
}

} // verus!
