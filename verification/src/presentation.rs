//! How an Action and its observed state are shown to the user.

use vstd::prelude::*;

verus! {

/// The observed state of an Action as the interface shows it.
#[derive(Debug, Clone, PartialEq, Eq)]
pub struct UiActionState {
    /// known / unknown / unconfigured / unavailable
    pub kind: String,
    pub label: String,
    pub detail: String,
    pub items: Vec<String>,
    pub observed_at: Option<String>,
    pub integration: Option<String>,
}

/// An Action as the interface lists it.
#[derive(Debug, Clone, PartialEq, Eq)]
pub struct ActionPresentation {
    pub id: String,
    pub action_version: u32,
    pub name: String,
    pub description: String,
    pub audience: String,
    pub category: String,
    pub tags: Vec<String>,
    pub supported_windows_versions: Vec<String>,
    pub minimum_build: u32,
    pub maximum_tested_build: Option<u32>,
    pub risk_level: String,
    pub requires_admin: bool,
    pub requires_restart: bool,
    pub requires_explorer_restart: bool,
    pub update_impact: String,
    pub reversible: bool,
    /// persistent / session / observation / guided
    pub kind: String,
    pub auto_apply_eligible: bool,
    /// mutable / read_only / detect_only / blocked
    pub availability: String,
    pub method_class: String,
    pub method_summary: String,
    pub desired_state: String,
    pub current_state: Option<UiActionState>,
    pub detail_points: Vec<String>,
    pub settings_page: Option<String>,
}

/// What the start screen shows about the safety core.
#[derive(Debug, Clone, PartialEq, Eq)]
pub struct BootstrapStatus {
    /// ready / read_only / unsupported / recovery_required
    pub mode: String,
    pub os_label: String,
    pub build: Option<u32>,
    pub message: String,
    pub recovery_count: u32,
}

} // verus!
