//! The vocabulary shared by every Action: identifiers, kinds, stages and errors.

use vstd::prelude::*;
use crate::ids::{diagnostic_id, same_id};

verus! {

/// The Actions this library refers to by name.
#[derive(Debug, Clone, Copy, PartialEq, Eq, Structural)]
pub enum ActionId {
    ExplorerShowExtensions,
    PowerActiveSchemeCheck,
    SetupWindowLayout,
    ThemeColorMode,
}

pub open spec fn spec_action_id_str(id: ActionId) -> Seq<char> {
    match id {
        ActionId::ExplorerShowExtensions => "explorer.show_extensions"@,
        ActionId::PowerActiveSchemeCheck => "power.active_scheme_check"@,
        ActionId::SetupWindowLayout => "setup.window_layout"@,
        ActionId::ThemeColorMode => "theme.color_mode"@,
    }
}

impl ActionId {
    /// The stable textual ID stored in journals and profiles.
    pub fn as_str(self) -> (s: &'static str)
        ensures
            s@ == spec_action_id_str(self),
    {
        match self {
            ActionId::ExplorerShowExtensions => "explorer.show_extensions",
            ActionId::PowerActiveSchemeCheck => "power.active_scheme_check",
            ActionId::SetupWindowLayout => "setup.window_layout",
            ActionId::ThemeColorMode => "theme.color_mode",
        }
    }
}

/// The identity of an executable file, stable across renames: the volume
/// serial number and the file ID.
#[derive(Debug, Clone, Copy, PartialEq, Eq, Hash)]
pub struct ProcessFileIdentity {
    pub volume_serial_number: u64,
    pub file_id: [u8; 16],
}

/// Two identities name the same file.
pub open spec fn same_file_identity(a: ProcessFileIdentity, b: ProcessFileIdentity) -> bool {
    a.volume_serial_number == b.volume_serial_number && a.file_id@ == b.file_id@
}

impl ProcessFileIdentity {
    /// Whether both identities name the same file.
    pub fn same_file(&self, other: &ProcessFileIdentity) -> (r: bool)
        ensures
            r == same_file_identity(*self, *other),
            r == (*self == *other),
    {
        self.volume_serial_number == other.volume_serial_number && same_id(&self.file_id, &other.file_id)
    }
}

/// How an Action changes the system.
#[derive(Debug, Clone, Copy, PartialEq, Eq, Structural)]
pub enum ActionKind {
    Persistent,
    Session,
    Observation,
    Guided,
    OneWay,
}

/// The pipeline stage in which something happened.
#[derive(Debug, Clone, Copy, PartialEq, Eq, Structural)]
pub enum ActionStage {
    Validate,
    Detect,
    Backup,
    Apply,
    VerifyApplied,
    Rollback,
    VerifyRolledBack,
    Recovery,
}

pub open spec fn spec_stage_code(stage: ActionStage) -> Seq<char> {
    match stage {
        ActionStage::Validate => "VALIDATE"@,
        ActionStage::Detect => "DETECT"@,
        ActionStage::Backup => "BACKUP"@,
        ActionStage::Apply => "APPLY"@,
        ActionStage::VerifyApplied => "VERIFY_APPLIED"@,
        ActionStage::Rollback => "ROLLBACK"@,
        ActionStage::VerifyRolledBack => "VERIFY_ROLLED_BACK"@,
        ActionStage::Recovery => "RECOVERY"@,
    }
}

impl ActionStage {
    /// The stage name reported to the user interface.
    pub fn as_code(self) -> (s: &'static str)
        ensures
            s@ == spec_stage_code(self),
    {
        match self {
            ActionStage::Validate => "VALIDATE",
            ActionStage::Detect => "DETECT",
            ActionStage::Backup => "BACKUP",
            ActionStage::Apply => "APPLY",
            ActionStage::VerifyApplied => "VERIFY_APPLIED",
            ActionStage::Rollback => "ROLLBACK",
            ActionStage::VerifyRolledBack => "VERIFY_ROLLED_BACK",
            ActionStage::Recovery => "RECOVERY",
        }
    }
}

#[derive(Debug, Clone, Copy, PartialEq, Eq, Structural)]
pub enum ActionErrorCode {
    UnknownBuild,
    RecoveryRequired,
    CompatibilityBlocked,
    WrongParameters,
    InvalidParameters,
    ExternalConflict,
    BackupMismatch,
    AccessDenied,
    StateUnknown,
    DisplayTopologyChanged,
    SavedDisplayTopologyMissing,
}

pub open spec fn spec_error_code(code: ActionErrorCode) -> Seq<char> {
    match code {
        ActionErrorCode::UnknownBuild => "UNKNOWN_BUILD"@,
        ActionErrorCode::RecoveryRequired => "RECOVERY_REQUIRED"@,
        ActionErrorCode::CompatibilityBlocked => "COMPATIBILITY_BLOCKED"@,
        ActionErrorCode::WrongParameters => "WRONG_PARAMETERS"@,
        ActionErrorCode::InvalidParameters => "INVALID_PARAMETERS"@,
        ActionErrorCode::ExternalConflict => "EXTERNAL_CONFLICT"@,
        ActionErrorCode::BackupMismatch => "BACKUP_MISMATCH"@,
        ActionErrorCode::AccessDenied => "ACCESS_DENIED"@,
        ActionErrorCode::StateUnknown => "STATE_UNKNOWN"@,
        ActionErrorCode::DisplayTopologyChanged => "DISPLAY_TOPOLOGY_CHANGED"@,
        ActionErrorCode::SavedDisplayTopologyMissing => "SAVED_DISPLAY_TOPOLOGY_MISSING"@,
    }
}

impl ActionErrorCode {
    /// The error code reported to the user interface.
    pub fn as_code(self) -> (s: &'static str)
        ensures
            s@ == spec_error_code(self),
    {
        match self {
            ActionErrorCode::UnknownBuild => "UNKNOWN_BUILD",
            ActionErrorCode::RecoveryRequired => "RECOVERY_REQUIRED",
            ActionErrorCode::CompatibilityBlocked => "COMPATIBILITY_BLOCKED",
            ActionErrorCode::WrongParameters => "WRONG_PARAMETERS",
            ActionErrorCode::InvalidParameters => "INVALID_PARAMETERS",
            ActionErrorCode::ExternalConflict => "EXTERNAL_CONFLICT",
            ActionErrorCode::BackupMismatch => "BACKUP_MISMATCH",
            ActionErrorCode::AccessDenied => "ACCESS_DENIED",
            ActionErrorCode::StateUnknown => "STATE_UNKNOWN",
            ActionErrorCode::DisplayTopologyChanged => "DISPLAY_TOPOLOGY_CHANGED",
            ActionErrorCode::SavedDisplayTopologyMissing => "SAVED_DISPLAY_TOPOLOGY_MISSING",
        }
    }
}

/// An Action failure: code, stage, whether a retry may help, the key of the
/// user message and a fresh diagnostic ID.
#[derive(Debug, Clone)]
pub struct ActionError {
    pub code: ActionErrorCode,
    pub stage: ActionStage,
    pub retryable: bool,
    pub user_message_key: String,
    pub diagnostic_id: [u8; 16],
    /// A detail that is safe to show, such as why two display configurations
    /// differ.
    pub safe_detail: Option<String>,
}

pub type ActionResult<T> = Result<T, ActionError>;

impl ActionError {
    /// An error with the given parts and a fresh diagnostic ID.
    pub fn new(code: ActionErrorCode, stage: ActionStage, retryable: bool, user_message_key: &str) -> (e:
        ActionError)
        ensures
            e.code == code,
            e.stage == stage,
            e.retryable == retryable,
            e.user_message_key@ == user_message_key@,
            e.safe_detail is None,
    {
        ActionError {
            code,
            stage,
            retryable,
            user_message_key: user_message_key.to_owned(),
            diagnostic_id: diagnostic_id(),
            safe_detail: None,
        }
    }

    /// The same error, carrying a detail that is safe to show.
    pub fn with_safe_detail(self, detail: String) -> (e: ActionError)
        ensures
            e.code == self.code,
            e.stage == self.stage,
            e.retryable == self.retryable,
            e.user_message_key == self.user_message_key,
            e.diagnostic_id == self.diagnostic_id,
            e.safe_detail == Some(detail),
    {
        ActionError { safe_detail: Some(detail), ..self }
    }

    /// Recovery must be resolved before anything else may change.
    pub fn recovery_required(stage: ActionStage, user_message_key: &str) -> (e: ActionError)
        ensures
            e.code == ActionErrorCode::RecoveryRequired,
            e.stage == stage,
            !e.retryable,
            e.user_message_key@ == user_message_key@,
    {
        ActionError::new(ActionErrorCode::RecoveryRequired, stage, false, user_message_key)
    }
}

/// The part of an Action's static description that compatibility and the
/// journal look at.
#[derive(Debug, Clone, Copy)]
pub struct ActionMetadata {
    pub id: ActionId,
    pub action_version: u32,
    pub kind: ActionKind,
    pub minimum_build: u32,
    pub maximum_tested_build: u32,
    pub auto_apply_eligible: bool,
}

} // verus!
