//! The error shape shown to the user interface.

use vstd::prelude::*;
use crate::action::{spec_error_code, spec_stage_code, ActionError, ActionErrorCode};
use crate::ids::diagnostic_id;

verus! {

/// An error with a stable code, the stage that failed, whether a retry can
/// help, a message for the user and a fresh diagnostic ID.
#[derive(Clone, Debug)]
pub struct CoreError {
    pub code: String,
    pub stage: String,
    pub retryable: bool,
    pub user_message: String,
    pub diagnostic_id: [u8; 16],
}

pub type CoreResult<T> = Result<T, CoreError>;

impl CoreError {
    /// An error with the given parts and a fresh diagnostic ID.
    pub fn new(code: &str, stage: &str, retryable: bool, user_message: &str) -> (e: CoreError)
        ensures
            e.code@ == code@,
            e.stage@ == stage@,
            e.retryable == retryable,
            e.user_message@ == user_message@,
    {
        CoreError {
            code: code.to_owned(),
            stage: stage.to_owned(),
            retryable,
            user_message: user_message.to_owned(),
            diagnostic_id: diagnostic_id(),
        }
    }

    /// The journal could not be written; nothing was changed.
    pub fn storage() -> (e: CoreError)
        ensures
            e.code@ == "STORAGE_FAILURE"@,
            e.stage@ == "JOURNAL"@,
            !e.retryable,
            e.user_message@ == "変更記録を安全に保存できませんでした。設定は変更していません。"@,
    {
        CoreError::new(
            "STORAGE_FAILURE",
            "JOURNAL",
            false,
            "変更記録を安全に保存できませんでした。設定は変更していません。",
        )
    }

    /// Recovery must be resolved before anything else may change.
    pub fn recovery_required(message: &str) -> (e: CoreError)
        ensures
            e.code@ == "RECOVERY_REQUIRED"@,
            e.stage@ == "RECOVERY"@,
            !e.retryable,
            e.user_message@ == message@,
    {
        CoreError::new("RECOVERY_REQUIRED", "RECOVERY", false, message)
    }

    /// The request itself was not acceptable.
    pub fn invalid_request(message: &str) -> (e: CoreError)
        ensures
            e.code@ == "INVALID_REQUEST"@,
            e.stage@ == "VALIDATE"@,
            !e.retryable,
            e.user_message@ == message@,
    {
        CoreError::new("INVALID_REQUEST", "VALIDATE", false, message)
    }
}

/// The message shown for an Action failure; it never repeats internal detail.
pub open spec fn spec_action_user_message(code: ActionErrorCode) -> Seq<char> {
    match code {
        ActionErrorCode::UnknownBuild | ActionErrorCode::RecoveryRequired =>
            "未検証のWindowsビルドです。自動書き込みを止め、復旧確認が必要です。"@,
        ActionErrorCode::CompatibilityBlocked => "このWindows環境では、この変更は読み取り専用です。"@,
        ActionErrorCode::WrongParameters | ActionErrorCode::InvalidParameters =>
            "指定内容を安全に検証できませんでした。"@,
        ActionErrorCode::ExternalConflict | ActionErrorCode::BackupMismatch =>
            "適用後に別の変更を検出したため、自動では上書きしません。"@,
        ActionErrorCode::AccessDenied => "Windowsからこの操作が拒否されました。"@,
        ActionErrorCode::StateUnknown => "現在の状態を確認できないため、変更を停止しました。"@,
        ActionErrorCode::DisplayTopologyChanged =>
            "画面の構成が保存したときと違います。ウィンドウは動かしていません。"@,
        ActionErrorCode::SavedDisplayTopologyMissing =>
            "保存時の画面構成が記録されていません。現在の正しい配置を保存し直してください。ウィンドウは動かしていません。"@,
    }
}

impl CoreError {
    /// The outward form of an Action failure: its code, stage and diagnostic
    /// ID, and the user message for its code.
    pub fn from_action_error(error: ActionError) -> (e: CoreError)
        ensures
            e.code@ == spec_error_code(error.code),
            e.stage@ == spec_stage_code(error.stage),
            e.retryable == error.retryable,
            e.user_message@ == spec_action_user_message(error.code),
            e.diagnostic_id == error.diagnostic_id,
    {
        let user_message = match error.code {
            ActionErrorCode::UnknownBuild | ActionErrorCode::RecoveryRequired => {
                "未検証のWindowsビルドです。自動書き込みを止め、復旧確認が必要です。"
            },
            ActionErrorCode::CompatibilityBlocked => "このWindows環境では、この変更は読み取り専用です。",
            ActionErrorCode::WrongParameters | ActionErrorCode::InvalidParameters => {
                "指定内容を安全に検証できませんでした。"
            },
            ActionErrorCode::ExternalConflict | ActionErrorCode::BackupMismatch => {
                "適用後に別の変更を検出したため、自動では上書きしません。"
            },
            ActionErrorCode::AccessDenied => "Windowsからこの操作が拒否されました。",
            ActionErrorCode::StateUnknown => "現在の状態を確認できないため、変更を停止しました。",
            ActionErrorCode::DisplayTopologyChanged => {
                "画面の構成が保存したときと違います。ウィンドウは動かしていません。"
            },
            ActionErrorCode::SavedDisplayTopologyMissing => {
                "保存時の画面構成が記録されていません。現在の正しい配置を保存し直してください。ウィンドウは動かしていません。"
            },
        };
        CoreError {
            code: error.code.as_code().to_owned(),
            stage: error.stage.as_code().to_owned(),
            retryable: error.retryable,
            user_message: user_message.to_owned(),
            diagnostic_id: error.diagnostic_id,
        }
    }
}

impl From<ActionError> for CoreError {
    fn from(error: ActionError) -> (e: CoreError)
        ensures
            e.code@ == spec_error_code(error.code),
            e.stage@ == spec_stage_code(error.stage),
            e.retryable == error.retryable,
            e.user_message@ == spec_action_user_message(error.code),
            e.diagnostic_id == error.diagnostic_id,
    {
        CoreError::from_action_error(error)
    }
}

impl vstd::std_specs::convert::FromSpecImpl<ActionError> for CoreError {
    open spec fn obeys_from_spec() -> bool {
        false
    }

    open spec fn from_spec(v: ActionError) -> CoreError {
        arbitrary()
    }
}

} // verus!
