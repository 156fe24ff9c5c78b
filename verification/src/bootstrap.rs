//! The start-up gate: a failed initialisation keeps the interface alive but
//! closed, and no command reaches a change without a working engine.

use vstd::prelude::*;
use crate::error::{CoreError, CoreResult};
use crate::presentation::BootstrapStatus;

verus! {

pub open spec fn no_core_message() -> Seq<char> {
    "安全コアを初期化できないため、変更操作を停止しています。"@
}

/// The status shown when the safety core could not start.
pub fn fail_closed_status(message: String) -> (s: BootstrapStatus)
    ensures
        s.mode@ == "recovery_required"@,
        s.os_label@ == "安全コアを開始できません"@,
        s.build is None,
        s.message == message,
        s.recovery_count == 0,
{
    BootstrapStatus {
        mode: "recovery_required".to_owned(),
        os_label: "安全コアを開始できません".to_owned(),
        build: None,
        message,
        recovery_count: 0,
    }
}

fn copy_error(e: &CoreError) -> (r: CoreError)
    ensures
        r == *e,
{
    CoreError {
        code: e.code.clone(),
        stage: e.stage.clone(),
        retryable: e.retryable,
        user_message: e.user_message.clone(),
        diagnostic_id: e.diagnostic_id,
    }
}

/// Whether a change may reach the engine: an initialisation error comes
/// first, then a problem of the profile watcher, then a missing engine.
pub fn engine_gate(
    initialization_error: &Option<CoreError>,
    watcher_error: Option<CoreError>,
    engine_present: bool,
) -> (r: CoreResult<()>)
    ensures
        r is Ok <==> initialization_error is None && watcher_error is None && engine_present,
        *initialization_error matches Some(e) ==> r == Err::<(), CoreError>(e),
        watcher_error matches Some(e) ==> (initialization_error is None ==> r == Err::<(), CoreError>(e)),
        initialization_error is None && watcher_error is None && !engine_present ==> (r matches Err(e)
            && e.code@ == "RECOVERY_REQUIRED"@ && e.user_message@ == no_core_message()),
{
    if let Some(error) = initialization_error {
        return Err(copy_error(error));
    }
    if let Some(error) = watcher_error {
        return Err(error);
    }
    if !engine_present {
        return Err(CoreError::recovery_required("安全コアを初期化できないため、変更操作を停止しています。"));
    }
    Ok(())
}

/// The start screen's status. `engine_status` is what the engine reported,
/// when there is an engine.
pub fn bootstrap_status(
    initialization_error: &Option<CoreError>,
    watcher_error: Option<CoreError>,
    engine_status: Option<CoreResult<BootstrapStatus>>,
) -> (s: BootstrapStatus)
    ensures
        *initialization_error matches Some(e) ==> s.mode@ == "recovery_required"@ && s.message
            == e.user_message,
        watcher_error matches Some(e) ==> (initialization_error is None ==> s.mode@
            == "recovery_required"@ && s.message == e.user_message),
        initialization_error is None && watcher_error is None ==> match engine_status {
            Some(Ok(status)) => s == status,
            Some(Err(e)) => s.mode@ == "recovery_required"@ && s.message == e.user_message,
            None => s.mode@ == "recovery_required"@ && s.message@ == no_core_message(),
        },
        s.mode@ != "recovery_required"@ ==> initialization_error is None && watcher_error is None,
{
    if let Some(error) = initialization_error {
        return fail_closed_status(error.user_message.clone());
    }
    if let Some(error) = watcher_error {
        return fail_closed_status(error.user_message);
    }
    match engine_status {
        Some(Ok(status)) => status,
        Some(Err(error)) => fail_closed_status(error.user_message),
        None => fail_closed_status("安全コアを初期化できないため、変更操作を停止しています。".to_owned()),
    }
}

} // verus!
