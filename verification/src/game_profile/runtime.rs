//! From stored profile definitions to the profiles the supervisor runs.
//!
//! Turning a stored Action into a planned one (its resource keys and desired
//! state) is the Action registry's work; the conversion here takes its
//! result.

use vstd::prelude::*;
use crate::action::ProcessFileIdentity;
use crate::error::{CoreError, CoreResult};
use crate::ids::{be_value, parse_uuid, u128_from_be, uuid_parse};
use crate::text::decode_hex16;
use super::store::{file_id_text_valid, is_invalid_request, parse_conflict_policy, valid_policy, StoredProfile};
use super::{ConflictPolicy, GameProfile, GameProfileId, PlannedAction, ProfileBinding, TrackingMode};
use vstd::utf8::encode_utf8;
use crate::text::spec_hex_decode;

verus! {

pub open spec fn invalid_profile_id_message() -> Seq<char> {
    "プロファイルIDが不正です。"@
}

pub open spec fn manual_not_watched_message() -> Seq<char> {
    "手動モードはプロセス監視の対象ではありません。"@
}

pub open spec fn invalid_identity_message() -> Seq<char> {
    "プロファイルの本人性情報が不正です。"@
}

pub open spec fn invalid_stored_policy_message() -> Seq<char> {
    "プロファイルの競合方針が不正です。"@
}

/// The stored identity is complete and its file ID is 32 hexadecimal digits.
pub open spec fn identity_readable(stored: StoredProfile) -> bool {
    &&& stored.volume_serial_number is Some
    &&& match stored.file_id_hex {
        Some(h) => file_id_text_valid(h@),
        None => false,
    }
}

pub open spec fn spec_policy_of(text: Seq<char>) -> ConflictPolicy {
    if text == "skip_conflicting"@ {
        ConflictPolicy::SkipConflicting
    } else {
        ConflictPolicy::AbortProfile
    }
}

/// The profile the supervisor runs for a stored, bound profile: its UUID as a
/// number, its name, the exact executable with its identity, the planned
/// Actions, its policy and whether it runs unattended.
pub open spec fn converted_profile(
    stored: StoredProfile,
    id: [u8; 16],
    path: String,
    volume_serial_number: u64,
    file_id: Seq<u8>,
    actions: Vec<PlannedAction>,
    g: GameProfile,
) -> bool {
    &&& g.id.0 as nat == be_value(id@)
    &&& g.name == stored.name
    &&& g.binding.canonical_path == path
    &&& g.binding.file_identity.volume_serial_number == volume_serial_number
    &&& g.binding.file_identity.file_id@ == file_id
    &&& g.binding.tracking == TrackingMode::ExactExecutable
    &&& g.actions == actions
    &&& g.conflict_policy == spec_policy_of(stored.conflict_policy@)
    &&& g.automation_enabled == stored.automation_enabled
}

/// Converts a stored profile for process watching. `actions` is the Action
/// registry's plan for the stored Actions, or its first refusal. The checks
/// run in this order: UUID, binding, identity, policy, Actions.
pub fn to_game_profile(stored: &StoredProfile, actions: CoreResult<Vec<PlannedAction>>) -> (r: CoreResult<
    GameProfile,
>)
    ensures
        uuid_parse(stored.id@) is None ==> (r matches Err(e) && is_invalid_request(e, invalid_profile_id_message())),
        uuid_parse(stored.id@) matches Some(id) ==> match stored.executable_path {
            None => r matches Err(e) && is_invalid_request(e, manual_not_watched_message()),
            Some(path) => if !identity_readable(*stored) {
                r matches Err(e) && is_invalid_request(e, invalid_identity_message())
            } else if !valid_policy(stored.conflict_policy@) {
                r matches Err(e) && e.code@ == "INVALID_REQUEST"@ && e.user_message@
                    == invalid_stored_policy_message()
            } else {
                match actions {
                    Err(e) => r == Err::<GameProfile, CoreError>(e),
                    Ok(planned) => r matches Ok(g) && converted_profile(
                        *stored,
                        id,
                        path,
                        stored.volume_serial_number->0,
                        spec_hex_decode(encode_utf8(stored.file_id_hex->0@))->0,
                        planned,
                        g,
                    ),
                }
            },
        },
{
    let id = match parse_uuid(stored.id.as_str()) {
        Some(id) => id,
        None => return Err(CoreError::invalid_request("プロファイルIDが不正です。")),
    };
    let path = match &stored.executable_path {
        Some(path) => path,
        None => return Err(CoreError::invalid_request("手動モードはプロセス監視の対象ではありません。")),
    };
    let volume_serial_number = match stored.volume_serial_number {
        Some(v) => v,
        None => return Err(CoreError::invalid_request("プロファイルの本人性情報が不正です。")),
    };
    let file_id = match &stored.file_id_hex {
        Some(h) => match decode_hex16(h.as_str()) {
            Some(file_id) => file_id,
            None => return Err(CoreError::invalid_request("プロファイルの本人性情報が不正です。")),
        },
        None => return Err(CoreError::invalid_request("プロファイルの本人性情報が不正です。")),
    };
    let conflict_policy = match parse_conflict_policy(stored.conflict_policy.as_str()) {
        Ok(policy) => policy,
        Err(e) => return Err(e),
    };
    let planned = match actions {
        Ok(planned) => planned,
        Err(e) => return Err(e),
    };
    Ok(GameProfile {
        id: GameProfileId(u128_from_be(id)),
        name: stored.name.clone(),
        binding: ProfileBinding {
            canonical_path: path.clone(),
            file_identity: ProcessFileIdentity { volume_serial_number, file_id },
            tracking: TrackingMode::ExactExecutable,
        },
        actions: planned,
        conflict_policy,
        automation_enabled: stored.automation_enabled,
    })
}

} // verus!
