//! The profile store: the registered profiles and the rules every change to
//! them follows. Reading and atomically writing the profiles file, and
//! serialising it, belong to the caller; a change is made on a copy of the
//! store, written out, and only then kept.
//!
//! Whether an Action may run unattended, or in a manual profile, is the
//! Action registry's verdict; the operations here take that verdict as an
//! argument.

use vstd::prelude::*;
use vstd::utf8::encode_utf8;
use crate::action::ProcessFileIdentity;
use crate::error::{CoreError, CoreResult};
use crate::ids::{is_v4_uuid, parse_uuid, random_uuid_bytes, same_id, spec_uuid_text, uuid_parse, uuid_text};
use crate::text::{
    chars_of, concat, decimal, has_exe_suffix, lemma_trim_idempotent, lower_hex, spec_decimal,
    spec_hex_decode, spec_lower_hex, spec_trim, decode_hex16, ends_with_exe, string_of, text_eq,
    trim_chars,
};
use super::ConflictPolicy;

verus! {

pub const PROFILES_FILE_VERSION: u32 = 1;
pub const MAX_PROFILES: usize = 200;
pub const MAX_ACTIONS_PER_PROFILE: usize = 32;

/// What a manual run left to restore.
#[derive(Debug, Clone, PartialEq)]
pub struct ManualRunRecord {
    pub transaction_id: String,
    pub reversible_item_ids: Vec<String>,
}

/// The record to keep for a manual run; there is none when nothing can be
/// restored.
pub fn manual_run_record(transaction_id: String, reversible_item_ids: Vec<String>) -> (r: Option<
    ManualRunRecord,
>)
    ensures
        reversible_item_ids@.len() == 0 <==> r is None,
        r matches Some(record) ==> record.transaction_id == transaction_id
            && record.reversible_item_ids == reversible_item_ids,
{
    if reversible_item_ids.len() == 0 {
        None
    } else {
        Some(ManualRunRecord { transaction_id, reversible_item_ids })
    }
}

pub open spec fn invalid_policy_message() -> Seq<char> {
    "競合方針の値が不正です。"@
}

/// The policy a new profile is stored with: the default when none is given.
pub fn normalize_conflict_policy(requested: Option<&str>) -> (r: CoreResult<String>)
    ensures
        match requested {
            None => r matches Ok(s) && s@ == "abort_profile"@,
            Some(text) => if text@ == "abort_profile"@ || text@ == "skip_conflicting"@ {
                r matches Ok(s) && s@ == text@
            } else {
                r matches Err(e) && is_invalid_request(e, invalid_policy_message())
            },
        },
{
    match requested {
        None => Ok("abort_profile".to_owned()),
        Some(text) => {
            let owned = text.to_owned();
            if owned == "abort_profile".to_owned() {
                Ok(owned)
            } else if owned == "skip_conflicting".to_owned() {
                Ok(owned)
            } else {
                Err(CoreError::invalid_request("競合方針の値が不正です。"))
            }
        },
    }
}

/// The stored policy as the supervisor's policy.
pub fn parse_conflict_policy(text: &str) -> (r: CoreResult<ConflictPolicy>)
    ensures
        text@ == "skip_conflicting"@ ==> r == Ok::<ConflictPolicy, CoreError>(ConflictPolicy::SkipConflicting),
        text@ == "abort_profile"@ ==> r == Ok::<ConflictPolicy, CoreError>(ConflictPolicy::AbortProfile),
        text@ != "skip_conflicting"@ && text@ != "abort_profile"@ ==> (r matches Err(e) && e.code@
            == "INVALID_REQUEST"@ && e.user_message@ == "プロファイルの競合方針が不正です。"@),
{
    proof {
        reveal_strlit("skip_conflicting");
        reveal_strlit("abort_profile");
        assert("skip_conflicting"@.len() != "abort_profile"@.len());
    }
    let owned = text.to_owned();
    if owned == "skip_conflicting".to_owned() {
        Ok(ConflictPolicy::SkipConflicting)
    } else if owned == "abort_profile".to_owned() {
        Ok(ConflictPolicy::AbortProfile)
    } else {
        Err(CoreError::invalid_request("プロファイルの競合方針が不正です。"))
    }
}

/// A manual profile can never run unattended.
pub fn check_enable(is_manual: bool, enabled: bool) -> (r: CoreResult<()>)
    ensures
        r is Err <==> enabled && is_manual,
        r matches Err(e) ==> is_invalid_request(e, manual_enable_message()),
{
    if enabled && is_manual {
        return Err(CoreError::invalid_request("手動モードは自動適用を有効にできません。"));
    }
    Ok(())
}

/// A backup file is accepted only in the current version and within the
/// profile limit.
pub fn check_import_file(version: u32, profile_count: usize) -> (r: CoreResult<()>)
    ensures
        r is Ok <==> version == PROFILES_FILE_VERSION && profile_count <= MAX_PROFILES,
        version != PROFILES_FILE_VERSION ==> (r matches Err(e) && e.user_message@
            == "バックアップの版が対応外です。"@),
        version == PROFILES_FILE_VERSION && profile_count > MAX_PROFILES ==> (r matches Err(e)
            && e.user_message@ == "バックアップのプロファイル数が多すぎます。"@),
{
    if version != PROFILES_FILE_VERSION {
        return Err(CoreError::invalid_request("バックアップの版が対応外です。"));
    }
    if profile_count > MAX_PROFILES {
        return Err(CoreError::invalid_request("バックアップのプロファイル数が多すぎます。"));
    }
    Ok(())
}

/// How one profile of a backup would be taken in on this machine.
#[derive(Debug, Clone, PartialEq, Eq)]
pub struct ImportPreviewItem {
    pub name: String,
    pub executable_path: String,
    pub action_count: usize,
    pub resolvable: bool,
    pub note: String,
}

#[derive(Debug, Clone, PartialEq, Eq)]
pub struct ImportSkip {
    pub name: String,
    pub reason: String,
}

#[derive(Debug, Clone, PartialEq, Eq)]
pub struct ImportResult {
    pub imported: Vec<String>,
    pub skipped: Vec<ImportSkip>,
}

/// The preview of one imported profile. `resolution` says whether its
/// executable resolved on this machine, with the reason when it did not; a
/// manual profile has no executable to resolve.
pub fn import_preview_item(
    name: String,
    executable_path: Option<String>,
    action_count: usize,
    resolution: Result<(), String>,
) -> (item: ImportPreviewItem)
    ensures
        item.name == name,
        item.action_count == action_count,
        match executable_path {
            None => item.executable_path@.len() == 0 && item.resolvable && item.note@ == "手動モードとして"@
                + spec_decimal(action_count as nat) + "件の準備を取り込みます"@,
            Some(path) => item.executable_path == path && match resolution {
                Ok(()) => item.resolvable && item.note@ == spec_decimal(action_count as nat)
                    + "件の準備を取り込みます"@,
                Err(reason) => !item.resolvable && item.note == reason,
            },
        },
{
    match executable_path {
        None => {
            let note = concat(
                concat("手動モードとして".to_owned(), decimal(action_count as u64).as_str()),
                "件の準備を取り込みます",
            );
            ImportPreviewItem { name, executable_path: String::new(), action_count, resolvable: true, note }
        },
        Some(path) => match resolution {
            Ok(()) => {
                let note = concat(decimal(action_count as u64), "件の準備を取り込みます");
                ImportPreviewItem { name, executable_path: path, action_count, resolvable: true, note }
            },
            Err(reason) => ImportPreviewItem {
                name,
                executable_path: path,
                action_count,
                resolvable: false,
                note: reason,
            },
        },
    }
}

/// Records one profile of an import: its name when it was created, or the
/// reason it was skipped.
pub fn record_import(result: &mut ImportResult, name: String, created: CoreResult<String>)
    ensures
        match created {
            Ok(created_name) => final(result).imported@ == old(result).imported@.push(created_name)
                && final(result).skipped@ == old(result).skipped@,
            Err(e) => final(result).skipped@ == old(result).skipped@.push(
                ImportSkip { name, reason: e.user_message },
            ) && final(result).imported@ == old(result).imported@,
        },
{
    match created {
        Ok(created_name) => result.imported.push(created_name),
        Err(error) => result.skipped.push(ImportSkip { name, reason: error.user_message }),
    }
}


pub const MAX_PROFILES_FILE_BYTES: u64 = 1048576;
pub const MAX_PROFILE_NAME_CHARS: usize = 120;
pub const MAX_EXECUTABLE_PATH_CHARS: usize = 32767;

/// One Action of a stored profile: its textual ID and its parameters.
#[derive(Debug, Clone, PartialEq)]
pub struct StoredProfileAction {
    pub action_id: String,
    pub parameters: serde_json::Value,
}

/// A profile as the profiles file keeps it.
#[derive(Debug, Clone, PartialEq)]
pub struct StoredProfile {
    pub id: String,
    pub name: String,
    /// None for a manual profile; otherwise the canonical absolute path.
    pub executable_path: Option<String>,
    pub volume_serial_number: Option<u64>,
    /// The 16-byte file ID as hexadecimal text.
    pub file_id_hex: Option<String>,
    pub conflict_policy: String,
    pub automation_enabled: bool,
    pub actions: Vec<StoredProfileAction>,
    pub active_run: Option<ManualRunRecord>,
}

impl StoredProfile {
    /// A manual profile is not bound to an executable.
    pub fn is_manual(&self) -> (r: bool)
        ensures
            r == (self.executable_path is None),
    {
        self.executable_path.is_none()
    }
}

/// A request to register a profile; the executable path is the user's raw
/// input.
#[derive(Debug, Clone)]
pub struct CreateProfileRequest {
    pub name: String,
    pub executable_path: Option<String>,
    pub conflict_policy: Option<String>,
    pub actions: Vec<StoredProfileAction>,
}

/// Where a registered executable was found: its canonical path and identity.
#[derive(Debug, Clone)]
pub struct ResolvedBinding {
    pub canonical_path: String,
    pub volume_serial_number: u64,
    pub file_id: [u8; 16],
}

/// The registered profiles.
#[derive(Debug, Clone)]
pub struct ProfileStore {
    profiles: Vec<StoredProfile>,
}

impl View for ProfileStore {
    type V = Seq<StoredProfile>;

    closed spec fn view(&self) -> Seq<StoredProfile> {
        self.profiles@
    }
}

pub open spec fn valid_profile_name(name: Seq<char>) -> bool {
    spec_trim(name) == name && 1 <= name.len() <= MAX_PROFILE_NAME_CHARS
}

pub open spec fn valid_policy(policy: Seq<char>) -> bool {
    policy == "abort_profile"@ || policy == "skip_conflicting"@
}

/// What holds of every profile in the store: a well-formed name, policy and
/// Action count; a manual profile has no binding and never runs unattended;
/// a bound profile has its identity and never a manual run.
pub open spec fn profile_consistent(p: StoredProfile) -> bool {
    &&& valid_profile_name(p.name@)
    &&& p.actions@.len() <= MAX_ACTIONS_PER_PROFILE
    &&& valid_policy(p.conflict_policy@)
    &&& match p.executable_path {
        None => !p.automation_enabled && p.volume_serial_number is None && p.file_id_hex is None,
        Some(_) => p.volume_serial_number is Some && p.file_id_hex is Some && p.active_run is None,
    }
}

impl ProfileStore {
    pub open spec fn wf(&self) -> bool {
        &&& self@.len() <= MAX_PROFILES
        &&& forall|i: int| 0 <= i < self@.len() ==> profile_consistent(#[trigger] self@[i])
    }
}

/// `i` is the first profile with this ID.
pub open spec fn first_with_id(s: Seq<StoredProfile>, id: Seq<char>, i: int) -> bool {
    &&& 0 <= i < s.len()
    &&& s[i].id@ == id
    &&& forall|j: int| 0 <= j < i ==> (#[trigger] s[j]).id@ != id
}

pub open spec fn has_id(s: Seq<StoredProfile>, id: Seq<char>) -> bool {
    exists|i: int| 0 <= i < s.len() && (#[trigger] s[i]).id@ == id
}

pub open spec fn with_automation(p: StoredProfile, enabled: bool) -> StoredProfile {
    StoredProfile { automation_enabled: enabled, ..p }
}

pub open spec fn with_run(p: StoredProfile, run: Option<ManualRunRecord>) -> StoredProfile {
    StoredProfile { active_run: run, ..p }
}

pub open spec fn not_found_message() -> Seq<char> {
    "対象のプロファイルがありません。"@
}

pub open spec fn is_invalid_request(e: CoreError, message: Seq<char>) -> bool {
    e.code@ == "INVALID_REQUEST"@ && e.stage@ == "VALIDATE"@ && !e.retryable && e.user_message@
        == message
}

/// The operating system's random source failed while making a fresh ID.
pub open spec fn is_random_source_failure(e: CoreError) -> bool {
    e.code@ == "RANDOM_SOURCE_FAILURE"@ && e.stage@ == "VALIDATE"@ && !e.retryable && e.user_message@
        == "プロファイルIDを作成できませんでした。"@
}

pub open spec fn is_recovery_required(e: CoreError, message: Seq<char>) -> bool {
    e.code@ == "RECOVERY_REQUIRED"@ && e.stage@ == "RECOVERY"@ && !e.retryable && e.user_message@
        == message
}

fn position(profiles: &Vec<StoredProfile>, id: &str) -> (r: Option<usize>)
    ensures
        match r {
            Some(i) => first_with_id(profiles@, id@, i as int),
            None => !has_id(profiles@, id@),
        },
{
    let mut i: usize = 0;
    while i < profiles.len()
        invariant
            i <= profiles@.len(),
            forall|j: int| 0 <= j < i ==> (#[trigger] profiles@[j]).id@ != id@,
        decreases profiles@.len() - i,
    {
        if text_eq(profiles[i].id.as_str(), id) {
            return Some(i);
        }
        i = i + 1;
    }
    None
}

fn not_found() -> (e: CoreError)
    ensures
        is_invalid_request(e, not_found_message()),
{
    CoreError::invalid_request("対象のプロファイルがありません。")
}

impl ProfileStore {
    /// A store with no profiles, as when no profiles file exists yet.
    pub fn new() -> (s: ProfileStore)
        ensures
            s.wf(),
            s@ == Seq::<StoredProfile>::empty(),
    {
        ProfileStore { profiles: Vec::new() }
    }

    /// The profiles, in registration order.
    pub fn list(&self) -> (r: &Vec<StoredProfile>)
        ensures
            r@ == self@,
    {
        &self.profiles
    }

    /// The first profile with this ID.
    pub fn get(&self, id: &str) -> (r: CoreResult<&StoredProfile>)
        ensures
            match r {
                Ok(p) => exists|i: int| first_with_id(self@, id@, i) && *p == self@[i],
                Err(e) => !has_id(self@, id@) && is_invalid_request(e, not_found_message()),
            },
    {
        match position(&self.profiles, id) {
            Some(i) => {
                assert(first_with_id(self@, id@, i as int) && self.profiles[i as int] == self@[i as int]);
                Ok(&self.profiles[i])
            },
            None => Err(not_found()),
        }
    }

    /// Turns unattended application on or off. A manual profile can never
    /// be turned on, and turning on asks the Action registry again
    /// (`actions_check`), so that an older file cannot slip an ineligible
    /// Action through.
    pub fn set_enabled(&mut self, id: &str, enabled: bool, actions_check: CoreResult<()>) -> (r:
        CoreResult<()>)
        requires
            old(self).wf(),
        ensures
            final(self).wf(),
            r is Err ==> final(self)@ == old(self)@,
            !has_id(old(self)@, id@) ==> (r matches Err(e) && is_invalid_request(e, not_found_message())),
            forall|i: int|
                first_with_id(old(self)@, id@, i) ==> {
                    let p = #[trigger] old(self)@[i];
                    if enabled && p.executable_path is None {
                        r matches Err(e) && is_invalid_request(e, manual_enable_message())
                    } else if enabled && actions_check is Err {
                        r == Err::<(), CoreError>(actions_check->Err_0)
                    } else {
                        r is Ok && final(self)@ == old(self)@.update(i, with_automation(p, enabled))
                    }
                },
    {
        let i = match position(&self.profiles, id) {
            Some(i) => i,
            None => return Err(not_found()),
        };
        if let Err(e) = check_enable(self.profiles[i].is_manual(), enabled) {
            return Err(e);
        }
        if enabled {
            if let Err(e) = actions_check {
                return Err(e);
            }
        }
        let ghost before = self@;
        let mut p = self.profiles.remove(i);
        p.automation_enabled = enabled;
        self.profiles.insert(i, p);
        proof {
            assert(self@ =~= before.update(i as int, with_automation(before[i as int], enabled)));
            assert forall|j: int| 0 <= j < self@.len() implies profile_consistent(#[trigger] self@[j]) by {
                if j != i {
                    assert(self@[j] == before[j]);
                }
            }
        }
        Ok(())
    }

    /// Records the run of a manual profile; a bound profile, or one with a
    /// run still to restore, cannot start another.
    pub fn set_active_run(&mut self, id: &str, run: ManualRunRecord) -> (r: CoreResult<()>)
        requires
            old(self).wf(),
        ensures
            final(self).wf(),
            r is Err ==> final(self)@ == old(self)@,
            !has_id(old(self)@, id@) ==> (r matches Err(e) && is_invalid_request(e, not_found_message())),
            forall|i: int|
                first_with_id(old(self)@, id@, i) ==> {
                    let p = #[trigger] old(self)@[i];
                    if p.executable_path is Some || p.active_run is Some {
                        r matches Err(e) && is_invalid_request(e, run_unavailable_message())
                    } else {
                        r is Ok && final(self)@ == old(self)@.update(i, with_run(p, Some(run)))
                    }
                },
    {
        let i = match position(&self.profiles, id) {
            Some(i) => i,
            None => return Err(not_found()),
        };
        if !self.profiles[i].is_manual() || self.profiles[i].active_run.is_some() {
            return Err(CoreError::invalid_request("この手動モードは現在実行できません。"));
        }
        let ghost before = self@;
        let mut p = self.profiles.remove(i);
        p.active_run = Some(run);
        self.profiles.insert(i, p);
        proof {
            assert(self@ =~= before.update(i as int, with_run(before[i as int], Some(run))));
            assert forall|j: int| 0 <= j < self@.len() implies profile_consistent(#[trigger] self@[j]) by {
                if j != i {
                    assert(self@[j] == before[j]);
                }
            }
        }
        Ok(())
    }

    /// Narrows a manual run's record to the items still to restore; with
    /// none left the run is over. The transaction must be the recorded one.
    pub fn update_active_run_items(&mut self, id: &str, transaction_id: &str, item_ids: Vec<String>) -> (r:
        CoreResult<()>)
        requires
            old(self).wf(),
        ensures
            final(self).wf(),
            r is Err ==> final(self)@ == old(self)@,
            !has_id(old(self)@, id@) ==> (r matches Err(e) && is_invalid_request(e, not_found_message())),
            forall|i: int|
                first_with_id(old(self)@, id@, i) ==> {
                    let p = #[trigger] old(self)@[i];
                    match p.active_run {
                        None => r matches Err(e) && is_invalid_request(e, run_not_active_message()),
                        Some(run) => if run.transaction_id@ != transaction_id@ {
                            r matches Err(e) && is_recovery_required(e, run_mismatch_message())
                        } else if item_ids@.len() == 0 {
                            r is Ok && final(self)@ == old(self)@.update(i, with_run(p, None))
                        } else {
                            r is Ok && final(self)@ == old(self)@.update(
                                i,
                                with_run(p, Some(ManualRunRecord { transaction_id: run.transaction_id, reversible_item_ids: item_ids })),
                            )
                        },
                    }
                },
    {
        let i = match position(&self.profiles, id) {
            Some(i) => i,
            None => return Err(not_found()),
        };
        match &self.profiles[i].active_run {
            None => return Err(CoreError::invalid_request("この手動モードは実行中ではありません。")),
            Some(run) => {
                if !text_eq(run.transaction_id.as_str(), transaction_id) {
                    return Err(CoreError::recovery_required("手動モードの復元記録が一致しません。"));
                }
            },
        }
        let ghost before = self@;
        let mut p = self.profiles.remove(i);
        let recorded = p.active_run.take();
        match recorded {
            Some(run) => {
                p.active_run = manual_run_record(run.transaction_id, item_ids);
            },
            None => {},
        }
        self.profiles.insert(i, p);
        proof {
            assert(self@ =~= before.update(i as int, self@[i as int]));
            assert forall|j: int| 0 <= j < self@.len() implies profile_consistent(#[trigger] self@[j]) by {
                if j != i {
                    assert(self@[j] == before[j]);
                }
            }
        }
        Ok(())
    }

    /// Forgets a manual run's record.
    pub fn clear_active_run(&mut self, id: &str) -> (r: CoreResult<()>)
        requires
            old(self).wf(),
        ensures
            final(self).wf(),
            r is Err ==> final(self)@ == old(self)@,
            !has_id(old(self)@, id@) ==> (r matches Err(e) && is_invalid_request(e, not_found_message())),
            forall|i: int|
                first_with_id(old(self)@, id@, i) ==> r is Ok && final(self)@ == old(self)@.update(
                    i,
                    with_run(#[trigger] old(self)@[i], None),
                ),
    {
        let i = match position(&self.profiles, id) {
            Some(i) => i,
            None => return Err(not_found()),
        };
        let ghost before = self@;
        let mut p = self.profiles.remove(i);
        p.active_run = None;
        self.profiles.insert(i, p);
        proof {
            assert(self@ =~= before.update(i as int, with_run(before[i as int], None)));
            assert forall|j: int| 0 <= j < self@.len() implies profile_consistent(#[trigger] self@[j]) by {
                if j != i {
                    assert(self@[j] == before[j]);
                }
            }
        }
        Ok(())
    }
}

pub open spec fn manual_enable_message() -> Seq<char> {
    "手動モードは自動適用を有効にできません。"@
}

pub open spec fn run_unavailable_message() -> Seq<char> {
    "この手動モードは現在実行できません。"@
}

pub open spec fn run_not_active_message() -> Seq<char> {
    "この手動モードは実行中ではありません。"@
}

pub open spec fn run_mismatch_message() -> Seq<char> {
    "手動モードの復元記録が一致しません。"@
}


/// The policy a new profile is stored with: the default when none was asked
/// for, nothing when the request names no known policy.
pub open spec fn spec_policy_choice(requested: Option<String>) -> Option<Seq<char>> {
    match requested {
        None => Some("abort_profile"@),
        Some(text) => if valid_policy(text@) {
            Some(text@)
        } else {
            None
        },
    }
}

/// The name fits, there are not too many Actions, and a manual profile has
/// at least one.
pub open spec fn create_counts_pass(request: CreateProfileRequest) -> bool {
    &&& 1 <= spec_trim(request.name@).len() <= MAX_PROFILE_NAME_CHARS
    &&& request.actions@.len() <= MAX_ACTIONS_PER_PROFILE
    &&& (request.executable_path is None ==> request.actions@.len() > 0)
}

/// ... and the registry accepts the Actions, and the policy is known.
pub open spec fn create_policy_pass(request: CreateProfileRequest, actions_check: CoreResult<()>) -> bool {
    &&& create_counts_pass(request)
    &&& actions_check is Ok
    &&& spec_policy_choice(request.conflict_policy) is Some
}

/// ... and the executable, if any, was resolved.
pub open spec fn create_binding_pass(
    request: CreateProfileRequest,
    actions_check: CoreResult<()>,
    binding: Option<CoreResult<ResolvedBinding>>,
) -> bool {
    &&& create_policy_pass(request, actions_check)
    &&& !(binding matches Some(Err(_)))
}

/// The profile made from a request: a fresh UUID, the trimmed name, the
/// chosen policy, the request's Actions, unattended application off, no run,
/// and the resolved binding with its file ID in hexadecimal.
pub open spec fn created_profile(
    p: StoredProfile,
    request: CreateProfileRequest,
    binding: Option<CoreResult<ResolvedBinding>>,
) -> bool {
    &&& exists|b: [u8; 16]| p.id@ == #[trigger] spec_uuid_text(b@)
    &&& p.name@ == spec_trim(request.name@)
    &&& p.conflict_policy@ == spec_policy_choice(request.conflict_policy)->0
    &&& !p.automation_enabled
    &&& p.actions == request.actions
    &&& p.active_run is None
    &&& match binding {
        None => p.executable_path is None && p.volume_serial_number is None && p.file_id_hex is None,
        Some(Ok(found)) => {
            &&& p.executable_path == Some(found.canonical_path)
            &&& p.volume_serial_number == Some(found.volume_serial_number)
            &&& p.file_id_hex matches Some(h) && h@ == spec_lower_hex(found.file_id@)
        },
        Some(Err(_)) => false,
    }
}

/// What registering `request` under `raw_id` does to the profiles `before`:
/// the first failing check's error with nothing changed, or the new profile,
/// with `raw_id` as its ID, appended.
pub open spec fn create_outcome(
    before: Seq<StoredProfile>,
    after: Seq<StoredProfile>,
    request: CreateProfileRequest,
    actions_check: CoreResult<()>,
    binding: Option<CoreResult<ResolvedBinding>>,
    raw_id: [u8; 16],
    r: CoreResult<usize>,
) -> bool {
    let name_len = spec_trim(request.name@).len();
    &&& r is Err ==> after == before
    &&& !(1 <= name_len <= MAX_PROFILE_NAME_CHARS) ==> (r matches Err(e) && is_invalid_request(
        e,
        name_range_message(),
    ))
    &&& 1 <= name_len <= MAX_PROFILE_NAME_CHARS && request.actions@.len() > MAX_ACTIONS_PER_PROFILE ==> (r matches Err(
        e,
    ) && is_invalid_request(e, too_many_actions_message()))
    &&& 1 <= name_len <= MAX_PROFILE_NAME_CHARS && request.executable_path is None && request.actions@.len()
        == 0 ==> (r matches Err(e) && is_invalid_request(e, empty_manual_message()))
    &&& create_counts_pass(request) && actions_check is Err ==> r == Err::<usize, CoreError>(
        actions_check->Err_0,
    )
    &&& create_counts_pass(request) && actions_check is Ok && spec_policy_choice(request.conflict_policy) is None
        ==> (r matches Err(e) && is_invalid_request(e, invalid_policy_message()))
    &&& create_policy_pass(request, actions_check) ==> (binding matches Some(Err(e)) ==> r == Err::<
        usize,
        CoreError,
    >(e))
    &&& create_binding_pass(request, actions_check, binding) && before.len() >= MAX_PROFILES ==> (r matches Err(
        e,
    ) && is_invalid_request(e, store_full_message()))
    &&& create_binding_pass(request, actions_check, binding) && before.len() < MAX_PROFILES ==> {
        &&& r == Ok::<usize, CoreError>(before.len() as usize)
        &&& after.len() == before.len() + 1
        &&& after.drop_last() == before
        &&& created_profile(after.last(), request, binding)
        &&& after.last().id@ == spec_uuid_text(raw_id@)
    }
}

pub open spec fn name_range_message() -> Seq<char> {
    "プロファイル名は1〜120文字で入力してください。"@
}

pub open spec fn too_many_actions_message() -> Seq<char> {
    "1プロファイルのActionが多すぎます。"@
}

pub open spec fn empty_manual_message() -> Seq<char> {
    "手動モードには1件以上のActionを選んでください。"@
}

pub open spec fn store_full_message() -> Seq<char> {
    "登録できるプロファイル数の上限に達しました。"@
}

pub open spec fn delete_active_message() -> Seq<char> {
    "実行中の手動モードは、先に実行した分を復元してください。"@
}

/// The profiles without those with this ID, in order.
pub open spec fn without_id(s: Seq<StoredProfile>, id: Seq<char>) -> Seq<StoredProfile>
    decreases s.len(),
{
    if s.len() == 0 {
        s
    } else if s[0].id@ == id {
        without_id(s.drop_first(), id)
    } else {
        seq![s[0]] + without_id(s.drop_first(), id)
    }
}

pub open spec fn has_active_run(s: Seq<StoredProfile>, id: Seq<char>) -> bool {
    exists|i: int| 0 <= i < s.len() && (#[trigger] s[i]).id@ == id && s[i].active_run is Some
}

impl ProfileStore {
    /// Registers a profile under a fresh random ID. `actions_check` is the
    /// Action registry's verdict on the request's Actions (unattended use for
    /// a bound profile, manual use otherwise); `binding` is the outcome of
    /// resolving the requested executable, present exactly when one was
    /// requested. When the random source fails nothing is registered;
    /// otherwise the outcome is `create_with_id`'s under the ID drawn.
    pub fn create(
        &mut self,
        request: CreateProfileRequest,
        actions_check: CoreResult<()>,
        binding: Option<CoreResult<ResolvedBinding>>,
    ) -> (r: CoreResult<usize>)
        requires
            old(self).wf(),
            request.executable_path is Some <==> binding is Some,
        ensures
            final(self).wf(),
            (r matches Err(e) && is_random_source_failure(e) && final(self)@ == old(self)@) || exists|
                raw_id: [u8; 16],
            |
                #![trigger spec_uuid_text(raw_id@)]
                is_v4_uuid(raw_id) && create_outcome(
                    old(self)@,
                    final(self)@,
                    request,
                    actions_check,
                    binding,
                    raw_id,
                    r,
                ),
    {
        match random_uuid_bytes() {
            Some(raw_id) => {
                self.create_with_id(request, actions_check, binding, raw_id)
            },
            None => Err(
                CoreError::new("RANDOM_SOURCE_FAILURE", "VALIDATE", false, "プロファイルIDを作成できませんでした。"),
            ),
        }
    }

    /// Registers a profile under the ID `raw_id`, written as UUID text. The
    /// checks run in this order: name, Action count (a manual profile needs
    /// at least one), the registry's verdict, policy, binding, room in the
    /// store. Returns where the new profile stands.
    pub fn create_with_id(
        &mut self,
        request: CreateProfileRequest,
        actions_check: CoreResult<()>,
        binding: Option<CoreResult<ResolvedBinding>>,
        raw_id: [u8; 16],
    ) -> (r: CoreResult<usize>)
        requires
            old(self).wf(),
            request.executable_path is Some <==> binding is Some,
        ensures
            final(self).wf(),
            create_outcome(old(self)@, final(self)@, request, actions_check, binding, raw_id, r),
    {
        let trimmed = trim_chars(&chars_of(request.name.as_str()));
        if trimmed.len() == 0 || trimmed.len() > MAX_PROFILE_NAME_CHARS {
            return Err(CoreError::invalid_request("プロファイル名は1〜120文字で入力してください。"));
        }
        if request.actions.len() > MAX_ACTIONS_PER_PROFILE {
            return Err(CoreError::invalid_request("1プロファイルのActionが多すぎます。"));
        }
        if request.executable_path.is_none() && request.actions.len() == 0 {
            return Err(CoreError::invalid_request("手動モードには1件以上のActionを選んでください。"));
        }
        if let Err(e) = actions_check {
            return Err(e);
        }
        let policy = match &request.conflict_policy {
            None => normalize_conflict_policy(None),
            Some(text) => normalize_conflict_policy(Some(text.as_str())),
        };
        let conflict_policy = match policy {
            Ok(p) => p,
            Err(e) => return Err(e),
        };
        let (executable_path, volume_serial_number, file_id_hex) = match binding {
            None => (None, None, None),
            Some(Err(e)) => return Err(e),
            Some(Ok(found)) => (
                Some(found.canonical_path),
                Some(found.volume_serial_number),
                Some(lower_hex(found.file_id.as_slice())),
            ),
        };
        if self.profiles.len() >= MAX_PROFILES {
            return Err(CoreError::invalid_request("登録できるプロファイル数の上限に達しました。"));
        }
        let id = uuid_text(raw_id);
        let name = string_of(&trimmed);
        proof {
            lemma_trim_idempotent(request.name@);
        }
        let ghost before = self@;
        let profile = StoredProfile {
            id,
            name,
            executable_path,
            volume_serial_number,
            file_id_hex,
            conflict_policy,
            automation_enabled: false,
            actions: request.actions,
            active_run: None,
        };
        let index = self.profiles.len();
        self.profiles.push(profile);
        proof {
            assert(self@.drop_last() =~= before);
            assert(self@.last().id@ == spec_uuid_text(raw_id@));
            assert forall|j: int| 0 <= j < self@.len() implies profile_consistent(#[trigger] self@[j]) by {
                if j < before.len() {
                    assert(self@[j] == before[j]);
                }
            }
        }
        Ok(index)
    }

    /// Removes every profile with this ID; a manual profile with a run still
    /// to restore cannot be removed.
    pub fn delete(&mut self, id: &str) -> (r: CoreResult<()>)
        requires
            old(self).wf(),
        ensures
            final(self).wf(),
            r is Err ==> final(self)@ == old(self)@,
            !has_id(old(self)@, id@) ==> (r matches Err(e) && is_invalid_request(e, not_found_message())),
            has_id(old(self)@, id@) && has_active_run(old(self)@, id@) ==> (r matches Err(e)
                && is_invalid_request(e, delete_active_message())),
            has_id(old(self)@, id@) && !has_active_run(old(self)@, id@) ==> r is Ok && final(self)@
                == without_id(old(self)@, id@),
    {
        if position(&self.profiles, id).is_none() {
            return Err(not_found());
        }
        let mut i: usize = 0;
        while i < self.profiles.len()
            invariant
                i <= self@.len(),
                self@ == old(self)@,
                self.wf(),
                forall|j: int| 0 <= j < i ==> !((#[trigger] self@[j]).id@ == id@ && self@[j].active_run is Some),
            decreases self@.len() - i,
        {
            if text_eq(self.profiles[i].id.as_str(), id) && self.profiles[i].active_run.is_some() {
                return Err(CoreError::invalid_request(
                    "実行中の手動モードは、先に実行した分を復元してください。",
                ));
            }
            i = i + 1;
        }
        let ghost orig = self@;
        let mut rest: Vec<StoredProfile> = Vec::new();
        std::mem::swap(&mut self.profiles, &mut rest);
        let mut kept: Vec<StoredProfile> = Vec::new();
        while rest.len() > 0
            invariant
                rest@.len() <= orig.len(),
                rest@ == orig.subrange(orig.len() - rest@.len(), orig.len() as int),
                without_id(orig, id@) == kept@ + without_id(rest@, id@),
                kept@.len() + rest@.len() <= orig.len(),
                forall|k: int| 0 <= k < orig.len() ==> profile_consistent(#[trigger] orig[k]),
                forall|k: int| 0 <= k < kept@.len() ==> profile_consistent(#[trigger] kept@[k]),
            decreases rest@.len(),
        {
            let ghost r0 = rest@;
            let p = rest.remove(0);
            proof {
                assert(r0.drop_first() =~= rest@);
                assert(p == orig[orig.len() - r0.len()]);
                assert(rest@ =~= orig.subrange(orig.len() - rest@.len(), orig.len() as int));
            }
            if !text_eq(p.id.as_str(), id) {
                kept.push(p);
                proof {
                    assert(without_id(r0, id@) == seq![p] + without_id(rest@, id@));
                }
            } else {
                proof {
                    assert(without_id(r0, id@) == without_id(rest@, id@));
                }
            }
        }
        proof {
            assert(without_id(rest@, id@) =~= Seq::<StoredProfile>::empty());
            assert(kept@ =~= without_id(orig, id@));
        }
        self.profiles = kept;
        Ok(())
    }
}


// ---------------------------------------------------------------------------
// Loading the profiles file
// ---------------------------------------------------------------------------

/// Whether a path is absolute on the platform the program runs on.
///
/// Trusted: calls `std::path::Path::is_absolute`. What counts as absolute
/// differs between platforms (a drive or share prefix and a root on
/// Windows, a leading root elsewhere), so nothing is stated of the result.
#[verifier::external_body]
fn path_is_absolute(path: &str) -> bool {
    std::path::Path::new(path).is_absolute()
}

pub open spec fn allowed_at(allowed: Seq<bool>, i: int) -> bool {
    i < allowed.len() && allowed[i]
}

/// A file ID kept as text must be 32 hexadecimal digits.
pub open spec fn file_id_text_valid(text: Seq<char>) -> bool {
    spec_hex_decode(encode_utf8(text)) matches Some(v) && v.len() == 16
}

pub open spec fn run_record_valid(run: ManualRunRecord) -> bool {
    &&& uuid_parse(run.transaction_id@) is Some
    &&& run.reversible_item_ids@.len() <= MAX_ACTIONS_PER_PROFILE
    &&& forall|k: int|
        0 <= k < run.reversible_item_ids@.len() ==> uuid_parse((#[trigger] run.reversible_item_ids@[k])@) is Some
}

/// What a profile read back from the file must satisfy, besides an absolute
/// executable path: a UUID, the limits of a new profile, the registry's
/// consent for its Actions, and either a complete binding to an executable
/// and no manual run, or no binding at all, no unattended application and
/// a well-formed run record.
pub open spec fn loaded_profile_valid(p: StoredProfile, actions_allowed: bool) -> bool {
    &&& uuid_parse(p.id@) is Some
    &&& valid_profile_name(p.name@)
    &&& p.actions@.len() <= MAX_ACTIONS_PER_PROFILE
    &&& valid_policy(p.conflict_policy@)
    &&& actions_allowed
    &&& match (p.executable_path, p.volume_serial_number, p.file_id_hex) {
        (Some(path), Some(_), Some(h)) => {
            &&& 1 <= path@.len() <= MAX_EXECUTABLE_PATH_CHARS
            &&& ends_with_exe(path@)
            &&& file_id_text_valid(h@)
            &&& p.active_run is None
        },
        (None, None, None) => {
            &&& !p.automation_enabled
            &&& p.actions@.len() > 0
            &&& (p.active_run matches Some(run) ==> run_record_valid(run))
        },
        _ => false,
    }
}

pub open spec fn loaded_profiles_valid(ps: Seq<StoredProfile>, allowed: Seq<bool>) -> bool {
    &&& ps.len() <= MAX_PROFILES
    &&& forall|i: int| 0 <= i < ps.len() ==> loaded_profile_valid(#[trigger] ps[i], allowed_at(allowed, i))
    &&& forall|i: int, j: int| 0 <= i < j < ps.len() ==> (#[trigger] ps[i]).id@ != (#[trigger] ps[j]).id@
}

pub open spec fn is_bootstrap_error(e: CoreError, code: Seq<char>, message: Seq<char>) -> bool {
    e.code@ == code && e.stage@ == "BOOTSTRAP"@ && !e.retryable && e.user_message@ == message
}

pub open spec fn corrupt_message() -> Seq<char> {
    "プロファイル定義ファイルを安全に検証できません。破損または未対応の内容です。"@
}

fn profiles_file_corrupt() -> (e: CoreError)
    ensures
        is_bootstrap_error(e, "PROFILES_FILE_CORRUPT"@, corrupt_message()),
{
    CoreError::new(
        "PROFILES_FILE_CORRUPT",
        "BOOTSTRAP",
        false,
        "プロファイル定義ファイルを安全に検証できません。破損または未対応の内容です。",
    )
}

fn name_is_valid(name: &String) -> (r: bool)
    ensures
        r == valid_profile_name(name@),
{
    let chars = chars_of(name.as_str());
    let trimmed = trim_chars(&chars);
    let again = string_of(&trimmed);
    text_eq(again.as_str(), name.as_str()) && 1 <= chars.len() && chars.len() <= MAX_PROFILE_NAME_CHARS
}

fn policy_is_valid(policy: &String) -> (r: bool)
    ensures
        r == valid_policy(policy@),
{
    text_eq(policy.as_str(), "abort_profile") || text_eq(policy.as_str(), "skip_conflicting")
}

fn run_is_valid(run: &ManualRunRecord) -> (r: bool)
    ensures
        r == run_record_valid(*run),
{
    if parse_uuid(run.transaction_id.as_str()).is_none() {
        return false;
    }
    if run.reversible_item_ids.len() > MAX_ACTIONS_PER_PROFILE {
        return false;
    }
    let mut k: usize = 0;
    while k < run.reversible_item_ids.len()
        invariant
            k <= run.reversible_item_ids@.len(),
            forall|q: int| 0 <= q < k ==> uuid_parse((#[trigger] run.reversible_item_ids@[q])@) is Some,
        decreases run.reversible_item_ids@.len() - k,
    {
        if parse_uuid(run.reversible_item_ids[k].as_str()).is_none() {
            return false;
        }
        k = k + 1;
    }
    true
}

/// Whether a profile read back is valid, `absolute` being whether its
/// executable path, if it has one, is absolute.
fn loaded_profile_ok(p: &StoredProfile, allowed: bool, absolute: bool) -> (r: bool)
    ensures
        r == (loaded_profile_valid(*p, allowed) && (p.executable_path is Some ==> absolute)),
{
    if parse_uuid(p.id.as_str()).is_none() || !name_is_valid(&p.name) {
        return false;
    }
    if p.actions.len() > MAX_ACTIONS_PER_PROFILE || !policy_is_valid(&p.conflict_policy) || !allowed {
        return false;
    }
    match (&p.executable_path, &p.volume_serial_number, &p.file_id_hex) {
        (Some(path), Some(_), Some(h)) => {
            let chars = chars_of(path.as_str());
            if chars.len() == 0 || chars.len() > MAX_EXECUTABLE_PATH_CHARS {
                return false;
            }
            if !absolute || !has_exe_suffix(&chars) {
                return false;
            }
            if decode_hex16(h.as_str()).is_none() || p.active_run.is_some() {
                return false;
            }
            true
        },
        (None, None, None) => {
            if p.automation_enabled || p.actions.len() == 0 {
                return false;
            }
            match &p.active_run {
                Some(run) => run_is_valid(run),
                None => true,
            }
        },
        _ => false,
    }
}

/// Every profile is manual, so no executable path needs checking.
pub open spec fn all_manual(ps: Seq<StoredProfile>) -> bool {
    forall|i: int| 0 <= i < ps.len() ==> (#[trigger] ps[i]).executable_path is None
}

/// Every bound profile's executable path was found absolute.
pub open spec fn paths_absolute_ok(ps: Seq<StoredProfile>, absolute: Seq<bool>) -> bool {
    forall|i: int| 0 <= i < ps.len() ==> ((#[trigger] ps[i]).executable_path is Some ==> allowed_at(absolute, i))
}

/// Checks profiles read back from the file: at most the store's limit,
/// distinct IDs, and each profile valid. `actions_allowed[i]` is the Action
/// registry's verdict on profile `i` (unattended use for a bound profile,
/// manual use otherwise) and `paths_absolute[i]` whether its executable path
/// is absolute; a missing answer refuses. Every refusal is the same
/// "corrupt file" error.
pub fn check_loaded_profiles(profiles: &[StoredProfile], actions_allowed: &[bool], paths_absolute: &[bool]) -> (r:
    CoreResult<()>)
    ensures
        r is Ok <==> loaded_profiles_valid(profiles@, actions_allowed@) && paths_absolute_ok(
            profiles@,
            paths_absolute@,
        ),
        r matches Err(e) ==> is_bootstrap_error(e, "PROFILES_FILE_CORRUPT"@, corrupt_message()),
{
    if profiles.len() > MAX_PROFILES {
        return Err(profiles_file_corrupt());
    }
    let mut i: usize = 0;
    while i < profiles.len()
        invariant
            i <= profiles@.len(),
            profiles@.len() <= MAX_PROFILES,
            forall|k: int| 0 <= k < i ==> loaded_profile_valid(#[trigger] profiles@[k], allowed_at(actions_allowed@, k)),
            forall|k: int|
                0 <= k < i ==> ((#[trigger] profiles@[k]).executable_path is Some ==> allowed_at(paths_absolute@, k)),
            forall|a: int, b: int| 0 <= a < b < i ==> (#[trigger] profiles@[a]).id@ != (#[trigger] profiles@[b]).id@,
        decreases profiles@.len() - i,
    {
        let mut j: usize = 0;
        while j < i
            invariant
                j <= i,
                i < profiles@.len(),
                forall|a: int| 0 <= a < j ==> (#[trigger] profiles@[a]).id@ != profiles@[i as int].id@,
            decreases i - j,
        {
            if text_eq(profiles[j].id.as_str(), profiles[i].id.as_str()) {
                return Err(profiles_file_corrupt());
            }
            j = j + 1;
        }
        let allowed = i < actions_allowed.len() && actions_allowed[i];
        let absolute = i < paths_absolute.len() && paths_absolute[i];
        if !loaded_profile_ok(&profiles[i], allowed, absolute) {
            return Err(profiles_file_corrupt());
        }
        i = i + 1;
    }
    Ok(())
}

/// Whether each profile's executable path, if any, is absolute, as the
/// platform's path rules say.
fn absolute_paths(profiles: &[StoredProfile]) -> (r: Vec<bool>)
    ensures
        r@.len() == profiles@.len(),
{
    let mut r: Vec<bool> = Vec::new();
    let mut i: usize = 0;
    while i < profiles.len()
        invariant
            i <= profiles@.len(),
            r@.len() == i,
        decreases profiles@.len() - i,
    {
        let absolute = match &profiles[i].executable_path {
            Some(path) => path_is_absolute(path.as_str()),
            None => false,
        };
        r.push(absolute);
        i = i + 1;
    }
    r
}

/// Checks profiles read back from the file as `check_loaded_profiles` does,
/// asking the platform whether each executable path is absolute. A list of
/// manual profiles passes exactly when it is valid.
pub fn validate_loaded_profiles(profiles: &[StoredProfile], actions_allowed: &[bool]) -> (r: CoreResult<()>)
    ensures
        r is Ok ==> loaded_profiles_valid(profiles@, actions_allowed@),
        r matches Err(e) ==> is_bootstrap_error(e, "PROFILES_FILE_CORRUPT"@, corrupt_message()),
        all_manual(profiles@) ==> (r is Ok <==> loaded_profiles_valid(profiles@, actions_allowed@)),
{
    let absolute = absolute_paths(profiles);
    check_loaded_profiles(profiles, actions_allowed, absolute.as_slice())
}

pub open spec fn too_large_message() -> Seq<char> {
    "プロファイル定義ファイルが安全な読込上限を超えています。"@
}

pub open spec fn unreadable_message() -> Seq<char> {
    "プロファイル定義ファイルを読めません。破損の可能性があります。"@
}

pub open spec fn version_message() -> Seq<char> {
    "プロファイル定義ファイルの版が対応外です。"@
}

/// What reading the profiles file gives: too large, unreadable, another
/// version or invalid contents each refuse with their error; otherwise the
/// store holds exactly the file's profiles.
pub open spec fn load_outcome(
    byte_len: u64,
    parsed: Option<(u32, Vec<StoredProfile>)>,
    actions_allowed: Seq<bool>,
    paths_absolute: Seq<bool>,
    r: CoreResult<ProfileStore>,
) -> bool {
    if byte_len > MAX_PROFILES_FILE_BYTES {
        r matches Err(e) && is_bootstrap_error(e, "PROFILES_FILE_TOO_LARGE"@, too_large_message())
    } else {
        match parsed {
            None => r matches Err(e) && is_bootstrap_error(e, "PROFILES_FILE_CORRUPT"@, unreadable_message()),
            Some(file) => if file.0 != PROFILES_FILE_VERSION {
                r matches Err(e) && is_bootstrap_error(e, "PROFILES_FILE_VERSION"@, version_message())
            } else if loaded_profiles_valid(file.1@, actions_allowed) && paths_absolute_ok(file.1@, paths_absolute) {
                r matches Ok(store) && store.wf() && store@ == file.1@
            } else {
                r matches Err(e) && is_bootstrap_error(e, "PROFILES_FILE_CORRUPT"@, corrupt_message())
            },
        }
    }
}

impl ProfileStore {
    /// The store read back from the profiles file, asking the platform
    /// whether each executable path is absolute; otherwise as `load_with`.
    /// A file of valid manual profiles always loads.
    pub fn load(byte_len: u64, parsed: Option<(u32, Vec<StoredProfile>)>, actions_allowed: &[bool]) -> (r:
        CoreResult<ProfileStore>)
        ensures
            exists|paths_absolute: Seq<bool>| load_outcome(byte_len, parsed, actions_allowed@, paths_absolute, r),
            byte_len <= MAX_PROFILES_FILE_BYTES ==> match parsed {
                Some(file) => file.0 == PROFILES_FILE_VERSION && all_manual(file.1@) && loaded_profiles_valid(
                    file.1@,
                    actions_allowed@,
                ) ==> (r matches Ok(store) && store@ == file.1@),
                None => true,
            },
    {
        let absolute = match &parsed {
            Some(file) => absolute_paths(file.1.as_slice()),
            None => Vec::new(),
        };
        let ghost answers = absolute@;
        let r = Self::load_with(byte_len, parsed, actions_allowed, absolute.as_slice());
        assert(load_outcome(byte_len, parsed, actions_allowed@, answers, r));
        r
    }

    /// The store read back from the profiles file. `byte_len` is how much was
    /// read (the reader stops one byte past the limit), `parsed` the file's
    /// version and profiles where it parsed, `actions_allowed` and
    /// `paths_absolute` the answers as for `check_loaded_profiles`.
    pub fn load_with(
        byte_len: u64,
        parsed: Option<(u32, Vec<StoredProfile>)>,
        actions_allowed: &[bool],
        paths_absolute: &[bool],
    ) -> (r: CoreResult<ProfileStore>)
        ensures
            load_outcome(byte_len, parsed, actions_allowed@, paths_absolute@, r),
    {
        if byte_len > MAX_PROFILES_FILE_BYTES {
            return Err(CoreError::new(
                "PROFILES_FILE_TOO_LARGE",
                "BOOTSTRAP",
                false,
                "プロファイル定義ファイルが安全な読込上限を超えています。",
            ));
        }
        let (version, profiles) = match parsed {
            None => {
                return Err(CoreError::new(
                    "PROFILES_FILE_CORRUPT",
                    "BOOTSTRAP",
                    false,
                    "プロファイル定義ファイルを読めません。破損の可能性があります。",
                ))
            },
            Some(file) => file,
        };
        if version != PROFILES_FILE_VERSION {
            return Err(CoreError::new(
                "PROFILES_FILE_VERSION",
                "BOOTSTRAP",
                false,
                "プロファイル定義ファイルの版が対応外です。",
            ));
        }
        match check_loaded_profiles(profiles.as_slice(), actions_allowed, paths_absolute) {
            Err(e) => Err(e),
            Ok(()) => {
                let store = ProfileStore { profiles };
                proof {
                    assert forall|i: int| 0 <= i < store@.len() implies profile_consistent(#[trigger] store@[i]) by {
                        assert(loaded_profile_valid(store@[i], allowed_at(actions_allowed@, i)));
                    }
                }
                Ok(store)
            },
        }
    }
}

pub open spec fn persist_too_large_message() -> Seq<char> {
    "プロファイル定義の合計サイズが保存上限を超えています。"@
}

/// The serialised profiles file must fit the same limit as a read.
pub fn check_persist_size(byte_len: usize) -> (r: CoreResult<()>)
    ensures
        r is Ok <==> byte_len <= MAX_PROFILES_FILE_BYTES,
        r matches Err(e) ==> is_invalid_request(e, persist_too_large_message()),
{
    if byte_len as u64 > MAX_PROFILES_FILE_BYTES {
        return Err(CoreError::invalid_request("プロファイル定義の合計サイズが保存上限を超えています。"));
    }
    Ok(())
}


// ---------------------------------------------------------------------------
// Registered games, for window operations
// ---------------------------------------------------------------------------

/// A bound profile's executable: its stored path and stored identity.
#[derive(Debug, Clone)]
pub struct GameBinding {
    pub path: String,
    pub identity: ProcessFileIdentity,
}

/// The bound profiles' paths, volume serial numbers and decoded file IDs, in
/// order; nothing when a bound profile lacks part of its binding or its file
/// ID is not 32 hexadecimal digits.
pub open spec fn spec_game_bindings(ps: Seq<StoredProfile>) -> Option<Seq<(Seq<char>, u64, Seq<u8>)>>
    decreases ps.len(),
{
    if ps.len() == 0 {
        Some(Seq::empty())
    } else {
        match spec_game_bindings(ps.drop_last()) {
            None => None,
            Some(before) => {
                let p = ps.last();
                match p.executable_path {
                    None => Some(before),
                    Some(path) => match (p.volume_serial_number, p.file_id_hex) {
                        (Some(v), Some(h)) => match spec_hex_decode(encode_utf8(h@)) {
                            Some(bytes) => if bytes.len() == 16 {
                                Some(before.push((path@, v, bytes)))
                            } else {
                                None
                            },
                            None => None,
                        },
                        _ => None,
                    },
                }
            },
        }
    }
}

pub open spec fn binding_is(b: GameBinding, t: (Seq<char>, u64, Seq<u8>)) -> bool {
    b.path@ == t.0 && b.identity.volume_serial_number == t.1 && b.identity.file_id@ == t.2
}

pub open spec fn bindings_are(v: Seq<GameBinding>, t: Seq<(Seq<char>, u64, Seq<u8>)>) -> bool {
    v.len() == t.len() && forall|k: int| 0 <= k < v.len() ==> binding_is(#[trigger] v[k], t[k])
}

pub open spec fn game_identity_message() -> Seq<char> {
    "登録ゲームの本人性を再確認できないため、ウィンドウ操作を停止しました。"@
}

fn game_identity_unavailable() -> (e: CoreError)
    ensures
        is_recovery_required(e, game_identity_message()),
{
    CoreError::recovery_required("登録ゲームの本人性を再確認できないため、ウィンドウ操作を停止しました。")
}

/// Byte-wise order of equally long byte strings.
pub open spec fn bytes_lt(a: Seq<u8>, b: Seq<u8>) -> bool
    decreases a.len(),
{
    if a.len() == 0 || b.len() == 0 {
        a.len() < b.len()
    } else if a[0] != b[0] {
        a[0] < b[0]
    } else {
        bytes_lt(a.drop_first(), b.drop_first())
    }
}

/// The order registered identities are listed in: by volume serial number,
/// then by file ID.
pub open spec fn identity_lt(a: ProcessFileIdentity, b: ProcessFileIdentity) -> bool {
    a.volume_serial_number < b.volume_serial_number || (a.volume_serial_number
        == b.volume_serial_number && bytes_lt(a.file_id@, b.file_id@))
}

/// `s` with `k` put into its place, unless it is already there.
pub open spec fn insert_identity(s: Seq<ProcessFileIdentity>, k: ProcessFileIdentity) -> Seq<ProcessFileIdentity>
    decreases s.len(),
{
    if s.len() == 0 {
        seq![k]
    } else if s.last() == k {
        s
    } else if identity_lt(s.last(), k) {
        s.push(k)
    } else {
        insert_identity(s.drop_last(), k).push(s.last())
    }
}

pub open spec fn insert_identities(base: Seq<ProcessFileIdentity>, extra: Seq<ProcessFileIdentity>) -> Seq<
    ProcessFileIdentity,
>
    decreases extra.len(),
{
    if extra.len() == 0 {
        base
    } else {
        insert_identity(insert_identities(base, extra.drop_last()), extra.last())
    }
}

/// Every readable registered identity, twice per game: the one stored at
/// registration, then the one read from the executable now.
pub open spec fn merge_input(bindings: Seq<GameBinding>, current: Seq<Option<ProcessFileIdentity>>) -> Seq<
    ProcessFileIdentity,
>
    decreases bindings.len(),
{
    if bindings.len() == 0 {
        Seq::empty()
    } else {
        let k = bindings.len() - 1;
        merge_input(bindings.drop_last(), current).push(bindings[k].identity).push(current[k]->0)
    }
}

pub open spec fn all_readable(bindings: Seq<GameBinding>, current: Seq<Option<ProcessFileIdentity>>) -> bool {
    forall|k: int| 0 <= k < bindings.len() ==> k < current.len() && (#[trigger] current[k]) is Some
}

proof fn lemma_bytes_lt_skip(a: Seq<u8>, b: Seq<u8>, i: int)
    requires
        a.len() == b.len(),
        0 <= i < a.len(),
        a[i] == b[i],
    ensures
        bytes_lt(a.skip(i), b.skip(i)) == bytes_lt(a.skip(i + 1), b.skip(i + 1)),
{
    assert(a.skip(i).drop_first() =~= a.skip(i + 1));
    assert(b.skip(i).drop_first() =~= b.skip(i + 1));
}

fn file_id_less(a: &[u8; 16], b: &[u8; 16]) -> (r: bool)
    ensures
        r == bytes_lt(a@, b@),
{
    let mut i: usize = 0;
    proof {
        assert(a@.skip(0) =~= a@);
        assert(b@.skip(0) =~= b@);
    }
    while i < 16
        invariant
            i <= 16,
            a@.len() == 16 && b@.len() == 16,
            bytes_lt(a@, b@) == bytes_lt(a@.skip(i as int), b@.skip(i as int)),
        decreases 16 - i,
    {
        if a[i] != b[i] {
            proof {
                assert(a@.skip(i as int)[0] == a@[i as int]);
                assert(b@.skip(i as int)[0] == b@[i as int]);
            }
            return a[i] < b[i];
        }
        proof {
            lemma_bytes_lt_skip(a@, b@, i as int);
        }
        i = i + 1;
    }
    false
}

fn identity_less(a: &ProcessFileIdentity, b: &ProcessFileIdentity) -> (r: bool)
    ensures
        r == identity_lt(*a, *b),
{
    a.volume_serial_number < b.volume_serial_number || (a.volume_serial_number
        == b.volume_serial_number && file_id_less(&a.file_id, &b.file_id))
}

fn insert_identity_exec(v: &mut Vec<ProcessFileIdentity>, k: ProcessFileIdentity)
    ensures
        final(v)@ == insert_identity(old(v)@, k),
{
    let ghost s = v@;
    let mut i: usize = v.len();
    assert(s.take(s.len() as int) =~= s);
    assert(s.skip(s.len() as int) =~= Seq::<ProcessFileIdentity>::empty());
    while i > 0 && !v[i - 1].same_file(&k) && !identity_less(&v[i - 1], &k)
        invariant
            i <= s.len(),
            v@ == s,
            insert_identity(s, k) == insert_identity(s.take(i as int), k) + s.skip(i as int),
        decreases i,
    {
        proof {
            let t = s.take(i as int);
            assert(t.drop_last() =~= s.take(i - 1));
            assert(t.last() == s[i - 1]);
            assert(insert_identity(t, k) == insert_identity(s.take(i - 1), k).push(s[i - 1]));
            assert(s.skip(i - 1) =~= seq![s[i - 1]] + s.skip(i as int));
            assert(insert_identity(s.take(i - 1), k).push(s[i - 1]) + s.skip(i as int)
                =~= insert_identity(s.take(i - 1), k) + s.skip(i - 1));
        }
        i -= 1;
    }
    if i > 0 && v[i - 1].same_file(&k) {
        proof {
            let t = s.take(i as int);
            assert(t.last() == k);
            assert(t + s.skip(i as int) =~= s);
        }
        return;
    }
    proof {
        let t = s.take(i as int);
        if i > 0 {
            assert(t.last() == s[i - 1]);
            assert(insert_identity(t, k) == t.push(k));
        } else {
            assert(insert_identity(t, k) == seq![k]);
        }
    }
    v.insert(i, k);
    proof {
        let t = s.take(i as int);
        assert(v@ =~= t.push(k) + s.skip(i as int));
    }
}

proof fn lemma_bindings_none_extends(ps: Seq<StoredProfile>, j: int)
    requires
        0 <= j <= ps.len(),
        spec_game_bindings(ps.take(j)) is None,
    ensures
        spec_game_bindings(ps) is None,
    decreases ps.len(),
{
    if j == ps.len() {
        assert(ps.take(j) =~= ps);
    } else {
        assert(ps.drop_last().take(j) =~= ps.take(j));
        lemma_bindings_none_extends(ps.drop_last(), j);
    }
}

impl ProfileStore {
    /// The stored bindings of the bound profiles, in order. A bound profile
    /// whose binding cannot be read back fails closed.
    pub fn game_bindings(&self) -> (r: CoreResult<Vec<GameBinding>>)
        ensures
            match spec_game_bindings(self@) {
                Some(t) => r matches Ok(v) && bindings_are(v@, t),
                None => r matches Err(e) && is_recovery_required(e, game_identity_message()),
            },
    {
        let mut out: Vec<GameBinding> = Vec::new();
        let mut i: usize = 0;
        while i < self.profiles.len()
            invariant
                i <= self@.len(),
                spec_game_bindings(self@.take(i as int)) matches Some(t) && bindings_are(out@, t),
            decreases self@.len() - i,
        {
            proof {
                assert(self@.take(i + 1).drop_last() =~= self@.take(i as int));
            }
            let p = &self.profiles[i];
            match &p.executable_path {
                None => {},
                Some(path) => {
                    match (&p.volume_serial_number, &p.file_id_hex) {
                        (Some(v), Some(h)) => match decode_hex16(h.as_str()) {
                            Some(file_id) => {
                                out.push(GameBinding {
                                    path: path.clone(),
                                    identity: ProcessFileIdentity { volume_serial_number: *v, file_id },
                                });
                            },
                            None => {
                                proof {
                                    assert(self@.take(i + 1).last() == self@[i as int]);
                                    lemma_bindings_none_extends(self@, i + 1);
                                }
                                return Err(game_identity_unavailable());
                            },
                        },
                        _ => {
                            proof {
                                assert(self@.take(i + 1).last() == self@[i as int]);
                                lemma_bindings_none_extends(self@, i + 1);
                            }
                            return Err(game_identity_unavailable());
                        },
                    }
                },
            }
            proof {
                let t = spec_game_bindings(self@.take(i + 1))->0;
                assert(bindings_are(out@, t));
            }
            i = i + 1;
        }
        proof {
            assert(self@.take(self@.len() as int) =~= self@);
        }
        Ok(out)
    }
}

/// The identities to keep out of window operations: each game's stored
/// identity and the one its executable has now (`current[k]`, read from
/// `bindings[k].path`), without repeats, ordered by `identity_lt`. A game
/// whose executable could not be read fails closed.
pub fn merge_game_identities(bindings: &[GameBinding], current: &[Option<ProcessFileIdentity>]) -> (r:
    CoreResult<Vec<ProcessFileIdentity>>)
    ensures
        !all_readable(bindings@, current@) ==> (r matches Err(e) && is_recovery_required(e, game_identity_message())),
        all_readable(bindings@, current@) ==> (r matches Ok(v) && v@ == insert_identities(
            Seq::empty(),
            merge_input(bindings@, current@),
        )),
{
    let mut k: usize = 0;
    while k < bindings.len()
        invariant
            k <= bindings@.len(),
            forall|q: int| 0 <= q < k ==> q < current@.len() && (#[trigger] current@[q]) is Some,
        decreases bindings@.len() - k,
    {
        if k >= current.len() || current[k].is_none() {
            proof {
                assert(!(k < current@.len() && current@[k as int] is Some));
            }
            return Err(game_identity_unavailable());
        }
        k = k + 1;
    }
    let mut out: Vec<ProcessFileIdentity> = Vec::new();
    let mut k: usize = 0;
    while k < bindings.len()
        invariant
            k <= bindings@.len(),
            all_readable(bindings@, current@),
            out@ == insert_identities(Seq::empty(), merge_input(bindings@.take(k as int), current@)),
        decreases bindings@.len() - k,
    {
        let ghost before = merge_input(bindings@.take(k as int), current@);
        proof {
            assert(bindings@.take(k + 1).drop_last() =~= bindings@.take(k as int));
            assert(k < current@.len() && current@[k as int] is Some);
        }
        let stored = bindings[k].identity;
        let ghost e1 = before.push(stored);
        proof {
            assert(e1.drop_last() =~= before);
            assert(insert_identities(Seq::empty(), e1) == insert_identity(
                insert_identities(Seq::empty(), before),
                stored,
            ));
        }
        insert_identity_exec(&mut out, stored);
        assert(out@ == insert_identities(Seq::<ProcessFileIdentity>::empty(), e1));
        let now = match current[k] {
            Some(id) => id,
            None => return Err(game_identity_unavailable()),
        };
        let ghost e2 = e1.push(now);
        proof {
            assert(e2.drop_last() =~= e1);
            assert(insert_identities(Seq::empty(), e2) == insert_identity(
                insert_identities(Seq::empty(), e1),
                now,
            ));
            let t = bindings@.take(k + 1);
            assert(t[k as int] == bindings@[k as int]);
            assert(merge_input(t, current@) == merge_input(t.drop_last(), current@).push(
                t[k as int].identity,
            ).push(current@[k as int]->0));
            assert(merge_input(t, current@) == e2);
        }
        insert_identity_exec(&mut out, now);
        assert(out@ == insert_identities(Seq::<ProcessFileIdentity>::empty(), e2));
        k = k + 1;
    }
    proof {
        assert(bindings@.take(bindings@.len() as int) =~= bindings@);
    }
    Ok(out)
}


// ---------------------------------------------------------------------------
// Laws of the store
// ---------------------------------------------------------------------------

/// A manual profile never runs unattended, and a bound profile never holds
/// a manual run: every operation of the store keeps this.
pub proof fn lemma_manual_and_bound_profiles_stay_apart(store: ProfileStore, i: int)
    requires
        store.wf(),
        0 <= i < store@.len(),
    ensures
        store@[i].executable_path is None ==> !store@[i].automation_enabled,
        store@[i].executable_path is Some ==> store@[i].active_run is None,
{
    assert(profile_consistent(store@[i]));
}

/// Deleting removes every profile with the ID and keeps every other one.
pub proof fn lemma_delete_removes_exactly_the_id(s: Seq<StoredProfile>, id: Seq<char>, p: StoredProfile)
    ensures
        without_id(s, id).contains(p) <==> s.contains(p) && p.id@ != id,
    decreases s.len(),
{
    if s.len() > 0 {
        let d = s.drop_first();
        lemma_delete_removes_exactly_the_id(d, id, p);
        let w = without_id(d, id);
        if s[0].id@ != id {
            let r = seq![s[0]] + w;
            if r.contains(p) {
                let k = choose|k: int| 0 <= k < r.len() && r[k] == p;
                if k > 0 {
                    assert(w[k - 1] == p);
                }
            }
            if w.contains(p) {
                let k = choose|k: int| 0 <= k < w.len() && w[k] == p;
                assert(r[k + 1] == p);
            }
            if p == s[0] {
                assert(r[0] == p);
            }
        }
        if s.contains(p) {
            let k = choose|k: int| 0 <= k < s.len() && s[k] == p;
            if k > 0 {
                assert(d[k - 1] == p);
            }
        }
        if d.contains(p) {
            let k = choose|k: int| 0 <= k < d.len() && d[k] == p;
            assert(s[k + 1] == p);
        }
    }
}

proof fn lemma_insert_identity_contains(s: Seq<ProcessFileIdentity>, k: ProcessFileIdentity, x: ProcessFileIdentity)
    ensures
        insert_identity(s, k).contains(x) <==> s.contains(x) || x == k,
    decreases s.len(),
{
    if s.len() == 0 {
        assert(seq![k][0] == k);
    } else if s.last() == k {
        if x == k {
            assert(s[s.len() - 1] == x);
        }
    } else if identity_lt(s.last(), k) {
        let t = s.push(k);
        if s.contains(x) {
            let j = choose|j: int| 0 <= j < s.len() && s[j] == x;
            assert(t[j] == x);
        }
        if x == k {
            assert(t[s.len() as int] == x);
        }
        if t.contains(x) {
            let j = choose|j: int| 0 <= j < t.len() && t[j] == x;
            if j < s.len() {
                assert(s[j] == x);
            }
        }
    } else {
        let d = s.drop_last();
        lemma_insert_identity_contains(d, k, x);
        let r = insert_identity(d, k);
        let t = r.push(s.last());
        if s.contains(x) {
            let j = choose|j: int| 0 <= j < s.len() && s[j] == x;
            if j == s.len() - 1 {
                assert(t[r.len() as int] == x);
            } else {
                assert(d[j] == x);
                let m = choose|m: int| 0 <= m < r.len() && r[m] == x;
                assert(t[m] == x);
            }
        }
        if x == k {
            let m = choose|m: int| 0 <= m < r.len() && r[m] == x;
            assert(t[m] == x);
        }
        if t.contains(x) {
            let j = choose|j: int| 0 <= j < t.len() && t[j] == x;
            if j == r.len() {
                assert(s[s.len() - 1] == x);
            } else {
                assert(r[j] == x);
                if d.contains(x) {
                    let m = choose|m: int| 0 <= m < d.len() && d[m] == x;
                    assert(s[m] == x);
                }
            }
        }
    }
}

proof fn lemma_insert_identities_contains(
    base: Seq<ProcessFileIdentity>,
    extra: Seq<ProcessFileIdentity>,
    x: ProcessFileIdentity,
)
    ensures
        insert_identities(base, extra).contains(x) <==> base.contains(x) || extra.contains(x),
    decreases extra.len(),
{
    if extra.len() > 0 {
        let d = extra.drop_last();
        lemma_insert_identities_contains(base, d, x);
        lemma_insert_identity_contains(insert_identities(base, d), extra.last(), x);
        if extra.contains(x) {
            let j = choose|j: int| 0 <= j < extra.len() && extra[j] == x;
            if j < extra.len() - 1 {
                assert(d[j] == x);
            }
        }
        if d.contains(x) {
            let j = choose|j: int| 0 <= j < d.len() && d[j] == x;
            assert(extra[j] == x);
        }
    }
}

/// `x` is a game's stored identity or the one its executable has now.
pub open spec fn is_game_identity(
    bindings: Seq<GameBinding>,
    current: Seq<Option<ProcessFileIdentity>>,
    x: ProcessFileIdentity,
) -> bool {
    exists|k: int| 0 <= k < bindings.len() && ((#[trigger] bindings[k]).identity == x || current[k] == Some(x))
}

proof fn lemma_merge_input_contains(
    bindings: Seq<GameBinding>,
    current: Seq<Option<ProcessFileIdentity>>,
    x: ProcessFileIdentity,
)
    requires
        all_readable(bindings, current),
    ensures
        merge_input(bindings, current).contains(x) <==> is_game_identity(bindings, current, x),
    decreases bindings.len(),
{
    if bindings.len() > 0 {
        let n = bindings.len() - 1;
        let d = bindings.drop_last();
        assert(all_readable(d, current)) by {
            assert forall|k: int| 0 <= k < d.len() implies k < current.len() && (#[trigger] current[k]) is Some by {
                assert(d[k] == bindings[k]);
                assert(k < current.len() && current[k] is Some);
            }
        }
        lemma_merge_input_contains(d, current, x);
        let m = merge_input(d, current);
        let full = m.push(bindings[n].identity).push(current[n]->0);
        assert(n < current.len() && current[n] is Some);
        if full.contains(x) {
            let j = choose|j: int| 0 <= j < full.len() && full[j] == x;
            if j < m.len() {
                assert(m[j] == x);
                assert(m.contains(x));
                assert(is_game_identity(d, current, x));
                assert forall|k: int|
                    0 <= k < d.len() && ((#[trigger] d[k]).identity == x || current[k] == Some(x)) implies (0 <= k
                        < bindings.len() && (bindings[k].identity == x || current[k] == Some(x))) by {
                    assert(d[k] == bindings[k]);
                }
                assert(is_game_identity(bindings, current, x));
            } else if j == m.len() {
                assert(bindings[n].identity == x);
                assert(is_game_identity(bindings, current, x));
            } else {
                assert(current[n] == Some(x));
                assert(is_game_identity(bindings, current, x));
            }
        }
        if is_game_identity(bindings, current, x) {
            let k = choose|k: int|
                0 <= k < bindings.len() && ((#[trigger] bindings[k]).identity == x || current[k] == Some(x));
            if k < n {
                assert(d[k] == bindings[k]);
                assert(is_game_identity(d, current, x));
                assert(m.contains(x));
                let j = choose|j: int| 0 <= j < m.len() && m[j] == x;
                assert(full[j] == x);
            } else if bindings[n].identity == x {
                assert(full[m.len() as int] == x);
            } else {
                assert(full[m.len() as int + 1] == x);
            }
        }
    }
}

/// The identities kept out of window operations are exactly the games'
/// stored identities and the ones their executables have now.
pub proof fn lemma_merged_identities_are_the_games(
    bindings: Seq<GameBinding>,
    current: Seq<Option<ProcessFileIdentity>>,
    x: ProcessFileIdentity,
)
    requires
        all_readable(bindings, current),
    ensures
        insert_identities(Seq::empty(), merge_input(bindings, current)).contains(x) <==> is_game_identity(bindings, current, x),
{
    let none = Seq::<ProcessFileIdentity>::empty();
    lemma_insert_identities_contains(none, merge_input(bindings, current), x);
    lemma_merge_input_contains(bindings, current, x);
    assert(!none.contains(x));
    assert(insert_identities(none, merge_input(bindings, current)).contains(x) == merge_input(bindings, current).contains(x));
}


proof fn lemma_bytes_lt_irreflexive(a: Seq<u8>)
    ensures
        !bytes_lt(a, a),
    decreases a.len(),
{
    if a.len() > 0 {
        lemma_bytes_lt_irreflexive(a.drop_first());
    }
}

proof fn lemma_bytes_lt_transitive(a: Seq<u8>, b: Seq<u8>, c: Seq<u8>)
    requires
        a.len() == b.len(),
        b.len() == c.len(),
        bytes_lt(a, b),
        bytes_lt(b, c),
    ensures
        bytes_lt(a, c),
    decreases a.len(),
{
    if a.len() > 0 && a[0] == b[0] && b[0] == c[0] {
        lemma_bytes_lt_transitive(a.drop_first(), b.drop_first(), c.drop_first());
    }
}

proof fn lemma_bytes_lt_total(a: Seq<u8>, b: Seq<u8>)
    requires
        a.len() == b.len(),
        a != b,
    ensures
        bytes_lt(a, b) || bytes_lt(b, a),
    decreases a.len(),
{
    if a.len() == 0 {
        assert(a =~= b);
    } else if a[0] == b[0] {
        if a.drop_first() == b.drop_first() {
            assert(a =~= b) by {
                assert forall|i: int| 0 <= i < a.len() implies a[i] == b[i] by {
                    if i > 0 {
                        assert(a[i] == a.drop_first()[i - 1]);
                        assert(b[i] == b.drop_first()[i - 1]);
                    }
                }
            }
        }
        lemma_bytes_lt_total(a.drop_first(), b.drop_first());
    }
}

/// Each identity comes strictly before the next.
pub open spec fn identities_sorted(s: Seq<ProcessFileIdentity>) -> bool {
    forall|i: int, j: int| 0 <= i < j < s.len() ==> identity_lt(#[trigger] s[i], #[trigger] s[j])
}

proof fn lemma_identity_lt_transitive(a: ProcessFileIdentity, b: ProcessFileIdentity, c: ProcessFileIdentity)
    requires
        identity_lt(a, b),
        identity_lt(b, c),
    ensures
        identity_lt(a, c),
{
    if a.volume_serial_number == b.volume_serial_number && b.volume_serial_number == c.volume_serial_number {
        lemma_bytes_lt_transitive(a.file_id@, b.file_id@, c.file_id@);
    }
}

proof fn lemma_identity_lt_total(a: ProcessFileIdentity, b: ProcessFileIdentity)
    requires
        a != b,
    ensures
        identity_lt(a, b) || identity_lt(b, a),
{
    if a.volume_serial_number == b.volume_serial_number {
        if a.file_id@ == b.file_id@ {
            assert(a.file_id =~= b.file_id);
        }
        lemma_bytes_lt_total(a.file_id@, b.file_id@);
    }
}

proof fn lemma_insert_identity_sorted(s: Seq<ProcessFileIdentity>, k: ProcessFileIdentity)
    requires
        identities_sorted(s),
    ensures
        identities_sorted(insert_identity(s, k)),
    decreases s.len(),
{
    if s.len() == 0 {
    } else if s.last() == k {
    } else if identity_lt(s.last(), k) {
        let t = s.push(k);
        assert forall|i: int, j: int| 0 <= i < j < t.len() implies identity_lt(#[trigger] t[i], #[trigger] t[j]) by {
            if j == s.len() {
                if i < s.len() - 1 {
                    lemma_identity_lt_transitive(s[i], s.last(), k);
                }
            } else {
                assert(t[i] == s[i] && t[j] == s[j]);
            }
        }
    } else {
        let d = s.drop_last();
        let last = s.last();
        lemma_identity_lt_total(last, k);
        assert(identities_sorted(d)) by {
            assert forall|i: int, j: int| 0 <= i < j < d.len() implies identity_lt(#[trigger] d[i], #[trigger] d[j]) by {
                assert(d[i] == s[i] && d[j] == s[j]);
            }
        }
        lemma_insert_identity_sorted(d, k);
        let r = insert_identity(d, k);
        let t = r.push(last);
        assert forall|i: int, j: int| 0 <= i < j < t.len() implies identity_lt(#[trigger] t[i], #[trigger] t[j]) by {
            if j == r.len() {
                let x = r[i];
                assert(r.contains(x));
                lemma_insert_identity_contains(d, k, x);
                if x != k {
                    let m = choose|m: int| 0 <= m < d.len() && d[m] == x;
                    assert(s[m] == x);
                    assert(identity_lt(s[m], s[s.len() - 1]));
                }
            } else {
                assert(t[i] == r[i] && t[j] == r[j]);
            }
        }
    }
}

proof fn lemma_insert_identities_sorted(base: Seq<ProcessFileIdentity>, extra: Seq<ProcessFileIdentity>)
    requires
        identities_sorted(base),
    ensures
        identities_sorted(insert_identities(base, extra)),
    decreases extra.len(),
{
    if extra.len() > 0 {
        lemma_insert_identities_sorted(base, extra.drop_last());
        lemma_insert_identity_sorted(insert_identities(base, extra.drop_last()), extra.last());
    }
}

/// The identities kept out of window operations are listed in strictly
/// increasing order, so none is listed twice.
pub proof fn lemma_merged_identities_are_sorted(
    bindings: Seq<GameBinding>,
    current: Seq<Option<ProcessFileIdentity>>,
)
    ensures
        identities_sorted(insert_identities(Seq::empty(), merge_input(bindings, current))),
{
    lemma_insert_identities_sorted(Seq::empty(), merge_input(bindings, current));
}

/// No identity comes before itself, so a sorted list has no repeats.
pub proof fn lemma_identity_order_is_strict(a: ProcessFileIdentity)
    ensures
        !identity_lt(a, a),
{
    lemma_bytes_lt_irreflexive(a.file_id@);
}

} // verus!
