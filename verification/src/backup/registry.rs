//! Registry values: their exact prior state, and the decisions of restoring it.
//!
//! Reading and writing the registry happens outside this library; here a read
//! state is turned into a backup, classified against the backup, and turned
//! into the single write (or no write) that restores it. A value that is
//! neither the original nor the applied one is never overwritten.

use vstd::prelude::*;
use vstd::bytes::{spec_u32_to_le_bytes, u32_to_le_bytes};
use super::fingerprint::{Fingerprint, sha256, spec_frame, parts_view};

verus! {

pub const MAX_REGISTRY_VALUE_BYTES: usize = 1048576;

#[derive(Debug, Clone, Copy, PartialEq, Eq, Structural)]
pub enum RegistryHive {
    CurrentUser,
    LocalMachine,
}

#[derive(Debug, Clone, Copy, PartialEq, Eq, Structural)]
pub enum RegistryView {
    Registry32,
    Registry64,
}

/// A value an Action is allowed to change.
#[derive(Debug, Clone, Copy)]
pub struct RegistryTarget {
    pub hive: RegistryHive,
    pub subkey: &'static str,
    pub value_name: &'static str,
    pub view: RegistryView,
}

#[derive(Debug, Clone)]
pub struct RegistryLocation {
    pub hive: RegistryHive,
    pub canonical_subkey: String,
    pub value_name: String,
    pub view: RegistryView,
}

impl RegistryTarget {
    /// A value under the current user's hive, in the 64-bit view.
    pub fn current_user_64(subkey: &'static str, value_name: &'static str) -> (t: RegistryTarget)
        ensures
            t.hive == RegistryHive::CurrentUser,
            t.subkey == subkey,
            t.value_name == value_name,
            t.view == RegistryView::Registry64,
    {
        RegistryTarget { hive: RegistryHive::CurrentUser, subkey, value_name, view: RegistryView::Registry64 }
    }

    /// The stored form of the target.
    pub fn location(self) -> (l: RegistryLocation)
        ensures
            l.hive == self.hive,
            l.canonical_subkey@ == self.subkey@,
            l.value_name@ == self.value_name@,
            l.view == self.view,
    {
        RegistryLocation {
            hive: self.hive,
            canonical_subkey: self.subkey.to_owned(),
            value_name: self.value_name.to_owned(),
            view: self.view,
        }
    }
}

/// Whether the key and the value existed, the value's type and raw bytes.
#[derive(Debug, Clone)]
pub struct RegistryValueState {
    pub key_existed: bool,
    pub value_existed: bool,
    pub value_type: Option<u32>,
    pub raw_bytes: Vec<u8>,
}

/// Two states agree in every field, byte for byte.
pub open spec fn same_state(a: RegistryValueState, b: RegistryValueState) -> bool {
    &&& a.key_existed == b.key_existed
    &&& a.value_existed == b.value_existed
    &&& a.value_type == b.value_type
    &&& a.raw_bytes@ == b.raw_bytes@
}

pub open spec fn hive_byte(h: RegistryHive) -> u8 {
    match h {
        RegistryHive::CurrentUser => 1,
        RegistryHive::LocalMachine => 2,
    }
}

pub open spec fn view_byte(v: RegistryView) -> u8 {
    match v {
        RegistryView::Registry32 => 32,
        RegistryView::Registry64 => 64,
    }
}

pub open spec fn flag_byte(b: bool) -> u8 {
    if b {
        1
    } else {
        0
    }
}

/// The framed parts hashed for a state at a location.
pub open spec fn spec_state_parts(s: RegistryValueState, l: RegistryLocation) -> Seq<Seq<u8>> {
    seq![
        seq![hive_byte(l.hive)],
        seq![view_byte(l.view)],
        vstd::utf8::encode_utf8(l.canonical_subkey@),
        vstd::utf8::encode_utf8(l.value_name@),
        seq![flag_byte(s.key_existed)],
        seq![flag_byte(s.value_existed)],
        spec_u32_to_le_bytes(match s.value_type { Some(t) => t, None => 0 }),
        s.raw_bytes@,
    ]
}

pub fn flag(b: bool) -> (r: u8)
    ensures
        r == flag_byte(b),
{
    if b {
        1
    } else {
        0
    }
}

impl RegistryValueState {
    /// The fingerprint of this state at the location, covering location,
    /// existence, type and bytes.
    pub fn fingerprint(&self, location: &RegistryLocation) -> (f: Fingerprint)
        ensures
            f.0@ == sha256(spec_frame(spec_state_parts(*self, *location))),
    {
        let hive: [u8; 1] = [match location.hive {
            RegistryHive::CurrentUser => 1,
            RegistryHive::LocalMachine => 2,
        }];
        let view: [u8; 1] = [match location.view {
            RegistryView::Registry32 => 32,
            RegistryView::Registry64 => 64,
        }];
        let key_existed: [u8; 1] = [flag(self.key_existed)];
        let value_existed: [u8; 1] = [flag(self.value_existed)];
        let value_type = u32_to_le_bytes(
            match self.value_type {
                Some(t) => t,
                None => 0,
            },
        );
        let subkey = location.canonical_subkey.as_str().as_bytes();
        let name = location.value_name.as_str().as_bytes();
        let mut parts: Vec<&[u8]> = Vec::new();
        parts.push(hive.as_slice());
        parts.push(view.as_slice());
        parts.push(subkey);
        parts.push(name);
        parts.push(key_existed.as_slice());
        parts.push(value_existed.as_slice());
        parts.push(value_type.as_slice());
        parts.push(self.raw_bytes.as_slice());
        let f = Fingerprint::of_parts(parts.as_slice());
        assert(hive@ =~= seq![hive_byte(location.hive)]);
        assert(view@ =~= seq![view_byte(location.view)]);
        assert(key_existed@ =~= seq![flag_byte(self.key_existed)]);
        assert(value_existed@ =~= seq![flag_byte(self.value_existed)]);
        assert(parts_view(parts@) =~= spec_state_parts(*self, *location));
        f
    }
}

/// Everything needed to restore one value exactly.
#[derive(Debug, Clone)]
pub struct RegistryBackup {
    pub location: RegistryLocation,
    pub original: RegistryValueState,
    pub intended_type: u32,
    pub intended_raw: Vec<u8>,
    pub applied_type: u32,
    pub applied_raw: Vec<u8>,
    pub action_version: u32,
    pub windows_build: u32,
}

/// The state a written value has.
pub open spec fn written_state(value_type: u32, raw: Seq<u8>, s: RegistryValueState) -> bool {
    s.key_existed && s.value_existed && s.value_type == Some(value_type) && s.raw_bytes@ == raw
}

impl RegistryBackup {
    /// The state the Action meant to write.
    pub fn intended_state(&self) -> (s: RegistryValueState)
        ensures
            written_state(self.intended_type, self.intended_raw@, s),
    {
        RegistryValueState {
            key_existed: true,
            value_existed: true,
            value_type: Some(self.intended_type),
            raw_bytes: self.intended_raw.clone(),
        }
    }

    /// The state the Action actually wrote.
    pub fn applied_state(&self) -> (s: RegistryValueState)
        ensures
            written_state(self.applied_type, self.applied_raw@, s),
    {
        RegistryValueState {
            key_existed: true,
            value_existed: true,
            value_type: Some(self.applied_type),
            raw_bytes: self.applied_raw.clone(),
        }
    }
}

#[derive(Debug, Clone, Copy, PartialEq, Eq, Structural)]
pub enum RegistryClassification {
    Original,
    Applied,
    Third,
    /// A legacy rollback removed the value, but the key did not originally
    /// exist. The key is kept: comparing and deleting it is not atomic.
    CreatedKeyWithoutValue,
}

#[derive(Debug, Clone, Copy, PartialEq, Eq, Structural)]
pub enum RegistryRestoreOutcome {
    Restored,
    AlreadyOriginal,
    /// The value was removed but an empty key was kept (only for backups
    /// written by an older version).
    RestoredValueKeyRetained,
    ExternalConflict,
}

#[derive(Debug, Clone, Copy, PartialEq, Eq, Structural)]
pub enum RegistryErrorKind {
    ResourceLimit,
    InvalidData,
}

/// Why a backup could not be prepared or restored.
#[derive(Debug, Clone, Copy)]
pub struct RegistryBackupError {
    pub kind: RegistryErrorKind,
    pub operation: &'static str,
}

fn bytes_equal(a: &Vec<u8>, b: &Vec<u8>) -> (r: bool)
    ensures
        r == (a@ == b@),
{
    if a.len() != b.len() {
        return false;
    }
    let mut i: usize = 0;
    while i < a.len()
        invariant
            a@.len() == b@.len(),
            i <= a@.len(),
            forall|k: int| 0 <= k < i ==> a@[k] == b@[k],
        decreases a@.len() - i,
    {
        if a[i] != b[i] {
            return false;
        }
        i = i + 1;
    }
    assert(a@ =~= b@);
    true
}

/// Whether two states agree in every field.
pub fn states_equal(a: &RegistryValueState, b: &RegistryValueState) -> (r: bool)
    ensures
        r == same_state(*a, *b),
{
    let same_type = match (a.value_type, b.value_type) {
        (Some(x), Some(y)) => x == y,
        (None, None) => true,
        _ => false,
    };
    a.key_existed == b.key_existed && a.value_existed == b.value_existed && same_type && bytes_equal(
        &a.raw_bytes,
        &b.raw_bytes,
    )
}

/// The state read from the registry: a missing value has no type and no bytes.
pub fn registry_state_from_observation(key_existed: bool, value: Option<(u32, Vec<u8>)>) -> (s:
    RegistryValueState)
    ensures
        s.key_existed == key_existed,
        state_wf(s),
        match value {
            Some((t, bytes)) => s.value_existed && s.value_type == Some(t) && s.raw_bytes@ == bytes@,
            None => !s.value_existed && s.value_type is None && s.raw_bytes@.len() == 0,
        },
{
    match value {
        Some((value_type, bytes)) => RegistryValueState {
            key_existed,
            value_existed: true,
            value_type: Some(value_type),
            raw_bytes: bytes,
        },
        None => RegistryValueState { key_existed, value_existed: false, value_type: None, raw_bytes: Vec::new() },
    }
}

/// The backup of a value about to be changed, from its current state.
/// Values over 1 MiB are refused, and so is a key that does not exist yet:
/// only pre-existing keys are changed reversibly.
pub fn prepare_registry_backup(
    target: RegistryTarget,
    intended_type: u32,
    intended_raw: Vec<u8>,
    action_version: u32,
    windows_build: u32,
    original: RegistryValueState,
) -> (r: Result<RegistryBackup, RegistryBackupError>)
    ensures
        intended_raw@.len() > 1048576 ==> (r matches Err(e) && e.kind == RegistryErrorKind::ResourceLimit),
        intended_raw@.len() <= 1048576 && !original.key_existed ==> (r matches Err(e) && e.kind
            == RegistryErrorKind::InvalidData),
        intended_raw@.len() <= 1048576 && original.key_existed ==> (r matches Ok(b) && {
            &&& b.location.hive == target.hive && b.location.view == target.view
            &&& b.location.canonical_subkey@ == target.subkey@
            &&& b.location.value_name@ == target.value_name@
            &&& b.original == original
            &&& b.intended_type == intended_type && b.applied_type == intended_type
            &&& b.intended_raw@ == intended_raw@ && b.applied_raw@ == intended_raw@
            &&& b.action_version == action_version && b.windows_build == windows_build
        }),
{
    if intended_raw.len() > MAX_REGISTRY_VALUE_BYTES {
        return Err(RegistryBackupError { kind: RegistryErrorKind::ResourceLimit, operation: "prepare registry backup" });
    }
    let location = target.location();
    if !original.key_existed {
        return Err(RegistryBackupError {
            kind: RegistryErrorKind::InvalidData,
            operation: "require pre-existing registry key for reversible mutation",
        });
    }
    Ok(RegistryBackup {
        location,
        original,
        intended_type,
        applied_type: intended_type,
        applied_raw: intended_raw.clone(),
        intended_raw,
        action_version,
        windows_build,
    })
}

pub open spec fn spec_classify(b: RegistryBackup, current: RegistryValueState) -> RegistryClassification {
    if same_state(current, b.original) {
        RegistryClassification::Original
    } else if written_state(b.applied_type, b.applied_raw@, current) {
        RegistryClassification::Applied
    } else if !b.original.key_existed && current.key_existed && !current.value_existed {
        RegistryClassification::CreatedKeyWithoutValue
    } else {
        RegistryClassification::Third
    }
}

/// Where the current state stands relative to the backup.
pub fn classify_registry_backup(backup: &RegistryBackup, current: &RegistryValueState) -> (c:
    RegistryClassification)
    ensures
        c == spec_classify(*backup, *current),
{
    if states_equal(current, &backup.original) {
        RegistryClassification::Original
    } else if states_equal(current, &backup.applied_state()) {
        RegistryClassification::Applied
    } else if !backup.original.key_existed && current.key_existed && !current.value_existed {
        RegistryClassification::CreatedKeyWithoutValue
    } else {
        RegistryClassification::Third
    }
}

/// What restoring a backup has to do.
#[derive(Debug, Clone, Copy, PartialEq, Eq, Structural)]
pub enum RegistryRestoreStep {
    /// Nothing is written.
    Finished(RegistryRestoreOutcome),
    /// Write the original type and raw bytes back, then report the outcome.
    WriteOriginal { value_type: u32, outcome: RegistryRestoreOutcome },
    /// Delete the value (it did not exist before), then report the outcome.
    DeleteValue { outcome: RegistryRestoreOutcome },
}

pub open spec fn after_write_outcome(b: RegistryBackup) -> RegistryRestoreOutcome {
    if !b.original.key_existed {
        RegistryRestoreOutcome::RestoredValueKeyRetained
    } else {
        RegistryRestoreOutcome::Restored
    }
}

/// How a value that still holds what was applied is restored: the original
/// type and bytes written back, or the value deleted when there was none;
/// `None` when the backup says a value existed but has no type for it.
pub open spec fn spec_restore_step(b: RegistryBackup) -> Option<RegistryRestoreStep> {
    if b.original.value_existed {
        match b.original.value_type {
            Some(value_type) => Some(
                RegistryRestoreStep::WriteOriginal { value_type, outcome: after_write_outcome(b) },
            ),
            None => None,
        }
    } else {
        Some(RegistryRestoreStep::DeleteValue { outcome: after_write_outcome(b) })
    }
}

/// `after` is what carrying out `step` for `b` leaves in the registry.
pub open spec fn restored_by(b: RegistryBackup, step: RegistryRestoreStep, after: RegistryValueState) -> bool {
    match step {
        RegistryRestoreStep::WriteOriginal { value_type, .. } => written_state(
            value_type,
            b.original.raw_bytes@,
            after,
        ),
        RegistryRestoreStep::DeleteValue { .. } => after.key_existed && !after.value_existed
            && after.value_type is None && after.raw_bytes@.len() == 0,
        RegistryRestoreStep::Finished(_) => false,
    }
}

/// A state as the registry reports it: a missing value has no type and no
/// bytes.
pub open spec fn state_wf(s: RegistryValueState) -> bool {
    !s.value_existed ==> s.value_type is None && s.raw_bytes@.len() == 0
}

/// Decides how to restore a backup from the current state. Only a value
/// that still holds exactly what was applied is written to.
pub fn restore_registry_backup(backup: &RegistryBackup, current: &RegistryValueState) -> (r: Result<
    RegistryRestoreStep,
    RegistryBackupError,
>)
    ensures
        spec_classify(*backup, *current) == RegistryClassification::Original ==> r == Ok::<
            RegistryRestoreStep,
            RegistryBackupError,
        >(RegistryRestoreStep::Finished(RegistryRestoreOutcome::AlreadyOriginal)),
        spec_classify(*backup, *current) == RegistryClassification::Third ==> r == Ok::<
            RegistryRestoreStep,
            RegistryBackupError,
        >(RegistryRestoreStep::Finished(RegistryRestoreOutcome::ExternalConflict)),
        spec_classify(*backup, *current) == RegistryClassification::CreatedKeyWithoutValue ==> r == Ok::<
            RegistryRestoreStep,
            RegistryBackupError,
        >(RegistryRestoreStep::Finished(RegistryRestoreOutcome::RestoredValueKeyRetained)),
        spec_classify(*backup, *current) == RegistryClassification::Applied ==> match spec_restore_step(
            *backup,
        ) {
            Some(step) => r == Ok::<RegistryRestoreStep, RegistryBackupError>(step),
            None => r matches Err(e) && e.kind == RegistryErrorKind::InvalidData,
        },
{
    let outcome_after = if !backup.original.key_existed {
        RegistryRestoreOutcome::RestoredValueKeyRetained
    } else {
        RegistryRestoreOutcome::Restored
    };
    match classify_registry_backup(backup, current) {
        RegistryClassification::Original => Ok(RegistryRestoreStep::Finished(RegistryRestoreOutcome::AlreadyOriginal)),
        RegistryClassification::Third => Ok(RegistryRestoreStep::Finished(RegistryRestoreOutcome::ExternalConflict)),
        RegistryClassification::CreatedKeyWithoutValue => Ok(
            RegistryRestoreStep::Finished(RegistryRestoreOutcome::RestoredValueKeyRetained),
        ),
        RegistryClassification::Applied => {
            if backup.original.value_existed {
                match backup.original.value_type {
                    Some(value_type) => Ok(RegistryRestoreStep::WriteOriginal { value_type, outcome: outcome_after }),
                    None => Err(RegistryBackupError {
                        kind: RegistryErrorKind::InvalidData,
                        operation: "restore registry value type",
                    }),
                }
            } else {
                Ok(RegistryRestoreStep::DeleteValue { outcome: outcome_after })
            }
        },
    }
}

/// The value is back to exactly its original state.
pub fn verify_registry_backup_restored(backup: &RegistryBackup, current: &RegistryValueState) -> (r: bool)
    ensures
        r == same_state(*current, backup.original),
{
    states_equal(current, &backup.original)
}

/// Restoring never writes over a value that is neither the original nor the
/// applied one, nor over a value already back to the original.
pub proof fn lemma_restore_writes_only_over_applied(b: RegistryBackup, current: RegistryValueState)
    requires
        spec_classify(b, current) != RegistryClassification::Applied,
    ensures
        !written_state(b.applied_type, b.applied_raw@, current) || same_state(current, b.original),
{
}

/// Restoring a backup of a pre-existing key round-trips: once the step chosen
/// for a value that still holds what was applied is carried out, the value
/// reads back as exactly the original, and verifies as restored. Every state
/// read from the registry (`registry_state_from_observation`) is well formed,
/// and `prepare_registry_backup` keeps the state it is given and refuses a
/// missing key, so every backup it makes from a read meets the requirements.
pub proof fn lemma_restore_round_trip(
    b: RegistryBackup,
    current: RegistryValueState,
    step: RegistryRestoreStep,
    after: RegistryValueState,
)
    requires
        b.original.key_existed,
        state_wf(b.original),
        spec_classify(b, current) == RegistryClassification::Applied,
        spec_restore_step(b) == Some(step),
        restored_by(b, step, after),
    ensures
        same_state(after, b.original),
        spec_classify(b, after) == RegistryClassification::Original,
{
    if b.original.value_existed {
        assert(b.original.value_type is Some);
        assert(step == RegistryRestoreStep::WriteOriginal {
            value_type: b.original.value_type->0,
            outcome: after_write_outcome(b),
        });
    } else {
        assert(step == RegistryRestoreStep::DeleteValue { outcome: after_write_outcome(b) });
        assert(after.raw_bytes@ =~= b.original.raw_bytes@);
    }
}

/// A state read back equal to the original always classifies as original,
/// even when the original and applied states coincide.
pub proof fn lemma_original_wins(b: RegistryBackup, current: RegistryValueState)
    requires
        same_state(current, b.original),
    ensures
        spec_classify(b, current) == RegistryClassification::Original,
{
}

} // verus!
