//! Game profiles: when a registered game starts, apply its profile's Actions;
//! when the last instance exits, restore exactly the resources this profile
//! was the last owner of.
//!
//! Resource leases are shared between profiles that want the same state,
//! conflicting requests stop a profile, an instance key keeps one game from
//! applying twice, and restores run in reverse. Applying and restoring go
//! through a sink that the caller provides; nothing here touches the OS.

pub mod lease;
pub mod supervisor;
pub mod watcher;
pub mod manual;
pub mod observer;
pub mod store;
pub mod engine_sink;
pub mod runtime;

use vstd::prelude::*;
use crate::action::{ActionId, ProcessFileIdentity};

verus! {

#[verifier::external_type_specification]
#[verifier::external_body]
pub struct ExJsonValue(serde_json::Value);

/// `serde_json::Value`'s derived `Clone` copies the whole tree, so the copy
/// equals the original.
pub assume_specification[ <serde_json::Value as Clone>::clone ](value: &serde_json::Value) -> (r:
    serde_json::Value)
    ensures
        r == *value,
;

/// A registered profile.
#[derive(Debug, Clone, Copy, PartialEq, Eq, Structural, Hash, PartialOrd, Ord)]
pub struct GameProfileId(pub u128);

/// One run of a profile, from its first instance's start to its last exit.
#[derive(Debug, Clone, Copy, PartialEq, Eq, Hash, PartialOrd, Ord)]
pub struct ProfileSessionId(pub [u8; 16]);

/// A process's identity: its ID paired with its creation time, so that a
/// reused process ID is a different instance.
#[derive(Debug, Clone, Copy, PartialEq, Eq, Structural, Hash, PartialOrd, Ord)]
pub struct InstanceKey {
    pub process_id: u32,
    pub creation_time_100ns: u64,
}

/// What counts as "the game is running".
#[derive(Debug, Clone, Copy, PartialEq, Eq, Structural)]
pub enum TrackingMode {
    /// Each instance of the registered executable.
    ExactExecutable,
    /// An explicitly registered group of launcher and game executables.
    ExplicitProcessGroup,
}

/// What to do when a required Action conflicts with a lease held by another
/// profile.
#[derive(Debug, Clone, Copy, PartialEq, Eq, Structural)]
pub enum ConflictPolicy {
    /// Any conflicting required Action stops the whole profile (the default).
    AbortProfile,
    /// Skip only the conflicting Actions and apply the rest.
    SkipConflicting,
}

/// The state a profile wants one resource in. `desired` is an opaque token
/// compared for equality only.
#[derive(Debug, Clone, PartialEq, Eq)]
pub struct ResourceIntent {
    pub resource_key: String,
    pub desired: String,
}

/// One Action of a profile. The parameters are for the sink only; the
/// decisions here never read them.
#[derive(Debug, Clone, PartialEq)]
pub struct PlannedAction {
    pub action_id: ActionId,
    pub parameters_json: serde_json::Value,
    pub intents: Vec<ResourceIntent>,
    /// The user marked this Action as skippable on conflict.
    pub optional: bool,
}

/// A planned Action as the sink receives it: its ID, parameters, intents
/// and whether it is optional.
pub type PlannedView = (ActionId, serde_json::Value, Seq<ResourceIntent>, bool);

pub open spec fn planned_view(a: PlannedAction) -> PlannedView {
    (a.action_id, a.parameters_json, a.intents@, a.optional)
}

/// The Actions of a request as the sink receives them.
pub open spec fn planned_views(actions: Seq<PlannedAction>) -> Seq<PlannedView> {
    actions.map_values(|a: PlannedAction| planned_view(a))
}

#[derive(Debug, Clone, PartialEq)]
pub struct ProfileBinding {
    pub canonical_path: String,
    pub file_identity: ProcessFileIdentity,
    pub tracking: TrackingMode,
}

#[derive(Debug, Clone, PartialEq)]
pub struct GameProfile {
    pub id: GameProfileId,
    pub name: String,
    pub binding: ProfileBinding,
    pub actions: Vec<PlannedAction>,
    pub conflict_policy: ConflictPolicy,
    /// True only after the executable was re-checked and compatibility passed.
    pub automation_enabled: bool,
}

/// What the sink hands back for each applied Action, so that it can restore
/// it later (a journal item, in the engine's sink).
#[derive(Debug, Clone, PartialEq, Eq)]
pub struct AppliedAction {
    pub action_id: ActionId,
    pub reference: String,
}

#[derive(Debug, Clone, PartialEq, Eq)]
pub enum ProfileError {
    Sink(String),
    Invariant(String),
}

/// One apply request as a sink was handed it, with the session, and what the
/// sink answered.
pub type ApplyRecord = (ProfileSessionId, Seq<PlannedView>, Result<Vec<AppliedAction>, ProfileError>);

/// One applied Action as a sink was handed it to restore, and what the sink
/// answered.
pub type RollbackRecord = (AppliedAction, Result<(), ProfileError>);

/// Where Actions are really applied and restored. The engine provides one;
/// tests provide a recording fake.
///
/// An implementation keeps, as its specification, the log of what it was
/// handed and what it answered: each apply request with its session, and
/// each restore. What it answers is its own affair; the supervisor states
/// what it does for every answer.
pub trait ProfileActionSink {
    /// Every apply request handed to this sink, in order, with its session
    /// and the sink's answer.
    spec fn apply_log(&self) -> Seq<ApplyRecord>;

    /// Every applied Action handed to this sink to restore, in order, with
    /// the sink's answer.
    spec fn rollback_log(&self) -> Seq<RollbackRecord>;

    /// Applies `actions` as one transaction and returns one restore reference
    /// per Action, in order.
    fn apply(&mut self, session: ProfileSessionId, actions: &[PlannedAction]) -> (r: Result<
        Vec<AppliedAction>,
        ProfileError,
    >)
        ensures
            final(self).apply_log() == old(self).apply_log().push((session, planned_views(actions@), r)),
            final(self).rollback_log() == old(self).rollback_log(),
    ;

    /// Restores one applied Action.
    fn rollback(&mut self, applied: &AppliedAction) -> (r: Result<(), ProfileError>)
        ensures
            final(self).rollback_log() == old(self).rollback_log().push((*applied, r)),
            final(self).apply_log() == old(self).apply_log(),
    ;
}

/// An event from the observer, already matched to a profile.
#[derive(Debug, Clone, Copy, PartialEq, Eq)]
pub enum ObservedEvent {
    Launched { profile: GameProfileId, instance: InstanceKey },
    Exited { profile: GameProfileId, instance: InstanceKey },
}

#[derive(Debug, Clone, PartialEq)]
pub enum LaunchOutcome {
    /// Newly applied Actions, and the resource keys whose existing lease this
    /// profile joined.
    Applied { session: ProfileSessionId, applied: Vec<AppliedAction>, joined: Vec<String> },
    /// A conflict stopped the profile; nothing was applied or restored.
    ConflictStopped { conflicts: Vec<String> },
    /// Another instance is already running, or the event is a duplicate.
    AlreadyActive,
    /// Automation is off or the profile is not registered.
    Ignored,
}

#[derive(Debug, Clone, PartialEq)]
pub enum ExitOutcome {
    /// The resources whose last owner left were restored.
    Restored { rolled_back: Vec<AppliedAction> },
    /// Another instance is still running; nothing was restored.
    StillActive,
    /// Some restores failed; those need journal recovery.
    PartiallyFailed { rolled_back: Vec<AppliedAction>, failed: Vec<AppliedAction> },
    Ignored,
}

#[derive(Debug, Clone, PartialEq)]
pub enum EventOutcome {
    Launch(LaunchOutcome),
    Exit(ExitOutcome),
}

} // verus!
