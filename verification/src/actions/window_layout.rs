//! Restoring an explicitly saved window layout: the decisions that guard
//! every coordinate write. Reading and moving windows is the application's
//! part.

use vstd::prelude::*;
use crate::action::{
    same_file_identity, ActionError, ActionErrorCode, ActionId, ActionKind, ActionMetadata, ActionResult,
    ActionStage, ProcessFileIdentity,
};
use crate::display_profile::{compare_topology, spec_same_topology, DisplayProfile};
use crate::display_rescue::spec_topology_reason;
use crate::window_layout::{WindowLayoutObservation, WindowLayoutSnapshot};

verus! {

/// The cap on game executables kept out of a layout restore.
pub const MAX_GAME_EXCLUSIONS: usize = 800;

pub open spec fn has_identity(s: Seq<ProcessFileIdentity>, x: ProcessFileIdentity) -> bool {
    exists|i: int| 0 <= i < s.len() && same_file_identity(#[trigger] s[i], x)
}

/// The saved exclusions followed by the fresh ones not yet among them.
pub open spec fn spec_union_identities(
    saved: Seq<ProcessFileIdentity>,
    fresh: Seq<ProcessFileIdentity>,
) -> Seq<ProcessFileIdentity>
    decreases fresh.len(),
{
    if fresh.len() == 0 {
        saved
    } else {
        let before = spec_union_identities(saved, fresh.drop_last());
        if has_identity(before, fresh.last()) {
            before
        } else {
            before.push(fresh.last())
        }
    }
}

fn contains_identity(v: &Vec<ProcessFileIdentity>, x: &ProcessFileIdentity) -> (r: bool)
    ensures
        r == has_identity(v@, *x),
{
    let mut i: usize = 0;
    while i < v.len()
        invariant
            i <= v@.len(),
            forall|j: int| 0 <= j < i ==> !same_file_identity(#[trigger] v@[j], *x),
        decreases v@.len() - i,
    {
        if v[i].same_file(x) {
            return true;
        }
        i += 1;
    }
    false
}

/// The Action that restores an explicitly saved layout.
pub struct WindowLayoutAction;

impl WindowLayoutAction {
    /// The game executables to keep out of the restore: those recorded in
    /// the backup, then those registered now that the backup does not have.
    /// More than the cap needs recovery.
    pub fn effective_exclusions(
        saved: &[ProcessFileIdentity],
        fresh: &[ProcessFileIdentity],
        stage: ActionStage,
    ) -> (r: ActionResult<Vec<ProcessFileIdentity>>)
        ensures
            spec_union_identities(saved@, fresh@).len() <= MAX_GAME_EXCLUSIONS <==> r is Ok,
            r matches Ok(v) ==> v@ == spec_union_identities(saved@, fresh@),
            r matches Err(e) ==> e.code == ActionErrorCode::RecoveryRequired && e.stage == stage
                && e.user_message_key@ == "action.window_layout.game_exclusion_limit"@,
    {
        let mut result: Vec<ProcessFileIdentity> = Vec::new();
        let mut i: usize = 0;
        while i < saved.len()
            invariant
                i <= saved@.len(),
                result@ == saved@.take(i as int),
            decreases saved@.len() - i,
        {
            result.push(saved[i]);
            assert(saved@.take(i as int + 1) =~= saved@.take(i as int).push(saved@[i as int]));
            i += 1;
        }
        assert(saved@.take(saved@.len() as int) =~= saved@);
        let mut i: usize = 0;
        while i < fresh.len()
            invariant
                i <= fresh@.len(),
                result@ == spec_union_identities(saved@, fresh@.take(i as int)),
            decreases fresh@.len() - i,
        {
            assert(fresh@.take(i as int + 1).drop_last() =~= fresh@.take(i as int));
            if !contains_identity(&result, &fresh[i]) {
                result.push(fresh[i]);
            }
            i += 1;
        }
        assert(fresh@.take(fresh@.len() as int) =~= fresh@);
        if result.len() > MAX_GAME_EXCLUSIONS {
            return Err(ActionError::recovery_required(stage, "action.window_layout.game_exclusion_limit"));
        }
        Ok(result)
    }

    /// The Action's static description: a persistent Action, tested from
    /// 23H2 (22631) through 25H2 (26200), that only runs when asked to and
    /// never on its own.
    pub fn metadata() -> (m: ActionMetadata)
        ensures
            m.id == ActionId::SetupWindowLayout,
            m.action_version == 1,
            m.kind == ActionKind::Persistent,
            m.minimum_build == 22631,
            m.maximum_tested_build == 26200,
            !m.auto_apply_eligible,
    {
        ActionMetadata {
            id: ActionId::SetupWindowLayout,
            action_version: 1,
            kind: ActionKind::Persistent,
            minimum_build: 22631,
            maximum_tested_build: 26200,
            auto_apply_eligible: false,
        }
    }

    /// Something else changed the windows since the backup.
    pub fn external_change(stage: ActionStage) -> (e: ActionError)
        ensures
            e.code == ActionErrorCode::ExternalConflict,
            e.stage == stage,
            !e.retryable,
            e.user_message_key@ == "action.window_layout.external_change_detected"@,
    {
        ActionError::new(
            ActionErrorCode::ExternalConflict,
            stage,
            false,
            "action.window_layout.external_change_detected",
        )
    }

    /// Every found window sits where it was put and none was moved back.
    pub fn fully_positioned(observation: &WindowLayoutObservation) -> (r: bool)
        ensures
            r == (observation.positioned_window_count == observation.matched_window_count
                && !exists|i: int|
                0 <= i < observation.issues@.len() && #[trigger] observation.issues@[i].reason
                    == crate::window_layout::WindowLayoutIssueReason::VerificationMismatch),
    {
        observation.positioned_window_count == observation.matched_window_count
            && !observation.has_verification_mismatch()
    }

    /// Runs `write` only when the layout records the display configuration
    /// it was saved on and the current one has the same topology. A layout
    /// without one fails closed before the displays are even read; a changed
    /// topology fails, retryably, with the reason as a safe detail.
    pub fn with_matching_display_topology<T>(
        desired: &WindowLayoutSnapshot,
        read_current_display: impl FnOnce() -> ActionResult<DisplayProfile>,
        write: impl FnOnce() -> T,
    ) -> (r: ActionResult<T>)
        requires
            call_requires(read_current_display, ()),
            call_requires(write, ()),
        ensures
            desired.display_profile is None ==> (r matches Err(e) && e.code
                == ActionErrorCode::SavedDisplayTopologyMissing && e.stage == ActionStage::Apply
                && !e.retryable && e.user_message_key@
                == "action.window_layout.saved_display_topology_missing"@),
            r matches Ok(t) ==> (desired.display_profile matches Some(saved) && exists|current: DisplayProfile|
                call_ensures(read_current_display, (), Ok::<DisplayProfile, ActionError>(current))
                    && spec_same_topology(saved.paths@, current.paths@))
                && call_ensures(write, (), t),
            r matches Err(e) ==> {
                ||| desired.display_profile is None
                ||| call_ensures(read_current_display, (), Err::<DisplayProfile, ActionError>(e))
                ||| desired.display_profile matches Some(saved) && e.code
                    == ActionErrorCode::DisplayTopologyChanged && e.stage == ActionStage::Apply
                    && e.retryable && e.user_message_key@ == "action.window_layout.display_topology_changed"@
                    && exists|current: DisplayProfile|
                    call_ensures(read_current_display, (), Ok::<DisplayProfile, ActionError>(current))
                        && !spec_same_topology(saved.paths@, current.paths@) && (e.safe_detail matches Some(
                        d,
                    ) && d@ == spec_topology_reason(saved.paths@, current.paths@))
            },
    {
        let saved_display = match &desired.display_profile {
            Some(saved) => saved,
            None => {
                return Err(
                    ActionError::new(
                        ActionErrorCode::SavedDisplayTopologyMissing,
                        ActionStage::Apply,
                        false,
                        "action.window_layout.saved_display_topology_missing",
                    ),
                );
            },
        };
        let current_display = match read_current_display() {
            Ok(current) => current,
            Err(error) => {
                return Err(error);
            },
        };
        match compare_topology(saved_display, &current_display) {
            Err(reason) => {
                let error = ActionError::new(
                    ActionErrorCode::DisplayTopologyChanged,
                    ActionStage::Apply,
                    true,
                    "action.window_layout.display_topology_changed",
                );
                return Err(error.with_safe_detail(reason));
            },
            Ok(()) => {},
        }
        Ok(write())
    }
}

} // verus!
