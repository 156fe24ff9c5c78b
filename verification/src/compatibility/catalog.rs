//! Which Windows builds may be changed, only observed, or not touched at all.

use vstd::prelude::*;
use crate::action::{ActionError, ActionErrorCode, ActionKind, ActionMetadata, ActionStage};
use super::os_identity::{Architecture, OsIdentity};

verus! {

pub const WINDOWS_11_24H2: u32 = 26100;
pub const WINDOWS_11_25H2: u32 = 26200;
pub const WINDOWS_11_26H1: u32 = 28000;
pub const WINDOWS_11_23H2: u32 = 22631;

#[derive(Debug, Clone, Copy, PartialEq, Eq, Structural)]
pub enum CompatibilityMode {
    TestedMutable,
    TestedDetectOnly,
    Unsupported,
    UnknownBuild,
}

#[derive(Debug, Clone, Copy)]
pub struct CompatibilityDecision {
    pub mode: CompatibilityMode,
    pub rollback_across_unknown_build: bool,
    pub evidence_id: &'static str,
}

#[derive(Debug, Default, Clone, Copy)]
pub struct CompatibilityCatalog;

pub open spec fn spec_build_mode(base_build: u32) -> CompatibilityMode {
    if base_build == 26100 || base_build == 26200 {
        CompatibilityMode::TestedMutable
    } else if base_build == 28000 {
        CompatibilityMode::TestedDetectOnly
    } else if base_build == 22631 {
        CompatibilityMode::Unsupported
    } else {
        CompatibilityMode::UnknownBuild
    }
}

/// The Home and Pro editions in the test matrix.
pub open spec fn spec_home_or_pro(sku: u32) -> bool {
    sku == 48 || sku == 49 || sku == 98 || sku == 99 || sku == 100 || sku == 101
}

pub open spec fn spec_identity_mode(os: OsIdentity) -> CompatibilityMode {
    if os.major != 10 || os.product_type != 1 {
        CompatibilityMode::Unsupported
    } else if !(os.architecture == Architecture::X64 || os.architecture == Architecture::Arm64) {
        CompatibilityMode::Unsupported
    } else if !spec_home_or_pro(os.operating_system_sku) {
        CompatibilityMode::TestedDetectOnly
    } else {
        spec_build_mode(os.base_build)
    }
}

/// The mode once the Action's own tested build range is taken into account.
pub open spec fn spec_evaluate_mode(os: OsIdentity, metadata: ActionMetadata) -> CompatibilityMode {
    let mode = spec_identity_mode(os);
    if mode == CompatibilityMode::TestedMutable && (os.base_build < metadata.minimum_build
        || os.base_build > metadata.maximum_tested_build) {
        CompatibilityMode::TestedDetectOnly
    } else {
        mode
    }
}

/// The evidence behind a base build's mode.
pub open spec fn spec_build_evidence(base_build: u32) -> Seq<char> {
    if base_build == 26100 {
        "totonoe.win11.24h2.task2-smoke-required"@
    } else if base_build == 26200 {
        "totonoe.win11.25h2.task2-smoke-required"@
    } else if base_build == 28000 {
        "totonoe.win11.26h1.detect-only"@
    } else if base_build == 22631 {
        "totonoe.win11.23h2.home-pro-out-of-scope"@
    } else {
        "totonoe.unknown-build"@
    }
}

/// The evidence behind an identity's mode.
pub open spec fn spec_identity_evidence(os: OsIdentity) -> Seq<char> {
    if os.major != 10 || os.product_type != 1 {
        "totonoe.non-client-windows"@
    } else if !(os.architecture == Architecture::X64 || os.architecture == Architecture::Arm64) {
        "totonoe.unsupported-architecture"@
    } else if !spec_home_or_pro(os.operating_system_sku) {
        "totonoe.edition-outside-home-pro-matrix"@
    } else {
        spec_build_evidence(os.base_build)
    }
}

/// Whether the Action's tested build range narrows a mutable identity to
/// detect-only.
pub open spec fn spec_outside_tested_range(os: OsIdentity, metadata: ActionMetadata) -> bool {
    spec_identity_mode(os) == CompatibilityMode::TestedMutable && (os.base_build < metadata.minimum_build
        || os.base_build > metadata.maximum_tested_build)
}

/// The evidence behind the mode once the Action's range is taken into account.
pub open spec fn spec_evaluate_evidence(os: OsIdentity, metadata: ActionMetadata) -> Seq<char> {
    if spec_outside_tested_range(os, metadata) {
        "totonoe.action-build-outside-tested-range"@
    } else {
        spec_identity_evidence(os)
    }
}

/// A compatibility refusal: its code, the stage, never retryable, the
/// message key, and no detail.
pub open spec fn is_refusal(e: ActionError, code: ActionErrorCode, stage: ActionStage, key: Seq<char>) -> bool {
    &&& e.code == code
    &&& e.stage == stage
    &&& !e.retryable
    &&& e.user_message_key@ == key
    &&& e.safe_detail is None
}

impl CompatibilityCatalog {
    /// The mode of a base build: the two tested client builds are mutable,
    /// 26H1 is detect-only, 23H2 is unsupported, every other build is unknown.
    pub fn decision_for_build(base_build: u32) -> (d: CompatibilityDecision)
        ensures
            d.mode == spec_build_mode(base_build),
            !d.rollback_across_unknown_build,
            d.evidence_id@ == spec_build_evidence(base_build),
    {
        let (mode, evidence_id) = if base_build == WINDOWS_11_24H2 {
            (CompatibilityMode::TestedMutable, "totonoe.win11.24h2.task2-smoke-required")
        } else if base_build == WINDOWS_11_25H2 {
            (CompatibilityMode::TestedMutable, "totonoe.win11.25h2.task2-smoke-required")
        } else if base_build == WINDOWS_11_26H1 {
            (CompatibilityMode::TestedDetectOnly, "totonoe.win11.26h1.detect-only")
        } else if base_build == WINDOWS_11_23H2 {
            (CompatibilityMode::Unsupported, "totonoe.win11.23h2.home-pro-out-of-scope")
        } else {
            (CompatibilityMode::UnknownBuild, "totonoe.unknown-build")
        };
        CompatibilityDecision { mode, rollback_across_unknown_build: false, evidence_id }
    }

    /// Non-client Windows and unsupported architectures are unsupported;
    /// editions outside Home and Pro are detect-only; otherwise the build decides.
    pub fn decision_for_identity(os_identity: &OsIdentity) -> (d: CompatibilityDecision)
        ensures
            d.mode == spec_identity_mode(*os_identity),
            !d.rollback_across_unknown_build,
            d.evidence_id@ == spec_identity_evidence(*os_identity),
    {
        if os_identity.major != 10 || os_identity.product_type != 1 {
            return CompatibilityDecision {
                mode: CompatibilityMode::Unsupported,
                rollback_across_unknown_build: false,
                evidence_id: "totonoe.non-client-windows",
            };
        }
        if !(os_identity.architecture == Architecture::X64 || os_identity.architecture == Architecture::Arm64) {
            return CompatibilityDecision {
                mode: CompatibilityMode::Unsupported,
                rollback_across_unknown_build: false,
                evidence_id: "totonoe.unsupported-architecture",
            };
        }
        let sku = os_identity.operating_system_sku;
        if !(sku == 48 || sku == 49 || sku == 98 || sku == 99 || sku == 100 || sku == 101) {
            return CompatibilityDecision {
                mode: CompatibilityMode::TestedDetectOnly,
                rollback_across_unknown_build: false,
                evidence_id: "totonoe.edition-outside-home-pro-matrix",
            };
        }
        Self::decision_for_build(os_identity.base_build)
    }

    /// The identity's decision, narrowed to detect-only when the build lies
    /// outside the Action's tested range.
    pub fn evaluate(os_identity: &OsIdentity, metadata: &ActionMetadata) -> (d: CompatibilityDecision)
        ensures
            d.mode == spec_evaluate_mode(*os_identity, *metadata),
            !d.rollback_across_unknown_build,
            d.evidence_id@ == spec_evaluate_evidence(*os_identity, *metadata),
    {
        let mut decision = Self::decision_for_identity(os_identity);
        if decision.mode == CompatibilityMode::TestedMutable && (os_identity.base_build < metadata.minimum_build
            || os_identity.base_build > metadata.maximum_tested_build) {
            decision.mode = CompatibilityMode::TestedDetectOnly;
            decision.evidence_id = "totonoe.action-build-outside-tested-range";
        }
        decision
    }

    /// Detection is allowed everywhere except on unsupported systems.
    pub fn ensure_detect_allowed(os_identity: &OsIdentity, metadata: &ActionMetadata) -> (r: Result<
        CompatibilityDecision,
        ActionError,
    >)
        ensures
            spec_evaluate_mode(*os_identity, *metadata) == CompatibilityMode::Unsupported ==> (r matches Err(
                e,
            ) && is_refusal(
                e,
                ActionErrorCode::CompatibilityBlocked,
                ActionStage::Detect,
                "action.compatibility.unsupported"@,
            )),
            spec_evaluate_mode(*os_identity, *metadata) != CompatibilityMode::Unsupported ==> (r matches Ok(
                d,
            ) && d.mode == spec_evaluate_mode(*os_identity, *metadata) && !d.rollback_across_unknown_build
                && d.evidence_id@ == spec_evaluate_evidence(*os_identity, *metadata)),
    {
        let decision = Self::evaluate(os_identity, metadata);
        if decision.mode == CompatibilityMode::Unsupported {
            return Err(ActionError::new(
                ActionErrorCode::CompatibilityBlocked,
                ActionStage::Detect,
                false,
                "action.compatibility.unsupported",
            ));
        }
        Ok(decision)
    }

    /// Observation and guided Actions only need detection; every other kind
    /// may change the system only on a tested, mutable build.
    pub fn ensure_mutation_allowed(os_identity: &OsIdentity, metadata: &ActionMetadata, stage: ActionStage) -> (r:
        Result<CompatibilityDecision, ActionError>)
        ensures
            r matches Ok(d) ==> d.mode == spec_evaluate_mode(*os_identity, *metadata)
                && !d.rollback_across_unknown_build && d.evidence_id@ == spec_evaluate_evidence(
                *os_identity,
                *metadata,
            ),
            (metadata.kind == ActionKind::Observation || metadata.kind == ActionKind::Guided) ==> {
                &&& r is Ok <==> spec_evaluate_mode(*os_identity, *metadata) != CompatibilityMode::Unsupported
                &&& r matches Err(e) ==> is_refusal(
                    e,
                    ActionErrorCode::CompatibilityBlocked,
                    ActionStage::Detect,
                    "action.compatibility.unsupported"@,
                )
            },
            !(metadata.kind == ActionKind::Observation || metadata.kind == ActionKind::Guided) ==> {
                let mode = spec_evaluate_mode(*os_identity, *metadata);
                &&& r is Ok <==> mode == CompatibilityMode::TestedMutable
                &&& mode == CompatibilityMode::UnknownBuild ==> (r matches Err(e) && is_refusal(
                    e,
                    ActionErrorCode::RecoveryRequired,
                    stage,
                    "action.compatibility.unknown_build_recovery_required"@,
                ))
                &&& mode == CompatibilityMode::TestedDetectOnly ==> (r matches Err(e) && is_refusal(
                    e,
                    ActionErrorCode::CompatibilityBlocked,
                    stage,
                    "action.compatibility.detect_only"@,
                ))
                &&& mode == CompatibilityMode::Unsupported ==> (r matches Err(e) && is_refusal(
                    e,
                    ActionErrorCode::CompatibilityBlocked,
                    stage,
                    "action.compatibility.unsupported"@,
                ))
            },
    {
        if metadata.kind == ActionKind::Observation || metadata.kind == ActionKind::Guided {
            return Self::ensure_detect_allowed(os_identity, metadata);
        }
        let decision = Self::evaluate(os_identity, metadata);
        match decision.mode {
            CompatibilityMode::TestedMutable => Ok(decision),
            CompatibilityMode::UnknownBuild => Err(ActionError::new(
                ActionErrorCode::RecoveryRequired,
                stage,
                false,
                "action.compatibility.unknown_build_recovery_required",
            )),
            CompatibilityMode::TestedDetectOnly => Err(ActionError::new(
                ActionErrorCode::CompatibilityBlocked,
                stage,
                false,
                "action.compatibility.detect_only",
            )),
            CompatibilityMode::Unsupported => Err(ActionError::new(
                ActionErrorCode::CompatibilityBlocked,
                stage,
                false,
                "action.compatibility.unsupported",
            )),
        }
    }
}

/// Only the two tested client builds (24H2 and 25H2) can ever be mutable:
/// every other build, known or not, is never written to.
pub proof fn lemma_only_tested_builds_are_mutable(os: OsIdentity, metadata: ActionMetadata)
    requires
        spec_evaluate_mode(os, metadata) == CompatibilityMode::TestedMutable,
    ensures
        os.base_build == 26100 || os.base_build == 26200,
        os.major == 10 && os.product_type == 1,
        spec_home_or_pro(os.operating_system_sku),
        metadata.minimum_build <= os.base_build <= metadata.maximum_tested_build,
{
}

/// An unknown build is never mutable, for any identity and any Action.
pub proof fn lemma_unknown_build_never_mutable(os: OsIdentity, metadata: ActionMetadata)
    requires
        spec_build_mode(os.base_build) == CompatibilityMode::UnknownBuild,
    ensures
        spec_evaluate_mode(os, metadata) != CompatibilityMode::TestedMutable,
{
}

/// Every Home or Pro edition (SKUs 48, 49, 98, 99, 100 and 101) of client
/// Windows 10/11 on x64 or Arm64 is decided by its build alone: 24H2 and
/// 25H2 may be changed, under their own evidence, and within an Action's
/// tested range that Action may change them.
pub proof fn lemma_home_and_pro_editions_follow_the_build(os: OsIdentity, metadata: ActionMetadata)
    requires
        os.major == 10,
        os.product_type == 1,
        os.architecture == Architecture::X64 || os.architecture == Architecture::Arm64,
        os.operating_system_sku == 48 || os.operating_system_sku == 49 || os.operating_system_sku == 98
            || os.operating_system_sku == 99 || os.operating_system_sku == 100 || os.operating_system_sku == 101,
    ensures
        spec_identity_mode(os) == spec_build_mode(os.base_build),
        spec_identity_evidence(os) == spec_build_evidence(os.base_build),
        os.base_build == 26100 ==> spec_identity_mode(os) == CompatibilityMode::TestedMutable
            && spec_identity_evidence(os) == "totonoe.win11.24h2.task2-smoke-required"@,
        os.base_build == 26200 ==> spec_identity_mode(os) == CompatibilityMode::TestedMutable
            && spec_identity_evidence(os) == "totonoe.win11.25h2.task2-smoke-required"@,
        (os.base_build == 26100 || os.base_build == 26200) && metadata.minimum_build <= os.base_build
            <= metadata.maximum_tested_build ==> spec_evaluate_mode(os, metadata) == CompatibilityMode::TestedMutable,
{
}

/// A client edition outside Home and Pro is only ever observed, whatever its
/// build.
pub proof fn lemma_other_editions_are_detect_only(os: OsIdentity)
    requires
        os.major == 10,
        os.product_type == 1,
        os.architecture == Architecture::X64 || os.architecture == Architecture::Arm64,
        !(os.operating_system_sku == 48 || os.operating_system_sku == 49 || os.operating_system_sku == 98
            || os.operating_system_sku == 99 || os.operating_system_sku == 100 || os.operating_system_sku == 101),
    ensures
        spec_identity_mode(os) == CompatibilityMode::TestedDetectOnly,
{
}

/// The build table: 26100 (24H2) and 26200 (25H2) may be changed, 28000
/// (26H1) only observed, 22631 (23H2) not touched, and every other build is
/// unknown.
pub proof fn lemma_build_table(b: u32)
    ensures
        (b == 26100 || b == 26200) <==> spec_build_mode(b) == CompatibilityMode::TestedMutable,
        b == 28000 <==> spec_build_mode(b) == CompatibilityMode::TestedDetectOnly,
        b == 22631 <==> spec_build_mode(b) == CompatibilityMode::Unsupported,
        !(b == 26100 || b == 26200 || b == 28000 || b == 22631) <==> spec_build_mode(b)
            == CompatibilityMode::UnknownBuild,
{
}

/// Server editions, other major versions and architectures other than x64
/// and Arm64 are never touched; an Action's tested range only ever narrows
/// a mutable decision to detect-only and leaves every other one as it is.
pub proof fn lemma_identity_and_range(os: OsIdentity, metadata: ActionMetadata)
    ensures
        (os.major != 10 || os.product_type != 1) ==> spec_identity_mode(os) == CompatibilityMode::Unsupported,
        !(os.architecture == Architecture::X64 || os.architecture == Architecture::Arm64)
            ==> spec_identity_mode(os) == CompatibilityMode::Unsupported,
        spec_identity_mode(os) != CompatibilityMode::TestedMutable ==> spec_evaluate_mode(os, metadata)
            == spec_identity_mode(os),
        spec_identity_mode(os) == CompatibilityMode::TestedMutable ==> (spec_evaluate_mode(os, metadata)
            == CompatibilityMode::TestedMutable <==> metadata.minimum_build <= os.base_build
            <= metadata.maximum_tested_build),
        spec_identity_mode(os) == CompatibilityMode::TestedMutable && !(metadata.minimum_build <= os.base_build
            <= metadata.maximum_tested_build) ==> spec_evaluate_mode(os, metadata)
            == CompatibilityMode::TestedDetectOnly,
{
}

} // verus!
