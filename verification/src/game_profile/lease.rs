//! Resource leases and the decisions taken over them: which Actions apply,
//! which only join an existing lease, which conflict, and what an exit
//! restores.

use vstd::prelude::*;
use super::{AppliedAction, ConflictPolicy, GameProfileId, PlannedAction, ResourceIntent};

verus! {

/// A resource held in one desired state for one or more profiles. Only the
/// Action that first applied it carries a restore reference.
pub struct ResourceLease {
    pub resource_key: String,
    pub desired: String,
    pub owners: Vec<GameProfileId>,
    pub applied: Option<AppliedAction>,
}

/// A lease as a mathematical value.
pub struct LeaseView {
    pub resource_key: Seq<char>,
    pub desired: Seq<char>,
    pub owners: Seq<GameProfileId>,
    pub applied: Option<AppliedAction>,
}

impl ResourceLease {
    pub open spec fn view(&self) -> LeaseView {
        LeaseView {
            resource_key: self.resource_key@,
            desired: self.desired@,
            owners: self.owners@,
            applied: self.applied,
        }
    }
}

pub open spec fn lease_views(leases: Seq<ResourceLease>) -> Seq<LeaseView> {
    leases.map_values(|l: ResourceLease| l.view())
}

pub open spec fn strs(v: Seq<String>) -> Seq<Seq<char>> {
    v.map_values(|s: String| s@)
}

/// How one Action is treated at launch.
#[derive(Debug, Clone, Copy, PartialEq, Eq, Structural)]
pub enum ActionDecision {
    /// Some resource is new: apply the Action.
    Apply,
    /// Every resource is already leased in the same state: only join.
    JoinOnly,
    /// It conflicts but may be skipped.
    Skip,
    /// It conflicts and may not be skipped: the profile stops.
    Conflict,
}

/// The position of the lease for `key`, or -1 when there is none.
pub open spec fn lease_index(leases: Seq<LeaseView>, key: Seq<char>) -> int
    decreases leases.len(),
{
    if leases.len() == 0 {
        -1
    } else if leases.last().resource_key == key {
        leases.len() - 1
    } else {
        lease_index(leases.drop_last(), key)
    }
}

pub proof fn lemma_lease_index(leases: Seq<LeaseView>, key: Seq<char>)
    ensures
        -1 <= lease_index(leases, key) < leases.len(),
        lease_index(leases, key) >= 0 ==> leases[lease_index(leases, key)].resource_key == key,
        lease_index(leases, key) == -1 ==> forall|i: int|
            0 <= i < leases.len() ==> leases[i].resource_key != key,
    decreases leases.len(),
{
    if leases.len() > 0 {
        lemma_lease_index(leases.drop_last(), key);
        if leases.last().resource_key != key {
            assert forall|i: int| 0 <= i < leases.len() - 1 implies leases[i] == leases.drop_last()[i] by {}
        }
    }
}

/// A lease that sits only under keys that no other lease has keeps its index.
pub proof fn lemma_lease_index_unique(leases: Seq<LeaseView>, key: Seq<char>, i: int)
    requires
        0 <= i < leases.len(),
        leases[i].resource_key == key,
        forall|j: int| 0 <= j < leases.len() && j != i ==> leases[j].resource_key != key,
    ensures
        lease_index(leases, key) == i,
{
    lemma_lease_index(leases, key);
}

pub open spec fn intent_is_new(leases: Seq<LeaseView>, intent: ResourceIntent) -> bool {
    lease_index(leases, intent.resource_key@) < 0
}

pub open spec fn intent_conflicts(leases: Seq<LeaseView>, intent: ResourceIntent) -> bool {
    let i = lease_index(leases, intent.resource_key@);
    i >= 0 && leases[i].desired != intent.desired@
}

/// The decision for one Action given the leases as they stand.
pub open spec fn spec_decide(
    leases: Seq<LeaseView>,
    intents: Seq<ResourceIntent>,
    optional: bool,
    policy: ConflictPolicy,
) -> ActionDecision {
    let has_conflict = exists|j: int| 0 <= j < intents.len() && intent_conflicts(leases, intents[j]);
    let has_new = exists|j: int| 0 <= j < intents.len() && intent_is_new(leases, intents[j]);
    if has_conflict {
        if optional || policy == ConflictPolicy::SkipConflicting {
            ActionDecision::Skip
        } else {
            ActionDecision::Conflict
        }
    } else if has_new {
        ActionDecision::Apply
    } else if intents.len() > 0 {
        ActionDecision::JoinOnly
    } else {
        ActionDecision::Apply
    }
}

/// The decisions for every Action of a profile, all against the same leases.
pub open spec fn spec_decisions(
    leases: Seq<LeaseView>,
    actions: Seq<PlannedAction>,
    policy: ConflictPolicy,
) -> Seq<ActionDecision> {
    actions.map_values(
        |a: PlannedAction| spec_decide(leases, a.intents@, a.optional, policy),
    )
}

/// The resource keys of the Actions that conflict, in Action order.
pub open spec fn spec_conflict_keys(
    actions: Seq<PlannedAction>,
    decisions: Seq<ActionDecision>,
    n: nat,
) -> Seq<Seq<char>>
    decreases n,
{
    if n == 0 {
        Seq::empty()
    } else {
        let before = spec_conflict_keys(actions, decisions, (n - 1) as nat);
        if decisions[n - 1] == ActionDecision::Conflict {
            before + actions[n - 1].intents@.map_values(|i: ResourceIntent| i.resource_key@)
        } else {
            before
        }
    }
}

/// The intents of the Actions with the given decision, in Action order.
pub open spec fn spec_selected(
    actions: Seq<PlannedAction>,
    decisions: Seq<ActionDecision>,
    want: ActionDecision,
    n: nat,
) -> Seq<Seq<ResourceIntent>>
    decreases n,
{
    if n == 0 {
        Seq::empty()
    } else {
        let before = spec_selected(actions, decisions, want, (n - 1) as nat);
        if decisions[n - 1] == want {
            before.push(actions[n - 1].intents@)
        } else {
            before
        }
    }
}

/// The leases, the keys this session owns and the keys it joined, while a
/// launch is being recorded.
pub struct LaunchState {
    pub leases: Seq<LeaseView>,
    pub owned: Seq<Seq<char>>,
    pub joined: Seq<Seq<char>>,
}

pub open spec fn add_unique<T>(s: Seq<T>, x: T) -> Seq<T> {
    if s.contains(x) {
        s
    } else {
        s.push(x)
    }
}

/// Records one intent of an applied Action: join its lease, or open a new one
/// that carries the Action's restore reference.
pub open spec fn apply_step(
    st: LaunchState,
    intent: ResourceIntent,
    r: AppliedAction,
    p: GameProfileId,
) -> LaunchState {
    let key = intent.resource_key@;
    let owned = add_unique(st.owned, key);
    let i = lease_index(st.leases, key);
    if i >= 0 {
        LaunchState {
            leases: st.leases.update(
                i,
                LeaseView { owners: add_unique(st.leases[i].owners, p), ..st.leases[i] },
            ),
            owned,
            joined: st.joined.push(key),
        }
    } else {
        LaunchState {
            leases: st.leases.push(
                LeaseView {
                    resource_key: key,
                    desired: intent.desired@,
                    owners: seq![p],
                    applied: Some(r),
                },
            ),
            owned,
            joined: st.joined,
        }
    }
}

/// Records one intent of a join-only Action.
pub open spec fn join_step(st: LaunchState, intent: ResourceIntent, p: GameProfileId) -> LaunchState {
    let key = intent.resource_key@;
    let owned = add_unique(st.owned, key);
    let i = lease_index(st.leases, key);
    if i >= 0 {
        LaunchState {
            leases: st.leases.update(
                i,
                LeaseView { owners: add_unique(st.leases[i].owners, p), ..st.leases[i] },
            ),
            owned,
            joined: st.joined.push(key),
        }
    } else {
        LaunchState { owned, ..st }
    }
}

pub open spec fn apply_intents(
    st: LaunchState,
    intents: Seq<ResourceIntent>,
    r: AppliedAction,
    p: GameProfileId,
) -> LaunchState
    decreases intents.len(),
{
    if intents.len() == 0 {
        st
    } else {
        apply_step(apply_intents(st, intents.drop_last(), r, p), intents.last(), r, p)
    }
}

pub open spec fn join_intents(st: LaunchState, intents: Seq<ResourceIntent>, p: GameProfileId) -> LaunchState
    decreases intents.len(),
{
    if intents.len() == 0 {
        st
    } else {
        join_step(join_intents(st, intents.drop_last(), p), intents.last(), p)
    }
}

/// Records the first `n` applied Actions, each with its restore reference.
pub open spec fn apply_actions(
    st: LaunchState,
    acts: Seq<Seq<ResourceIntent>>,
    refs: Seq<AppliedAction>,
    p: GameProfileId,
    n: nat,
) -> LaunchState
    decreases n,
{
    if n == 0 {
        st
    } else {
        apply_intents(apply_actions(st, acts, refs, p, (n - 1) as nat), acts[n - 1], refs[n - 1], p)
    }
}

/// Records the join-only Actions among the first `n`.
pub open spec fn join_actions(
    st: LaunchState,
    actions: Seq<PlannedAction>,
    decisions: Seq<ActionDecision>,
    p: GameProfileId,
    n: nat,
) -> LaunchState
    decreases n,
{
    if n == 0 {
        st
    } else {
        let before = join_actions(st, actions, decisions, p, (n - 1) as nat);
        if decisions[n - 1] == ActionDecision::JoinOnly {
            join_intents(before, actions[n - 1].intents@, p)
        } else {
            before
        }
    }
}

/// What a successful first launch leaves behind: leases, owned keys and
/// joined keys.
pub open spec fn spec_launch(
    leases: Seq<LeaseView>,
    actions: Seq<PlannedAction>,
    policy: ConflictPolicy,
    refs: Seq<AppliedAction>,
    p: GameProfileId,
) -> LaunchState {
    let decisions = spec_decisions(leases, actions, policy);
    let acts = spec_selected(actions, decisions, ActionDecision::Apply, actions.len());
    let start = LaunchState { leases, owned: Seq::empty(), joined: Seq::empty() };
    join_actions(
        apply_actions(start, acts, refs, p, acts.len()),
        actions,
        decisions,
        p,
        actions.len(),
    )
}

/// The leases and the restore plan while an exit is being recorded.
pub struct ExitState {
    pub leases: Seq<LeaseView>,
    pub restore: Seq<AppliedAction>,
}

/// `s` without any occurrence of `x`.
pub open spec fn remove_all<T>(s: Seq<T>, x: T) -> Seq<T>
    decreases s.len(),
{
    if s.len() == 0 {
        s
    } else {
        let before = remove_all(s.drop_last(), x);
        if s.last() == x {
            before
        } else {
            before.push(s.last())
        }
    }
}

pub open spec fn references(s: Seq<AppliedAction>) -> Seq<Seq<char>> {
    s.map_values(|a: AppliedAction| a.reference@)
}

/// Leaves the lease of one owned key: a lease whose last owner leaves is
/// dropped and its restore reference, unless already planned, is planned.
pub open spec fn exit_step(st: ExitState, key: Seq<char>, p: GameProfileId) -> ExitState {
    let i = lease_index(st.leases, key);
    if i < 0 {
        st
    } else {
        let lease = st.leases[i];
        let owners = remove_all(lease.owners, p);
        if owners.len() == 0 {
            let restore = match lease.applied {
                Some(a) => if references(st.restore).contains(a.reference@) {
                    st.restore
                } else {
                    st.restore.push(a)
                },
                None => st.restore,
            };
            ExitState { leases: st.leases.remove(i), restore }
        } else {
            ExitState {
                leases: st.leases.update(i, LeaseView { owners, ..lease }),
                restore: st.restore,
            }
        }
    }
}

pub open spec fn exit_keys(st: ExitState, keys: Seq<Seq<char>>, p: GameProfileId) -> ExitState
    decreases keys.len(),
{
    if keys.len() == 0 {
        st
    } else {
        exit_step(exit_keys(st, keys.drop_last(), p), keys.last(), p)
    }
}

/// What the last exit of a profile leaves behind: the remaining leases and
/// the restores, in the order they are planned (they run in reverse).
pub open spec fn spec_exit(leases: Seq<LeaseView>, owned: Seq<Seq<char>>, p: GameProfileId) -> ExitState {
    exit_keys(ExitState { leases, restore: Seq::empty() }, owned, p)
}

/// The items of `plan` whose outcome in `oks` is `want`, in order.
pub open spec fn pick(plan: Seq<AppliedAction>, oks: Seq<bool>, want: bool) -> Seq<AppliedAction>
    decreases plan.len(),
{
    if plan.len() == 0 || oks.len() == 0 {
        Seq::empty()
    } else {
        let before = pick(plan.drop_last(), oks.drop_last(), want);
        if oks.last() == want {
            before.push(plan.last())
        } else {
            before
        }
    }
}

// ---------------------------------------------------------------------------
// Executable helpers
// ---------------------------------------------------------------------------

pub fn clone_applied(a: &AppliedAction) -> (r: AppliedAction)
    ensures
        r == *a,
{
    AppliedAction { action_id: a.action_id, reference: a.reference.clone() }
}

pub fn clone_intent(i: &ResourceIntent) -> (r: ResourceIntent)
    ensures
        r == *i,
{
    ResourceIntent { resource_key: i.resource_key.clone(), desired: i.desired.clone() }
}

pub fn clone_intents(v: &Vec<ResourceIntent>) -> (r: Vec<ResourceIntent>)
    ensures
        r@ == v@,
{
    let mut r: Vec<ResourceIntent> = Vec::new();
    let mut k: usize = 0;
    while k < v.len()
        invariant
            k <= v.len(),
            r@ == v@.take(k as int),
        decreases v.len() - k,
    {
        r.push(clone_intent(&v[k]));
        assert(v@.take(k as int + 1) =~= v@.take(k as int).push(v@[k as int]));
        k += 1;
    }
    assert(v@.take(v.len() as int) =~= v@);
    r
}

/// The position of the lease for `key`, if there is one.
pub fn find_lease(leases: &Vec<ResourceLease>, key: &String) -> (r: Option<usize>)
    ensures
        r matches Some(i) ==> i < leases.len() && i == lease_index(lease_views(leases@), key@),
        r is None ==> lease_index(lease_views(leases@), key@) == -1,
{
    let ghost views = lease_views(leases@);
    let mut found: Option<usize> = None;
    let mut k: usize = 0;
    while k < leases.len()
        invariant
            k <= leases.len(),
            views == lease_views(leases@),
            found matches Some(i) ==> i < k && i == lease_index(views.take(k as int), key@),
            found is None ==> lease_index(views.take(k as int), key@) == -1,
        decreases leases.len() - k,
    {
        proof {
            assert(views.take(k as int + 1).drop_last() =~= views.take(k as int));
        }
        if leases[k].resource_key == *key {
            found = Some(k);
        }
        k += 1;
    }
    proof {
        assert(views.take(leases.len() as int) =~= views);
    }
    found
}

pub fn contains_str(v: &Vec<String>, s: &String) -> (r: bool)
    ensures
        r == strs(v@).contains(s@),
{
    let mut k: usize = 0;
    while k < v.len()
        invariant
            k <= v.len(),
            forall|j: int| 0 <= j < k ==> v@[j]@ != s@,
        decreases v.len() - k,
    {
        if v[k] == *s {
            assert(strs(v@)[k as int] == s@);
            return true;
        }
        k += 1;
    }
    proof {
        if strs(v@).contains(s@) {
            let j = choose|j: int| 0 <= j < strs(v@).len() && strs(v@)[j] == s@;
            assert(v@[j]@ == s@);
        }
    }
    false
}

pub fn contains_reference(v: &Vec<AppliedAction>, reference: &String) -> (r: bool)
    ensures
        r == references(v@).contains(reference@),
{
    let mut k: usize = 0;
    while k < v.len()
        invariant
            k <= v.len(),
            forall|j: int| 0 <= j < k ==> v@[j].reference@ != reference@,
        decreases v.len() - k,
    {
        if v[k].reference == *reference {
            assert(references(v@)[k as int] == reference@);
            return true;
        }
        k += 1;
    }
    proof {
        if references(v@).contains(reference@) {
            let j = choose|j: int| 0 <= j < references(v@).len() && references(v@)[j] == reference@;
            assert(v@[j].reference@ == reference@);
        }
    }
    false
}

pub fn push_unique_str(v: &mut Vec<String>, s: &String)
    ensures
        strs(final(v)@) == add_unique(strs(old(v)@), s@),
{
    if !contains_str(v, s) {
        v.push(s.clone());
        assert(strs(v@) =~= strs(old(v)@).push(s@));
    }
}

pub fn push_unique_owner(v: &mut Vec<GameProfileId>, p: GameProfileId)
    ensures
        final(v)@ == add_unique(old(v)@, p),
{
    let mut k: usize = 0;
    while k < v.len()
        invariant
            k <= v.len(),
            v@ == old(v)@,
            forall|j: int| 0 <= j < k ==> v@[j] != p,
        decreases v.len() - k,
    {
        if v[k] == p {
            assert(v@[k as int] == p);
            return;
        }
        k += 1;
    }
    v.push(p);
}

pub fn without_owner(v: &Vec<GameProfileId>, p: GameProfileId) -> (r: Vec<GameProfileId>)
    ensures
        r@ == remove_all(v@, p),
{
    let mut r: Vec<GameProfileId> = Vec::new();
    let mut k: usize = 0;
    while k < v.len()
        invariant
            k <= v.len(),
            r@ == remove_all(v@.take(k as int), p),
        decreases v.len() - k,
    {
        assert(v@.take(k as int + 1).drop_last() =~= v@.take(k as int));
        if v[k] != p {
            r.push(v[k]);
        }
        k += 1;
    }
    assert(v@.take(v.len() as int) =~= v@);
    r
}

/// Adds `p` as an owner of the lease at `i`.
pub fn add_lease_owner(leases: &mut Vec<ResourceLease>, i: usize, p: GameProfileId)
    requires
        i < old(leases).len(),
    ensures
        lease_views(final(leases)@) == lease_views(old(leases)@).update(
            i as int,
            LeaseView {
                owners: add_unique(lease_views(old(leases)@)[i as int].owners, p),
                ..lease_views(old(leases)@)[i as int]
            },
        ),
{
    let mut lease = leases.remove(i);
    push_unique_owner(&mut lease.owners, p);
    leases.insert(i, lease);
    assert(lease_views(leases@) =~= lease_views(old(leases)@).update(
        i as int,
        LeaseView {
            owners: add_unique(lease_views(old(leases)@)[i as int].owners, p),
            ..lease_views(old(leases)@)[i as int]
        },
    ));
}

/// How one Action is treated given the leases as they stand.
pub fn decide_action(leases: &Vec<ResourceLease>, action: &PlannedAction, policy: ConflictPolicy) -> (r:
    ActionDecision)
    ensures
        r == spec_decide(lease_views(leases@), action.intents@, action.optional, policy),
{
    let ghost views = lease_views(leases@);
    let ghost intents = action.intents@;
    let mut has_conflict = false;
    let mut has_new = false;
    let mut k: usize = 0;
    while k < action.intents.len()
        invariant
            k <= intents.len(),
            intents == action.intents@,
            views == lease_views(leases@),
            has_conflict == exists|j: int| 0 <= j < k && intent_conflicts(views, intents[j]),
            has_new == exists|j: int| 0 <= j < k && intent_is_new(views, intents[j]),
        decreases intents.len() - k,
    {
        let intent = &action.intents[k];
        match find_lease(leases, &intent.resource_key) {
            Some(i) => {
                if !(leases[i].desired == intent.desired) {
                    has_conflict = true;
                }
            },
            None => {
                has_new = true;
            },
        }
        assert(intent_conflicts(views, intents[k as int]) ==> has_conflict);
        assert(intent_is_new(views, intents[k as int]) ==> has_new);
        k += 1;
    }
    if has_conflict {
        if action.optional || policy == ConflictPolicy::SkipConflicting {
            ActionDecision::Skip
        } else {
            ActionDecision::Conflict
        }
    } else if has_new {
        ActionDecision::Apply
    } else if action.intents.len() > 0 {
        ActionDecision::JoinOnly
    } else {
        ActionDecision::Apply
    }
}

} // verus!

verus! {

pub open spec fn keys_unique(leases: Seq<LeaseView>) -> bool {
    forall|i: int, j: int|
        0 <= i < j < leases.len() ==> leases[i].resource_key != leases[j].resource_key
}

proof fn lemma_remove_all_keeps<T>(s: Seq<T>, x: T, y: T)
    requires
        y != x,
        s.contains(y),
    ensures
        remove_all(s, x).contains(y),
    decreases s.len(),
{
    if s.last() == y {
        assert(remove_all(s, x).last() == y);
    } else {
        let j = choose|j: int| 0 <= j < s.len() && s[j] == y;
        assert(s.drop_last()[j] == y);
        lemma_remove_all_keeps(s.drop_last(), x, y);
        let r = remove_all(s.drop_last(), x);
        let k = choose|k: int| 0 <= k < r.len() && r[k] == y;
        if s.last() != x {
            assert(remove_all(s, x)[k] == y);
        }
    }
}

proof fn lemma_exit_step_unique(st: ExitState, key: Seq<char>, p: GameProfileId)
    requires
        keys_unique(st.leases),
    ensures
        keys_unique(exit_step(st, key, p).leases),
{
    lemma_lease_index(st.leases, key);
    let i = lease_index(st.leases, key);
    if i >= 0 {
        let n = exit_step(st, key, p).leases;
        if remove_all(st.leases[i].owners, p).len() == 0 {
            assert forall|a: int, b: int| 0 <= a < b < n.len() implies n[a].resource_key
                != n[b].resource_key by {
                let a0 = if a < i { a } else { a + 1 };
                let b0 = if b < i { b } else { b + 1 };
                assert(n[a] == st.leases[a0]);
                assert(n[b] == st.leases[b0]);
            }
        }
    }
}

/// After one exit step, the lease for `k` still holds `q` with its desired
/// state and restore reference.
proof fn lemma_exit_step_keeps(st: ExitState, key: Seq<char>, p: GameProfileId, q: GameProfileId, k: Seq<char>)
    requires
        keys_unique(st.leases),
        q != p,
        lease_index(st.leases, k) >= 0,
        st.leases[lease_index(st.leases, k)].owners.contains(q),
    ensures
        ({
            let j = lease_index(st.leases, k);
            let n = exit_step(st, key, p).leases;
            let j2 = lease_index(n, k);
            &&& j2 >= 0
            &&& n[j2].owners.contains(q)
            &&& n[j2].desired == st.leases[j].desired
            &&& n[j2].applied == st.leases[j].applied
        }),
{
    lemma_lease_index(st.leases, key);
    lemma_lease_index(st.leases, k);
    lemma_exit_step_unique(st, key, p);
    let i = lease_index(st.leases, key);
    let j = lease_index(st.leases, k);
    let n = exit_step(st, key, p).leases;
    if i < 0 {
    } else if i == j {
        lemma_remove_all_keeps(st.leases[i].owners, p, q);
        assert(n[i].owners.contains(q));
        assert forall|m: int| 0 <= m < n.len() && m != i implies n[m].resource_key != k by {}
        lemma_lease_index_unique(n, k, i);
    } else {
        let owners = remove_all(st.leases[i].owners, p);
        if owners.len() == 0 {
            let j1 = if j < i { j } else { j - 1 };
            assert(n[j1] == st.leases[j]);
            assert forall|m: int| 0 <= m < n.len() && m != j1 implies n[m].resource_key != k by {
                let m0 = if m < i { m } else { m + 1 };
                assert(n[m] == st.leases[m0]);
            }
            lemma_lease_index_unique(n, k, j1);
        } else {
            assert(n[j] == st.leases[j]);
            assert forall|m: int| 0 <= m < n.len() && m != j implies n[m].resource_key != k by {}
            lemma_lease_index_unique(n, k, j);
        }
    }
}

proof fn lemma_exit_keys_unique(st: ExitState, keys: Seq<Seq<char>>, p: GameProfileId)
    requires
        keys_unique(st.leases),
    ensures
        keys_unique(exit_keys(st, keys, p).leases),
    decreases keys.len(),
{
    if keys.len() > 0 {
        lemma_exit_keys_unique(st, keys.drop_last(), p);
        lemma_exit_step_unique(exit_keys(st, keys.drop_last(), p), keys.last(), p);
    }
}

proof fn lemma_exit_keys_keeps(st: ExitState, keys: Seq<Seq<char>>, p: GameProfileId, q: GameProfileId, k: Seq<char>)
    requires
        keys_unique(st.leases),
        q != p,
        lease_index(st.leases, k) >= 0,
        st.leases[lease_index(st.leases, k)].owners.contains(q),
    ensures
        ({
            let j = lease_index(st.leases, k);
            let n = exit_keys(st, keys, p).leases;
            let j2 = lease_index(n, k);
            &&& j2 >= 0
            &&& n[j2].owners.contains(q)
            &&& n[j2].desired == st.leases[j].desired
            &&& n[j2].applied == st.leases[j].applied
        }),
    decreases keys.len(),
{
    if keys.len() > 0 {
        lemma_exit_keys_keeps(st, keys.drop_last(), p, q, k);
        lemma_exit_keys_unique(st, keys.drop_last(), p);
        lemma_exit_step_keeps(exit_keys(st, keys.drop_last(), p), keys.last(), p, q, k);
    }
}

/// Nothing is restored while another owner remains: after profile `p`'s
/// last exit, a lease that profile `q` also holds is still there, still held
/// by `q`, in the same desired state and with the same restore reference.
pub proof fn lemma_shared_lease_survives_exit(
    leases: Seq<LeaseView>,
    owned: Seq<Seq<char>>,
    p: GameProfileId,
    q: GameProfileId,
    k: Seq<char>,
)
    requires
        keys_unique(leases),
        q != p,
        lease_index(leases, k) >= 0,
        leases[lease_index(leases, k)].owners.contains(q),
    ensures
        ({
            let j = lease_index(leases, k);
            let after = spec_exit(leases, owned, p).leases;
            let j2 = lease_index(after, k);
            &&& j2 >= 0
            &&& after[j2].owners.contains(q)
            &&& after[j2].desired == leases[j].desired
            &&& after[j2].applied == leases[j].applied
        }),
{
    lemma_exit_keys_keeps(ExitState { leases, restore: Seq::empty() }, owned, p, q, k);
}

/// Profiles that want the same state share: an Action whose every resource
/// is already leased in the state it wants only joins those leases.
pub proof fn lemma_same_desired_joins(
    leases: Seq<LeaseView>,
    intents: Seq<ResourceIntent>,
    optional: bool,
    policy: ConflictPolicy,
)
    requires
        intents.len() > 0,
        forall|j: int|
            0 <= j < intents.len() ==> {
                let i = lease_index(leases, #[trigger] intents[j].resource_key@);
                i >= 0 && leases[i].desired == intents[j].desired@
            },
    ensures
        spec_decide(leases, intents, optional, policy) == ActionDecision::JoinOnly,
{
}

/// Profiles that want opposite states do not both run: a required Action
/// that wants a leased resource in another state stops a profile whose
/// policy is to abort.
pub proof fn lemma_opposite_desired_conflicts(
    leases: Seq<LeaseView>,
    intents: Seq<ResourceIntent>,
    j: int,
)
    requires
        0 <= j < intents.len(),
        lease_index(leases, intents[j].resource_key@) >= 0,
        leases[lease_index(leases, intents[j].resource_key@)].desired != intents[j].desired@,
    ensures
        spec_decide(leases, intents, false, ConflictPolicy::AbortProfile) == ActionDecision::Conflict,
        spec_decide(leases, intents, true, ConflictPolicy::AbortProfile) == ActionDecision::Skip,
        spec_decide(leases, intents, false, ConflictPolicy::SkipConflicting) == ActionDecision::Skip,
{
    assert(intent_conflicts(leases, intents[j]));
}

} // verus!

verus! {

proof fn lemma_remove_all_idempotent<T>(s: Seq<T>, x: T)
    ensures
        remove_all(remove_all(s, x), x) == remove_all(s, x),
    decreases s.len(),
{
    if s.len() > 0 {
        lemma_remove_all_idempotent(s.drop_last(), x);
        let r = remove_all(s.drop_last(), x);
        if s.last() != x {
            assert(r.push(s.last()).drop_last() =~= r);
        }
    }
}

/// `cur` is what exits so far left of some lease of `orig`.
pub open spec fn descends(cur: LeaseView, orig: Seq<LeaseView>, p: GameProfileId) -> bool {
    exists|m: int|
        0 <= m < orig.len() && #[trigger] orig[m].resource_key == cur.resource_key && orig[m].desired
            == cur.desired && orig[m].applied == cur.applied && (cur.owners == orig[m].owners
            || cur.owners == remove_all(orig[m].owners, p))
}

/// `a` is the restore reference of a lease of `orig` that only `p` held.
pub open spec fn held_only_by(a: AppliedAction, orig: Seq<LeaseView>, p: GameProfileId) -> bool {
    exists|m: int|
        0 <= m < orig.len() && #[trigger] orig[m].applied == Some(a) && remove_all(orig[m].owners, p).len()
            == 0
}

proof fn lemma_exit_keys_restores(orig: Seq<LeaseView>, keys: Seq<Seq<char>>, p: GameProfileId)
    ensures
        ({
            let st = exit_keys(ExitState { leases: orig, restore: Seq::empty() }, keys, p);
            &&& forall|i: int| 0 <= i < st.leases.len() ==> descends(#[trigger] st.leases[i], orig, p)
            &&& forall|r: int| 0 <= r < st.restore.len() ==> held_only_by(#[trigger] st.restore[r], orig, p)
        }),
    decreases keys.len(),
{
    let start = ExitState { leases: orig, restore: Seq::empty() };
    if keys.len() == 0 {
        assert forall|i: int| 0 <= i < orig.len() implies descends(#[trigger] orig[i], orig, p) by {
            assert(orig[i].resource_key == orig[i].resource_key);
        }
    } else {
        lemma_exit_keys_restores(orig, keys.drop_last(), p);
        let st = exit_keys(start, keys.drop_last(), p);
        let key = keys.last();
        let next = exit_step(st, key, p);
        lemma_lease_index(st.leases, key);
        let i = lease_index(st.leases, key);
        if i >= 0 {
            let lease = st.leases[i];
            assert(descends(lease, orig, p));
            let m = choose|m: int|
                0 <= m < orig.len() && #[trigger] orig[m].resource_key == lease.resource_key
                    && orig[m].desired == lease.desired && orig[m].applied == lease.applied && (
                lease.owners == orig[m].owners || lease.owners == remove_all(orig[m].owners, p));
            lemma_remove_all_idempotent(orig[m].owners, p);
            let owners = remove_all(lease.owners, p);
            assert(owners == remove_all(orig[m].owners, p));
            if owners.len() == 0 {
                assert forall|j: int| 0 <= j < next.leases.len() implies descends(
                    #[trigger] next.leases[j],
                    orig,
                    p,
                ) by {
                    let j0 = if j < i { j } else { j + 1 };
                    assert(next.leases[j] == st.leases[j0]);
                }
                assert forall|r: int| 0 <= r < next.restore.len() implies held_only_by(
                    #[trigger] next.restore[r],
                    orig,
                    p,
                ) by {
                    if r < st.restore.len() {
                        assert(next.restore[r] == st.restore[r]);
                    } else {
                        assert(orig[m].applied == Some(next.restore[r]));
                    }
                }
            } else {
                assert forall|j: int| 0 <= j < next.leases.len() implies descends(
                    #[trigger] next.leases[j],
                    orig,
                    p,
                ) by {
                    if j == i {
                        assert(orig[m].resource_key == next.leases[j].resource_key);
                    } else {
                        assert(next.leases[j] == st.leases[j]);
                    }
                }
            }
        }
    }
}

/// An exit restores only what nobody else holds: every restore that
/// profile `p`'s last exit plans belongs to a lease that `p` alone held.
pub proof fn lemma_exit_restores_only_unshared(leases: Seq<LeaseView>, owned: Seq<Seq<char>>, p: GameProfileId)
    ensures
        forall|r: int|
            0 <= r < spec_exit(leases, owned, p).restore.len() ==> held_only_by(
                #[trigger] spec_exit(leases, owned, p).restore[r],
                leases,
                p,
            ),
{
    lemma_exit_keys_restores(leases, owned, p);
}

} // verus!
