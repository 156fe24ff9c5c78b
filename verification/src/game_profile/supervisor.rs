//! The profile supervisor: a state machine from observed launches and exits
//! to calls of the sink.

use vstd::prelude::*;
use crate::ids::random_uuid_bytes;
use super::lease::{
    add_lease_owner, apply_actions, apply_intents, clone_applied, clone_intents, contains_reference,
    decide_action, exit_keys, find_lease, join_actions, join_intents, keys_unique, lease_views,
    lemma_lease_index, pick, push_unique_str, remove_all, spec_conflict_keys, spec_decisions,
    spec_exit, spec_launch, spec_selected, strs, without_owner, ActionDecision, ExitState,
    LaunchState, LeaseView, ResourceLease,
};
use super::{
    planned_view, planned_views, AppliedAction, ApplyRecord, RollbackRecord, EventOutcome, ExitOutcome, GameProfile, GameProfileId,
    InstanceKey, LaunchOutcome, ObservedEvent, PlannedAction, PlannedView, ProfileActionSink, ProfileError,
    ProfileSessionId, ResourceIntent,
};

verus! {

/// The running instances of one profile.
pub struct InstanceSet {
    pub profile: GameProfileId,
    pub instances: Vec<InstanceKey>,
}

/// A profile's current session and the resource keys it owns, in the order
/// it took them.
pub struct ActiveSession {
    pub profile: GameProfileId,
    pub session: ProfileSessionId,
    pub owned_resources: Vec<String>,
}

/// The position of the last element that satisfies `f`, or -1.
pub open spec fn last_index<T>(s: Seq<T>, f: spec_fn(T) -> bool) -> int
    decreases s.len(),
{
    if s.len() == 0 {
        -1
    } else if f(s.last()) {
        s.len() - 1
    } else {
        last_index(s.drop_last(), f)
    }
}

pub proof fn lemma_last_index<T>(s: Seq<T>, f: spec_fn(T) -> bool)
    ensures
        -1 <= last_index(s, f) < s.len(),
        last_index(s, f) >= 0 ==> f(s[last_index(s, f)]),
        last_index(s, f) >= 0 ==> forall|j: int| last_index(s, f) < j < s.len() ==> !f(s[j]),
        last_index(s, f) == -1 ==> forall|j: int| 0 <= j < s.len() ==> !f(s[j]),
    decreases s.len(),
{
    if s.len() > 0 {
        lemma_last_index(s.drop_last(), f);
        assert forall|j: int| 0 <= j < s.len() - 1 implies s[j] == s.drop_last()[j] by {}
    }
}

/// Two sequences on which `f` agrees position by position have the same
/// last match.
pub proof fn lemma_last_index_agree<T>(s1: Seq<T>, s2: Seq<T>, f: spec_fn(T) -> bool)
    requires
        s1.len() == s2.len(),
        forall|j: int| 0 <= j < s1.len() ==> f(s1[j]) == f(s2[j]),
    ensures
        last_index(s1, f) == last_index(s2, f),
    decreases s1.len(),
{
    if s1.len() > 0 {
        lemma_last_index_agree(s1.drop_last(), s2.drop_last(), f);
    }
}

pub open spec fn set_of(p: GameProfileId) -> spec_fn(InstanceSet) -> bool {
    |s: InstanceSet| s.profile == p
}

pub open spec fn session_for(p: GameProfileId) -> spec_fn(ActiveSession) -> bool {
    |s: ActiveSession| s.profile == p
}

pub open spec fn profile_with(id: GameProfileId) -> spec_fn(GameProfile) -> bool {
    |g: GameProfile| g.id == id
}

/// The registered profile with this ID.
pub open spec fn spec_profile(profiles: Seq<GameProfile>, id: GameProfileId) -> Option<GameProfile> {
    let i = last_index(profiles, profile_with(id));
    if i < 0 {
        None
    } else {
        Some(profiles[i])
    }
}

/// The running instances of a profile.
pub open spec fn spec_instances(sets: Seq<InstanceSet>, p: GameProfileId) -> Seq<InstanceKey> {
    let i = last_index(sets, set_of(p));
    if i < 0 {
        Seq::empty()
    } else {
        sets[i].instances@
    }
}

/// A profile's session and the keys it owns.
pub open spec fn spec_session(sessions: Seq<ActiveSession>, p: GameProfileId) -> Option<
    (ProfileSessionId, Seq<Seq<char>>),
> {
    let i = last_index(sessions, session_for(p));
    if i < 0 {
        None
    } else {
        Some((sessions[i].session, strs(sessions[i].owned_resources@)))
    }
}

pub open spec fn unique_by<T>(s: Seq<T>, same: spec_fn(T, T) -> bool) -> bool {
    forall|i: int, j: int| 0 <= i < j < s.len() ==> !same(s[i], s[j])
}

/// The last match is at `i` when `i` matches and nothing after it does.
pub proof fn lemma_last_index_at<T>(s: Seq<T>, f: spec_fn(T) -> bool, i: int)
    requires
        0 <= i < s.len(),
        f(s[i]),
        forall|j: int| i < j < s.len() ==> !f(s[j]),
    ensures
        last_index(s, f) == i,
    decreases s.len(),
{
    if s.len() - 1 != i {
        lemma_last_index_at(s.drop_last(), f, i);
    }
}

/// Appending an element that does not match leaves the last match alone.
pub proof fn lemma_last_index_push<T>(s: Seq<T>, f: spec_fn(T) -> bool, x: T)
    ensures
        f(x) ==> last_index(s.push(x), f) == s.len(),
        !f(x) ==> last_index(s.push(x), f) == last_index(s, f),
{
    assert(s.push(x).drop_last() =~= s);
}

/// Replacing an element by one that agrees with it on `f` leaves the last
/// match alone.
pub proof fn lemma_last_index_update<T>(s: Seq<T>, f: spec_fn(T) -> bool, i: int, x: T)
    requires
        0 <= i < s.len(),
        f(s[i]) == f(x),
    ensures
        last_index(s.update(i, x), f) == last_index(s, f),
{
    lemma_last_index_agree(s.update(i, x), s, f);
}

fn find_profile(profiles: &Vec<GameProfile>, id: GameProfileId) -> (r: Option<usize>)
    ensures
        r matches Some(i) ==> i < profiles.len() && i == last_index(profiles@, profile_with(id)),
        r is None ==> last_index(profiles@, profile_with(id)) == -1,
{
    let mut found: Option<usize> = None;
    let mut k: usize = 0;
    while k < profiles.len()
        invariant
            k <= profiles.len(),
            found matches Some(i) ==> i < k && i == last_index(profiles@.take(k as int), profile_with(id)),
            found is None ==> last_index(profiles@.take(k as int), profile_with(id)) == -1,
        decreases profiles.len() - k,
    {
        proof {
            assert(profiles@.take(k as int + 1).drop_last() =~= profiles@.take(k as int));
        }
        if profiles[k].id == id {
            found = Some(k);
        }
        k += 1;
    }
    proof {
        assert(profiles@.take(profiles.len() as int) =~= profiles@);
    }
    found
}

fn find_instance_set(sets: &Vec<InstanceSet>, p: GameProfileId) -> (r: Option<usize>)
    ensures
        r matches Some(i) ==> i < sets.len() && i == last_index(sets@, set_of(p)),
        r is None ==> last_index(sets@, set_of(p)) == -1,
{
    let mut found: Option<usize> = None;
    let mut k: usize = 0;
    while k < sets.len()
        invariant
            k <= sets.len(),
            found matches Some(i) ==> i < k && i == last_index(sets@.take(k as int), set_of(p)),
            found is None ==> last_index(sets@.take(k as int), set_of(p)) == -1,
        decreases sets.len() - k,
    {
        proof {
            assert(sets@.take(k as int + 1).drop_last() =~= sets@.take(k as int));
        }
        if sets[k].profile == p {
            found = Some(k);
        }
        k += 1;
    }
    proof {
        assert(sets@.take(sets.len() as int) =~= sets@);
    }
    found
}

fn find_session(sessions: &Vec<ActiveSession>, p: GameProfileId) -> (r: Option<usize>)
    ensures
        r matches Some(i) ==> i < sessions.len() && i == last_index(sessions@, session_for(p)),
        r is None ==> last_index(sessions@, session_for(p)) == -1,
{
    let mut found: Option<usize> = None;
    let mut k: usize = 0;
    while k < sessions.len()
        invariant
            k <= sessions.len(),
            found matches Some(i) ==> i < k && i == last_index(sessions@.take(k as int), session_for(p)),
            found is None ==> last_index(sessions@.take(k as int), session_for(p)) == -1,
        decreases sessions.len() - k,
    {
        proof {
            assert(sessions@.take(k as int + 1).drop_last() =~= sessions@.take(k as int));
        }
        if sessions[k].profile == p {
            found = Some(k);
        }
        k += 1;
    }
    proof {
        assert(sessions@.take(sessions.len() as int) =~= sessions@);
    }
    found
}

fn contains_instance(v: &Vec<InstanceKey>, x: InstanceKey) -> (r: bool)
    ensures
        r == v@.contains(x),
{
    let mut k: usize = 0;
    while k < v.len()
        invariant
            k <= v.len(),
            forall|j: int| 0 <= j < k ==> v@[j] != x,
        decreases v.len() - k,
    {
        if v[k] == x {
            assert(v@[k as int] == x);
            return true;
        }
        k += 1;
    }
    false
}

fn without_instance(v: &Vec<InstanceKey>, x: InstanceKey) -> (r: Vec<InstanceKey>)
    ensures
        r@ == remove_all(v@, x),
{
    let mut r: Vec<InstanceKey> = Vec::new();
    let mut k: usize = 0;
    while k < v.len()
        invariant
            k <= v.len(),
            r@ == remove_all(v@.take(k as int), x),
        decreases v.len() - k,
    {
        assert(v@.take(k as int + 1).drop_last() =~= v@.take(k as int));
        if v[k] != x {
            r.push(v[k]);
        }
        k += 1;
    }
    assert(v@.take(v.len() as int) =~= v@);
    r
}

/// The Actions decided `Apply` among the first `n`, in order, as the sink
/// receives them.
pub open spec fn spec_apply_request(actions: Seq<PlannedAction>, decisions: Seq<ActionDecision>, n: nat) -> Seq<
    PlannedView,
>
    decreases n,
{
    if n == 0 {
        Seq::empty()
    } else {
        let before = spec_apply_request(actions, decisions, (n - 1) as nat);
        if decisions[n - 1] == ActionDecision::Apply {
            before.push(planned_view(actions[n - 1]))
        } else {
            before
        }
    }
}

/// The Actions handed to the sink to restore, in order.
pub open spec fn handed_actions(log: Seq<RollbackRecord>) -> Seq<AppliedAction> {
    log.map_values(|e: RollbackRecord| e.0)
}

/// Whether the sink answered each restore with success, in order.
pub open spec fn reply_oks(log: Seq<RollbackRecord>) -> Seq<bool> {
    log.map_values(|e: RollbackRecord| e.1 is Ok)
}

/// The entries a log gained: `after` starts with `before`.
pub open spec fn appended<T>(before: Seq<T>, after: Seq<T>) -> Seq<T> {
    after.subrange(before.len() as int, after.len() as int)
}

pub open spec fn extends<T>(before: Seq<T>, after: Seq<T>) -> bool {
    before.len() <= after.len() && after.take(before.len() as int) == before
}

/// The message of the error returned when no fresh session ID could be made.
pub open spec fn no_session_id_message() -> Seq<char> {
    "プロファイルのセッションIDを作成できませんでした。"@
}

/// The message of the error returned when the sink hands back a different
/// number of restore references than Actions it was asked to apply.
pub open spec fn reference_count_message() -> Seq<char> {
    "sink が適用 Action 数と一致する復元参照を返しませんでした。"@
}

/// Checks the sink's reply to an apply request of `requested` Actions: its
/// error is passed on, and a list of restore references of any other length
/// than `requested` is refused.
pub fn accept_applied(requested: usize, reply: Result<Vec<AppliedAction>, ProfileError>) -> (r: Result<
    Vec<AppliedAction>,
    ProfileError,
>)
    ensures
        match reply {
            Err(e) => r == Err::<Vec<AppliedAction>, ProfileError>(e),
            Ok(refs) => if refs@.len() == requested {
                r == Ok::<Vec<AppliedAction>, ProfileError>(refs)
            } else {
                r matches Err(ProfileError::Invariant(m)) && m@ == reference_count_message()
            },
        },
{
    match reply {
        Err(e) => Err(e),
        Ok(refs) => {
            if refs.len() == requested {
                Ok(refs)
            } else {
                Err(ProfileError::Invariant("sink が適用 Action 数と一致する復元参照を返しませんでした。".to_owned()))
            }
        },
    }
}

fn clone_planned(a: &PlannedAction) -> (r: PlannedAction)
    ensures
        r.action_id == a.action_id,
        r.parameters_json == a.parameters_json,
        r.intents@ == a.intents@,
        r.optional == a.optional,
{
    PlannedAction {
        action_id: a.action_id,
        parameters_json: a.parameters_json.clone(),
        intents: clone_intents(&a.intents),
        optional: a.optional,
    }
}

pub open spec fn same_session_profile(a: ActiveSession, b: ActiveSession) -> bool {
    a.profile == b.profile
}

pub open spec fn same_set_profile(a: InstanceSet, b: InstanceSet) -> bool {
    a.profile == b.profile
}

/// Records `p`'s session, replacing the one it had.
fn set_session(sessions: &mut Vec<ActiveSession>, p: GameProfileId, session: ProfileSessionId, owned: Vec<
    String,
>)
    requires
        unique_by(old(sessions)@, |a: ActiveSession, b: ActiveSession| a.profile == b.profile),
    ensures
        unique_by(final(sessions)@, |a: ActiveSession, b: ActiveSession| a.profile == b.profile),
        spec_session(final(sessions)@, p) == Some((session, strs(owned@))),
        forall|q: GameProfileId| q != p ==> spec_session(final(sessions)@, q) == spec_session(old(sessions)@, q),
{
    let ghost before = sessions@;
    let ghost owned_view = strs(owned@);
    let entry = ActiveSession { profile: p, session, owned_resources: owned };
    match find_session(sessions, p) {
        Some(i) => {
            sessions.set(i, entry);
            proof {
                assert(sessions@ == before.update(i as int, entry));
                lemma_last_index(before, session_for(p));
                lemma_last_index_at(sessions@, session_for(p), i as int);
                assert forall|q: GameProfileId| q != p implies spec_session(sessions@, q) == spec_session(
                    before,
                    q,
                ) by {
                    lemma_last_index_update(before, session_for(q), i as int, entry);
                    lemma_last_index(before, session_for(q));
                }
            }
        },
        None => {
            sessions.push(entry);
            proof {
                lemma_last_index(before, session_for(p));
                lemma_last_index_push(before, session_for(p), entry);
                assert forall|q: GameProfileId| q != p implies spec_session(sessions@, q) == spec_session(
                    before,
                    q,
                ) by {
                    lemma_last_index_push(before, session_for(q), entry);
                    lemma_last_index(before, session_for(q));
                }
            }
        },
    }
}

/// Starts and stops profiles from launch and exit events, and keeps the
/// resource leases between them.
pub struct ProfileSupervisor<S: ProfileActionSink> {
    sink: S,
    profiles: Vec<GameProfile>,
    active_instances: Vec<InstanceSet>,
    sessions: Vec<ActiveSession>,
    leases: Vec<ResourceLease>,
}

impl<S: ProfileActionSink> ProfileSupervisor<S> {
    pub closed spec fn sink_state(&self) -> S {
        self.sink
    }

    pub closed spec fn profile_of(&self, id: GameProfileId) -> Option<GameProfile> {
        spec_profile(self.profiles@, id)
    }

    pub closed spec fn instances_of(&self, p: GameProfileId) -> Seq<InstanceKey> {
        spec_instances(self.active_instances@, p)
    }

    pub closed spec fn session_of(&self, p: GameProfileId) -> Option<(ProfileSessionId, Seq<Seq<char>>)> {
        spec_session(self.sessions@, p)
    }

    pub closed spec fn lease_state(&self) -> Seq<LeaseView> {
        lease_views(self.leases@)
    }

    /// What a launch event does, from the state before it to the state after.
    pub open spec fn launch_outcome(
        &self,
        next: &Self,
        p: GameProfileId,
        inst: InstanceKey,
        r: Result<LaunchOutcome, ProfileError>,
    ) -> bool {
        let insts = self.instances_of(p);
        if self.profile_of(p) is None || !self.profile_of(p)->0.automation_enabled {
            r == Ok::<LaunchOutcome, ProfileError>(LaunchOutcome::Ignored) && *next == *self
        } else if insts.contains(inst) {
            r == Ok::<LaunchOutcome, ProfileError>(LaunchOutcome::AlreadyActive) && *next == *self
        } else {
            &&& next.instances_of(p) == insts.push(inst)
            &&& forall|q: GameProfileId| next.profile_of(q) == self.profile_of(q)
            &&& forall|q: GameProfileId|
                q != p ==> next.instances_of(q) == self.instances_of(q) && next.session_of(q)
                    == self.session_of(q)
            &&& if insts.len() > 0 {
                &&& r == Ok::<LaunchOutcome, ProfileError>(LaunchOutcome::AlreadyActive)
                &&& next.sink_state() == self.sink_state()
                &&& next.lease_state() == self.lease_state()
                &&& next.session_of(p) == self.session_of(p)
            } else {
                self.started(next, self.profile_of(p)->0, r)
            }
        }
    }

    /// What the first instance of profile `g` starting does: either no fresh
    /// session ID could be made, and nothing changed; or the session starts as
    /// `session_started` says.
    pub open spec fn started(&self, next: &Self, g: GameProfile, r: Result<LaunchOutcome, ProfileError>) -> bool {
        ||| {
            &&& r matches Err(ProfileError::Invariant(m)) && m@ == no_session_id_message()
            &&& next.sink_state() == self.sink_state()
            &&& next.lease_state() == self.lease_state()
            &&& next.session_of(g.id) == self.session_of(g.id)
        }
        ||| self.session_started(next, g, r)
    }

    /// A session of profile `g` starting: a conflict stops it without asking
    /// the sink for anything; otherwise the sink is handed, with the session,
    /// exactly the Actions decided `Apply`, once and only when there are any.
    /// What it applied opens or joins leases as `spec_launch` says, and the
    /// session owns those keys. When nothing is to be applied the launch
    /// succeeds without the sink. When the sink fails, or hands back the wrong
    /// number of references, leases and session stay as they were.
    pub open spec fn session_started(&self, next: &Self, g: GameProfile, r: Result<LaunchOutcome, ProfileError>) -> bool {
        let leases = self.lease_state();
        let decisions = spec_decisions(leases, g.actions@, g.conflict_policy);
        let conflicts = spec_conflict_keys(g.actions@, decisions, g.actions@.len());
        let request = spec_apply_request(g.actions@, decisions, g.actions@.len());
        let log = self.sink_state().apply_log();
        &&& next.sink_state().rollback_log() == self.sink_state().rollback_log()
        &&& if conflicts.len() > 0 {
            &&& r matches Ok(LaunchOutcome::ConflictStopped { conflicts: c }) && strs(c@) == conflicts
            &&& next.sink_state() == self.sink_state()
            &&& next.lease_state() == leases
            &&& next.session_of(g.id) matches Some((_, owned)) && owned.len() == 0
        } else {
            match r {
                Ok(LaunchOutcome::Applied { session, applied, joined }) => {
                    let st = spec_launch(leases, g.actions@, g.conflict_policy, applied@, g.id);
                    &&& request.len() == 0 ==> next.sink_state() == self.sink_state() && applied@.len() == 0
                    &&& request.len() > 0 ==> next.sink_state().apply_log() == log.push(
                        (session, request, Ok::<Vec<AppliedAction>, ProfileError>(applied)),
                    )
                    &&& applied@.len() == spec_selected(
                        g.actions@,
                        decisions,
                        ActionDecision::Apply,
                        g.actions@.len(),
                    ).len()
                    &&& next.lease_state() == st.leases
                    &&& strs(joined@) == st.joined
                    &&& next.session_of(g.id) == Some((session, st.owned))
                },
                Err(e) => {
                    let sent = next.sink_state().apply_log();
                    &&& request.len() > 0
                    &&& sent.len() == log.len() + 1
                    &&& sent.drop_last() == log
                    &&& sent.last().1 == request
                    &&& match sent.last().2 {
                        Err(answer) => e == answer,
                        Ok(refs) => refs@.len() != request.len() && (e matches ProfileError::Invariant(m)
                            && m@ == reference_count_message()),
                    }
                    &&& next.lease_state() == leases
                    &&& next.session_of(g.id) == self.session_of(g.id)
                },
                _ => false,
            }
        }
    }

    /// What an exit event does.
    pub open spec fn exit_outcome(
        &self,
        next: &Self,
        p: GameProfileId,
        inst: InstanceKey,
        r: Result<ExitOutcome, ProfileError>,
    ) -> bool {
        let insts = self.instances_of(p);
        let rest = remove_all(insts, inst);
        if !insts.contains(inst) {
            r == Ok::<ExitOutcome, ProfileError>(ExitOutcome::Ignored) && *next == *self
        } else {
            &&& forall|q: GameProfileId| next.profile_of(q) == self.profile_of(q)
            &&& forall|q: GameProfileId|
                q != p ==> next.instances_of(q) == self.instances_of(q) && next.session_of(q)
                    == self.session_of(q)
            &&& next.sink_state().apply_log() == self.sink_state().apply_log()
            &&& if rest.len() > 0 {
                &&& r == Ok::<ExitOutcome, ProfileError>(ExitOutcome::StillActive)
                &&& next.instances_of(p) == rest
                &&& next.sink_state() == self.sink_state()
                &&& next.lease_state() == self.lease_state()
                &&& next.session_of(p) == self.session_of(p)
            } else {
                &&& next.instances_of(p).len() == 0
                &&& next.session_of(p) is None
                &&& match self.session_of(p) {
                    None => {
                        &&& r == Ok::<ExitOutcome, ProfileError>(ExitOutcome::Ignored)
                        &&& next.sink_state() == self.sink_state()
                        &&& next.lease_state() == self.lease_state()
                    },
                    Some((_, owned)) => r matches Ok(o) && self.ended(next, p, owned, o),
                }
            }
        }
    }

    /// What the last exit of profile `p`, owning `owned`, does: every lease
    /// drops `p`; those left without owners are dropped and the sink is asked
    /// to restore them in reverse of the order they were planned; what the
    /// sink answered for each decides whether it is reported restored or
    /// failed.
    pub open spec fn ended(&self, next: &Self, p: GameProfileId, owned: Seq<Seq<char>>, r: ExitOutcome) -> bool {
        let ex = spec_exit(self.lease_state(), owned, p);
        let plan = ex.restore.reverse();
        let before = self.sink_state().rollback_log();
        let after = next.sink_state().rollback_log();
        let oks = reply_oks(appended(before, after));
        &&& next.lease_state() == ex.leases
        &&& extends(before, after)
        &&& handed_actions(appended(before, after)) == plan
        &&& next.sink_state().apply_log() == self.sink_state().apply_log()
        &&& match r {
            ExitOutcome::Restored { rolled_back } => rolled_back@ == pick(plan, oks, true) && pick(
                plan,
                oks,
                false,
            ).len() == 0,
            ExitOutcome::PartiallyFailed { rolled_back, failed } => rolled_back@ == pick(plan, oks, true)
                && failed@ == pick(plan, oks, false) && failed@.len() > 0,
            _ => false,
        }
    }

    /// Each profile has at most one instance set and one session, and each
    /// resource at most one lease.
    pub closed spec fn wf(&self) -> bool {
        &&& unique_by(self.active_instances@, |a: InstanceSet, b: InstanceSet| a.profile == b.profile)
        &&& unique_by(self.sessions@, |a: ActiveSession, b: ActiveSession| a.profile == b.profile)
        &&& keys_unique(lease_views(self.leases@))
    }

    pub fn new(sink: S) -> (r: Self)
        ensures
            r.wf(),
            r.sink_state() == sink,
            r.lease_state() == Seq::<LeaseView>::empty(),
            forall|p: GameProfileId|
                r.profile_of(p) is None && r.instances_of(p).len() == 0 && r.session_of(p) is None,
    {
        ProfileSupervisor {
            sink,
            profiles: Vec::new(),
            active_instances: Vec::new(),
            sessions: Vec::new(),
            leases: Vec::new(),
        }
    }

    /// Registers a profile, replacing any earlier one with the same ID.
    pub fn register_profile(&mut self, profile: GameProfile)
        ensures
            final(self).profile_of(profile.id) == Some(profile),
            forall|q: GameProfileId| q != profile.id ==> final(self).profile_of(q) == old(self).profile_of(q),
            final(self).sink_state() == old(self).sink_state(),
            final(self).lease_state() == old(self).lease_state(),
            forall|q: GameProfileId|
                final(self).instances_of(q) == old(self).instances_of(q)
                && final(self).session_of(q) == old(self).session_of(q),
            old(self).wf() ==> final(self).wf(),
    {
        let ghost id = profile.id;
        let ghost before = self.profiles@;
        match find_profile(&self.profiles, profile.id) {
            Some(i) => {
                self.profiles.set(i, profile);
                proof {
                    lemma_last_index(before, profile_with(id));
                    lemma_last_index_at(self.profiles@, profile_with(id), i as int);
                    assert forall|q: GameProfileId| q != id implies spec_profile(self.profiles@, q)
                        == spec_profile(before, q) by {
                        assert(self.profiles@ == before.update(i as int, self.profiles@[i as int]));
                        lemma_last_index_update(before, profile_with(q), i as int, self.profiles@[i as int]);
                        lemma_last_index(before, profile_with(q));
                    }
                }
            },
            None => {
                self.profiles.push(profile);
                proof {
                    lemma_last_index_push(before, profile_with(id), profile);
                    assert forall|q: GameProfileId| q != id implies spec_profile(self.profiles@, q)
                        == spec_profile(before, q) by {
                        lemma_last_index_push(before, profile_with(q), profile);
                        lemma_last_index(before, profile_with(q));
                    }
                }
            },
        }
    }

    /// The first instance of profile `pidx` started: draw a fresh session ID
    /// and start the session under it.
    fn start_session(&mut self, pidx: usize) -> (r: Result<LaunchOutcome, ProfileError>)
        requires
            pidx < old(self).profiles.len(),
            keys_unique(lease_views(old(self).leases@)),
            unique_by(old(self).sessions@, |a: ActiveSession, b: ActiveSession| a.profile == b.profile),
        ensures
            final(self).profiles == old(self).profiles,
            final(self).active_instances == old(self).active_instances,
            keys_unique(lease_views(final(self).leases@)),
            unique_by(final(self).sessions@, |a: ActiveSession, b: ActiveSession| a.profile == b.profile),
            forall|q: GameProfileId|
                q != old(self).profiles@[pidx as int].id ==> spec_session(final(self).sessions@, q)
                    == spec_session(old(self).sessions@, q),
            old(self).started(final(self), old(self).profiles@[pidx as int], r),
    {
        match random_uuid_bytes() {
            Some(b) => self.start_session_with(pidx, ProfileSessionId(b)),
            None => Err(ProfileError::Invariant("プロファイルのセッションIDを作成できませんでした。".to_owned())),
        }
    }

    /// Starts the session `session` of profile `pidx`: decide every Action
    /// against the current leases, stop on a conflict, otherwise apply what
    /// is new through the sink and record the leases and the session.
    #[verifier::rlimit(50)]
    fn start_session_with(&mut self, pidx: usize, session: ProfileSessionId) -> (r: Result<LaunchOutcome, ProfileError>)
        requires
            pidx < old(self).profiles.len(),
            keys_unique(lease_views(old(self).leases@)),
            unique_by(old(self).sessions@, |a: ActiveSession, b: ActiveSession| a.profile == b.profile),
        ensures
            final(self).profiles == old(self).profiles,
            final(self).active_instances == old(self).active_instances,
            keys_unique(lease_views(final(self).leases@)),
            unique_by(final(self).sessions@, |a: ActiveSession, b: ActiveSession| a.profile == b.profile),
            forall|q: GameProfileId|
                q != old(self).profiles@[pidx as int].id ==> spec_session(final(self).sessions@, q)
                    == spec_session(old(self).sessions@, q),
            old(self).session_started(final(self), old(self).profiles@[pidx as int], r),
            r matches Ok(LaunchOutcome::Applied { session: s, .. }) ==> s == session,
            r matches Ok(LaunchOutcome::ConflictStopped { .. }) ==> spec_session(
                final(self).sessions@,
                old(self).profiles@[pidx as int].id,
            ) matches Some((s, _)) && s == session,
    {
        let ghost g = self.profiles@[pidx as int];
        let ghost leases0 = lease_views(self.leases@);
        let p = self.profiles[pidx].id;
        let policy = self.profiles[pidx].conflict_policy;
        let ghost sink0 = self.sink;
        let n = self.profiles[pidx].actions.len();

        let mut decisions: Vec<ActionDecision> = Vec::new();
        let mut i: usize = 0;
        while i < n
            invariant
                i <= n,
                n == g.actions@.len(),
                self.profiles@[pidx as int] == g,
                pidx < self.profiles.len(),
                leases0 == lease_views(self.leases@),
                decisions@ == spec_decisions(leases0, g.actions@, policy).take(i as int),
                policy == g.conflict_policy,
            decreases n - i,
        {
            let d = decide_action(&self.leases, &self.profiles[pidx].actions[i], policy);
            decisions.push(d);
            assert(decisions@ =~= spec_decisions(leases0, g.actions@, policy).take(i as int + 1));
            i += 1;
        }
        assert(decisions@ =~= spec_decisions(leases0, g.actions@, policy));
        let ghost ds = decisions@;

        let mut conflicts: Vec<String> = Vec::new();
        let mut i: usize = 0;
        while i < n
            invariant
                i <= n,
                n == g.actions@.len(),
                self.profiles@[pidx as int] == g,
                pidx < self.profiles.len(),
                decisions@ == ds,
                ds.len() == n,
                strs(conflicts@) == spec_conflict_keys(g.actions@, ds, i as nat),
            decreases n - i,
        {
            if decisions[i] == ActionDecision::Conflict {
                let ghost keys_before = strs(conflicts@);
                let ghost intents = g.actions@[i as int].intents@;
                let m = self.profiles[pidx].actions[i].intents.len();
                let mut j: usize = 0;
                while j < m
                    invariant
                        j <= m,
                        m == intents.len(),
                        intents == g.actions@[i as int].intents@,
                        self.profiles@[pidx as int] == g,
                        pidx < self.profiles.len(),
                        i < n,
                        n == g.actions@.len(),
                        strs(conflicts@) == keys_before + intents.take(j as int).map_values(
                            |x: ResourceIntent| x.resource_key@,
                        ),
                    decreases m - j,
                {
                    let key = self.profiles[pidx].actions[i].intents[j].resource_key.clone();
                    let ghost conflicts_before = conflicts@;
                    conflicts.push(key);
                    assert(strs(conflicts@) =~= strs(conflicts_before).push(intents[j as int].resource_key@));
                    assert(intents.take(j as int + 1).map_values(|x: ResourceIntent| x.resource_key@)
                        =~= intents.take(j as int).map_values(|x: ResourceIntent| x.resource_key@).push(
                        intents[j as int].resource_key@,
                    ));
                    assert(strs(conflicts@) =~= keys_before + intents.take(j as int + 1).map_values(
                        |x: ResourceIntent| x.resource_key@,
                    ));
                    j += 1;
                }
                assert(intents.take(m as int) =~= intents);
            }
            i += 1;
        }

        if conflicts.len() > 0 {
            let none: Vec<String> = Vec::new();
            proof {
                assert(strs(none@) =~= Seq::<Seq<char>>::empty());
            }
            set_session(&mut self.sessions, p, session, none);
            return Ok(LaunchOutcome::ConflictStopped { conflicts });
        }

        let ghost acts = spec_selected(g.actions@, ds, ActionDecision::Apply, n as nat);
        let mut to_apply: Vec<PlannedAction> = Vec::new();
        let mut i: usize = 0;
        while i < n
            invariant
                i <= n,
                n == g.actions@.len(),
                self.profiles@[pidx as int] == g,
                pidx < self.profiles.len(),
                decisions@ == ds,
                ds.len() == n,
                to_apply@.map_values(|a: PlannedAction| a.intents@) == spec_selected(
                    g.actions@,
                    ds,
                    ActionDecision::Apply,
                    i as nat,
                ),
                to_apply@.map_values(|a: PlannedAction| planned_view(a)) == spec_apply_request(
                    g.actions@,
                    ds,
                    i as nat,
                ),
            decreases n - i,
        {
            if decisions[i] == ActionDecision::Apply {
                let copy = clone_planned(&self.profiles[pidx].actions[i]);
                to_apply.push(copy);
            }
            assert(to_apply@.map_values(|a: PlannedAction| planned_view(a)) =~= spec_apply_request(
                g.actions@,
                ds,
                i as nat + 1,
            ));
            assert(to_apply@.map_values(|a: PlannedAction| a.intents@) =~= spec_selected(
                g.actions@,
                ds,
                ActionDecision::Apply,
                i as nat + 1,
            ));
            i += 1;
        }

        let ghost request = spec_apply_request(g.actions@, ds, n as nat);
        assert(to_apply@.map_values(|a: PlannedAction| planned_view(a)).len() == request.len());
        assert(planned_views(to_apply@) =~= request);
        let applied: Vec<AppliedAction> = if to_apply.len() == 0 {
            Vec::new()
        } else {
            let actions = to_apply.as_slice();
            let reply = self.sink.apply(session, actions);
            proof {
                assert(actions@ == to_apply@);
                assert(self.sink.apply_log().drop_last() =~= sink0.apply_log());
                assert(request.len() == to_apply@.len());
                assert(self.sink.apply_log().last().1 == request);
                assert(self.lease_state() == old(self).lease_state());
                assert(self.session_of(g.id) == old(self).session_of(g.id));
            }
            let ghost answer = reply;
            match accept_applied(to_apply.len(), reply) {
                Ok(refs) => {
                    assert(answer == Ok::<Vec<AppliedAction>, ProfileError>(refs));
                    refs
                },
                Err(e) => {
                    assert(old(self).session_started(&*self, g, Err(e)));
                    return Err(e);
                },
            }
        };
        let ghost sink_after = self.sink;
        assert(request.len() == 0 ==> sink_after == sink0 && applied@.len() == 0);
        assert(request.len() > 0 ==> sink_after.apply_log() == sink0.apply_log().push(
            (session, request, Ok::<Vec<AppliedAction>, ProfileError>(applied)),
        ));
        let ghost refs = applied@;
        let ghost start = LaunchState { leases: leases0, owned: Seq::empty(), joined: Seq::empty() };
        assert(to_apply@.map_values(|a: PlannedAction| a.intents@).len() == acts.len());

        let mut owned: Vec<String> = Vec::new();
        let mut joined: Vec<String> = Vec::new();
        let mut a: usize = 0;
        while a < to_apply.len()
            invariant
                a <= to_apply.len(),
                to_apply.len() == applied.len(),
                applied@ == refs,
                acts.len() == to_apply.len(),
                to_apply@.map_values(|x: PlannedAction| x.intents@) == acts,
                keys_unique(lease_views(self.leases@)),
                lease_views(self.leases@) == apply_actions(start, acts, refs, p, a as nat).leases,
                strs(owned@) == apply_actions(start, acts, refs, p, a as nat).owned,
                strs(joined@) == apply_actions(start, acts, refs, p, a as nat).joined,
                self.profiles == old(self).profiles,
                self.active_instances == old(self).active_instances,
                self.sessions == old(self).sessions,
                self.sink == sink_after,
            decreases to_apply.len() - a,
        {
            let ghost base = apply_actions(start, acts, refs, p, a as nat);
            let ghost intents = acts[a as int];
            assert(intents == to_apply@[a as int].intents@);
            let m = to_apply[a].intents.len();
            let mut j: usize = 0;
            while j < m
                invariant
                    j <= m,
                    m == intents.len(),
                    a < to_apply.len(),
                    to_apply.len() == applied.len(),
                    applied@ == refs,
                    intents == to_apply@[a as int].intents@,
                    keys_unique(lease_views(self.leases@)),
                    lease_views(self.leases@) == apply_intents(base, intents.take(j as int), refs[a as int], p).leases,
                    strs(owned@) == apply_intents(base, intents.take(j as int), refs[a as int], p).owned,
                    strs(joined@) == apply_intents(base, intents.take(j as int), refs[a as int], p).joined,
                    self.profiles == old(self).profiles,
                    self.active_instances == old(self).active_instances,
                    self.sessions == old(self).sessions,
                    self.sink == sink_after,
                decreases m - j,
            {
                proof {
                    assert(intents.take(j as int + 1).drop_last() =~= intents.take(j as int));
                }
                let ghost views = lease_views(self.leases@);
                let intent = &to_apply[a].intents[j];
                push_unique_str(&mut owned, &intent.resource_key);
                match find_lease(&self.leases, &intent.resource_key) {
                    Some(li) => {
                        add_lease_owner(&mut self.leases, li, p);
                        let ghost joined_before = joined@;
                        joined.push(intent.resource_key.clone());
                        assert(strs(joined@) =~= strs(joined_before).push(intent.resource_key@));
                    },
                    None => {
                        let mut owners: Vec<GameProfileId> = Vec::new();
                        owners.push(p);
                        let lease = ResourceLease {
                            resource_key: intent.resource_key.clone(),
                            desired: intent.desired.clone(),
                            owners,
                            applied: Some(clone_applied(&applied[a])),
                        };
                        let ghost leases_before = self.leases@;
                        proof {
                            lemma_lease_index(views, intent.resource_key@);
                        }
                        self.leases.push(lease);
                        assert(lease_views(self.leases@) =~= views.push(lease.view()));
                        assert(lease.view().owners =~= seq![p]);
                    },
                }
                j += 1;
            }
            assert(intents.take(m as int) =~= intents);
            a += 1;
        }

        let ghost applied_state = apply_actions(start, acts, refs, p, acts.len());
        let mut i: usize = 0;
        while i < n
            invariant
                i <= n,
                n == g.actions@.len(),
                self.profiles@[pidx as int] == g,
                pidx < self.profiles.len(),
                decisions@ == ds,
                ds.len() == n,
                keys_unique(lease_views(self.leases@)),
                lease_views(self.leases@) == join_actions(applied_state, g.actions@, ds, p, i as nat).leases,
                strs(owned@) == join_actions(applied_state, g.actions@, ds, p, i as nat).owned,
                strs(joined@) == join_actions(applied_state, g.actions@, ds, p, i as nat).joined,
                self.profiles == old(self).profiles,
                self.active_instances == old(self).active_instances,
                self.sessions == old(self).sessions,
                self.sink == sink_after,
            decreases n - i,
        {
            if decisions[i] == ActionDecision::JoinOnly {
                let ghost base = join_actions(applied_state, g.actions@, ds, p, i as nat);
                let ghost intents = g.actions@[i as int].intents@;
                let m = self.profiles[pidx].actions[i].intents.len();
                let mut j: usize = 0;
                while j < m
                    invariant
                        j <= m,
                        m == intents.len(),
                        intents == g.actions@[i as int].intents@,
                        self.profiles@[pidx as int] == g,
                        pidx < self.profiles.len(),
                        i < n,
                        n == g.actions@.len(),
                        keys_unique(lease_views(self.leases@)),
                        lease_views(self.leases@) == join_intents(base, intents.take(j as int), p).leases,
                        strs(owned@) == join_intents(base, intents.take(j as int), p).owned,
                        strs(joined@) == join_intents(base, intents.take(j as int), p).joined,
                        self.profiles == old(self).profiles,
                        self.active_instances == old(self).active_instances,
                        self.sessions == old(self).sessions,
                        self.sink == sink_after,
                    decreases m - j,
                {
                    proof {
                        assert(intents.take(j as int + 1).drop_last() =~= intents.take(j as int));
                    }
                    let intent = &self.profiles[pidx].actions[i].intents[j];
                    push_unique_str(&mut owned, &intent.resource_key);
                    match find_lease(&self.leases, &intent.resource_key) {
                        Some(li) => {
                            add_lease_owner(&mut self.leases, li, p);
                            let ghost joined_before = joined@;
                            joined.push(intent.resource_key.clone());
                            assert(strs(joined@) =~= strs(joined_before).push(intent.resource_key@));
                        },
                        None => {},
                    }
                    j += 1;
                }
                assert(intents.take(m as int) =~= intents);
            }
            i += 1;
        }

        set_session(&mut self.sessions, p, session, owned);
        Ok(LaunchOutcome::Applied { session, applied, joined })
    }

    /// The last instance of `p` exited and its session, owning `owned`, ended:
    /// leave every owned lease, then restore, newest first, those left
    /// without owners.
    #[verifier::rlimit(30)]
    fn end_session(&mut self, p: GameProfileId, owned: Vec<String>) -> (r: ExitOutcome)
        requires
            keys_unique(lease_views(old(self).leases@)),
        ensures
            final(self).profiles == old(self).profiles,
            final(self).active_instances == old(self).active_instances,
            final(self).sessions == old(self).sessions,
            keys_unique(lease_views(final(self).leases@)),
            old(self).ended(final(self), p, strs(owned@), r),
    {
        let ghost leases0 = lease_views(self.leases@);
        let ghost keys = strs(owned@);
        let ghost start = ExitState { leases: leases0, restore: Seq::empty() };
        let mut restore: Vec<AppliedAction> = Vec::new();
        let mut k: usize = 0;
        while k < owned.len()
            invariant
                k <= owned.len(),
                keys == strs(owned@),
                keys_unique(lease_views(self.leases@)),
                lease_views(self.leases@) == exit_keys(start, keys.take(k as int), p).leases,
                restore@ == exit_keys(start, keys.take(k as int), p).restore,
                self.profiles == old(self).profiles,
                self.active_instances == old(self).active_instances,
                self.sessions == old(self).sessions,
                self.sink == old(self).sink,
            decreases owned.len() - k,
        {
            proof {
                assert(keys.take(k as int + 1).drop_last() =~= keys.take(k as int));
            }
            let ghost views = lease_views(self.leases@);
            match find_lease(&self.leases, &owned[k]) {
                None => {},
                Some(i) => {
                    let lease = self.leases.remove(i);
                    let ghost removed = lease_views(self.leases@);
                    assert(removed =~= views.remove(i as int));
                    let owners = without_owner(&lease.owners, p);
                    if owners.len() == 0 {
                        match lease.applied {
                            Some(a) => {
                                if !contains_reference(&restore, &a.reference) {
                                    restore.push(a);
                                }
                            },
                            None => {},
                        }
                    } else {
                        let kept = ResourceLease {
                            resource_key: lease.resource_key,
                            desired: lease.desired,
                            owners,
                            applied: lease.applied,
                        };
                        self.leases.insert(i, kept);
                        assert(lease_views(self.leases@) =~= views.update(i as int, kept.view()));
                    }
                },
            }
            k += 1;
        }
        assert(keys.take(owned.len() as int) =~= keys);
        let ghost ex = spec_exit(leases0, keys, p);
        let ghost plan = ex.restore.reverse();
        let ghost total = ex.restore.len();

        let mut rolled_back: Vec<AppliedAction> = Vec::new();
        let mut failed: Vec<AppliedAction> = Vec::new();
        let ghost mut oks: Seq<bool> = Seq::empty();
        proof {
            let log0 = old(self).sink.rollback_log();
            assert(log0.take(log0.len() as int) =~= log0);
            assert(appended(log0, log0) =~= Seq::<RollbackRecord>::empty());
            assert(handed_actions(appended(log0, log0)) =~= plan.take(0));
            assert(reply_oks(appended(log0, log0)) =~= oks);
        }
        while restore.len() > 0
            invariant
                oks.len() <= total,
                total == ex.restore.len(),
                plan == ex.restore.reverse(),
                restore@ == ex.restore.take(total - oks.len()),
                rolled_back@ == pick(plan.take(oks.len() as int), oks, true),
                failed@ == pick(plan.take(oks.len() as int), oks, false),
                lease_views(self.leases@) == ex.leases,
                keys_unique(lease_views(self.leases@)),
                self.profiles == old(self).profiles,
                self.active_instances == old(self).active_instances,
                self.sessions == old(self).sessions,
                self.sink.apply_log() == old(self).sink.apply_log(),
                extends(old(self).sink.rollback_log(), self.sink.rollback_log()),
                handed_actions(appended(old(self).sink.rollback_log(), self.sink.rollback_log())) == plan.take(
                    oks.len() as int,
                ),
                reply_oks(appended(old(self).sink.rollback_log(), self.sink.rollback_log())) == oks,
            decreases restore.len(),
        {
            let ghost done = oks.len();
            let ghost old_oks = oks;
            match restore.pop() {
                Some(a) => {
                    assert(a == plan[done as int]);
                    assert(plan.take(done as int + 1).drop_last() =~= plan.take(done as int));
                    assert(plan.take(done as int + 1).last() == a);
                    let ghost log0 = old(self).sink.rollback_log();
                    let ghost log_before = self.sink.rollback_log();
                    let answer = self.sink.rollback(&a);
                    proof {
                        let log_after = self.sink.rollback_log();
                        assert(log_after.take(log0.len() as int) =~= log_before.take(log0.len() as int));
                        assert(appended(log0, log_after) =~= appended(log0, log_before).push((a, answer)));
                        assert(handed_actions(appended(log0, log_after)) =~= handed_actions(
                            appended(log0, log_before),
                        ).push(a));
                        assert(reply_oks(appended(log0, log_after)) =~= reply_oks(appended(log0, log_before)).push(
                            answer is Ok,
                        ));
                    }
                    match answer {
                        Ok(()) => {
                            rolled_back.push(a);
                            proof {
                                oks = oks.push(true);
                                assert(oks.drop_last() =~= old_oks);
                            }
                        },
                        Err(_) => {
                            failed.push(a);
                            proof {
                                oks = oks.push(false);
                                assert(oks.drop_last() =~= old_oks);
                            }
                        },
                    }
                    assert(restore@ =~= ex.restore.take(total - oks.len()));
                },
                None => {},
            }
        }
        assert(plan.take(oks.len() as int) =~= plan);
        assert(rolled_back@ == pick(plan, oks, true));
        assert(failed@ == pick(plan, oks, false));
        assert(oks.len() == plan.len());
        assert(old(self).lease_state() == leases0);
        assert(ex == spec_exit(old(self).lease_state(), strs(owned@), p));
        if failed.len() > 0 {
            ExitOutcome::PartiallyFailed { rolled_back, failed }
        } else {
            ExitOutcome::Restored { rolled_back }
        }
    }

    fn on_launched(&mut self, p: GameProfileId, instance: InstanceKey) -> (r: Result<LaunchOutcome, ProfileError>)
        requires
            old(self).wf(),
        ensures
            final(self).wf(),
            old(self).launch_outcome(final(self), p, instance, r),
    {
        let pidx = match find_profile(&self.profiles, p) {
            Some(i) => i,
            None => {
                return Ok(LaunchOutcome::Ignored);
            },
        };
        proof {
            lemma_last_index(self.profiles@, profile_with(p));
        }
        if !self.profiles[pidx].automation_enabled {
            return Ok(LaunchOutcome::Ignored);
        }
        let ghost sets0 = self.active_instances@;
        proof {
            lemma_last_index(sets0, set_of(p));
        }
        let was_empty: bool;
        match find_instance_set(&self.active_instances, p) {
            Some(si) => {
                if contains_instance(&self.active_instances[si].instances, instance) {
                    return Ok(LaunchOutcome::AlreadyActive);
                }
                was_empty = self.active_instances[si].instances.len() == 0;
                let mut set = self.active_instances.remove(si);
                set.instances.push(instance);
                self.active_instances.insert(si, set);
                proof {
                    assert(self.active_instances@ =~= sets0.update(si as int, set));
                    lemma_last_index_update(sets0, set_of(p), si as int, set);
                    assert forall|q: GameProfileId| q != p implies spec_instances(self.active_instances@, q)
                        == spec_instances(sets0, q) by {
                        lemma_last_index_update(sets0, set_of(q), si as int, set);
                        lemma_last_index(sets0, set_of(q));
                    }
                    assert(unique_by(
                        self.active_instances@,
                        |a: InstanceSet, b: InstanceSet| a.profile == b.profile,
                    ));
                }
            },
            None => {
                was_empty = true;
                let mut instances: Vec<InstanceKey> = Vec::new();
                instances.push(instance);
                let set = InstanceSet { profile: p, instances };
                self.active_instances.push(set);
                proof {
                    lemma_last_index_push(sets0, set_of(p), set);
                    assert(set.instances@ =~= Seq::<InstanceKey>::empty().push(instance));
                    assert forall|q: GameProfileId| q != p implies spec_instances(self.active_instances@, q)
                        == spec_instances(sets0, q) by {
                        lemma_last_index_push(sets0, set_of(q), set);
                        lemma_last_index(sets0, set_of(q));
                    }
                    assert(unique_by(
                        self.active_instances@,
                        |a: InstanceSet, b: InstanceSet| a.profile == b.profile,
                    ));
                }
            },
        }
        if !was_empty {
            return Ok(LaunchOutcome::AlreadyActive);
        }
        self.start_session(pidx)
    }

    fn on_exited(&mut self, p: GameProfileId, instance: InstanceKey) -> (r: Result<ExitOutcome, ProfileError>)
        requires
            old(self).wf(),
        ensures
            final(self).wf(),
            old(self).exit_outcome(final(self), p, instance, r),
    {
        let ghost sets0 = self.active_instances@;
        proof {
            lemma_last_index(sets0, set_of(p));
        }
        let si = match find_instance_set(&self.active_instances, p) {
            Some(i) => i,
            None => {
                return Ok(ExitOutcome::Ignored);
            },
        };
        if !contains_instance(&self.active_instances[si].instances, instance) {
            return Ok(ExitOutcome::Ignored);
        }
        let mut set = self.active_instances.remove(si);
        set.instances = without_instance(&set.instances, instance);
        if set.instances.len() > 0 {
            self.active_instances.insert(si, set);
            proof {
                assert(self.active_instances@ =~= sets0.update(si as int, set));
                lemma_last_index_update(sets0, set_of(p), si as int, set);
                assert forall|q: GameProfileId| q != p implies spec_instances(self.active_instances@, q)
                    == spec_instances(sets0, q) by {
                    lemma_last_index_update(sets0, set_of(q), si as int, set);
                    lemma_last_index(sets0, set_of(q));
                }
                assert(unique_by(
                    self.active_instances@,
                    |a: InstanceSet, b: InstanceSet| a.profile == b.profile,
                ));
            }
            return Ok(ExitOutcome::StillActive);
        }
        proof {
            let sets1 = self.active_instances@;
            assert(sets1 =~= sets0.remove(si as int));
            assert forall|j: int| 0 <= j < sets1.len() implies !set_of(p)(sets1[j]) by {
                if j < si {
                    assert(sets1[j] == sets0[j]);
                } else {
                    assert(sets1[j] == sets0[j + 1]);
                }
            }
            lemma_last_index(sets1, set_of(p));
            assert forall|q: GameProfileId| q != p implies spec_instances(sets1, q) == spec_instances(
                sets0,
                q,
            ) by {
                lemma_last_index(sets0, set_of(q));
                let j = last_index(sets0, set_of(q));
                if j >= 0 {
                    assert(j != si);
                    let k = if j < si { j } else { j - 1 };
                    assert(sets1[k] == sets0[j]);
                    assert forall|m: int| k < m < sets1.len() implies !set_of(q)(sets1[m]) by {
                        if m < si {
                            assert(sets1[m] == sets0[m]);
                        } else {
                            assert(sets1[m] == sets0[m + 1]);
                        }
                    }
                    lemma_last_index_at(sets1, set_of(q), k);
                } else {
                    assert forall|m: int| 0 <= m < sets1.len() implies !set_of(q)(sets1[m]) by {
                        if m < si {
                            assert(sets1[m] == sets0[m]);
                        } else {
                            assert(sets1[m] == sets0[m + 1]);
                        }
                    }
                    lemma_last_index(sets1, set_of(q));
                }
            }
            assert(unique_by(sets1, |a: InstanceSet, b: InstanceSet| a.profile == b.profile));
        }
        let ghost sessions0 = self.sessions@;
        proof {
            lemma_last_index(sessions0, session_for(p));
        }
        let sidx = match find_session(&self.sessions, p) {
            Some(i) => i,
            None => {
                return Ok(ExitOutcome::Ignored);
            },
        };
        let active = self.sessions.remove(sidx);
        proof {
            let s1 = self.sessions@;
            assert(s1 =~= sessions0.remove(sidx as int));
            assert forall|j: int| 0 <= j < s1.len() implies !session_for(p)(s1[j]) by {
                if j < sidx {
                    assert(s1[j] == sessions0[j]);
                } else {
                    assert(s1[j] == sessions0[j + 1]);
                }
            }
            lemma_last_index(s1, session_for(p));
            assert forall|q: GameProfileId| q != p implies spec_session(s1, q) == spec_session(
                sessions0,
                q,
            ) by {
                lemma_last_index(sessions0, session_for(q));
                let j = last_index(sessions0, session_for(q));
                if j >= 0 {
                    assert(j != sidx);
                    let k = if j < sidx { j } else { j - 1 };
                    assert(s1[k] == sessions0[j]);
                    assert forall|m: int| k < m < s1.len() implies !session_for(q)(s1[m]) by {
                        if m < sidx {
                            assert(s1[m] == sessions0[m]);
                        } else {
                            assert(s1[m] == sessions0[m + 1]);
                        }
                    }
                    lemma_last_index_at(s1, session_for(q), k);
                } else {
                    assert forall|m: int| 0 <= m < s1.len() implies !session_for(q)(s1[m]) by {
                        if m < sidx {
                            assert(s1[m] == sessions0[m]);
                        } else {
                            assert(s1[m] == sessions0[m + 1]);
                        }
                    }
                    lemma_last_index(s1, session_for(q));
                }
            }
            assert(unique_by(s1, |a: ActiveSession, b: ActiveSession| a.profile == b.profile));
        }
        let ghost owned_keys = strs(active.owned_resources@);
        assert(self.lease_state() == old(self).lease_state());
        assert(self.sink_state() == old(self).sink_state());
        let outcome = self.end_session(p, active.owned_resources);
        assert(old(self).ended(&*self, p, owned_keys, outcome));
        Ok(outcome)
    }

    /// Handles one observed event.
    pub fn handle(&mut self, event: ObservedEvent) -> (r: Result<EventOutcome, ProfileError>)
        requires
            old(self).wf(),
        ensures
            final(self).wf(),
            match event {
                ObservedEvent::Launched { profile, instance } => match r {
                    Ok(EventOutcome::Launch(o)) => old(self).launch_outcome(
                        final(self),
                        profile,
                        instance,
                        Ok(o),
                    ),
                    Err(e) => old(self).launch_outcome(final(self), profile, instance, Err(e)),
                    _ => false,
                },
                ObservedEvent::Exited { profile, instance } => match r {
                    Ok(EventOutcome::Exit(o)) => old(self).exit_outcome(final(self), profile, instance, Ok(o)),
                    _ => false,
                },
            },
    {
        match event {
            ObservedEvent::Launched { profile, instance } => {
                match self.on_launched(profile, instance) {
                    Ok(o) => Ok(EventOutcome::Launch(o)),
                    Err(e) => Err(e),
                }
            },
            ObservedEvent::Exited { profile, instance } => {
                match self.on_exited(profile, instance) {
                    Ok(o) => Ok(EventOutcome::Exit(o)),
                    Err(e) => Err(e),
                }
            },
        }
    }

    /// Whether the profile has a running instance.
    pub fn is_active(&self, profile: GameProfileId) -> (r: bool)
        ensures
            r == (self.instances_of(profile).len() > 0),
    {
        match find_instance_set(&self.active_instances, profile) {
            Some(i) => self.active_instances[i].instances.len() > 0,
            None => false,
        }
    }
}


/// A launch of a game that is already running asks the sink for nothing.
pub proof fn lemma_second_instance_applies_nothing<S: ProfileActionSink>(
    s: ProfileSupervisor<S>,
    next: ProfileSupervisor<S>,
    p: GameProfileId,
    instance: InstanceKey,
    r: Result<LaunchOutcome, ProfileError>,
)
    requires
        s.launch_outcome(&next, p, instance, r),
        s.instances_of(p).len() > 0,
    ensures
        next.sink_state() == s.sink_state(),
        next.lease_state() == s.lease_state(),
        r == Ok::<LaunchOutcome, ProfileError>(LaunchOutcome::Ignored) || (r == Ok::<
            LaunchOutcome,
            ProfileError,
        >(LaunchOutcome::AlreadyActive) && next.instances_of(p).contains(instance)),
{
    if !s.instances_of(p).contains(instance) && r != Ok::<LaunchOutcome, ProfileError>(LaunchOutcome::Ignored) {
        assert(next.instances_of(p) == s.instances_of(p).push(instance));
        assert(next.instances_of(p)[s.instances_of(p).len() as int] == instance);
    }
}

/// A launch event for an instance already running, or for a profile that is
/// not registered or not enabled, changes nothing at all: a repeated launch
/// event is idempotent.
pub proof fn lemma_duplicate_launch_is_idempotent<S: ProfileActionSink>(
    s: ProfileSupervisor<S>,
    next: ProfileSupervisor<S>,
    p: GameProfileId,
    instance: InstanceKey,
    r: Result<LaunchOutcome, ProfileError>,
)
    requires
        s.launch_outcome(&next, p, instance, r),
        s.instances_of(p).contains(instance) || s.profile_of(p) is None || !s.profile_of(p)->0.automation_enabled,
    ensures
        next == s,
        r == Ok::<LaunchOutcome, ProfileError>(LaunchOutcome::Ignored) || r == Ok::<LaunchOutcome, ProfileError>(
            LaunchOutcome::AlreadyActive,
        ),
{
}

/// A profile stopped by a conflict hands the sink nothing, to apply or to
/// restore, and leaves the leases as they were.
pub proof fn lemma_conflict_applies_nothing<S: ProfileActionSink>(
    s: ProfileSupervisor<S>,
    next: ProfileSupervisor<S>,
    p: GameProfileId,
    instance: InstanceKey,
    r: Result<LaunchOutcome, ProfileError>,
)
    requires
        s.launch_outcome(&next, p, instance, r),
        r matches Ok(LaunchOutcome::ConflictStopped { .. }),
    ensures
        next.sink_state() == s.sink_state(),
        next.sink_state().apply_log() == s.sink_state().apply_log(),
        next.sink_state().rollback_log() == s.sink_state().rollback_log(),
        next.lease_state() == s.lease_state(),
{
}

/// The first launch of a profile whose every Action joins an existing lease
/// hands the sink nothing and succeeds with nothing applied, unless no fresh
/// session ID could be made.
pub proof fn lemma_join_only_launch_calls_no_sink<S: ProfileActionSink>(
    s: ProfileSupervisor<S>,
    next: ProfileSupervisor<S>,
    p: GameProfileId,
    instance: InstanceKey,
    r: Result<LaunchOutcome, ProfileError>,
)
    requires
        s.launch_outcome(&next, p, instance, r),
        s.profile_of(p) matches Some(g) && g.automation_enabled && {
            let decisions = spec_decisions(s.lease_state(), g.actions@, g.conflict_policy);
            &&& spec_conflict_keys(g.actions@, decisions, g.actions@.len()).len() == 0
            &&& spec_apply_request(g.actions@, decisions, g.actions@.len()).len() == 0
        },
        s.instances_of(p).len() == 0,
    ensures
        next.sink_state() == s.sink_state(),
        r matches Ok(LaunchOutcome::Applied { .. }) || (r matches Err(ProfileError::Invariant(m)) && m@
            == no_session_id_message()),
        r matches Ok(LaunchOutcome::Applied { applied, .. }) ==> applied@.len() == 0,
{
}

/// While another instance is still running, an exit restores nothing.
pub proof fn lemma_non_last_exit_restores_nothing<S: ProfileActionSink>(
    s: ProfileSupervisor<S>,
    next: ProfileSupervisor<S>,
    p: GameProfileId,
    instance: InstanceKey,
    r: Result<ExitOutcome, ProfileError>,
)
    requires
        s.exit_outcome(&next, p, instance, r),
        remove_all(s.instances_of(p), instance).len() > 0,
    ensures
        next.sink_state() == s.sink_state(),
        next.lease_state() == s.lease_state(),
{
}

/// When nothing failed, everything was restored.
proof fn lemma_pick_all(plan: Seq<AppliedAction>, oks: Seq<bool>)
    requires
        oks.len() == plan.len(),
        pick(plan, oks, false).len() == 0,
    ensures
        pick(plan, oks, true) == plan,
    decreases plan.len(),
{
    if plan.len() > 0 {
        lemma_pick_all(plan.drop_last(), oks.drop_last());
        assert(plan.drop_last().push(plan.last()) =~= plan);
    }
}

/// The last exit of a running profile hands the sink, to restore, exactly the
/// resources it was the last owner of, newest first, and nothing to apply;
/// each one the sink restored is reported restored, and each one it failed
/// is reported failed.
pub proof fn lemma_last_exit_restores_in_reverse<S: ProfileActionSink>(
    s: ProfileSupervisor<S>,
    next: ProfileSupervisor<S>,
    p: GameProfileId,
    instance: InstanceKey,
    r: Result<ExitOutcome, ProfileError>,
)
    requires
        s.exit_outcome(&next, p, instance, r),
        s.instances_of(p).contains(instance),
        remove_all(s.instances_of(p), instance).len() == 0,
        s.session_of(p) is Some,
    ensures
        extends(s.sink_state().rollback_log(), next.sink_state().rollback_log()),
        handed_actions(appended(s.sink_state().rollback_log(), next.sink_state().rollback_log()))
            == spec_exit(s.lease_state(), (s.session_of(p)->0).1, p).restore.reverse(),
        next.sink_state().apply_log() == s.sink_state().apply_log(),
        r matches Ok(ExitOutcome::Restored { rolled_back }) ==> rolled_back@ == spec_exit(
            s.lease_state(),
            (s.session_of(p)->0).1,
            p,
        ).restore.reverse(),
{
    let plan = spec_exit(s.lease_state(), (s.session_of(p)->0).1, p).restore.reverse();
    let oks = reply_oks(appended(s.sink_state().rollback_log(), next.sink_state().rollback_log()));
    if r matches Ok(ExitOutcome::Restored { rolled_back }) {
        lemma_pick_all(plan, oks);
    }
}

} // verus!
