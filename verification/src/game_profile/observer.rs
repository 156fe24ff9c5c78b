//! Which running processes are which profile's game, and what changed since
//! the last snapshot.
//!
//! A process is a profile's game only when both its canonical path (ignoring
//! ASCII case) and its file identity match the registration; an identity
//! that cannot be read never matches. Instances are keyed by process ID and
//! creation time, so a reused process ID is a new instance. The enumeration
//! itself is the application's part.

use vstd::prelude::*;
use vstd::utf8::encode_utf8;
use crate::action::{same_file_identity, ProcessFileIdentity};
use super::{GameProfileId, InstanceKey, ObservedEvent, ProfileBinding};

verus! {

/// What the enumeration established about one process; the identity is
/// absent when it could not be read.
#[derive(Debug, Clone, PartialEq)]
pub struct ObservedProcess {
    pub instance: InstanceKey,
    pub canonical_path: String,
    pub file_identity: Option<ProcessFileIdentity>,
}

/// One registered profile: its binding and the instances of it seen last.
pub struct WatchedProfile {
    pub profile: GameProfileId,
    pub canonical_path: String,
    pub file_identity: ProcessFileIdentity,
    pub seen: Vec<InstanceKey>,
}

pub open spec fn ascii_lower(b: u8) -> u8 {
    if 65 <= b <= 90 {
        (b + 32) as u8
    } else {
        b
    }
}

/// Two UTF-8 paths that are equal once ASCII letters are lower-cased.
pub open spec fn same_path(a: Seq<u8>, b: Seq<u8>) -> bool {
    a.len() == b.len() && forall|i: int| 0 <= i < a.len() ==> ascii_lower(#[trigger] a[i]) == ascii_lower(b[i])
}

/// A process is the watched game when its path and its readable identity
/// both match the registration.
pub open spec fn process_matches(w: WatchedProfile, p: ObservedProcess) -> bool {
    &&& same_path(encode_utf8(p.canonical_path@), encode_utf8(w.canonical_path@))
    &&& p.file_identity matches Some(id) && same_file_identity(id, w.file_identity)
}

/// The instances in the snapshot that are the watched game, in snapshot order.
pub open spec fn matched_instances(w: WatchedProfile, snapshot: Seq<ObservedProcess>) -> Seq<InstanceKey>
    decreases snapshot.len(),
{
    if snapshot.len() == 0 {
        Seq::empty()
    } else {
        let before = matched_instances(w, snapshot.drop_last());
        if process_matches(w, snapshot.last()) {
            before.push(snapshot.last().instance)
        } else {
            before
        }
    }
}

/// The order instance sets are kept in: by process ID, then creation time.
pub open spec fn key_lt(a: InstanceKey, b: InstanceKey) -> bool {
    a.process_id < b.process_id || (a.process_id == b.process_id && a.creation_time_100ns
        < b.creation_time_100ns)
}

/// `s` with `k` put into its place, unless it is already there.
pub open spec fn insert_sorted(s: Seq<InstanceKey>, k: InstanceKey) -> Seq<InstanceKey>
    decreases s.len(),
{
    if s.len() == 0 {
        seq![k]
    } else if s.last() == k {
        s
    } else if key_lt(s.last(), k) {
        s.push(k)
    } else {
        insert_sorted(s.drop_last(), k).push(s.last())
    }
}

/// `base` with every element of `extra` put into its place.
pub open spec fn insert_all(base: Seq<InstanceKey>, extra: Seq<InstanceKey>) -> Seq<InstanceKey>
    decreases extra.len(),
{
    if extra.len() == 0 {
        base
    } else {
        insert_sorted(insert_all(base, extra.drop_last()), extra.last())
    }
}

/// The elements of `a` that are not in `b`, in `a`'s order.
pub open spec fn minus(a: Seq<InstanceKey>, b: Seq<InstanceKey>) -> Seq<InstanceKey>
    decreases a.len(),
{
    if a.len() == 0 {
        a
    } else {
        let before = minus(a.drop_last(), b);
        if b.contains(a.last()) {
            before
        } else {
            before.push(a.last())
        }
    }
}

/// The elements of `a` that are in `b`, in `a`'s order.
pub open spec fn within(a: Seq<InstanceKey>, b: Seq<InstanceKey>) -> Seq<InstanceKey>
    decreases a.len(),
{
    if a.len() == 0 {
        a
    } else {
        let before = within(a.drop_last(), b);
        if b.contains(a.last()) {
            before.push(a.last())
        } else {
            before
        }
    }
}

pub open spec fn launched_events(p: GameProfileId, keys: Seq<InstanceKey>) -> Seq<ObservedEvent> {
    keys.map_values(|k: InstanceKey| ObservedEvent::Launched { profile: p, instance: k })
}

pub open spec fn exited_events(p: GameProfileId, keys: Seq<InstanceKey>) -> Seq<ObservedEvent> {
    keys.map_values(|k: InstanceKey| ObservedEvent::Exited { profile: p, instance: k })
}

/// The matched instances of a snapshot, in order.
pub open spec fn current_instances(w: WatchedProfile, snapshot: Seq<ObservedProcess>) -> Seq<InstanceKey> {
    insert_all(Seq::empty(), matched_instances(w, snapshot))
}

/// The instances that leave: all that vanished from a complete snapshot; of
/// an incomplete one, only those whose exit was confirmed one by one.
pub open spec fn exiting(
    w: WatchedProfile,
    snapshot: Seq<ObservedProcess>,
    confirmed: Option<Seq<InstanceKey>>,
) -> Seq<InstanceKey> {
    let gone = minus(w.seen@, current_instances(w, snapshot));
    match confirmed {
        None => gone,
        Some(c) => within(gone, c),
    }
}

/// The events of one watched profile: new instances launched, then the
/// leaving ones exited.
pub open spec fn profile_events(
    w: WatchedProfile,
    snapshot: Seq<ObservedProcess>,
    confirmed: Option<Seq<InstanceKey>>,
) -> Seq<ObservedEvent> {
    launched_events(w.profile, minus(current_instances(w, snapshot), w.seen@)) + exited_events(
        w.profile,
        exiting(w, snapshot, confirmed),
    )
}

/// What the profile remembers afterwards: the current instances (plus,
/// after an incomplete snapshot, every earlier one), less those that left.
pub open spec fn next_seen(
    w: WatchedProfile,
    snapshot: Seq<ObservedProcess>,
    confirmed: Option<Seq<InstanceKey>>,
) -> Seq<InstanceKey> {
    let current = current_instances(w, snapshot);
    let base = match confirmed {
        None => current,
        Some(_) => insert_all(w.seen@, current),
    };
    minus(base, exiting(w, snapshot, confirmed))
}

/// The events of all watched profiles, in registration order.
pub open spec fn all_events(
    ws: Seq<WatchedProfile>,
    snapshot: Seq<ObservedProcess>,
    confirmed: Option<Seq<InstanceKey>>,
) -> Seq<ObservedEvent>
    decreases ws.len(),
{
    if ws.len() == 0 {
        Seq::empty()
    } else {
        all_events(ws.drop_last(), snapshot, confirmed) + profile_events(ws.last(), snapshot, confirmed)
    }
}

/// The instances that vanished from the snapshot, over all profiles.
pub open spec fn all_missing(ws: Seq<WatchedProfile>, snapshot: Seq<ObservedProcess>) -> Seq<InstanceKey>
    decreases ws.len(),
{
    if ws.len() == 0 {
        Seq::empty()
    } else {
        insert_all(
            all_missing(ws.drop_last(), snapshot),
            minus(ws.last().seen@, current_instances(ws.last(), snapshot)),
        )
    }
}

/// Every instance any profile remembers.
pub open spec fn all_tracked(ws: Seq<WatchedProfile>) -> Seq<InstanceKey>
    decreases ws.len(),
{
    if ws.len() == 0 {
        Seq::empty()
    } else {
        insert_all(all_tracked(ws.drop_last()), ws.last().seen@)
    }
}

// ---------------------------------------------------------------------------
// Executable parts
// ---------------------------------------------------------------------------

fn lower_byte(b: u8) -> (r: u8)
    ensures
        r == ascii_lower(b),
{
    if 65 <= b && b <= 90 {
        b + 32
    } else {
        b
    }
}

fn paths_match(a: &String, b: &String) -> (r: bool)
    ensures
        r == same_path(encode_utf8(a@), encode_utf8(b@)),
{
    let x = a.as_str().as_bytes();
    let y = b.as_str().as_bytes();
    if x.len() != y.len() {
        return false;
    }
    let mut i: usize = 0;
    while i < x.len()
        invariant
            i <= x@.len(),
            x@.len() == y@.len(),
            x@ == encode_utf8(a@),
            y@ == encode_utf8(b@),
            forall|j: int| 0 <= j < i ==> ascii_lower(#[trigger] x@[j]) == ascii_lower(y@[j]),
        decreases x@.len() - i,
    {
        if lower_byte(x[i]) != lower_byte(y[i]) {
            return false;
        }
        i += 1;
    }
    true
}

/// Whether the process is this watched game. An unreadable identity never
/// matches.
pub fn is_match(w: &WatchedProfile, p: &ObservedProcess) -> (r: bool)
    ensures
        r == process_matches(*w, *p),
        p.file_identity is None ==> !r,
{
    if !paths_match(&p.canonical_path, &w.canonical_path) {
        return false;
    }
    match &p.file_identity {
        Some(identity) => identity.same_file(&w.file_identity),
        None => false,
    }
}

fn contains_key(v: &Vec<InstanceKey>, k: InstanceKey) -> (r: bool)
    ensures
        r == v@.contains(k),
{
    let mut i: usize = 0;
    while i < v.len()
        invariant
            i <= v@.len(),
            forall|j: int| 0 <= j < i ==> v@[j] != k,
        decreases v@.len() - i,
    {
        if v[i] == k {
            assert(v@[i as int] == k);
            return true;
        }
        i += 1;
    }
    false
}

fn less(a: InstanceKey, b: InstanceKey) -> (r: bool)
    ensures
        r == key_lt(a, b),
{
    a.process_id < b.process_id || (a.process_id == b.process_id && a.creation_time_100ns
        < b.creation_time_100ns)
}

/// Puts `k` into its place in `v`, unless it is already there.
fn insert_key(v: &mut Vec<InstanceKey>, k: InstanceKey)
    ensures
        final(v)@ == insert_sorted(old(v)@, k),
{
    let ghost s = v@;
    let mut i: usize = v.len();
    assert(s.take(s.len() as int) =~= s);
    assert(s.skip(s.len() as int) =~= Seq::<InstanceKey>::empty());
    while i > 0 && v[i - 1] != k && !less(v[i - 1], k)
        invariant
            i <= s.len(),
            v@ == s,
            insert_sorted(s, k) == insert_sorted(s.take(i as int), k) + s.skip(i as int),
        decreases i,
    {
        proof {
            let t = s.take(i as int);
            assert(t.drop_last() =~= s.take(i - 1));
            assert(t.last() == s[i - 1]);
            assert(insert_sorted(t, k) == insert_sorted(s.take(i - 1), k).push(s[i - 1]));
            assert(s.skip(i - 1) =~= seq![s[i - 1]] + s.skip(i as int));
            assert(insert_sorted(s.take(i - 1), k).push(s[i - 1]) + s.skip(i as int)
                =~= insert_sorted(s.take(i - 1), k) + s.skip(i - 1));
        }
        i -= 1;
    }
    if i > 0 && v[i - 1] == k {
        proof {
            let t = s.take(i as int);
            assert(t.last() == k);
            assert(t + s.skip(i as int) =~= s);
        }
        return;
    }
    proof {
        let t = s.take(i as int);
        if i > 0 {
            assert(t.last() == s[i - 1]);
            assert(insert_sorted(t, k) == t.push(k));
        } else {
            assert(insert_sorted(t, k) == seq![k]);
        }
    }
    v.insert(i, k);
    proof {
        let t = s.take(i as int);
        assert(v@ =~= t.push(k) + s.skip(i as int));
    }
}

fn minus_keys(a: &Vec<InstanceKey>, b: &Vec<InstanceKey>) -> (r: Vec<InstanceKey>)
    ensures
        r@ == minus(a@, b@),
{
    let mut r: Vec<InstanceKey> = Vec::new();
    let mut i: usize = 0;
    while i < a.len()
        invariant
            i <= a@.len(),
            r@ == minus(a@.take(i as int), b@),
        decreases a@.len() - i,
    {
        assert(a@.take(i as int + 1).drop_last() =~= a@.take(i as int));
        if !contains_key(b, a[i]) {
            r.push(a[i]);
        }
        i += 1;
    }
    assert(a@.take(a@.len() as int) =~= a@);
    r
}

fn within_keys(a: &Vec<InstanceKey>, b: &[InstanceKey]) -> (r: Vec<InstanceKey>)
    ensures
        r@ == within(a@, b@),
{
    let mut r: Vec<InstanceKey> = Vec::new();
    let mut i: usize = 0;
    while i < a.len()
        invariant
            i <= a@.len(),
            r@ == within(a@.take(i as int), b@),
        decreases a@.len() - i,
    {
        assert(a@.take(i as int + 1).drop_last() =~= a@.take(i as int));
        let mut found = false;
        let mut j: usize = 0;
        while j < b.len()
            invariant
                j <= b@.len(),
                i < a@.len(),
                found == exists|m: int| 0 <= m < j && b@[m] == a@[i as int],
            decreases b@.len() - j,
        {
            if b[j] == a[i] {
                found = true;
            }
            j += 1;
        }
        if found {
            r.push(a[i]);
        }
        i += 1;
    }
    assert(a@.take(a@.len() as int) =~= a@);
    r
}

fn insert_keys(base: &mut Vec<InstanceKey>, extra: &Vec<InstanceKey>)
    ensures
        final(base)@ == insert_all(old(base)@, extra@),
{
    let mut i: usize = 0;
    while i < extra.len()
        invariant
            i <= extra@.len(),
            base@ == insert_all(old(base)@, extra@.take(i as int)),
        decreases extra@.len() - i,
    {
        assert(extra@.take(i as int + 1).drop_last() =~= extra@.take(i as int));
        insert_key(base, extra[i]);
        i += 1;
    }
    assert(extra@.take(extra@.len() as int) =~= extra@);
}

fn current_keys(w: &WatchedProfile, snapshot: &[ObservedProcess]) -> (r: Vec<InstanceKey>)
    ensures
        r@ == current_instances(*w, snapshot@),
{
    let mut matched: Vec<InstanceKey> = Vec::new();
    let mut i: usize = 0;
    while i < snapshot.len()
        invariant
            i <= snapshot@.len(),
            matched@ == matched_instances(*w, snapshot@.take(i as int)),
        decreases snapshot@.len() - i,
    {
        assert(snapshot@.take(i as int + 1).drop_last() =~= snapshot@.take(i as int));
        if is_match(w, &snapshot[i]) {
            matched.push(snapshot[i].instance);
        }
        i += 1;
    }
    assert(snapshot@.take(snapshot@.len() as int) =~= snapshot@);
    let mut current: Vec<InstanceKey> = Vec::new();
    insert_keys(&mut current, &matched);
    current
}

fn push_events(events: &mut Vec<ObservedEvent>, p: GameProfileId, keys: &Vec<InstanceKey>, launched: bool)
    ensures
        final(events)@ == old(events)@ + (if launched {
            launched_events(p, keys@)
        } else {
            exited_events(p, keys@)
        }),
{
    let ghost start = events@;
    let ghost all = if launched {
        launched_events(p, keys@)
    } else {
        exited_events(p, keys@)
    };
    let mut i: usize = 0;
    while i < keys.len()
        invariant
            i <= keys@.len(),
            all.len() == keys@.len(),
            all == (if launched {
                launched_events(p, keys@)
            } else {
                exited_events(p, keys@)
            }),
            events@ == start + all.take(i as int),
        decreases keys@.len() - i,
    {
        let event = if launched {
            ObservedEvent::Launched { profile: p, instance: keys[i] }
        } else {
            ObservedEvent::Exited { profile: p, instance: keys[i] }
        };
        events.push(event);
        assert(all.take(i as int + 1) =~= all.take(i as int).push(all[i as int]));
        i += 1;
    }
    assert(all.take(keys@.len() as int) =~= all);
}

/// One profile's step: its events, and what it remembers afterwards.
fn observe_one(
    w: &mut WatchedProfile,
    snapshot: &[ObservedProcess],
    confirmed: Option<&[InstanceKey]>,
    events: &mut Vec<ObservedEvent>,
)
    ensures
        final(events)@ == old(events)@ + profile_events(*old(w), snapshot@, match confirmed {
            Some(c) => Some(c@),
            None => None,
        }),
        final(w).seen@ == next_seen(*old(w), snapshot@, match confirmed {
            Some(c) => Some(c@),
            None => None,
        }),
        final(w).profile == old(w).profile,
        final(w).canonical_path == old(w).canonical_path,
        final(w).file_identity == old(w).file_identity,
{
    let current = current_keys(w, snapshot);
    let appeared = minus_keys(&current, &w.seen);
    push_events(events, w.profile, &appeared, true);
    let gone = minus_keys(&w.seen, &current);
    let leaving = match confirmed {
        None => gone,
        Some(c) => within_keys(&gone, c),
    };
    let mut base: Vec<InstanceKey> = match confirmed {
        None => current,
        Some(_) => {
            let mut kept = w.seen.clone();
            insert_keys(&mut kept, &current);
            kept
        },
    };
    push_events(events, w.profile, &leaving, false);
    w.seen = minus_keys(&base, &leaving);
}

/// Matches snapshots of running processes to registered profiles and turns
/// their differences into launch and exit events.
pub struct ProcessMatcher {
    watched: Vec<WatchedProfile>,
}

/// No profile is watched twice.
pub open spec fn profiles_unique(watched: Seq<WatchedProfile>) -> bool {
    forall|i: int, j: int| 0 <= i < j < watched.len() ==> watched[i].profile != watched[j].profile
}

pub open spec fn watched_for(p: GameProfileId) -> spec_fn(WatchedProfile) -> bool {
    |w: WatchedProfile| w.profile == p
}

impl ProcessMatcher {
    pub closed spec fn view(&self) -> Seq<WatchedProfile> {
        self.watched@
    }

    pub fn new() -> (m: ProcessMatcher)
        ensures
            m.view().len() == 0,
            profiles_unique(m.view()),
    {
        ProcessMatcher { watched: Vec::new() }
    }

    fn position(&self, p: GameProfileId) -> (r: Option<usize>)
        ensures
            r matches Some(i) ==> i < self.view().len() && self.view()[i as int].profile == p
                && forall|j: int| 0 <= j < i ==> self.view()[j].profile != p,
            r is None ==> forall|i: int| 0 <= i < self.view().len() ==> self.view()[i].profile != p,
    {
        let mut i: usize = 0;
        while i < self.watched.len()
            invariant
                i <= self.watched@.len(),
                forall|j: int| 0 <= j < i ==> self.watched@[j].profile != p,
            decreases self.watched@.len() - i,
        {
            if self.watched[i].profile == p {
                return Some(i);
            }
            i += 1;
        }
        None
    }

    /// Registers (or re-registers) a profile's binding. A profile already
    /// watched keeps its place and the instances seen for it, and takes the
    /// new path and file identity; a new one is appended with nothing seen.
    /// Every other entry is left alone.
    pub fn register(&mut self, profile_id: GameProfileId, binding: &ProfileBinding)
        ensures
            match old(self).position_spec(profile_id) {
                Some(i) => {
                    &&& final(self).view().len() == old(self).view().len()
                    &&& forall|j: int|
                        0 <= j < old(self).view().len() && j != i ==> #[trigger] final(self).view()[j] == old(
                            self,
                        ).view()[j]
                    &&& final(self).view()[i].profile == profile_id
                    &&& final(self).view()[i].canonical_path@ == binding.canonical_path@
                    &&& final(self).view()[i].file_identity == binding.file_identity
                    &&& final(self).view()[i].seen == old(self).view()[i].seen
                },
                None => {
                    &&& final(self).view().len() == old(self).view().len() + 1
                    &&& final(self).view().drop_last() == old(self).view()
                    &&& final(self).view().last().profile == profile_id
                    &&& final(self).view().last().canonical_path@ == binding.canonical_path@
                    &&& final(self).view().last().file_identity == binding.file_identity
                    &&& final(self).view().last().seen@.len() == 0
                },
            },
            profiles_unique(old(self).view()) ==> profiles_unique(final(self).view()),
    {
        let ghost before = self.watched@;
        match self.position(profile_id) {
            Some(i) => {
                proof {
                    self.lemma_first_position(profile_id, i as int);
                }
                let mut w = self.watched.remove(i);
                w.canonical_path = binding.canonical_path.clone();
                w.file_identity = binding.file_identity;
                self.watched.insert(i, w);
                proof {
                    assert(self.watched@ =~= before.update(i as int, w));
                }
            },
            None => {
                let w = WatchedProfile {
                    profile: profile_id,
                    canonical_path: binding.canonical_path.clone(),
                    file_identity: binding.file_identity,
                    seen: Vec::new(),
                };
                self.watched.push(w);
                proof {
                    assert(self.watched@.drop_last() =~= before);
                }
            },
        }
    }

    /// The first entry of `p` that `position` finds is the one `position_spec` names.
    proof fn lemma_first_position(&self, p: GameProfileId, i: int)
        requires
            0 <= i < self.view().len(),
            self.view()[i].profile == p,
            forall|j: int| 0 <= j < i ==> self.view()[j].profile != p,
        ensures
            self.position_spec(p) == Some(i),
    {
        let c = self.position_spec(p)->0;
        if c < i {
            assert(self.view()[c].profile != p);
        }
        if c > i {
            assert(self.view()[i].profile != p);
        }
    }

    /// Forgets a profile and the instances seen for it; every other entry
    /// stays, in order.
    pub fn unregister(&mut self, profile_id: GameProfileId)
        ensures
            final(self).view() == old(self).view().filter(|w: WatchedProfile| w.profile != profile_id),
    {
        let ghost before = self.watched@;
        let mut kept: Vec<WatchedProfile> = Vec::new();
        let mut rest: Vec<WatchedProfile> = Vec::new();
        std::mem::swap(&mut rest, &mut self.watched);
        proof {
            assert(rest@ == before);
        }
        let n = rest.len();
        let mut i: usize = 0;
        while i < n
            invariant
                i <= n,
                n == before.len(),
                rest@ == before.subrange(i as int, n as int),
                kept@ == before.take(i as int).filter(|w: WatchedProfile| w.profile != profile_id),
            decreases n - i,
        {
            let w = rest.remove(0);
            proof {
                assert(before.take(i as int + 1).drop_last() =~= before.take(i as int));
                assert(w == before[i as int]);
                assert(rest@ =~= before.subrange(i as int + 1, n as int));
            }
            let ghost kept_before = kept@;
            if w.profile != profile_id {
                kept.push(w);
            }
            proof {
                let taken = before.take(i as int + 1);
                assert(taken.last() == w);
                assert(kept@ == taken.filter(|w: WatchedProfile| w.profile != profile_id)) by {
                    reveal(Seq::filter);
                }
            }
            i += 1;
        }
        proof {
            assert(before.take(n as int) =~= before);
        }
        self.watched = kept;
    }

    /// Exit events for every instance still seen for the profile, so that its
    /// leases can be restored before it is unregistered. Nothing is forgotten
    /// here.
    pub fn exit_events_before_unregister(&self, profile_id: GameProfileId) -> (r: Vec<ObservedEvent>)
        ensures
            match self.position_spec(profile_id) {
                Some(i) => r@ == exited_events(profile_id, self.view()[i].seen@),
                None => r@.len() == 0,
            },
    {
        let mut events: Vec<ObservedEvent> = Vec::new();
        match self.position(profile_id) {
            Some(i) => {
                push_events(&mut events, profile_id, &self.watched[i].seen, false);
                proof {
                    assert(self.view()[i as int].profile == profile_id);
                    let c = self.position_spec(profile_id)->0;
                    if c < i {
                        assert(self.view()[c].profile != profile_id);
                    }
                    if c > i {
                        assert(self.view()[i as int].profile != profile_id);
                    }
                    assert(events@ =~= Seq::<ObservedEvent>::empty() + exited_events(profile_id, self.watched@[i as int].seen@));
                }
            },
            None => {},
        }
        events
    }

    /// The first watched entry of the profile.
    pub open spec fn position_spec(&self, p: GameProfileId) -> Option<int> {
        if exists|i: int| 0 <= i < self.view().len() && self.view()[i].profile == p {
            Some(
                choose|i: int|
                    0 <= i < self.view().len() && self.view()[i].profile == p && forall|j: int|
                        0 <= j < i ==> self.view()[j].profile != p,
            )
        } else {
            None
        }
    }

    /// The known instances that vanished from a full snapshot; each needs its
    /// exit confirmed.
    pub fn missing_instances(&self, snapshot: &[ObservedProcess]) -> (r: Vec<InstanceKey>)
        ensures
            r@ == all_missing(self.view(), snapshot@),
    {
        let mut missing: Vec<InstanceKey> = Vec::new();
        let mut i: usize = 0;
        while i < self.watched.len()
            invariant
                i <= self.watched@.len(),
                missing@ == all_missing(self.watched@.take(i as int), snapshot@),
            decreases self.watched@.len() - i,
        {
            assert(self.watched@.take(i as int + 1).drop_last() =~= self.watched@.take(i as int));
            let current = current_keys(&self.watched[i], snapshot);
            let gone = minus_keys(&self.watched[i].seen, &current);
            insert_keys(&mut missing, &gone);
            i += 1;
        }
        assert(self.watched@.take(self.watched@.len() as int) =~= self.watched@);
        missing
    }

    /// Every known instance, to check one by one when the enumeration
    /// itself failed.
    pub fn tracked_instances(&self) -> (r: Vec<InstanceKey>)
        ensures
            r@ == all_tracked(self.view()),
    {
        let mut known: Vec<InstanceKey> = Vec::new();
        let mut i: usize = 0;
        while i < self.watched.len()
            invariant
                i <= self.watched@.len(),
                known@ == all_tracked(self.watched@.take(i as int)),
            decreases self.watched@.len() - i,
        {
            assert(self.watched@.take(i as int + 1).drop_last() =~= self.watched@.take(i as int));
            insert_keys(&mut known, &self.watched[i].seen);
            i += 1;
        }
        assert(self.watched@.take(self.watched@.len() as int) =~= self.watched@);
        known
    }

    /// Handles a complete snapshot: new instances launch, vanished ones exit.
    pub fn observe(&mut self, snapshot: &[ObservedProcess]) -> (r: Vec<ObservedEvent>)
        ensures
            r@ == all_events(old(self).view(), snapshot@, None),
            final(self).view().len() == old(self).view().len(),
            forall|i: int|
                0 <= i < old(self).view().len() ==> (#[trigger] final(self).view()[i]).seen@ == next_seen(
                    old(self).view()[i],
                    snapshot@,
                    None,
                ) && final(self).view()[i].profile == old(self).view()[i].profile,
    {
        self.observe_with_confirmed_exits(snapshot, None)
    }

    /// Handles an incomplete snapshot: verified new instances still launch,
    /// but only instances whose exit was confirmed one by one exit; every
    /// other known instance is kept.
    pub fn observe_incomplete(&mut self, snapshot: &[ObservedProcess], confirmed_exits: &[InstanceKey]) -> (r:
        Vec<ObservedEvent>)
        ensures
            r@ == all_events(old(self).view(), snapshot@, Some(confirmed_exits@)),
            final(self).view().len() == old(self).view().len(),
            forall|i: int|
                0 <= i < old(self).view().len() ==> (#[trigger] final(self).view()[i]).seen@ == next_seen(
                    old(self).view()[i],
                    snapshot@,
                    Some(confirmed_exits@),
                ) && final(self).view()[i].profile == old(self).view()[i].profile,
    {
        self.observe_with_confirmed_exits(snapshot, Some(confirmed_exits))
    }

    fn observe_with_confirmed_exits(&mut self, snapshot: &[ObservedProcess], confirmed: Option<&[InstanceKey]>) -> (r:
        Vec<ObservedEvent>)
        ensures
            r@ == all_events(old(self).view(), snapshot@, match confirmed {
                Some(c) => Some(c@),
                None => None,
            }),
            final(self).view().len() == old(self).view().len(),
            forall|i: int|
                0 <= i < old(self).view().len() ==> (#[trigger] final(self).view()[i]).seen@ == next_seen(
                    old(self).view()[i],
                    snapshot@,
                    match confirmed {
                        Some(c) => Some(c@),
                        None => None,
                    },
                ) && final(self).view()[i].profile == old(self).view()[i].profile,
    {
        let ghost conf = match confirmed {
            Some(c) => Some(c@),
            None => None,
        };
        let ghost before = self.watched@;
        let mut events: Vec<ObservedEvent> = Vec::new();
        let mut i: usize = 0;
        while i < self.watched.len()
            invariant
                i <= self.watched@.len(),
                self.watched@.len() == before.len(),
                conf == match confirmed {
                    Some(c) => Some(c@),
                    None => None,
                },
                events@ == all_events(before.take(i as int), snapshot@, conf),
                forall|j: int| i <= j < before.len() ==> self.watched@[j] == before[j],
                forall|j: int|
                    0 <= j < i ==> (#[trigger] self.watched@[j]).seen@ == next_seen(before[j], snapshot@, conf)
                        && self.watched@[j].profile == before[j].profile,
            decreases self.watched@.len() - i,
        {
            assert(before.take(i as int + 1).drop_last() =~= before.take(i as int));
            let ghost prior = self.watched@;
            let mut w = self.watched.remove(i);
            observe_one(&mut w, snapshot, confirmed, &mut events);
            self.watched.insert(i, w);
            assert forall|j: int| i < j < before.len() implies self.watched@[j] == before[j] by {
                assert(self.watched@[j] == prior[j]);
            }
            assert forall|j: int| 0 <= j < i implies self.watched@[j] == prior[j] by {}
            i += 1;
        }
        assert(before.take(before.len() as int) =~= before);
        events
    }
}

} // verus!

verus! {

proof fn lemma_insert_sorted_contains(s: Seq<InstanceKey>, k: InstanceKey, x: InstanceKey)
    ensures
        insert_sorted(s, k).contains(x) <==> s.contains(x) || x == k,
    decreases s.len(),
{
    if s.len() == 0 {
        assert(seq![k][0] == k);
    } else if s.last() == k {
        if x == k {
            assert(s[s.len() - 1] == x);
        }
    } else if key_lt(s.last(), k) {
        let t = s.push(k);
        if s.contains(x) {
            let j = choose|j: int| 0 <= j < s.len() && s[j] == x;
            assert(t[j] == x);
        }
        if x == k {
            assert(t[s.len() as int] == x);
        }
        if t.contains(x) {
            let j = choose|j: int| 0 <= j < t.len() && t[j] == x;
            if j < s.len() {
                assert(s[j] == x);
            }
        }
    } else {
        let d = s.drop_last();
        lemma_insert_sorted_contains(d, k, x);
        let r = insert_sorted(d, k);
        let t = r.push(s.last());
        if s.contains(x) {
            let j = choose|j: int| 0 <= j < s.len() && s[j] == x;
            if j == s.len() - 1 {
                assert(t[r.len() as int] == x);
            } else {
                assert(d[j] == x);
                let m = choose|m: int| 0 <= m < r.len() && r[m] == x;
                assert(t[m] == x);
            }
        }
        if x == k {
            let m = choose|m: int| 0 <= m < r.len() && r[m] == x;
            assert(t[m] == x);
        }
        if t.contains(x) {
            let j = choose|j: int| 0 <= j < t.len() && t[j] == x;
            if j == r.len() {
                assert(s[s.len() - 1] == x);
            } else {
                assert(r[j] == x);
                if d.contains(x) {
                    let m = choose|m: int| 0 <= m < d.len() && d[m] == x;
                    assert(s[m] == x);
                }
            }
        }
    }
}

proof fn lemma_insert_all_contains(base: Seq<InstanceKey>, extra: Seq<InstanceKey>, x: InstanceKey)
    ensures
        insert_all(base, extra).contains(x) <==> base.contains(x) || extra.contains(x),
    decreases extra.len(),
{
    if extra.len() > 0 {
        let d = extra.drop_last();
        lemma_insert_all_contains(base, d, x);
        lemma_insert_sorted_contains(insert_all(base, d), extra.last(), x);
        if extra.contains(x) {
            let j = choose|j: int| 0 <= j < extra.len() && extra[j] == x;
            if j < extra.len() - 1 {
                assert(d[j] == x);
            }
        }
        if d.contains(x) {
            let j = choose|j: int| 0 <= j < d.len() && d[j] == x;
            assert(extra[j] == x);
        }
    }
}

proof fn lemma_minus_contains(a: Seq<InstanceKey>, b: Seq<InstanceKey>, x: InstanceKey)
    ensures
        minus(a, b).contains(x) <==> a.contains(x) && !b.contains(x),
    decreases a.len(),
{
    if a.len() > 0 {
        let d = a.drop_last();
        lemma_minus_contains(d, b, x);
        let r = minus(d, b);
        if a.contains(x) && !b.contains(x) {
            let j = choose|j: int| 0 <= j < a.len() && a[j] == x;
            if j == a.len() - 1 {
                assert(r.push(a.last())[r.len() as int] == x);
            } else {
                assert(d[j] == x);
                let m = choose|m: int| 0 <= m < r.len() && r[m] == x;
                if !b.contains(a.last()) {
                    assert(r.push(a.last())[m] == x);
                }
            }
        }
        if minus(a, b).contains(x) {
            let t = minus(a, b);
            let j = choose|j: int| 0 <= j < t.len() && t[j] == x;
            if !b.contains(a.last()) && j == r.len() {
                assert(a[a.len() - 1] == x);
            } else {
                assert(r[j] == x);
                let m = choose|m: int| 0 <= m < d.len() && d[m] == x;
                assert(a[m] == x);
            }
        }
    }
}

proof fn lemma_within_contains(a: Seq<InstanceKey>, b: Seq<InstanceKey>, x: InstanceKey)
    ensures
        within(a, b).contains(x) <==> a.contains(x) && b.contains(x),
    decreases a.len(),
{
    if a.len() > 0 {
        let d = a.drop_last();
        lemma_within_contains(d, b, x);
        let r = within(d, b);
        if a.contains(x) && b.contains(x) {
            let j = choose|j: int| 0 <= j < a.len() && a[j] == x;
            if j == a.len() - 1 {
                assert(r.push(a.last())[r.len() as int] == x);
            } else {
                assert(d[j] == x);
                let m = choose|m: int| 0 <= m < r.len() && r[m] == x;
                if b.contains(a.last()) {
                    assert(r.push(a.last())[m] == x);
                }
            }
        }
        if within(a, b).contains(x) {
            let t = within(a, b);
            let j = choose|j: int| 0 <= j < t.len() && t[j] == x;
            if b.contains(a.last()) && j == r.len() {
                assert(a[a.len() - 1] == x);
            } else {
                assert(r[j] == x);
                let m = choose|m: int| 0 <= m < d.len() && d[m] == x;
                assert(a[m] == x);
            }
        }
    }
}

/// The snapshot holds a process that is the watched game with this instance key.
pub open spec fn running_in(w: WatchedProfile, snapshot: Seq<ObservedProcess>, k: InstanceKey) -> bool {
    exists|i: int| 0 <= i < snapshot.len() && #[trigger] process_matches(w, snapshot[i]) && snapshot[i].instance == k
}

proof fn lemma_matched_contains(w: WatchedProfile, snapshot: Seq<ObservedProcess>, k: InstanceKey)
    ensures
        matched_instances(w, snapshot).contains(k) <==> running_in(w, snapshot, k),
    decreases snapshot.len(),
{
    if snapshot.len() > 0 {
        let d = snapshot.drop_last();
        lemma_matched_contains(w, d, k);
        let r = matched_instances(w, d);
        if running_in(w, snapshot, k) {
            let i = choose|i: int| 0 <= i < snapshot.len() && #[trigger] process_matches(w, snapshot[i]) && snapshot[i].instance == k;
            if i == snapshot.len() - 1 {
                assert(r.push(k)[r.len() as int] == k);
            } else {
                assert(d[i] == snapshot[i]);
                assert(running_in(w, d, k));
                let m = choose|m: int| 0 <= m < r.len() && r[m] == k;
                if process_matches(w, snapshot.last()) {
                    assert(r.push(snapshot.last().instance)[m] == k);
                }
            }
        }
        if matched_instances(w, snapshot).contains(k) {
            let t = matched_instances(w, snapshot);
            let j = choose|j: int| 0 <= j < t.len() && t[j] == k;
            if process_matches(w, snapshot.last()) && j == r.len() {
                assert(process_matches(w, snapshot[snapshot.len() - 1]));
            } else {
                assert(r[j] == k);
                let i = choose|i: int| 0 <= i < d.len() && #[trigger] process_matches(w, d[i]) && d[i].instance == k;
                assert(snapshot[i] == d[i]);
            }
        }
    }
}

proof fn lemma_current_contains(w: WatchedProfile, snapshot: Seq<ObservedProcess>, k: InstanceKey)
    ensures
        current_instances(w, snapshot).contains(k) <==> running_in(w, snapshot, k),
{
    lemma_insert_all_contains(Seq::empty(), matched_instances(w, snapshot), k);
    lemma_matched_contains(w, snapshot, k);
}

/// A launch is reported exactly for a running instance of the game that was
/// not seen before, so a reused process ID with a new creation time is a new
/// launch.
pub proof fn lemma_launches_are_new_instances(w: WatchedProfile, snapshot: Seq<ObservedProcess>, k: InstanceKey)
    ensures
        minus(current_instances(w, snapshot), w.seen@).contains(k) <==> running_in(w, snapshot, k)
            && !w.seen@.contains(k),
{
    lemma_minus_contains(current_instances(w, snapshot), w.seen@, k);
    lemma_current_contains(w, snapshot, k);
}

/// After a complete snapshot, an instance exits exactly when it was seen and
/// is no longer running, and what is remembered is what runs.
pub proof fn lemma_complete_snapshot_exits_vanished(w: WatchedProfile, snapshot: Seq<ObservedProcess>, k: InstanceKey)
    ensures
        exiting(w, snapshot, None).contains(k) <==> w.seen@.contains(k) && !running_in(w, snapshot, k),
        next_seen(w, snapshot, None).contains(k) <==> running_in(w, snapshot, k),
{
    let current = current_instances(w, snapshot);
    lemma_current_contains(w, snapshot, k);
    lemma_minus_contains(w.seen@, current, k);
    lemma_minus_contains(current, exiting(w, snapshot, None), k);
}

/// An incomplete snapshot never makes an instance exit on its own: one that
/// was seen and whose exit was not confirmed is still remembered and is not
/// reported as exited.
pub proof fn lemma_incomplete_snapshot_keeps_unconfirmed(
    w: WatchedProfile,
    snapshot: Seq<ObservedProcess>,
    confirmed: Seq<InstanceKey>,
    k: InstanceKey,
)
    requires
        w.seen@.contains(k),
        !confirmed.contains(k),
    ensures
        !exiting(w, snapshot, Some(confirmed)).contains(k),
        next_seen(w, snapshot, Some(confirmed)).contains(k),
{
    let current = current_instances(w, snapshot);
    let gone = minus(w.seen@, current);
    lemma_within_contains(gone, confirmed, k);
    lemma_insert_all_contains(w.seen@, current, k);
    lemma_minus_contains(insert_all(w.seen@, current), exiting(w, snapshot, Some(confirmed)), k);
}

/// An incomplete snapshot reports an exit only for an instance that was seen,
/// is not running and whose exit was confirmed.
pub proof fn lemma_incomplete_snapshot_exits_only_confirmed(
    w: WatchedProfile,
    snapshot: Seq<ObservedProcess>,
    confirmed: Seq<InstanceKey>,
    k: InstanceKey,
)
    ensures
        exiting(w, snapshot, Some(confirmed)).contains(k) <==> w.seen@.contains(k) && !running_in(
            w,
            snapshot,
            k,
        ) && confirmed.contains(k),
{
    let current = current_instances(w, snapshot);
    let gone = minus(w.seen@, current);
    lemma_within_contains(gone, confirmed, k);
    lemma_minus_contains(w.seen@, current, k);
    lemma_current_contains(w, snapshot, k);
}

proof fn lemma_minus_nothing(a: Seq<InstanceKey>)
    ensures
        minus(a, Seq::empty()) == a,
    decreases a.len(),
{
    if a.len() > 0 {
        lemma_minus_nothing(a.drop_last());
        assert(a.drop_last().push(a.last()) =~= a);
    }
}

/// A profile that has seen nothing yet launches every instance that matches
/// and exits none, whether the snapshot is complete or not.
proof fn lemma_fresh_profile_events(w: WatchedProfile, snapshot: Seq<ObservedProcess>, confirmed: Option<Seq<InstanceKey>>)
    requires
        w.seen@.len() == 0,
    ensures
        profile_events(w, snapshot, confirmed) == launched_events(w.profile, current_instances(w, snapshot)),
{
    lemma_minus_nothing(current_instances(w, snapshot));
    assert(w.seen@ =~= Seq::<InstanceKey>::empty());
    assert(exiting(w, snapshot, confirmed) =~= Seq::<InstanceKey>::empty());
    assert(exited_events(w.profile, exiting(w, snapshot, confirmed)) =~= Seq::<ObservedEvent>::empty());
    assert(profile_events(w, snapshot, confirmed) =~= launched_events(w.profile, current_instances(w, snapshot)));
}

/// Profiles that have seen nothing yet, as right after `new` and
/// `register`, only launch on their first snapshot, complete or incomplete:
/// a single such profile launches exactly the instances that match it, and
/// no snapshot makes any of them exit.
pub proof fn lemma_fresh_profiles_only_launch(
    ws: Seq<WatchedProfile>,
    snapshot: Seq<ObservedProcess>,
    confirmed: Option<Seq<InstanceKey>>,
)
    requires
        forall|i: int| 0 <= i < ws.len() ==> (#[trigger] ws[i]).seen@.len() == 0,
    ensures
        forall|i: int|
            0 <= i < all_events(ws, snapshot, confirmed).len() ==> (#[trigger] all_events(
                ws,
                snapshot,
                confirmed,
            )[i]) is Launched,
        ws.len() == 1 ==> all_events(ws, snapshot, confirmed) == launched_events(
            ws[0].profile,
            current_instances(ws[0], snapshot),
        ),
    decreases ws.len(),
{
    if ws.len() > 0 {
        let rest = ws.drop_last();
        assert forall|i: int| 0 <= i < rest.len() implies (#[trigger] rest[i]).seen@.len() == 0 by {
            assert(rest[i] == ws[i]);
        }
        lemma_fresh_profiles_only_launch(rest, snapshot, confirmed);
        lemma_fresh_profile_events(ws.last(), snapshot, confirmed);
        let before = all_events(rest, snapshot, confirmed);
        let last = profile_events(ws.last(), snapshot, confirmed);
        assert forall|i: int| 0 <= i < (before + last).len() implies (#[trigger] (before + last)[i]) is Launched by {
            if i >= before.len() {
                assert((before + last)[i] == last[i - before.len()]);
            } else {
                assert((before + last)[i] == before[i]);
            }
        }
        if ws.len() == 1 {
            assert(rest.len() == 0);
            assert(before =~= Seq::<ObservedEvent>::empty());
            assert(before + last =~= last);
        }
    }
}

/// An incomplete snapshot, as sets: with `P` the instances seen before and
/// `cur` those of the snapshot that match the profile, the launches are
/// `cur \ P`, the exits `(P \ cur) ∩ confirmed`, and afterwards the profile
/// remembers `(P ∪ cur)` less the exits.
pub proof fn lemma_incomplete_snapshot_sets(
    w: WatchedProfile,
    snapshot: Seq<ObservedProcess>,
    confirmed: Seq<InstanceKey>,
    k: InstanceKey,
)
    ensures
        minus(current_instances(w, snapshot), w.seen@).contains(k) <==> running_in(w, snapshot, k)
            && !w.seen@.contains(k),
        exiting(w, snapshot, Some(confirmed)).contains(k) <==> w.seen@.contains(k) && !running_in(
            w,
            snapshot,
            k,
        ) && confirmed.contains(k),
        next_seen(w, snapshot, Some(confirmed)).contains(k) <==> (w.seen@.contains(k) || running_in(
            w,
            snapshot,
            k,
        )) && !exiting(w, snapshot, Some(confirmed)).contains(k),
{
    let current = current_instances(w, snapshot);
    lemma_current_contains(w, snapshot, k);
    lemma_minus_contains(current, w.seen@, k);
    lemma_incomplete_snapshot_exits_only_confirmed(w, snapshot, confirmed, k);
    lemma_insert_all_contains(w.seen@, current, k);
    lemma_minus_contains(insert_all(w.seen@, current), exiting(w, snapshot, Some(confirmed)), k);
}

/// With no exit confirmed, an incomplete snapshot reports no exit and the
/// profile keeps every instance it had seen; a later complete snapshot with
/// nothing running then reports every one of them as exited.
pub proof fn lemma_unconfirmed_instances_wait_for_a_complete_snapshot(
    w: WatchedProfile,
    snapshot: Seq<ObservedProcess>,
    k: InstanceKey,
)
    ensures
        exiting(w, snapshot, Some(Seq::empty())).len() == 0,
        profile_events(w, snapshot, Some(Seq::empty())) == launched_events(
            w.profile,
            minus(current_instances(w, snapshot), w.seen@),
        ),
        w.seen@.contains(k) ==> next_seen(w, snapshot, Some(Seq::empty())).contains(k),
        exiting(w, Seq::empty(), None) == w.seen@,
{
    let gone = exiting(w, snapshot, Some(Seq::empty()));
    if gone.len() > 0 {
        lemma_incomplete_snapshot_exits_only_confirmed(w, snapshot, Seq::empty(), gone[0]);
        assert(gone.contains(gone[0]));
    }
    assert(gone =~= Seq::<InstanceKey>::empty());
    assert(exited_events(w.profile, gone) =~= Seq::<ObservedEvent>::empty());
    assert(profile_events(w, snapshot, Some(Seq::empty())) =~= launched_events(
        w.profile,
        minus(current_instances(w, snapshot), w.seen@),
    ));
    if w.seen@.contains(k) {
        lemma_incomplete_snapshot_keeps_unconfirmed(w, snapshot, Seq::empty(), k);
    }
    assert(matched_instances(w, Seq::empty()) =~= Seq::<InstanceKey>::empty());
    assert(current_instances(w, Seq::empty()) =~= Seq::<InstanceKey>::empty());
    lemma_minus_nothing(w.seen@);
}

/// A process is the watched game exactly when its identity could be read and
/// equals the registered one, and its path equals the registered path once
/// ASCII upper-case letters are lowered: paths differing only in the case of
/// ASCII letters match, paths of different lengths or with a different byte
/// otherwise never do.
pub proof fn lemma_process_matching(w: WatchedProfile, p: ObservedProcess)
    ensures
        process_matches(w, p) ==> p.file_identity is Some,
        process_matches(w, p) ==> encode_utf8(p.canonical_path@).len() == encode_utf8(w.canonical_path@).len(),
        encode_utf8(p.canonical_path@) == encode_utf8(w.canonical_path@) && (p.file_identity matches Some(id)
            && id.volume_serial_number == w.file_identity.volume_serial_number && id.file_id
            == w.file_identity.file_id) ==> process_matches(w, p),
        forall|i: int|
            0 <= i < encode_utf8(p.canonical_path@).len() && i < encode_utf8(w.canonical_path@).len() && process_matches(
                w,
                p,
            ) ==> {
                let a = #[trigger] encode_utf8(p.canonical_path@)[i];
                let b = encode_utf8(w.canonical_path@)[i];
                a == b || (65 <= a <= 90 && b == a + 32) || (65 <= b <= 90 && a == b + 32)
            },
{
}

} // verus!
