//! Reading display configurations and the meaning of the difference between two.
//!
//! Nothing here applies a configuration. Two configurations differ "only in
//! refresh rate" exactly when targets, sources, clone groups, adapters,
//! positions, resolutions, pixel formats, rotation, scaling and output
//! technology all agree path by path, in order.

use vstd::prelude::*;

verus! {

/// The facts of one display path that comparisons use.
#[derive(Debug, Clone, Copy, PartialEq, Eq, Structural)]
pub struct DisplayPathFacts {
    pub target_id: u32,
    pub source_id: u32,
    pub clone_group: u32,
    pub adapter_id_low: u32,
    pub adapter_id_high: i32,
    pub source_x: i32,
    pub source_y: i32,
    pub width: u32,
    pub height: u32,
    pub pixel_format: u32,
    pub rotation: u32,
    pub scaling: u32,
    pub output_technology: i32,
    pub refresh_numerator: u32,
    pub refresh_denominator: u32,
    pub boost_refresh_rate: bool,
}

/// Every active path of one configuration, in the order Windows reported them.
#[derive(Debug, Clone, PartialEq, Eq)]
pub struct DisplayProfile {
    pub paths: Vec<DisplayPathFacts>,
}

/// The result of comparing two configurations.
#[derive(Debug, Clone, PartialEq, Eq)]
pub enum ProfileComparison {
    Identical,
    RefreshOnly { changed_target_ids: Vec<u32> },
    NotComparable { reason: String },
}

pub open spec fn spec_usable_topology(paths: Seq<DisplayPathFacts>) -> bool {
    &&& paths.len() > 0
    &&& paths.len() <= 64
    &&& forall|i: int| 0 <= i < paths.len() ==> #[trigger] paths[i].width > 0 && paths[i].height > 0
}

impl DisplayProfile {
    /// At least one and at most 64 paths, each with a non-zero resolution.
    pub fn has_usable_topology(&self) -> (r: bool)
        ensures
            r == spec_usable_topology(self.paths@),
    {
        if self.paths.len() == 0 || self.paths.len() > 64 {
            return false;
        }
        let mut i: usize = 0;
        while i < self.paths.len()
            invariant
                i <= self.paths@.len(),
                forall|k: int| 0 <= k < i ==> #[trigger] self.paths@[k].width > 0 && self.paths@[k].height > 0,
            decreases self.paths@.len() - i,
        {
            if self.paths[i].width == 0 || self.paths[i].height == 0 {
                return false;
            }
            i = i + 1;
        }
        true
    }
}

pub open spec fn spec_any_boost(paths: Seq<DisplayPathFacts>) -> bool {
    exists|i: int| 0 <= i < paths.len() && #[trigger] paths[i].boost_refresh_rate
}

/// Everything but the refresh rate and its variable-refresh flag agrees.
pub open spec fn spec_same_except_refresh(l: DisplayPathFacts, r: DisplayPathFacts) -> bool {
    &&& l.target_id == r.target_id
    &&& l.source_id == r.source_id
    &&& l.clone_group == r.clone_group
    &&& l.adapter_id_low == r.adapter_id_low
    &&& l.adapter_id_high == r.adapter_id_high
    &&& l.source_x == r.source_x
    &&& l.source_y == r.source_y
    &&& l.width == r.width
    &&& l.height == r.height
    &&& l.pixel_format == r.pixel_format
    &&& l.rotation == r.rotation
    &&& l.scaling == r.scaling
    &&& l.output_technology == r.output_technology
}

pub open spec fn spec_refresh_differs(l: DisplayPathFacts, r: DisplayPathFacts) -> bool {
    l.refresh_numerator != r.refresh_numerator || l.refresh_denominator != r.refresh_denominator
}

/// Paths agree pairwise, except possibly in refresh rate.
pub open spec fn spec_pairwise_same(l: Seq<DisplayPathFacts>, r: Seq<DisplayPathFacts>) -> bool {
    &&& l.len() == r.len()
    &&& forall|i: int| 0 <= i < l.len() ==> spec_same_except_refresh(#[trigger] l[i], r[i])
}

/// The targets, among the first `n` paths, whose refresh rate differs.
pub open spec fn spec_changed_ids(l: Seq<DisplayPathFacts>, r: Seq<DisplayPathFacts>, n: nat) -> Seq<u32>
    decreases n,
{
    if n == 0 {
        Seq::empty()
    } else {
        let before = spec_changed_ids(l, r, (n - 1) as nat);
        if spec_refresh_differs(l[n - 1], r[n - 1]) {
            before.push(l[n - 1].target_id)
        } else {
            before
        }
    }
}

/// The kind of a comparison result: 0 identical, 1 refresh only, 2 not comparable.
pub open spec fn spec_comparison_kind(l: Seq<DisplayPathFacts>, r: Seq<DisplayPathFacts>) -> int {
    if spec_any_boost(l) || spec_any_boost(r) || !spec_pairwise_same(l, r) {
        2
    } else if spec_changed_ids(l, r, l.len()).len() == 0 {
        0
    } else {
        1
    }
}

pub open spec fn boost_reason() -> Seq<char> {
    "画面の更新頻度をWindowsが自動で変えている状態です。見比べられません。"@
}

pub open spec fn count_reason() -> Seq<char> {
    "つながっている画面の数が違います。"@
}

pub open spec fn other_difference_reason() -> Seq<char> {
    "更新頻度のほかにも違うところがあります。"@
}

fn any_boost(profile: &DisplayProfile) -> (r: bool)
    ensures
        r == spec_any_boost(profile.paths@),
{
    let mut i: usize = 0;
    while i < profile.paths.len()
        invariant
            i <= profile.paths@.len(),
            forall|k: int| 0 <= k < i ==> !(#[trigger] profile.paths@[k]).boost_refresh_rate,
        decreases profile.paths@.len() - i,
    {
        if profile.paths[i].boost_refresh_rate {
            return true;
        }
        i = i + 1;
    }
    false
}

fn same_except_refresh(left: &DisplayPathFacts, right: &DisplayPathFacts) -> (r: bool)
    ensures
        r == spec_same_except_refresh(*left, *right),
{
    left.target_id == right.target_id && left.source_id == right.source_id && left.clone_group
        == right.clone_group && left.adapter_id_low == right.adapter_id_low && left.adapter_id_high
        == right.adapter_id_high && left.source_x == right.source_x && left.source_y == right.source_y
        && left.width == right.width && left.height == right.height && left.pixel_format
        == right.pixel_format && left.rotation == right.rotation && left.scaling == right.scaling
        && left.output_technology == right.output_technology
}

/// Compares two configurations path by path. Variable refresh on either side,
/// a different number of paths or any difference besides the refresh rate
/// makes them not comparable.
#[verifier::loop_isolation(false)]
pub fn compare_profiles(left: &DisplayProfile, right: &DisplayProfile) -> (r: ProfileComparison)
    ensures
        spec_any_boost(left.paths@) || spec_any_boost(right.paths@) ==> (r matches ProfileComparison::NotComparable {
            reason,
        } && reason@ == boost_reason()),
        !(spec_any_boost(left.paths@) || spec_any_boost(right.paths@)) && left.paths@.len()
            != right.paths@.len() ==> (r matches ProfileComparison::NotComparable { reason } && reason@
            == count_reason()),
        !(spec_any_boost(left.paths@) || spec_any_boost(right.paths@)) && left.paths@.len()
            == right.paths@.len() && !spec_pairwise_same(left.paths@, right.paths@) ==> (r matches ProfileComparison::NotComparable {
            reason,
        } && reason@ == other_difference_reason()),
        spec_comparison_kind(left.paths@, right.paths@) == 0 ==> r == ProfileComparison::Identical,
        spec_comparison_kind(left.paths@, right.paths@) == 1 ==> (r matches ProfileComparison::RefreshOnly {
            changed_target_ids,
        } && changed_target_ids@ == spec_changed_ids(left.paths@, right.paths@, left.paths@.len())),
{
    if any_boost(left) || any_boost(right) {
        return ProfileComparison::NotComparable {
            reason: "画面の更新頻度をWindowsが自動で変えている状態です。見比べられません。".to_owned(),
        };
    }
    if left.paths.len() != right.paths.len() {
        return ProfileComparison::NotComparable { reason: "つながっている画面の数が違います。".to_owned() };
    }
    let mut changed: Vec<u32> = Vec::new();
    let n = left.paths.len();
    let mut i: usize = 0;
    while i < n
        invariant
            n == left.paths@.len(),
            n == right.paths@.len(),
            i <= n,
            forall|k: int| 0 <= k < i ==> spec_same_except_refresh(#[trigger] left.paths@[k], right.paths@[k]),
            changed@ == spec_changed_ids(left.paths@, right.paths@, i as nat),
        decreases n - i,
    {
        let lp = &left.paths[i];
        let rp = &right.paths[i];
        if !same_except_refresh(lp, rp) {
            return ProfileComparison::NotComparable {
                reason: "更新頻度のほかにも違うところがあります。".to_owned(),
            };
        }
        if lp.refresh_numerator != rp.refresh_numerator || lp.refresh_denominator != rp.refresh_denominator {
            changed.push(lp.target_id);
        }
        i = i + 1;
    }
    if changed.len() == 0 {
        ProfileComparison::Identical
    } else {
        ProfileComparison::RefreshOnly { changed_target_ids: changed }
    }
}

pub open spec fn unreadable_reason() -> Seq<char> {
    "表示構成を安全に読み取れませんでした。"@
}

pub open spec fn saved_count_reason() -> Seq<char> {
    "つながっている画面の数が保存時と違います。"@
}

pub open spec fn geometry_reason() -> Seq<char> {
    "画面の接続先、並び、向き、または解像度が保存時と違います。"@
}

/// The two configurations describe the same desktop for window coordinates:
/// both usable and pairwise equal apart from refresh.
pub open spec fn spec_same_topology(l: Seq<DisplayPathFacts>, r: Seq<DisplayPathFacts>) -> bool {
    spec_usable_topology(l) && spec_usable_topology(r) && spec_pairwise_same(l, r)
}

/// Whether saved window coordinates still belong to the current desktop.
/// Refresh rate and variable refresh do not move windows and are ignored.
#[verifier::loop_isolation(false)]
pub fn compare_topology(left: &DisplayProfile, right: &DisplayProfile) -> (r: Result<(), String>)
    ensures
        r is Ok <==> spec_same_topology(left.paths@, right.paths@),
        !(spec_usable_topology(left.paths@) && spec_usable_topology(right.paths@)) ==> (r matches Err(
            reason,
        ) && reason@ == unreadable_reason()),
        spec_usable_topology(left.paths@) && spec_usable_topology(right.paths@) && left.paths@.len()
            != right.paths@.len() ==> (r matches Err(reason) && reason@ == saved_count_reason()),
        spec_usable_topology(left.paths@) && spec_usable_topology(right.paths@) && left.paths@.len()
            == right.paths@.len() && !spec_pairwise_same(left.paths@, right.paths@) ==> (r matches Err(
            reason,
        ) && reason@ == geometry_reason()),
{
    if !left.has_usable_topology() || !right.has_usable_topology() {
        return Err("表示構成を安全に読み取れませんでした。".to_owned());
    }
    if left.paths.len() != right.paths.len() {
        return Err("つながっている画面の数が保存時と違います。".to_owned());
    }
    let n = left.paths.len();
    let mut i: usize = 0;
    while i < n
        invariant
            n == left.paths@.len(),
            n == right.paths@.len(),
            i <= n,
            forall|k: int| 0 <= k < i ==> spec_same_except_refresh(#[trigger] left.paths@[k], right.paths@[k]),
        decreases n - i,
    {
        if !same_except_refresh(&left.paths[i], &right.paths[i]) {
            return Err("画面の接続先、並び、向き、または解像度が保存時と違います。".to_owned());
        }
        i = i + 1;
    }
    Ok(())
}

/// The mode index packed into the upper 16 bits of a virtual-mode-aware path
/// field, with the 16-bit invalid marker widened to the 32-bit one.
pub fn packed_high(bitfield: u32) -> (r: u32)
    ensures
        r == (if bitfield / 65536 == 0xffff { 0xffff_ffffu32 } else { (bitfield / 65536) as u32 }),
{
    let value = bitfield >> 16;
    assert(value == bitfield / 65536) by (bit_vector)
        requires
            value == bitfield >> 16,
    ;
    if value == 0xffff {
        0xffff_ffff
    } else {
        value
    }
}

/// The clone group packed into the lower 16 bits.
pub fn packed_low(bitfield: u32) -> (r: u32)
    ensures
        r == bitfield % 65536,
{
    let r = bitfield & 0xffff;
    assert(r == bitfield % 65536) by (bit_vector)
        requires
            r == bitfield & 0xffff,
    ;
    r
}

pub const MODE_INFO_TYPE_SOURCE: u32 = 1;
pub const MODE_INFO_TYPE_TARGET: u32 = 2;

/// A mode-array index that is in range and names a mode of the wanted kind.
/// `mode_kinds` holds each mode's info type in array order.
pub fn mode_index(mode_kinds: &[u32], raw: u32, want_source: bool) -> (r: Option<usize>)
    ensures
        r is Some <==> (raw != 0xffff_ffff && raw < mode_kinds@.len() && mode_kinds@[raw as int] == (if want_source {
            1u32
        } else {
            2u32
        })),
        r matches Some(i) ==> i == raw,
{
    if raw == 0xffff_ffff {
        return None;
    }
    let index = raw as usize;
    if index >= mode_kinds.len() {
        return None;
    }
    let wanted = if want_source {
        MODE_INFO_TYPE_SOURCE
    } else {
        MODE_INFO_TYPE_TARGET
    };
    if mode_kinds[index] == wanted {
        Some(index)
    } else {
        None
    }
}

// ---------------------------------------------------------------------------
// Laws
// ---------------------------------------------------------------------------

proof fn lemma_changed_ids_self(p: Seq<DisplayPathFacts>, n: nat)
    requires
        n <= p.len(),
    ensures
        spec_changed_ids(p, p, n).len() == 0,
    decreases n,
{
    if n > 0 {
        lemma_changed_ids_self(p, (n - 1) as nat);
    }
}

/// A configuration without variable refresh compares as identical to itself.
pub proof fn lemma_compare_reflexive(p: Seq<DisplayPathFacts>)
    requires
        !spec_any_boost(p),
    ensures
        spec_comparison_kind(p, p) == 0,
{
    lemma_changed_ids_self(p, p.len());
}

proof fn lemma_changed_ids_symmetric(l: Seq<DisplayPathFacts>, r: Seq<DisplayPathFacts>, n: nat)
    requires
        n <= l.len(),
        spec_pairwise_same(l, r),
    ensures
        spec_changed_ids(l, r, n) == spec_changed_ids(r, l, n),
    decreases n,
{
    if n > 0 {
        lemma_changed_ids_symmetric(l, r, (n - 1) as nat);
        assert(spec_same_except_refresh(l[n - 1], r[n - 1]));
    }
}

/// Comparing in the other direction gives the same kind of result, the
/// same changed targets and the same reason for refusing; the topology
/// check agrees both ways too.
pub proof fn lemma_compare_symmetric(l: Seq<DisplayPathFacts>, r: Seq<DisplayPathFacts>)
    ensures
        spec_comparison_kind(l, r) == spec_comparison_kind(r, l),
        spec_pairwise_same(l, r) == spec_pairwise_same(r, l),
        (spec_any_boost(l) || spec_any_boost(r)) == (spec_any_boost(r) || spec_any_boost(l)),
        spec_same_topology(l, r) == spec_same_topology(r, l),
        spec_pairwise_same(l, r) ==> spec_changed_ids(l, r, l.len()) == spec_changed_ids(r, l, r.len()),
{
    if spec_pairwise_same(l, r) {
        assert(spec_pairwise_same(r, l));
        lemma_changed_ids_symmetric(l, r, l.len());
    } else {
        assert(!spec_pairwise_same(r, l));
    }
}

/// Whenever the refresh-aware comparison finds the configurations comparable,
/// window coordinates may be restored between them, provided both are usable.
pub proof fn lemma_comparable_implies_same_topology(l: Seq<DisplayPathFacts>, r: Seq<DisplayPathFacts>)
    requires
        spec_comparison_kind(l, r) != 2,
        spec_usable_topology(l),
        spec_usable_topology(r),
    ensures
        spec_same_topology(l, r),
{
}

/// Two paths agree in everything that places windows: target, source, clone
/// group, adapter, desktop position, resolution, pixel format, rotation,
/// scaling and output technology.
pub open spec fn same_geometry(l: DisplayPathFacts, r: DisplayPathFacts) -> bool {
    &&& l.target_id == r.target_id
    &&& l.source_id == r.source_id
    &&& l.clone_group == r.clone_group
    &&& l.adapter_id_low == r.adapter_id_low
    &&& l.adapter_id_high == r.adapter_id_high
    &&& l.source_x == r.source_x
    &&& l.source_y == r.source_y
    &&& l.width == r.width
    &&& l.height == r.height
    &&& l.pixel_format == r.pixel_format
    &&& l.rotation == r.rotation
    &&& l.scaling == r.scaling
    &&& l.output_technology == r.output_technology
}

/// Two configurations can only compare as identical or as a refresh-rate
/// change, and can only share a topology, when they have as many paths and
/// every path keeps its geometry; a path whose resolution, position or any
/// other such field changed makes them not comparable and a different
/// topology. Conversely, the same geometry path by path, without Windows
/// boosting the refresh rate, always compares.
pub proof fn lemma_comparison_needs_the_same_geometry(l: Seq<DisplayPathFacts>, r: Seq<DisplayPathFacts>)
    ensures
        spec_comparison_kind(l, r) != 2 ==> l.len() == r.len() && forall|i: int|
            0 <= i < l.len() ==> same_geometry(#[trigger] l[i], r[i]),
        spec_same_topology(l, r) ==> l.len() == r.len() && forall|i: int|
            0 <= i < l.len() ==> same_geometry(#[trigger] l[i], r[i]),
        (exists|i: int| 0 <= i < l.len() && i < r.len() && (l[i].width != r[i].width || l[i].height != r[i].height))
            ==> spec_comparison_kind(l, r) == 2 && !spec_same_topology(l, r),
        !spec_any_boost(l) && !spec_any_boost(r) && l.len() == r.len() && (forall|i: int|
            0 <= i < l.len() ==> same_geometry(#[trigger] l[i], r[i])) ==> spec_comparison_kind(l, r) != 2,
        spec_usable_topology(l) && spec_usable_topology(r) && l.len() == r.len() && (forall|i: int|
            0 <= i < l.len() ==> same_geometry(#[trigger] l[i], r[i])) ==> spec_same_topology(l, r),
{
    if exists|i: int| 0 <= i < l.len() && i < r.len() && (l[i].width != r[i].width || l[i].height != r[i].height) {
        let i = choose|i: int| 0 <= i < l.len() && i < r.len() && (l[i].width != r[i].width || l[i].height != r[i].height);
        assert(!spec_same_except_refresh(l[i], r[i]));
    }
    if spec_comparison_kind(l, r) != 2 || spec_same_topology(l, r) {
        assert forall|i: int| 0 <= i < l.len() implies same_geometry(#[trigger] l[i], r[i]) by {
            assert(spec_same_except_refresh(l[i], r[i]));
        }
    }
    if l.len() == r.len() && (forall|i: int| 0 <= i < l.len() ==> same_geometry(#[trigger] l[i], r[i])) {
        assert forall|i: int| 0 <= i < l.len() implies spec_same_except_refresh(#[trigger] l[i], r[i]) by {
            assert(same_geometry(l[i], r[i]));
        }
    }
}

proof fn lemma_changed_ids_contains(l: Seq<DisplayPathFacts>, r: Seq<DisplayPathFacts>, n: nat, t: u32)
    requires
        n <= l.len(),
        n <= r.len(),
    ensures
        spec_changed_ids(l, r, n).contains(t) <==> exists|i: int|
            0 <= i < n && #[trigger] l[i].target_id == t && (l[i].refresh_numerator != r[i].refresh_numerator
                || l[i].refresh_denominator != r[i].refresh_denominator),
        spec_changed_ids(l, r, n).len() == 0 <==> forall|i: int|
            0 <= i < n ==> (#[trigger] l[i]).refresh_numerator == r[i].refresh_numerator
                && l[i].refresh_denominator == r[i].refresh_denominator,
    decreases n,
{
    if n > 0 {
        lemma_changed_ids_contains(l, r, (n - 1) as nat, t);
        let before = spec_changed_ids(l, r, (n - 1) as nat);
        let k = n - 1;
        if l[k].refresh_numerator != r[k].refresh_numerator || l[k].refresh_denominator != r[k].refresh_denominator {
            assert(spec_changed_ids(l, r, n) == before.push(l[k].target_id));
            assert(spec_changed_ids(l, r, n)[before.len() as int] == l[k].target_id);
            if spec_changed_ids(l, r, n).contains(t) {
                let j = choose|j: int| 0 <= j < spec_changed_ids(l, r, n).len() && spec_changed_ids(l, r, n)[j] == t;
                if j < before.len() {
                    assert(before[j] == t);
                }
            }
            if exists|i: int|
                0 <= i < n && #[trigger] l[i].target_id == t && (l[i].refresh_numerator != r[i].refresh_numerator
                    || l[i].refresh_denominator != r[i].refresh_denominator) {
                let i = choose|i: int|
                    0 <= i < n && #[trigger] l[i].target_id == t && (l[i].refresh_numerator
                        != r[i].refresh_numerator || l[i].refresh_denominator != r[i].refresh_denominator);
                if i < k {
                    let j = choose|j: int| 0 <= j < before.len() && before[j] == t;
                    assert(spec_changed_ids(l, r, n)[j] == t);
                }
            }
        } else {
            if exists|i: int|
                0 <= i < n && #[trigger] l[i].target_id == t && (l[i].refresh_numerator != r[i].refresh_numerator
                    || l[i].refresh_denominator != r[i].refresh_denominator) {
                let i = choose|i: int|
                    0 <= i < n && #[trigger] l[i].target_id == t && (l[i].refresh_numerator
                        != r[i].refresh_numerator || l[i].refresh_denominator != r[i].refresh_denominator);
                assert(i < k);
            }
        }
    }
}

/// Between configurations with the same geometry path by path and no boosted
/// refresh rate, the comparison is "identical" exactly when every path keeps
/// its refresh rate, and otherwise names exactly the targets whose refresh
/// rate changed. A boosted refresh rate on either side is never comparable.
pub proof fn lemma_refresh_changes_are_reported_by_target(l: Seq<DisplayPathFacts>, r: Seq<DisplayPathFacts>, t: u32)
    ensures
        (exists|i: int| 0 <= i < l.len() && (#[trigger] l[i]).boost_refresh_rate) ==> spec_comparison_kind(l, r) == 2,
        (exists|i: int| 0 <= i < r.len() && (#[trigger] r[i]).boost_refresh_rate) ==> spec_comparison_kind(l, r) == 2,
        spec_comparison_kind(l, r) != 2 ==> {
            &&& (spec_comparison_kind(l, r) == 0 <==> forall|i: int|
                0 <= i < l.len() ==> (#[trigger] l[i]).refresh_numerator == r[i].refresh_numerator
                    && l[i].refresh_denominator == r[i].refresh_denominator)
            &&& (spec_changed_ids(l, r, l.len()).contains(t) <==> exists|i: int|
                0 <= i < l.len() && #[trigger] l[i].target_id == t && (l[i].refresh_numerator
                    != r[i].refresh_numerator || l[i].refresh_denominator != r[i].refresh_denominator))
        },
{
    if spec_comparison_kind(l, r) != 2 {
        lemma_changed_ids_contains(l, r, l.len(), t);
    }
}

} // verus!
