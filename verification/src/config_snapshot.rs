//! A data-only record of the current settings, and the read-only comparison
//! of such a record (a "custom card") with the current state.
//!
//! Nothing here changes Windows or applies anything: a card is a reference;
//! applying still goes through preview and commit. Reading the card's JSON
//! is the application's part.

use vstd::prelude::*;
use vstd::string::StringSliceAdditionalSpecFns;
use crate::error::{CoreError, CoreResult};
use crate::presentation::ActionPresentation;
use crate::text::{concat, decimal, spec_decimal};

verus! {

pub const SETTINGS_SNAPSHOT_VERSION: u32 = 1;
pub const MAX_CUSTOM_CARD_JSON_BYTES: usize = 2 * 1024 * 1024;
pub const MAX_CUSTOM_CARD_ENTRIES: usize = 500;

#[derive(Debug, Clone, PartialEq, Eq)]
pub struct SettingsSnapshotEntry {
    pub action_id: String,
    pub name: String,
    pub category: String,
    /// persistent / session / observation / guided
    pub kind: String,
    /// mutable / read_only / detect_only / blocked
    pub availability: String,
    /// known / unknown / unconfigured / unavailable, or not_detected
    pub state_kind: String,
    pub state_label: String,
    pub state_detail: String,
}

#[derive(Debug, Clone, PartialEq, Eq)]
pub struct SettingsSnapshot {
    pub version: u32,
    pub captured_at: String,
    pub os_build: Option<u32>,
    pub entry_count: usize,
    pub entries: Vec<SettingsSnapshotEntry>,
}

#[derive(Debug, Clone, PartialEq, Eq)]
pub struct CustomCardEntry {
    pub action_id: String,
    pub name: String,
    pub category: String,
    /// What is the case; never a guess at the cause.
    pub note: String,
    pub card_state_label: Option<String>,
    pub current_state_label: Option<String>,
}

/// The card compared with the current state, section by section.
#[derive(Debug, Clone, PartialEq, Eq)]
pub struct CustomCardReport {
    pub captured_at: String,
    pub os_build_note: Option<String>,
    pub matching: Vec<CustomCardEntry>,
    pub changed: Vec<CustomCardEntry>,
    pub missing_in_current: Vec<CustomCardEntry>,
    pub missing_in_card: Vec<CustomCardEntry>,
    pub unknown: Vec<CustomCardEntry>,
    pub summary: String,
}

pub open spec fn not_detected_kind() -> Seq<char> {
    "not_detected"@
}

pub open spec fn not_detected_label() -> Seq<char> {
    "未取得"@
}

pub open spec fn not_detected_detail() -> Seq<char> {
    "この控えを作った時点では状態を取得していません。"@
}

/// Entry `e` records action `a` as shown, its state or "not detected".
pub open spec fn records(e: SettingsSnapshotEntry, a: ActionPresentation) -> bool {
    &&& e.action_id@ == a.id@
    &&& e.name@ == a.name@
    &&& e.category@ == a.category@
    &&& e.kind@ == a.kind@
    &&& e.availability@ == a.availability@
    &&& match a.current_state {
        Some(st) => e.state_kind@ == st.kind@ && e.state_label@ == st.label@ && e.state_detail@
            == st.detail@,
        None => e.state_kind@ == not_detected_kind() && e.state_label@ == not_detected_label()
            && e.state_detail@ == not_detected_detail(),
    }
}

fn snapshot_entry(action: &ActionPresentation) -> (e: SettingsSnapshotEntry)
    ensures
        records(e, *action),
{
    let (state_kind, state_label, state_detail) = match &action.current_state {
        Some(state) => (state.kind.clone(), state.label.clone(), state.detail.clone()),
        None => (
            "not_detected".to_owned(),
            "未取得".to_owned(),
            "この控えを作った時点では状態を取得していません。".to_owned(),
        ),
    };
    SettingsSnapshotEntry {
        action_id: action.id.clone(),
        name: action.name.clone(),
        category: action.category.clone(),
        kind: action.kind.clone(),
        availability: action.availability.clone(),
        state_kind,
        state_label,
        state_detail,
    }
}

/// Records every listed Action, in order, with its observed state; an Action
/// that was not detected is recorded as such, never guessed.
pub fn build_settings_snapshot(actions: &[ActionPresentation], os_build: Option<u32>, captured_at: String) -> (s:
    SettingsSnapshot)
    ensures
        s.version == SETTINGS_SNAPSHOT_VERSION,
        s.captured_at == captured_at,
        s.os_build == os_build,
        s.entry_count == actions@.len(),
        s.entries@.len() == actions@.len(),
        forall|i: int| 0 <= i < actions@.len() ==> records(#[trigger] s.entries@[i], actions@[i]),
{
    let mut entries: Vec<SettingsSnapshotEntry> = Vec::new();
    let mut i: usize = 0;
    while i < actions.len()
        invariant
            i <= actions@.len(),
            entries@.len() == i,
            forall|j: int| 0 <= j < i ==> records(#[trigger] entries@[j], actions@[j]),
        decreases actions@.len() - i,
    {
        entries.push(snapshot_entry(&actions[i]));
        i += 1;
    }
    let entry_count = entries.len();
    SettingsSnapshot { version: SETTINGS_SNAPSHOT_VERSION, captured_at, os_build, entry_count, entries }
}

/// A report entry as a mathematical value.
pub struct CardEntryView {
    pub action_id: Seq<char>,
    pub name: Seq<char>,
    pub category: Seq<char>,
    pub note: Seq<char>,
    pub card_state_label: Option<Seq<char>>,
    pub current_state_label: Option<Seq<char>>,
}

pub open spec fn opt_view(o: Option<String>) -> Option<Seq<char>> {
    match o {
        Some(s) => Some(s@),
        None => None,
    }
}

pub open spec fn card_view(e: CustomCardEntry) -> CardEntryView {
    CardEntryView {
        action_id: e.action_id@,
        name: e.name@,
        category: e.category@,
        note: e.note@,
        card_state_label: opt_view(e.card_state_label),
        current_state_label: opt_view(e.current_state_label),
    }
}

pub open spec fn card_views(v: Seq<CustomCardEntry>) -> Seq<CardEntryView> {
    v.map_values(|e: CustomCardEntry| card_view(e))
}

/// A state kind that says the state is not known.
pub open spec fn unknown_kind(k: Seq<char>) -> bool {
    k == "not_detected"@ || k == "unknown"@ || k == "unconfigured"@
}

/// The current Action with this ID (the last one listed, if several are).
pub open spec fn current_index(actions: Seq<ActionPresentation>, id: Seq<char>) -> int
    decreases actions.len(),
{
    if actions.len() == 0 {
        -1
    } else if actions.last().id@ == id {
        actions.len() - 1
    } else {
        current_index(actions.drop_last(), id)
    }
}

#[derive(Debug, Clone, Copy, PartialEq, Eq, Structural)]
pub enum CardSection {
    Matching,
    Changed,
    MissingInCurrent,
    Unknown,
}

/// Where a card entry lands: nowhere to compare it with; either side
/// unknown; the same label; or another label.
pub open spec fn spec_section(e: SettingsSnapshotEntry, actions: Seq<ActionPresentation>) -> CardSection {
    let i = current_index(actions, e.action_id@);
    if i < 0 {
        CardSection::MissingInCurrent
    } else {
        let st = actions[i].current_state;
        let current_unknown = match st {
            None => true,
            Some(s) => unknown_kind(s.kind@),
        };
        if unknown_kind(e.state_kind@) || current_unknown {
            CardSection::Unknown
        } else if e.state_label@ == st->0.label@ {
            CardSection::Matching
        } else {
            CardSection::Changed
        }
    }
}

pub open spec fn missing_in_current_note() -> Seq<char> {
    "カードに記録されていますが、現在の環境には該当する項目がありません。"@
}

pub open spec fn unknown_note() -> Seq<char> {
    "カード作成時または現在の状態を確認できませんでした。"@
}

pub open spec fn matching_note() -> Seq<char> {
    "カード作成時と同じ状態です。"@
}

pub open spec fn changed_note(card: Seq<char>, current: Seq<char>) -> Seq<char> {
    "カードの記録は「"@ + card + "」、現在は「"@ + current + "」です。"@
}

pub open spec fn missing_in_card_note() -> Seq<char> {
    "現在のPCに存在しますが、カードには記録されていません。"@
}

/// The report entry for one card entry.
pub open spec fn spec_card_entry(e: SettingsSnapshotEntry, actions: Seq<ActionPresentation>) -> CardEntryView {
    let i = current_index(actions, e.action_id@);
    let section = spec_section(e, actions);
    if section == CardSection::MissingInCurrent {
        CardEntryView {
            action_id: e.action_id@,
            name: e.name@,
            category: e.category@,
            note: missing_in_current_note(),
            card_state_label: Some(e.state_label@),
            current_state_label: None,
        }
    } else {
        let a = actions[i];
        let current = match a.current_state {
            Some(s) => Some(s.label@),
            None => None,
        };
        CardEntryView {
            action_id: e.action_id@,
            name: a.name@,
            category: a.category@,
            note: if section == CardSection::Unknown {
                unknown_note()
            } else if section == CardSection::Matching {
                matching_note()
            } else {
                changed_note(e.state_label@, a.current_state->0.label@)
            },
            card_state_label: Some(e.state_label@),
            current_state_label: current,
        }
    }
}

/// The report entries of one section, in card order.
pub open spec fn spec_section_entries(
    entries: Seq<SettingsSnapshotEntry>,
    actions: Seq<ActionPresentation>,
    section: CardSection,
) -> Seq<CardEntryView>
    decreases entries.len(),
{
    if entries.len() == 0 {
        Seq::empty()
    } else {
        let before = spec_section_entries(entries.drop_last(), actions, section);
        if spec_section(entries.last(), actions) == section {
            before.push(spec_card_entry(entries.last(), actions))
        } else {
            before
        }
    }
}

pub open spec fn card_has_id(entries: Seq<SettingsSnapshotEntry>, id: Seq<char>) -> bool {
    exists|j: int| 0 <= j < entries.len() && #[trigger] entries[j].action_id@ == id
}

/// The current Actions that the card does not mention, in their order.
pub open spec fn spec_missing_in_card(
    entries: Seq<SettingsSnapshotEntry>,
    actions: Seq<ActionPresentation>,
) -> Seq<CardEntryView>
    decreases actions.len(),
{
    if actions.len() == 0 {
        Seq::empty()
    } else {
        let before = spec_missing_in_card(entries, actions.drop_last());
        let a = actions.last();
        if card_has_id(entries, a.id@) {
            before
        } else {
            before.push(
                CardEntryView {
                    action_id: a.id@,
                    name: a.name@,
                    category: a.category@,
                    note: missing_in_card_note(),
                    card_state_label: None,
                    current_state_label: match a.current_state {
                        Some(s) => Some(s.label@),
                        None => None,
                    },
                },
            )
        }
    }
}

pub open spec fn spec_summary(matching: nat, changed: nat, unknown: nat, missing_in_card: nat, missing_in_current: nat) -> Seq<
    char,
> {
    "照合結果: 同じ状態が"@ + spec_decimal(matching) + "件、変更あり"@ + spec_decimal(changed)
        + "件、確認不可"@ + spec_decimal(unknown) + "件、カードに無い項目"@ + spec_decimal(
        missing_in_card,
    ) + "件、今に無い項目"@ + spec_decimal(missing_in_current) + "件です。"@
}

pub open spec fn spec_os_build_note(card: Option<u32>, current: Option<u32>) -> Option<Seq<char>> {
    match (card, current) {
        (Some(c), Some(n)) => if c != n {
            Some(
                "カードを作成した時点のWindowsビルド("@ + spec_decimal(c as nat) + ")と現在のビルド("@
                    + spec_decimal(n as nat) + ")が異なります。"@,
            )
        } else {
            None
        },
        _ => None,
    }
}

pub open spec fn too_large_message() -> Seq<char> {
    "カスタムカードのデータサイズが大きすぎます。"@
}

pub open spec fn malformed_message() -> Seq<char> {
    "カスタムカードの形式が正しくありません。"@
}

pub open spec fn too_many_message() -> Seq<char> {
    "カスタムカードに含まれる項目数が多すぎます。"@
}

fn is_unknown_kind(kind: &String) -> (r: bool)
    ensures
        r == unknown_kind(kind@),
{
    *kind == "not_detected".to_owned() || *kind == "unknown".to_owned() || *kind
        == "unconfigured".to_owned()
}

fn find_current(actions: &[ActionPresentation], id: &String) -> (r: Option<usize>)
    ensures
        r matches Some(i) ==> i < actions@.len() && i == current_index(actions@, id@),
        r is None ==> current_index(actions@, id@) == -1,
{
    let mut found: Option<usize> = None;
    let mut k: usize = 0;
    while k < actions.len()
        invariant
            k <= actions@.len(),
            found matches Some(i) ==> i < k && i == current_index(actions@.take(k as int), id@),
            found is None ==> current_index(actions@.take(k as int), id@) == -1,
        decreases actions@.len() - k,
    {
        proof {
            assert(actions@.take(k as int + 1).drop_last() =~= actions@.take(k as int));
        }
        if actions[k].id == *id {
            found = Some(k);
        }
        k += 1;
    }
    proof {
        assert(actions@.take(actions@.len() as int) =~= actions@);
    }
    found
}

fn clone_label(state: &Option<crate::presentation::UiActionState>) -> (r: Option<String>)
    ensures
        opt_view(r) == match *state {
            Some(s) => Some(s.label@),
            None => None,
        },
{
    match state {
        Some(s) => Some(s.label.clone()),
        None => None,
    }
}

/// Where one card entry lands, and its report entry.
fn classify_card_entry(entry: &SettingsSnapshotEntry, actions: &[ActionPresentation]) -> (r: (
    CardSection,
    CustomCardEntry,
))
    ensures
        r.0 == spec_section(*entry, actions@),
        card_view(r.1) == spec_card_entry(*entry, actions@),
{
    match find_current(actions, &entry.action_id) {
        None => (
            CardSection::MissingInCurrent,
            CustomCardEntry {
                action_id: entry.action_id.clone(),
                name: entry.name.clone(),
                category: entry.category.clone(),
                note: "カードに記録されていますが、現在の環境には該当する項目がありません。".to_owned(),
                card_state_label: Some(entry.state_label.clone()),
                current_state_label: None,
            },
        ),
        Some(i) => {
            let current = &actions[i];
            let card_unknown = is_unknown_kind(&entry.state_kind);
            let current_unknown = match &current.current_state {
                None => true,
                Some(st) => is_unknown_kind(&st.kind),
            };
            if card_unknown || current_unknown {
                (
                    CardSection::Unknown,
                    CustomCardEntry {
                        action_id: entry.action_id.clone(),
                        name: current.name.clone(),
                        category: current.category.clone(),
                        note: "カード作成時または現在の状態を確認できませんでした。".to_owned(),
                        card_state_label: Some(entry.state_label.clone()),
                        current_state_label: clone_label(&current.current_state),
                    },
                )
            } else {
                let label = match &current.current_state {
                    Some(st) => st.label.clone(),
                    None => String::new(),
                };
                if entry.state_label == label {
                    (
                        CardSection::Matching,
                        CustomCardEntry {
                            action_id: entry.action_id.clone(),
                            name: current.name.clone(),
                            category: current.category.clone(),
                            note: "カード作成時と同じ状態です。".to_owned(),
                            card_state_label: Some(entry.state_label.clone()),
                            current_state_label: Some(label),
                        },
                    )
                } else {
                    let note = concat(
                        concat(
                            concat(
                                concat("カードの記録は「".to_owned(), entry.state_label.as_str()),
                                "」、現在は「",
                            ),
                            label.as_str(),
                        ),
                        "」です。",
                    );
                    (
                        CardSection::Changed,
                        CustomCardEntry {
                            action_id: entry.action_id.clone(),
                            name: current.name.clone(),
                            category: current.category.clone(),
                            note,
                            card_state_label: Some(entry.state_label.clone()),
                            current_state_label: Some(label),
                        },
                    )
                }
            }
        },
    }
}

fn card_mentions(entries: &Vec<SettingsSnapshotEntry>, id: &String) -> (r: bool)
    ensures
        r == card_has_id(entries@, id@),
{
    let mut k: usize = 0;
    while k < entries.len()
        invariant
            k <= entries@.len(),
            forall|j: int| 0 <= j < k ==> #[trigger] entries@[j].action_id@ != id@,
        decreases entries@.len() - k,
    {
        if entries[k].action_id == *id {
            return true;
        }
        k += 1;
    }
    false
}

fn push_view(v: &mut Vec<CustomCardEntry>, e: CustomCardEntry)
    ensures
        card_views(final(v)@) == card_views(old(v)@).push(card_view(e)),
{
    v.push(e);
    assert(card_views(v@) =~= card_views(old(v)@).push(card_view(e)));
}

/// Compares a custom card with the current state, read-only. `parsed` is the
/// card decoded from `card_json`, or `None` when it did not decode.
///
/// A card that is too large, does not decode or lists too many entries is
/// refused, in that order. Otherwise every card entry lands in exactly one
/// section, and every current Action the card does not mention is listed.
#[verifier::rlimit(30)]
pub fn inspect_custom_card(
    card_json: &str,
    parsed: Option<SettingsSnapshot>,
    actions: &[ActionPresentation],
    current_os_build: Option<u32>,
) -> (r: CoreResult<CustomCardReport>)
    ensures
        card_json.spec_bytes().len() > MAX_CUSTOM_CARD_JSON_BYTES ==> (r matches Err(e)
            && e.code@ == "INVALID_REQUEST"@ && e.user_message@ == too_large_message()),
        card_json.spec_bytes().len() <= MAX_CUSTOM_CARD_JSON_BYTES && parsed is None ==> (r matches Err(
            e,
        ) && e.code@ == "INVALID_REQUEST"@ && e.user_message@ == malformed_message()),
        card_json.spec_bytes().len() <= MAX_CUSTOM_CARD_JSON_BYTES && (parsed matches Some(card)
            && card.entries@.len() > MAX_CUSTOM_CARD_ENTRIES) ==> (r matches Err(e) && e.code@
            == "INVALID_REQUEST"@ && e.user_message@ == too_many_message()),
        r is Ok <==> card_json.spec_bytes().len() <= MAX_CUSTOM_CARD_JSON_BYTES && (parsed matches Some(
            card,
        ) && card.entries@.len() <= MAX_CUSTOM_CARD_ENTRIES),
        r matches Ok(report) ==> {
            let card = parsed->0;
            let entries = card.entries@;
            &&& report.captured_at == card.captured_at
            &&& opt_view(report.os_build_note) == spec_os_build_note(card.os_build, current_os_build)
            &&& card_views(report.matching@) == spec_section_entries(entries, actions@, CardSection::Matching)
            &&& card_views(report.changed@) == spec_section_entries(entries, actions@, CardSection::Changed)
            &&& card_views(report.missing_in_current@) == spec_section_entries(
                entries,
                actions@,
                CardSection::MissingInCurrent,
            )
            &&& card_views(report.unknown@) == spec_section_entries(entries, actions@, CardSection::Unknown)
            &&& card_views(report.missing_in_card@) == spec_missing_in_card(entries, actions@)
            &&& report.summary@ == spec_summary(
                report.matching@.len(),
                report.changed@.len(),
                report.unknown@.len(),
                report.missing_in_card@.len(),
                report.missing_in_current@.len(),
            )
        },
{
    if card_json.as_bytes().len() > MAX_CUSTOM_CARD_JSON_BYTES {
        return Err(CoreError::invalid_request("カスタムカードのデータサイズが大きすぎます。"));
    }
    let snapshot = match parsed {
        Some(card) => card,
        None => {
            return Err(CoreError::invalid_request("カスタムカードの形式が正しくありません。"));
        },
    };
    if snapshot.entries.len() > MAX_CUSTOM_CARD_ENTRIES {
        return Err(CoreError::invalid_request("カスタムカードに含まれる項目数が多すぎます。"));
    }

    let os_build_note = match (snapshot.os_build, current_os_build) {
        (Some(card_build), Some(current_build)) => {
            if card_build != current_build {
                let s = concat("カードを作成した時点のWindowsビルド(".to_owned(), decimal(card_build as u64).as_str());
                let s = concat(s, ")と現在のビルド(");
                let s = concat(s, decimal(current_build as u64).as_str());
                Some(concat(s, ")が異なります。"))
            } else {
                None
            }
        },
        _ => None,
    };

    let ghost entries = snapshot.entries@;
    let mut matching: Vec<CustomCardEntry> = Vec::new();
    let mut changed: Vec<CustomCardEntry> = Vec::new();
    let mut missing_in_current: Vec<CustomCardEntry> = Vec::new();
    let mut unknown: Vec<CustomCardEntry> = Vec::new();
    let mut k: usize = 0;
    while k < snapshot.entries.len()
        invariant
            k <= entries.len(),
            entries == snapshot.entries@,
            card_views(matching@) == spec_section_entries(entries.take(k as int), actions@, CardSection::Matching),
            card_views(changed@) == spec_section_entries(entries.take(k as int), actions@, CardSection::Changed),
            card_views(missing_in_current@) == spec_section_entries(
                entries.take(k as int),
                actions@,
                CardSection::MissingInCurrent,
            ),
            card_views(unknown@) == spec_section_entries(entries.take(k as int), actions@, CardSection::Unknown),
        decreases entries.len() - k,
    {
        proof {
            assert(entries.take(k as int + 1).drop_last() =~= entries.take(k as int));
        }
        let (section, entry) = classify_card_entry(&snapshot.entries[k], actions);
        match section {
            CardSection::Matching => push_view(&mut matching, entry),
            CardSection::Changed => push_view(&mut changed, entry),
            CardSection::MissingInCurrent => push_view(&mut missing_in_current, entry),
            CardSection::Unknown => push_view(&mut unknown, entry),
        }
        k += 1;
    }
    proof {
        assert(entries.take(entries.len() as int) =~= entries);
    }

    let mut missing_in_card: Vec<CustomCardEntry> = Vec::new();
    let mut k: usize = 0;
    while k < actions.len()
        invariant
            k <= actions@.len(),
            entries == snapshot.entries@,
            card_views(missing_in_card@) == spec_missing_in_card(entries, actions@.take(k as int)),
        decreases actions@.len() - k,
    {
        proof {
            assert(actions@.take(k as int + 1).drop_last() =~= actions@.take(k as int));
        }
        let action = &actions[k];
        if !card_mentions(&snapshot.entries, &action.id) {
            push_view(
                &mut missing_in_card,
                CustomCardEntry {
                    action_id: action.id.clone(),
                    name: action.name.clone(),
                    category: action.category.clone(),
                    note: "現在のPCに存在しますが、カードには記録されていません。".to_owned(),
                    card_state_label: None,
                    current_state_label: clone_label(&action.current_state),
                },
            );
        }
        k += 1;
    }
    proof {
        assert(actions@.take(actions@.len() as int) =~= actions@);
    }

    let s = concat("照合結果: 同じ状態が".to_owned(), decimal(matching.len() as u64).as_str());
    let s = concat(s, "件、変更あり");
    let s = concat(s, decimal(changed.len() as u64).as_str());
    let s = concat(s, "件、確認不可");
    let s = concat(s, decimal(unknown.len() as u64).as_str());
    let s = concat(s, "件、カードに無い項目");
    let s = concat(s, decimal(missing_in_card.len() as u64).as_str());
    let s = concat(s, "件、今に無い項目");
    let s = concat(s, decimal(missing_in_current.len() as u64).as_str());
    let summary = concat(s, "件です。");

    Ok(CustomCardReport {
        captured_at: snapshot.captured_at,
        os_build_note,
        matching,
        changed,
        missing_in_current,
        missing_in_card,
        unknown,
        summary,
    })
}

} // verus!

verus! {

/// Every card entry lands in exactly one section: the four sections
/// together are as long as the card.
pub proof fn lemma_sections_partition_card(entries: Seq<SettingsSnapshotEntry>, actions: Seq<ActionPresentation>)
    ensures
        spec_section_entries(entries, actions, CardSection::Matching).len() + spec_section_entries(
            entries,
            actions,
            CardSection::Changed,
        ).len() + spec_section_entries(entries, actions, CardSection::MissingInCurrent).len()
            + spec_section_entries(entries, actions, CardSection::Unknown).len() == entries.len(),
    decreases entries.len(),
{
    if entries.len() > 0 {
        lemma_sections_partition_card(entries.drop_last(), actions);
    }
}

/// Nothing whose state is unknown on either side is ever reported as the
/// same: an entry lands in Matching only when both states are known and
/// their labels agree.
pub proof fn lemma_matching_needs_known_equal_states(e: SettingsSnapshotEntry, actions: Seq<ActionPresentation>)
    ensures
        spec_section(e, actions) == CardSection::Matching ==> {
            let i = current_index(actions, e.action_id@);
            &&& 0 <= i < actions.len()
            &&& !unknown_kind(e.state_kind@)
            &&& actions[i].current_state matches Some(s) && !unknown_kind(s.kind@) && s.label@
                == e.state_label@
        },
{
    lemma_current_index(actions, e.action_id@);
}

proof fn lemma_current_index(actions: Seq<ActionPresentation>, id: Seq<char>)
    ensures
        -1 <= current_index(actions, id) < actions.len(),
    decreases actions.len(),
{
    if actions.len() > 0 {
        lemma_current_index(actions.drop_last(), id);
    }
}

} // verus!
