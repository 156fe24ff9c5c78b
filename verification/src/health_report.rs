//! Whether applied settings are still in place (read-only).
//!
//! A value that differs from the baseline is reported as different, never as
//! caused by a Windows update: closeness in time is not causation.

use vstd::prelude::*;
use crate::text::{concat, decimal, spec_decimal};

verus! {

/// The result of comparing one item with its baseline.
#[derive(Debug, Clone, Copy, PartialEq, Eq, Structural)]
pub enum HealthProbe {
    /// Still the value that was applied.
    HoldsApplied,
    /// Back to the value from before applying.
    BackToPrevious,
    /// Neither the applied nor the previous value.
    Neither,
    /// Could not be compared.
    Uncomparable,
}

/// The text chrono gives an instant, in Unix milliseconds, as a UTC
/// date and time to the minute (`%Y-%m-%d %H:%M`); `None` when the instant
/// lies outside chrono's range.
pub uninterp spec fn utc_minute_text(unix_ms: i64) -> Option<Seq<char>>;

/// Trusted: `chrono::DateTime::<Utc>::from_timestamp_millis`, then
/// `format("%Y-%m-%d %H:%M")` and `to_string` on the instant it gives. The
/// text is a function of `unix_ms` alone and is named `utc_minute_text`;
/// nothing more is stated of it.
#[verifier::external_body]
fn format_utc_minute(unix_ms: i64) -> (r: Option<String>)
    ensures
        match r {
            Some(text) => utc_minute_text(unix_ms) == Some(text@),
            None => utc_minute_text(unix_ms) is None,
        },
{
    match chrono::DateTime::<chrono::Utc>::from_timestamp_millis(unix_ms) {
        Some(instant) => Some(instant.format("%Y-%m-%d %H:%M").to_string()),
        None => None,
    }
}

/// The applied-at text of an instant that chrono cannot represent.
pub open spec fn unknown_time_text() -> Seq<char> {
    "時刻不明"@
}

pub open spec fn spec_applied_at_text(unix_ms: i64) -> Seq<char> {
    match utc_minute_text(unix_ms) {
        Some(text) => text,
        None => unknown_time_text(),
    }
}

/// The time an item was applied, as shown in the report: to the minute, or
/// a plain "unknown" when the instant is out of range.
pub fn format_local_timestamp(unix_ms: i64) -> (s: String)
    ensures
        s@ == spec_applied_at_text(unix_ms),
{
    match format_utc_minute(unix_ms) {
        Some(text) => text,
        None => String::from_str("時刻不明"),
    }
}

pub open spec fn unnamed_item_text() -> Seq<char> {
    "名前の分からない項目"@
}

/// One applied item as the report takes it: its registered name, or a plain
/// "unnamed" when its Action is not registered, and its applied-at time.
pub fn health_input(
    action_id: String,
    registered_name: Option<String>,
    applied_at_unix_ms: i64,
    probe: HealthProbe,
    uncomparable_reason: Option<String>,
) -> (i: HealthInput)
    ensures
        i.action_id == action_id,
        i.name@ == (match registered_name {
            Some(n) => n@,
            None => unnamed_item_text(),
        }),
        i.applied_at@ == spec_applied_at_text(applied_at_unix_ms),
        i.probe == probe,
        i.uncomparable_reason == uncomparable_reason,
{
    let name = match registered_name {
        Some(n) => n,
        None => String::from_str("名前の分からない項目"),
    };
    HealthInput {
        action_id,
        name,
        applied_at: format_local_timestamp(applied_at_unix_ms),
        probe,
        uncomparable_reason,
    }
}

pub open spec fn unreadable_reason_text() -> Seq<char> {
    "この変更の控えを読み取れませんでした。今の状態と見比べられません。"@
}

/// The stand-in for the `index`-th applied change whose backup could not be
/// read: it is counted as uncomparable instead of silently dropped.
pub fn unreadable_input(index: u64) -> (i: HealthInput)
    ensures
        i.action_id@ == "__unreadable_"@ + spec_decimal(index as nat),
        i.name@ == "記録を読めなかった変更"@,
        i.applied_at@ == "不明"@,
        i.probe == HealthProbe::Uncomparable,
        i.uncomparable_reason matches Some(reason) && reason@ == unreadable_reason_text(),
{
    HealthInput {
        action_id: concat(String::from_str("__unreadable_"), decimal(index).as_str()),
        name: String::from_str("記録を読めなかった変更"),
        applied_at: String::from_str("不明"),
        probe: HealthProbe::Uncomparable,
        uncomparable_reason: Some(String::from_str("この変更の控えを読み取れませんでした。今の状態と見比べられません。")),
    }
}

/// One item before it is sorted into the report.
#[derive(Debug, Clone)]
pub struct HealthInput {
    pub action_id: String,
    pub name: String,
    pub applied_at: String,
    pub probe: HealthProbe,
    pub uncomparable_reason: Option<String>,
}

#[derive(Debug, Clone, PartialEq, Eq)]
pub struct HealthEntry {
    pub action_id: String,
    pub name: String,
    pub note: String,
    pub applied_at: String,
}

#[derive(Debug, Clone, PartialEq, Eq)]
pub struct HealthReport {
    pub has_baseline: bool,
    pub no_baseline_note: Option<String>,
    pub holding: Vec<HealthEntry>,
    pub changed: Vec<HealthEntry>,
    pub unknown: Vec<HealthEntry>,
    pub update_reference: Option<String>,
    pub summary: String,
}

pub open spec fn no_baseline_text() -> Seq<char> {
    "まだ照合の基準がありません。このアプリで設定を1つでも適用すると、そのときの値を基準にして、あとから今の値と見比べられるようになります。"@
}

pub open spec fn holds_note() -> Seq<char> {
    "適用したときの状態のままです。"@
}

pub open spec fn back_note() -> Seq<char> {
    "適用する前の状態に戻っています。もう一度適用できます。"@
}

pub open spec fn neither_note() -> Seq<char> {
    "適用したときとも、適用する前とも違う状態です。"@
}

pub open spec fn unreadable_note() -> Seq<char> {
    "今の状態を読み取れませんでした。"@
}

/// The note attached to an input.
pub open spec fn spec_note(i: HealthInput) -> Seq<char> {
    match i.probe {
        HealthProbe::HoldsApplied => holds_note(),
        HealthProbe::BackToPrevious => back_note(),
        HealthProbe::Neither => neither_note(),
        HealthProbe::Uncomparable => match i.uncomparable_reason {
            Some(reason) => reason@,
            None => unreadable_note(),
        },
    }
}

/// 0: holding, 1: changed, 2: unknown.
pub open spec fn bucket_of(p: HealthProbe) -> int {
    match p {
        HealthProbe::HoldsApplied => 0,
        HealthProbe::BackToPrevious => 1,
        HealthProbe::Neither => 1,
        HealthProbe::Uncomparable => 2,
    }
}

/// An entry as four texts: action ID, name, note, applied-at.
pub open spec fn entry_view(e: HealthEntry) -> (Seq<char>, Seq<char>, Seq<char>, Seq<char>) {
    (e.action_id@, e.name@, e.note@, e.applied_at@)
}

pub open spec fn input_entry(i: HealthInput) -> (Seq<char>, Seq<char>, Seq<char>, Seq<char>) {
    (i.action_id@, i.name@, spec_note(i), i.applied_at@)
}

/// The entries of one bucket, in input order.
pub open spec fn spec_bucket(inputs: Seq<HealthInput>, bucket: int) -> Seq<(Seq<char>, Seq<char>, Seq<char>, Seq<char>)>
    decreases inputs.len(),
{
    if inputs.len() == 0 {
        Seq::empty()
    } else {
        let before = spec_bucket(inputs.drop_last(), bucket);
        if bucket_of(inputs.last().probe) == bucket {
            before.push(input_entry(inputs.last()))
        } else {
            before
        }
    }
}

/// The headline sentence for the three counts.
pub open spec fn spec_summary(holding: nat, changed: nat, unknown: nat) -> Seq<char> {
    if changed == 0 && unknown == 0 {
        spec_decimal(holding) + "件すべて、適用したときの状態のままです。"@
    } else if changed == 0 {
        spec_decimal(holding) + "件は適用したときのまま、"@ + spec_decimal(unknown) + "件は確認できませんでした。"@
    } else {
        spec_decimal(changed) + "件が適用したときと違う状態です。（そのままが"@ + spec_decimal(holding)
            + "件、確認できないものが"@ + spec_decimal(unknown) + "件）"@
    }
}

pub open spec fn spec_update_reference(last_checked: Seq<char>) -> Seq<char> {
    "参考: Windows が更新を最後に確認したのは "@ + last_checked
        + " です。日付が近いことと、設定が変わった原因が更新であることは別の話です。利用者自身や他のアプリが変えた可能性もあります。"@
}

/// The reference note about the last update check; it never states a cause.
pub fn update_reference_note(last_checked: &str) -> (s: String)
    ensures
        s@ == spec_update_reference(last_checked@),
{
    let start = String::from_str("参考: Windows が更新を最後に確認したのは ");
    let with_date = concat(start, last_checked);
    concat(
        with_date,
        " です。日付が近いことと、設定が変わった原因が更新であることは別の話です。利用者自身や他のアプリが変えた可能性もあります。",
    )
}

fn summary_text(holding: usize, changed: usize, unknown: usize) -> (s: String)
    ensures
        s@ == spec_summary(holding as nat, changed as nat, unknown as nat),
{
    if changed == 0 && unknown == 0 {
        concat(decimal(holding as u64), "件すべて、適用したときの状態のままです。")
    } else if changed == 0 {
        let s = concat(decimal(holding as u64), "件は適用したときのまま、");
        let s = concat(s, decimal(unknown as u64).as_str());
        concat(s, "件は確認できませんでした。")
    } else {
        let s = concat(decimal(changed as u64), "件が適用したときと違う状態です。（そのままが");
        let s = concat(s, decimal(holding as u64).as_str());
        let s = concat(s, "件、確認できないものが");
        let s = concat(s, decimal(unknown as u64).as_str());
        concat(s, "件）")
    }
}

fn make_entry(input: &HealthInput) -> (e: HealthEntry)
    ensures
        entry_view(e) == input_entry(*input),
{
    let note = match input.probe {
        HealthProbe::HoldsApplied => String::from_str("適用したときの状態のままです。"),
        HealthProbe::BackToPrevious => String::from_str("適用する前の状態に戻っています。もう一度適用できます。"),
        HealthProbe::Neither => String::from_str("適用したときとも、適用する前とも違う状態です。"),
        HealthProbe::Uncomparable => match &input.uncomparable_reason {
            Some(reason) => reason.clone(),
            None => String::from_str("今の状態を読み取れませんでした。"),
        },
    };
    HealthEntry {
        action_id: input.action_id.clone(),
        name: input.name.clone(),
        note,
        applied_at: input.applied_at.clone(),
    }
}

pub open spec fn views(entries: Seq<HealthEntry>) -> Seq<(Seq<char>, Seq<char>, Seq<char>, Seq<char>)> {
    entries.map_values(|e: HealthEntry| entry_view(e))
}

/// Sorts the items into still-applied, changed and unknown, in input order.
/// Without any item there is no baseline, and no update reference is shown.
pub fn build_health_report(inputs: Vec<HealthInput>, update_last_checked: Option<&str>) -> (r: HealthReport)
    ensures
        inputs@.len() == 0 ==> {
            &&& !r.has_baseline
            &&& r.no_baseline_note matches Some(note) && note@ == no_baseline_text()
            &&& r.holding@.len() == 0 && r.changed@.len() == 0 && r.unknown@.len() == 0
            &&& r.update_reference is None
            &&& r.summary@ == "照合できる基準がまだありません。"@
        },
        inputs@.len() > 0 ==> {
            &&& r.has_baseline
            &&& r.no_baseline_note is None
            &&& views(r.holding@) == spec_bucket(inputs@, 0)
            &&& views(r.changed@) == spec_bucket(inputs@, 1)
            &&& views(r.unknown@) == spec_bucket(inputs@, 2)
            &&& r.summary@ == spec_summary(
                r.holding@.len(),
                r.changed@.len(),
                r.unknown@.len(),
            )
            &&& match update_last_checked {
                Some(checked) => r.update_reference matches Some(text) && text@ == spec_update_reference(
                    checked@,
                ),
                None => r.update_reference is None,
            }
        },
{
    if inputs.len() == 0 {
        return HealthReport {
            has_baseline: false,
            no_baseline_note: Some(
                String::from_str(
                    "まだ照合の基準がありません。このアプリで設定を1つでも適用すると、そのときの値を基準にして、あとから今の値と見比べられるようになります。",
                ),
            ),
            holding: Vec::new(),
            changed: Vec::new(),
            unknown: Vec::new(),
            update_reference: None,
            summary: String::from_str("照合できる基準がまだありません。"),
        };
    }
    let mut holding: Vec<HealthEntry> = Vec::new();
    let mut changed: Vec<HealthEntry> = Vec::new();
    let mut unknown: Vec<HealthEntry> = Vec::new();
    let mut i: usize = 0;
    while i < inputs.len()
        invariant
            i <= inputs@.len(),
            views(holding@) == spec_bucket(inputs@.subrange(0, i as int), 0),
            views(changed@) == spec_bucket(inputs@.subrange(0, i as int), 1),
            views(unknown@) == spec_bucket(inputs@.subrange(0, i as int), 2),
            holding@.len() <= i && changed@.len() <= i && unknown@.len() <= i,
        decreases inputs@.len() - i,
    {
        let input = &inputs[i];
        let entry = make_entry(input);
        let ghost prefix = inputs@.subrange(0, i + 1);
        assert(prefix.drop_last() =~= inputs@.subrange(0, i as int));
        assert(prefix.last() == inputs@[i as int]);
        match input.probe {
            HealthProbe::HoldsApplied => {
                holding.push(entry);
                assert(views(holding@) =~= spec_bucket(prefix, 0));
                assert(views(changed@) =~= spec_bucket(prefix, 1));
                assert(views(unknown@) =~= spec_bucket(prefix, 2));
            },
            HealthProbe::BackToPrevious | HealthProbe::Neither => {
                changed.push(entry);
                assert(views(holding@) =~= spec_bucket(prefix, 0));
                assert(views(changed@) =~= spec_bucket(prefix, 1));
                assert(views(unknown@) =~= spec_bucket(prefix, 2));
            },
            HealthProbe::Uncomparable => {
                unknown.push(entry);
                assert(views(holding@) =~= spec_bucket(prefix, 0));
                assert(views(changed@) =~= spec_bucket(prefix, 1));
                assert(views(unknown@) =~= spec_bucket(prefix, 2));
            },
        }
        i = i + 1;
    }
    assert(inputs@.subrange(0, inputs@.len() as int) =~= inputs@);
    let summary = summary_text(holding.len(), changed.len(), unknown.len());
    let update_reference = match update_last_checked {
        Some(checked) => Some(update_reference_note(checked)),
        None => None,
    };
    HealthReport {
        has_baseline: true,
        no_baseline_note: None,
        holding,
        changed,
        unknown,
        update_reference,
        summary,
    }
}

/// Every input lands in exactly one of the three lists.
pub proof fn lemma_buckets_partition_inputs(inputs: Seq<HealthInput>)
    ensures
        spec_bucket(inputs, 0).len() + spec_bucket(inputs, 1).len() + spec_bucket(inputs, 2).len()
            == inputs.len(),
    decreases inputs.len(),
{
    if inputs.len() > 0 {
        lemma_buckets_partition_inputs(inputs.drop_last());
    }
}

/// An item that could not be compared never lands among the items still
/// holding their applied value: every holding entry comes from an input
/// whose probe said it still holds.
pub proof fn lemma_holding_only_from_holds_applied(inputs: Seq<HealthInput>, k: int)
    requires
        0 <= k < spec_bucket(inputs, 0).len(),
    ensures
        exists|j: int| 0 <= j < inputs.len() && inputs[j].probe == HealthProbe::HoldsApplied && input_entry(
            inputs[j],
        ) == spec_bucket(inputs, 0)[k],
    decreases inputs.len(),
{
    let before = spec_bucket(inputs.drop_last(), 0);
    if k < before.len() {
        lemma_holding_only_from_holds_applied(inputs.drop_last(), k);
        let j = choose|j: int| 0 <= j < inputs.drop_last().len() && inputs.drop_last()[j].probe
            == HealthProbe::HoldsApplied && input_entry(inputs.drop_last()[j]) == before[k];
        assert(inputs[j] == inputs.drop_last()[j]);
    } else {
        assert(inputs[inputs.len() - 1] == inputs.last());
    }
}

} // verus!
