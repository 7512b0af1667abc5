//! Properties of the library as a whole, stated over the specifications that
//! the functions' contracts use.

use vstd::prelude::*;

use crate::comparator::{
    agree_upto, aligned, categorize_spec, category_count, pair_ok, penalty_of, penalty_total,
    safety_score_of,
};
use crate::execution::{same_result, state_view, text_view, TxExecutionResult};
use crate::fixture::TransactionSpec;
use crate::program_abi::{counter_data_ok, counter_decodes_to, instruction_data, le_bytes, le_u64, Counter, CounterInstruction};
use crate::replay::{base58_address, snapshot_of};
use crate::report::{category_is_regression, Report, RunSummary, TxComparison, TxOutcomeCategory};
use crate::comparator::{comparison_of, report_of};
use crate::render::{markdown_of, md_about, md_header, md_regressions, md_score, md_summary, md_table};
use crate::text::dec;

verus! {

/// Two runs that each line up with the fixture (as two replays of the same
/// fixture do) agree with each other on every label, so comparing them never
/// fails with a mismatch.
pub proof fn lemma_aligned_runs_agree(
    ts: Seq<TransactionSpec>,
    olds: Seq<TxExecutionResult>,
    news: Seq<TxExecutionResult>,
)
    requires
        aligned(ts, olds),
        aligned(ts, news),
    ensures
        agree_upto(ts, olds, news, ts.len() as int),
{
    assert forall|j: int| 0 <= j < ts.len() implies #[trigger] pair_ok(ts, olds, news, j) by {
        assert(ts[j].label@ == olds[j].label@);
        assert(ts[j].label@ == news[j].label@);
    }
}

/// The same outcome on both sides is no change: a run compared with a copy of
/// itself classifies every transaction as unchanged and scores 100.
pub proof fn lemma_identical_runs_score_100(olds: Seq<TxExecutionResult>, news: Seq<TxExecutionResult>)
    requires
        olds.len() == news.len(),
        forall|i: int| 0 <= i < olds.len() ==> #[trigger] same_result(olds[i], news[i]),
    ensures
        forall|i: int| 0 <= i < olds.len() ==> #[trigger] categorize_spec(olds[i], news[i]) == TxOutcomeCategory::Unchanged,
        category_count(olds, news, olds.len() as int, TxOutcomeCategory::Unchanged) == olds.len(),
        safety_score_of(olds, news) == 100,
{
    assert forall|i: int| 0 <= i < olds.len() implies #[trigger] categorize_spec(olds[i], news[i]) == TxOutcomeCategory::Unchanged by {
        assert(same_result(olds[i], news[i]));
    }
    lemma_unchanged_prefix(olds, news, olds.len() as int);
}

proof fn lemma_unchanged_prefix(olds: Seq<TxExecutionResult>, news: Seq<TxExecutionResult>, k: int)
    requires
        0 <= k <= olds.len(),
        forall|i: int| 0 <= i < k ==> #[trigger] categorize_spec(olds[i], news[i]) == TxOutcomeCategory::Unchanged,
    ensures
        category_count(olds, news, k, TxOutcomeCategory::Unchanged) == k,
        penalty_total(olds, news, k) == 0,
    decreases k,
{
    if k > 0 {
        lemma_unchanged_prefix(olds, news, k - 1);
        assert(categorize_spec(olds[k - 1], news[k - 1]) == TxOutcomeCategory::Unchanged);
    }
}

proof fn lemma_penalty_zero_means_unchanged(olds: Seq<TxExecutionResult>, news: Seq<TxExecutionResult>, k: int)
    requires
        0 <= k <= olds.len(),
    ensures
        penalty_total(olds, news, k) >= 0,
        penalty_total(olds, news, k) == 0 ==> forall|i: int| 0 <= i < k ==> #[trigger] categorize_spec(olds[i], news[i]) == TxOutcomeCategory::Unchanged,
    decreases k,
{
    if k > 0 {
        lemma_penalty_zero_means_unchanged(olds, news, k - 1);
    }
}

/// The safety score is 100 exactly when every transaction is unchanged: any
/// difference at all, a compute unit shift included, costs points.
pub proof fn lemma_score_100_iff_all_unchanged(olds: Seq<TxExecutionResult>, news: Seq<TxExecutionResult>)
    requires
        olds.len() == news.len(),
    ensures
        safety_score_of(olds, news) == 100 <==> forall|i: int| 0 <= i < olds.len() ==> #[trigger] categorize_spec(olds[i], news[i]) == TxOutcomeCategory::Unchanged,
{
    lemma_penalty_zero_means_unchanged(olds, news, olds.len() as int);
    if forall|i: int| 0 <= i < olds.len() ==> #[trigger] categorize_spec(olds[i], news[i]) == TxOutcomeCategory::Unchanged {
        lemma_unchanged_prefix(olds, news, olds.len() as int);
    }
}

proof fn lemma_penalty_total_prefix(olds: Seq<TxExecutionResult>, news: Seq<TxExecutionResult>, m: int, k: int)
    requires
        0 <= k <= m <= olds.len(),
        m <= news.len(),
    ensures
        penalty_total(olds.take(m), news.take(m), k) == penalty_total(olds, news, k),
    decreases k,
{
    if k > 0 {
        lemma_penalty_total_prefix(olds, news, m, k - 1);
    }
}

/// The score of a run never rises as more transactions are compared: each one
/// can only add to the penalties.
pub proof fn lemma_score_never_rises(olds: Seq<TxExecutionResult>, news: Seq<TxExecutionResult>, k: int)
    requires
        olds.len() == news.len(),
        0 <= k < olds.len(),
    ensures
        safety_score_of(olds.take(k + 1), news.take(k + 1)) <= safety_score_of(olds.take(k), news.take(k)),
{
    lemma_penalty_total_prefix(olds, news, k + 1, k + 1);
    lemma_penalty_total_prefix(olds, news, k, k);
    lemma_penalty_total_prefix(olds, news, k + 1, k);
    assert(olds.take(k).len() == k);
    assert(olds.take(k + 1).len() == k + 1);
}

/// The category when old and new are swapped: a new failure becomes a new
/// success and back; every other category is symmetric.
pub open spec fn mirrored(c: TxOutcomeCategory) -> TxOutcomeCategory {
    match c {
        TxOutcomeCategory::NewFailure => TxOutcomeCategory::NewSuccess,
        TxOutcomeCategory::NewSuccess => TxOutcomeCategory::NewFailure,
        other => other,
    }
}

/// Comparing in the other direction swaps new failures and new successes
/// and keeps every other category.
pub proof fn lemma_categorize_mirror(a: TxExecutionResult, b: TxExecutionResult)
    ensures
        categorize_spec(b, a) == mirrored(categorize_spec(a, b)),
{
}

/// Every regression costs more than any non-regression, and silent behavior
/// changes and new failures cost the most.
pub proof fn lemma_regressions_weigh_more(c: TxOutcomeCategory, d: TxOutcomeCategory)
    ensures
        category_is_regression(c) && !category_is_regression(d) ==> penalty_of(c) > penalty_of(d),
        penalty_of(c) <= penalty_of(TxOutcomeCategory::BehaviorChanged),
        penalty_of(TxOutcomeCategory::BehaviorChanged) == penalty_of(TxOutcomeCategory::NewFailure),
{
}

/// The little-endian layout used for instruction fields and for the
/// counter's value reads back what it wrote.
pub proof fn lemma_le_round_trip(v: u64)
    ensures
        le_u64(le_bytes(v)) == v,
{
    let b = le_bytes(v);
    assert(b[0] == (v & 0xff) as u8 && b[1] == ((v >> 8u64) & 0xff) as u8 && b[2] == ((v >> 16u64) & 0xff) as u8
        && b[3] == ((v >> 24u64) & 0xff) as u8 && b[4] == ((v >> 32u64) & 0xff) as u8
        && b[5] == ((v >> 40u64) & 0xff) as u8 && b[6] == ((v >> 48u64) & 0xff) as u8
        && b[7] == ((v >> 56u64) & 0xff) as u8);
    assert(((((v & 0xff) as u8) as u64) | (((((v >> 8u64) & 0xff) as u8) as u64) << 8u64)
        | (((((v >> 16u64) & 0xff) as u8) as u64) << 16u64) | (((((v >> 24u64) & 0xff) as u8) as u64) << 24u64)
        | (((((v >> 32u64) & 0xff) as u8) as u64) << 32u64) | (((((v >> 40u64) & 0xff) as u8) as u64) << 40u64)
        | (((((v >> 48u64) & 0xff) as u8) as u64) << 48u64) | (((((v >> 56u64) & 0xff) as u8) as u64) << 56u64))
        == v) by (bit_vector);
}


/// The number that eight bytes stand for, least significant byte first.
pub open spec fn le_value8(b: Seq<u8>) -> int {
    b[0] + 0x100 * b[1] + 0x1_0000 * b[2] + 0x100_0000 * b[3] + 0x1_0000_0000 * b[4]
        + 0x100_0000_0000 * b[5] + 0x1_0000_0000_0000 * b[6] + 0x100_0000_0000_0000 * b[7]
}

/// The eight little-endian bytes of a `u64` stand for that number.
proof fn lemma_le_bytes_value(v: u64)
    ensures
        le_value8(le_bytes(v)) == v,
{
    let b = le_bytes(v);
    assert(b[0] == (v & 0xff) as u8 && b[1] == ((v >> 8u64) & 0xff) as u8 && b[2] == ((v >> 16u64) & 0xff) as u8
        && b[3] == ((v >> 24u64) & 0xff) as u8 && b[4] == ((v >> 32u64) & 0xff) as u8
        && b[5] == ((v >> 40u64) & 0xff) as u8 && b[6] == ((v >> 48u64) & 0xff) as u8
        && b[7] == ((v >> 56u64) & 0xff) as u8);
    assert(((v & 0xff) as u8) + 0x100 * (((v >> 8u64) & 0xff) as u8) + 0x1_0000 * (((v >> 16u64) & 0xff) as u8)
        + 0x100_0000 * (((v >> 24u64) & 0xff) as u8) + 0x1_0000_0000 * (((v >> 32u64) & 0xff) as u8)
        + 0x100_0000_0000 * (((v >> 40u64) & 0xff) as u8) + 0x1_0000_0000_0000 * (((v >> 48u64) & 0xff) as u8)
        + 0x100_0000_0000_0000 * (((v >> 56u64) & 0xff) as u8) == v) by (bit_vector);
}

/// Reading eight bytes as a little-endian `u64` gives the number they stand
/// for.
proof fn lemma_le_u64_value(b: Seq<u8>)
    requires
        b.len() == 8,
    ensures
        le_u64(b) == le_value8(b),
{
    let (b0, b1, b2, b3, b4, b5, b6, b7) = (b[0], b[1], b[2], b[3], b[4], b[5], b[6], b[7]);
    assert((b0 as u64) | ((b1 as u64) << 8u64) | ((b2 as u64) << 16u64) | ((b3 as u64) << 24u64)
        | ((b4 as u64) << 32u64) | ((b5 as u64) << 40u64) | ((b6 as u64) << 48u64) | ((b7 as u64) << 56u64)
        == b0 + 0x100 * b1 + 0x1_0000 * b2 + 0x100_0000 * b3 + 0x1_0000_0000 * b4
        + 0x100_0000_0000 * b5 + 0x1_0000_0000_0000 * b6 + 0x100_0000_0000_0000 * b7) by (bit_vector);
}

/// How one transaction's outcome changed, category by category: a new
/// failure is success turning into failure and a new success the reverse;
/// when both runs succeed, a changed counter state is a behavior change,
/// whatever the compute units did; when both fail, a changed error is an
/// error change, whatever the compute units did; a compute unit change is
/// the same success, the same state or error, and different compute units;
/// and no change is the same everything.
pub proof fn lemma_category_meaning(old: TxExecutionResult, new: TxExecutionResult)
    ensures
        (categorize_spec(old, new) == TxOutcomeCategory::NewFailure) <==> (old.success && !new.success),
        (categorize_spec(old, new) == TxOutcomeCategory::NewSuccess) <==> (!old.success && new.success),
        (categorize_spec(old, new) == TxOutcomeCategory::BehaviorChanged) <==> (old.success && new.success
            && state_view(old.counter_state) != state_view(new.counter_state)),
        (categorize_spec(old, new) == TxOutcomeCategory::ErrorChanged) <==> (!old.success && !new.success
            && text_view(old.error) != text_view(new.error)),
        (categorize_spec(old, new) == TxOutcomeCategory::ComputeUnitsChanged) <==> {
            &&& old.success == new.success
            &&& old.success ==> state_view(old.counter_state) == state_view(new.counter_state)
            &&& !old.success ==> text_view(old.error) == text_view(new.error)
            &&& old.compute_units_consumed != new.compute_units_consumed
        },
        (categorize_spec(old, new) == TxOutcomeCategory::Unchanged) <==> {
            &&& old.success == new.success
            &&& old.success ==> state_view(old.counter_state) == state_view(new.counter_state)
            &&& !old.success ==> text_view(old.error) == text_view(new.error)
            &&& old.compute_units_consumed == new.compute_units_consumed
        },
{
}

/// An instruction's data is nine bytes: the index of its variant (in the
/// order `Initialize`, `Increment`, `Decrement`, `SetValue`), then its own
/// field as the eight little-endian bytes of that number.
pub proof fn lemma_instruction_layout(i: CounterInstruction)
    ensures
        instruction_data(i).len() == 9,
        instruction_data(i)[0] == match i {
            CounterInstruction::Initialize { .. } => 0u8,
            CounterInstruction::Increment { .. } => 1u8,
            CounterInstruction::Decrement { .. } => 2u8,
            CounterInstruction::SetValue { .. } => 3u8,
        },
        le_value8(instruction_data(i).subrange(1, 9)) == match i {
            CounterInstruction::Initialize { start_value } => start_value as int,
            CounterInstruction::Increment { amount } => amount as int,
            CounterInstruction::Decrement { amount } => amount as int,
            CounterInstruction::SetValue { value } => value as int,
        },
{
    let d = instruction_data(i);
    let field: u64 = match i {
        CounterInstruction::Initialize { start_value } => start_value,
        CounterInstruction::Increment { amount } => amount,
        CounterInstruction::Decrement { amount } => amount,
        CounterInstruction::SetValue { value } => value,
    };
    assert(d.subrange(1, 9) =~= le_bytes(field));
    lemma_le_bytes_value(field);
}

/// The counter account's data, once decoded, says: initialized exactly when
/// the first byte is 1; the authority is the next 32 bytes, in order; the
/// value is the last 8 bytes, least significant first.
pub proof fn lemma_counter_layout(data: Seq<u8>, c: Counter)
    requires
        counter_data_ok(data),
        counter_decodes_to(data, c),
    ensures
        c.is_initialized == (data[0] == 1),
        forall|j: int| 0 <= j < 32 ==> #[trigger] c.authority@[j] == data[j + 1],
        c.value == le_value8(data.subrange(33, 41)),
{
    lemma_le_u64_value(data.subrange(33, 41));
}

/// The snapshot of the counter account reads its data as laid out: the flag
/// byte, the base58 text of the 32 authority bytes that follow it, in order,
/// and the value in the last 8 bytes, least significant first.
pub proof fn lemma_snapshot_layout(data: Seq<u8>)
    requires
        counter_data_ok(data),
    ensures
        snapshot_of(Some(data)) matches Some((initialized, authority, value)) && {
            &&& initialized == (data[0] == 1)
            &&& authority == base58_address(Seq::new(32, |j: int| data[j + 1]))
            &&& value == le_value8(data.subrange(33, 41))
        },
{
    assert(data.subrange(1, 33) =~= Seq::new(32, |j: int| data[j + 1]));
    lemma_le_u64_value(data.subrange(33, 41));
}


/// How many of the comparisons carry category `c`.
pub open spec fn count_category(cs: Seq<TxComparison>, c: TxOutcomeCategory) -> nat
    decreases cs.len(),
{
    if cs.len() == 0 {
        0
    } else {
        count_category(cs.drop_last(), c) + if cs.last().category == c {
            1nat
        } else {
            0nat
        }
    }
}

proof fn lemma_counts_match_prefix(
    cs: Seq<TxComparison>,
    ts: Seq<TransactionSpec>,
    olds: Seq<TxExecutionResult>,
    news: Seq<TxExecutionResult>,
    k: int,
    c: TxOutcomeCategory,
)
    requires
        0 <= k <= cs.len(),
        cs.len() == ts.len(),
        forall|i: int| 0 <= i < ts.len() ==> #[trigger] comparison_of(cs[i], ts[i], olds[i], news[i]),
    ensures
        category_count(olds, news, k, c) == count_category(cs.subrange(0, k), c),
    decreases k,
{
    if k > 0 {
        lemma_counts_match_prefix(cs, ts, olds, news, k - 1, c);
        assert(cs.subrange(0, k).drop_last() =~= cs.subrange(0, k - 1));
        assert(comparison_of(cs[k - 1], ts[k - 1], olds[k - 1], news[k - 1]));
    }
}

/// A report's summary counts its comparisons: the total is the number of
/// comparisons, and each category's count is the number of comparisons that
/// carry that category.
pub proof fn lemma_summary_counts_comparisons(
    report: Report,
    old_program: Seq<char>,
    new_program: Seq<char>,
    ts: Seq<TransactionSpec>,
    olds: Seq<TxExecutionResult>,
    news: Seq<TxExecutionResult>,
)
    requires
        report_of(report, old_program, new_program, ts, olds, news),
        olds.len() == ts.len(),
    ensures
        report.summary.total == report.comparisons@.len(),
        report.summary.unchanged == count_category(report.comparisons@, TxOutcomeCategory::Unchanged),
        report.summary.compute_units_changed == count_category(report.comparisons@, TxOutcomeCategory::ComputeUnitsChanged),
        report.summary.behavior_changed == count_category(report.comparisons@, TxOutcomeCategory::BehaviorChanged),
        report.summary.error_changed == count_category(report.comparisons@, TxOutcomeCategory::ErrorChanged),
        report.summary.new_failures == count_category(report.comparisons@, TxOutcomeCategory::NewFailure),
        report.summary.new_successes == count_category(report.comparisons@, TxOutcomeCategory::NewSuccess),
{
    let cs = report.comparisons@;
    let n = ts.len() as int;
    assert(cs.subrange(0, n) =~= cs);
    lemma_counts_match_prefix(cs, ts, olds, news, n, TxOutcomeCategory::Unchanged);
    lemma_counts_match_prefix(cs, ts, olds, news, n, TxOutcomeCategory::ComputeUnitsChanged);
    lemma_counts_match_prefix(cs, ts, olds, news, n, TxOutcomeCategory::BehaviorChanged);
    lemma_counts_match_prefix(cs, ts, olds, news, n, TxOutcomeCategory::ErrorChanged);
    lemma_counts_match_prefix(cs, ts, olds, news, n, TxOutcomeCategory::NewFailure);
    lemma_counts_match_prefix(cs, ts, olds, news, n, TxOutcomeCategory::NewSuccess);
}

/// The summary table, row by row.
proof fn lemma_summary_table_split(s: RunSummary)
    ensures
        md_summary(s) == "## Summary\n\n| Outcome | Count |\n|---|---|\n"@
            + ("| Unchanged | "@ + dec(s.unchanged as nat) + " |\n"@)
            + ("| Compute units changed | "@ + dec(s.compute_units_changed as nat) + " |\n"@)
            + ("| Behavior changed | "@ + dec(s.behavior_changed as nat) + " |\n"@)
            + ("| Error changed | "@ + dec(s.error_changed as nat) + " |\n"@)
            + ("| New failures (regressions) | "@ + dec(s.new_failures as nat) + " |\n"@)
            + ("| New successes | "@ + dec(s.new_successes as nat) + " |\n"@) + "\n"@,
{
    reveal_strlit("## Summary\n\n| Outcome | Count |\n|---|---|\n| Unchanged | ");
    reveal_strlit("## Summary\n\n| Outcome | Count |\n|---|---|\n");
    reveal_strlit(" |\n| Compute units changed | ");
    reveal_strlit(" |\n| Behavior changed | ");
    reveal_strlit(" |\n| Error changed | ");
    reveal_strlit(" |\n| New failures (regressions) | ");
    reveal_strlit(" |\n| New successes | ");
    reveal_strlit(" |\n\n");
    reveal_strlit(" |\n");
    reveal_strlit("\n");
    reveal_strlit("| Unchanged | ");
    reveal_strlit("| Compute units changed | ");
    reveal_strlit("| Behavior changed | ");
    reveal_strlit("| Error changed | ");
    reveal_strlit("| New failures (regressions) | ");
    reveal_strlit("| New successes | ");
    assert(md_summary(s) =~= "## Summary\n\n| Outcome | Count |\n|---|---|\n"@
            + ("| Unchanged | "@ + dec(s.unchanged as nat) + " |\n"@)
            + ("| Compute units changed | "@ + dec(s.compute_units_changed as nat) + " |\n"@)
            + ("| Behavior changed | "@ + dec(s.behavior_changed as nat) + " |\n"@)
            + ("| Error changed | "@ + dec(s.error_changed as nat) + " |\n"@)
            + ("| New failures (regressions) | "@ + dec(s.new_failures as nat) + " |\n"@)
            + ("| New successes | "@ + dec(s.new_successes as nat) + " |\n"@) + "\n"@);
}

/// `row` stands in `text`.
pub open spec fn contains_row(text: Seq<char>, row: Seq<char>) -> bool {
    exists|pre: Seq<char>, post: Seq<char>| #[trigger] (pre + row + post) == text
}

/// What stands in a text stands in any text around it.
proof fn lemma_row_in_context(text: Seq<char>, row: Seq<char>, before: Seq<char>, after: Seq<char>)
    requires
        contains_row(text, row),
    ensures
        contains_row(before + text + after, row),
{
    let (pre, post) = choose|pre: Seq<char>, post: Seq<char>| #[trigger] (pre + row + post) == text;
    assert((before + pre) + row + (post + after) =~= before + text + after);
}

/// The Markdown report's summary table has one row per category, each
/// showing that category's own count from the summary.
pub proof fn lemma_summary_table_rows(r: Report)
    ensures
        contains_row(markdown_of(r), "| Unchanged | "@ + dec(r.summary.unchanged as nat) + " |\n"@),
        contains_row(markdown_of(r), "| Compute units changed | "@ + dec(r.summary.compute_units_changed as nat) + " |\n"@),
        contains_row(markdown_of(r), "| Behavior changed | "@ + dec(r.summary.behavior_changed as nat) + " |\n"@),
        contains_row(markdown_of(r), "| Error changed | "@ + dec(r.summary.error_changed as nat) + " |\n"@),
        contains_row(markdown_of(r), "| New failures (regressions) | "@ + dec(r.summary.new_failures as nat) + " |\n"@),
        contains_row(markdown_of(r), "| New successes | "@ + dec(r.summary.new_successes as nat) + " |\n"@),
{
    let s = r.summary;
    lemma_summary_table_split(s);
    let t = "## Summary\n\n| Outcome | Count |\n|---|---|\n"@;
    let r0 = "| Unchanged | "@ + dec(s.unchanged as nat) + " |\n"@;
    let r1 = "| Compute units changed | "@ + dec(s.compute_units_changed as nat) + " |\n"@;
    let r2 = "| Behavior changed | "@ + dec(s.behavior_changed as nat) + " |\n"@;
    let r3 = "| Error changed | "@ + dec(s.error_changed as nat) + " |\n"@;
    let r4 = "| New failures (regressions) | "@ + dec(s.new_failures as nat) + " |\n"@;
    let r5 = "| New successes | "@ + dec(s.new_successes as nat) + " |\n"@;
    let n = "\n"@;
    let sum = md_summary(s);
    assert(t + r0 + (r1 + r2 + r3 + r4 + r5 + n) =~= sum);
    assert((t + r0) + r1 + (r2 + r3 + r4 + r5 + n) =~= sum);
    assert((t + r0 + r1) + r2 + (r3 + r4 + r5 + n) =~= sum);
    assert((t + r0 + r1 + r2) + r3 + (r4 + r5 + n) =~= sum);
    assert((t + r0 + r1 + r2 + r3) + r4 + (r5 + n) =~= sum);
    assert((t + r0 + r1 + r2 + r3 + r4) + r5 + n =~= sum);
    let before = md_header(r) + md_score(s);
    let after = md_regressions(r) + md_table(r) + md_about(s);
    assert(before + sum + after =~= markdown_of(r));
    lemma_row_in_context(sum, r0, before, after);
    lemma_row_in_context(sum, r1, before, after);
    lemma_row_in_context(sum, r2, before, after);
    lemma_row_in_context(sum, r3, before, after);
    lemma_row_in_context(sum, r4, before, after);
    lemma_row_in_context(sum, r5, before, after);
}

} // verus!
