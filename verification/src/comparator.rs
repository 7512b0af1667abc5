//! Compares two sets of transaction replay results (one per program build)
//! and classifies how each transaction's behavior did or did not change.
//!
//! Pure logic: it only reasons about the `TxExecutionResult` values that the
//! replay produces.

use vstd::prelude::*;

use crate::error::Error;
use crate::execution::{same_result, state_view, text_view, TxExecutionResult};
use crate::fixture::TransactionSpec;
use crate::report::{Report, RunSummary, TxComparison, TxOutcomeCategory};
use crate::text::{dec, push_signed, push_str, push_u64, push_usize, signed_dec};
use vstd::string::StringExecFns;

verus! {

// ---------------------------------------------------------------------------
// Classification of one transaction
// ---------------------------------------------------------------------------

/// Points subtracted from the 100-point baseline safety score for each
/// occurrence of a category. Silent behavior changes and new failures weigh
/// the most: they are the regressions manual testing is least likely to catch.
pub open spec fn penalty_of(c: TxOutcomeCategory) -> int {
    match c {
        TxOutcomeCategory::Unchanged => 0,
        TxOutcomeCategory::ComputeUnitsChanged => 3,
        TxOutcomeCategory::ErrorChanged => 8,
        TxOutcomeCategory::NewSuccess => 15,
        TxOutcomeCategory::NewFailure => 20,
        TxOutcomeCategory::BehaviorChanged => 20,
    }
}

/// How the outcome changed from `old` to `new`. When several conditions
/// overlap, the first that applies wins: a flip of success first, then a
/// change of error (both failed) or of account state (both succeeded), then a
/// change of compute units.
pub open spec fn categorize_spec(old: TxExecutionResult, new: TxExecutionResult) -> TxOutcomeCategory {
    if old.success && !new.success {
        TxOutcomeCategory::NewFailure
    } else if !old.success && new.success {
        TxOutcomeCategory::NewSuccess
    } else if !old.success && !new.success {
        if text_view(old.error) != text_view(new.error) {
            TxOutcomeCategory::ErrorChanged
        } else if old.compute_units_consumed != new.compute_units_consumed {
            TxOutcomeCategory::ComputeUnitsChanged
        } else {
            TxOutcomeCategory::Unchanged
        }
    } else if state_view(old.counter_state) != state_view(new.counter_state) {
        TxOutcomeCategory::BehaviorChanged
    } else if old.compute_units_consumed != new.compute_units_consumed {
        TxOutcomeCategory::ComputeUnitsChanged
    } else {
        TxOutcomeCategory::Unchanged
    }
}

/// `x` reinterpreted as a two's-complement `i64`, as `x as i64` does.
pub open spec fn wrap_i64(x: u64) -> int {
    if x <= i64::MAX {
        x as int
    } else {
        x - 0x1_0000_0000_0000_0000
    }
}

/// The compute unit delta `new as i64 - old as i64`.
pub open spec fn cu_delta(old: TxExecutionResult, new: TxExecutionResult) -> int {
    wrap_i64(new.compute_units_consumed) - wrap_i64(old.compute_units_consumed)
}

/// The compute unit delta fits in an `i64`, so computing it cannot overflow.
pub open spec fn delta_fits(old: TxExecutionResult, new: TxExecutionResult) -> bool {
    i64::MIN <= cu_delta(old, new) <= i64::MAX
}

/// The resulting state as shown in notes: `value=<n>` or `no state`.
pub open spec fn state_text(r: TxExecutionResult) -> Seq<char> {
    match r.counter_state {
        Some(s) => "value="@ + dec(s.value as nat),
        None => "no state"@,
    }
}

/// The error as shown in notes, `unknown error` where there is none.
pub open spec fn error_text(r: TxExecutionResult) -> Seq<char> {
    match r.error {
        Some(e) => e@,
        None => "unknown error"@,
    }
}

/// The plain-language explanation attached to a comparison.
pub open spec fn explain_spec(c: TxOutcomeCategory, old: TxExecutionResult, new: TxExecutionResult) -> Seq<char> {
    match c {
        TxOutcomeCategory::Unchanged => if old.success {
            "Succeeded on both versions with identical resulting state ("@ + state_text(old) + ")."@
        } else {
            "Failed on both versions with the same error ("@ + error_text(old) + ")."@
        },
        TxOutcomeCategory::ComputeUnitsChanged => (if old.success {
            "Succeeded on both versions with identical resulting state ("@ + state_text(old)
        } else {
            "Failed on both versions with the same error ("@ + error_text(old)
        }) + "), but compute units changed from "@ + dec(old.compute_units_consumed as nat) + " to "@
            + dec(new.compute_units_consumed as nat) + " ("@ + signed_dec(cu_delta(old, new)) + ")."@,
        TxOutcomeCategory::BehaviorChanged =>
            "Succeeded on both versions but produced different account state: old -> "@
                + state_text(old) + ", new -> "@ + state_text(new) + "."@,
        TxOutcomeCategory::ErrorChanged =>
            "Failed on both versions but with different errors: old -> "@ + error_text(old)
                + ", new -> "@ + error_text(new) + "."@,
        TxOutcomeCategory::NewFailure =>
            "Succeeded on the old program ("@ + state_text(old)
                + ") but failed on the new program: "@ + error_text(new) + "."@,
        TxOutcomeCategory::NewSuccess =>
            "Failed on the old program ("@ + error_text(old)
                + ") but succeeded on the new program ("@ + state_text(new) + ")."@,
    }
}

fn penalty(category: TxOutcomeCategory) -> (r: i64)
    ensures
        r == penalty_of(category),
{
    match category {
        TxOutcomeCategory::Unchanged => 0,
        TxOutcomeCategory::ComputeUnitsChanged => 3,
        TxOutcomeCategory::ErrorChanged => 8,
        TxOutcomeCategory::NewSuccess => 15,
        TxOutcomeCategory::NewFailure => 20,
        TxOutcomeCategory::BehaviorChanged => 20,
    }
}

fn same_text(a: &Option<String>, b: &Option<String>) -> (r: bool)
    ensures
        r == (text_view(*a) == text_view(*b)),
{
    match (a, b) {
        (Some(x), Some(y)) => *x == *y,
        (None, None) => true,
        _ => false,
    }
}

fn same_state(
    a: &Option<crate::execution::CounterStateSnapshot>,
    b: &Option<crate::execution::CounterStateSnapshot>,
) -> (r: bool)
    ensures
        r == (state_view(*a) == state_view(*b)),
{
    match (a, b) {
        (Some(x), Some(y)) => {
            let same_authority = x.authority == y.authority;
            x.is_initialized == y.is_initialized && same_authority && x.value == y.value
        },
        (None, None) => true,
        _ => false,
    }
}

/// The category of one transaction's change from `old` to `new`.
pub fn categorize(old: &TxExecutionResult, new: &TxExecutionResult) -> (r: TxOutcomeCategory)
    ensures
        r == categorize_spec(*old, *new),
{
    if old.success && !new.success {
        TxOutcomeCategory::NewFailure
    } else if !old.success && new.success {
        TxOutcomeCategory::NewSuccess
    } else if !old.success && !new.success {
        if !same_text(&old.error, &new.error) {
            TxOutcomeCategory::ErrorChanged
        } else if old.compute_units_consumed != new.compute_units_consumed {
            TxOutcomeCategory::ComputeUnitsChanged
        } else {
            TxOutcomeCategory::Unchanged
        }
    } else if !same_state(&old.counter_state, &new.counter_state) {
        TxOutcomeCategory::BehaviorChanged
    } else if old.compute_units_consumed != new.compute_units_consumed {
        TxOutcomeCategory::ComputeUnitsChanged
    } else {
        TxOutcomeCategory::Unchanged
    }
}

fn as_i64(x: u64) -> (r: i64)
    ensures
        r == wrap_i64(x),
{
    if x <= i64::MAX as u64 {
        x as i64
    } else {
        -((u64::MAX - x) as i64) - 1
    }
}

fn delta(old: &TxExecutionResult, new: &TxExecutionResult) -> (r: i64)
    requires
        delta_fits(*old, *new),
    ensures
        r == cu_delta(*old, *new),
{
    as_i64(new.compute_units_consumed) - as_i64(old.compute_units_consumed)
}

fn push_state(s: &mut String, r: &TxExecutionResult)
    ensures
        final(s)@ == old(s)@ + state_text(*r),
{
    match &r.counter_state {
        Some(state) => {
            push_str(s, "value=");
            push_u64(s, state.value);
            assert(final(s)@ =~= old(s)@ + state_text(*r));
        },
        None => {
            push_str(s, "no state");
        },
    }
}

fn push_error(s: &mut String, r: &TxExecutionResult)
    ensures
        final(s)@ == old(s)@ + error_text(*r),
{
    match &r.error {
        Some(e) => push_str(s, e.as_str()),
        None => push_str(s, "unknown error"),
    }
}

fn explain(category: TxOutcomeCategory, old: &TxExecutionResult, new: &TxExecutionResult) -> (r: String)
    requires
        category is ComputeUnitsChanged ==> delta_fits(*old, *new),
    ensures
        r@ == explain_spec(category, *old, *new),
{
    let mut s = String::new();
    match category {
        TxOutcomeCategory::Unchanged => {
            if old.success {
                push_str(&mut s, "Succeeded on both versions with identical resulting state (");
                push_state(&mut s, old);
                push_str(&mut s, ").");
            } else {
                push_str(&mut s, "Failed on both versions with the same error (");
                push_error(&mut s, old);
                push_str(&mut s, ").");
            }
        },
        TxOutcomeCategory::ComputeUnitsChanged => {
            if old.success {
                push_str(&mut s, "Succeeded on both versions with identical resulting state (");
                push_state(&mut s, old);
            } else {
                push_str(&mut s, "Failed on both versions with the same error (");
                push_error(&mut s, old);
            }
            push_str(&mut s, "), but compute units changed from ");
            push_u64(&mut s, old.compute_units_consumed);
            push_str(&mut s, " to ");
            push_u64(&mut s, new.compute_units_consumed);
            push_str(&mut s, " (");
            push_signed(&mut s, delta(old, new));
            push_str(&mut s, ").");
        },
        TxOutcomeCategory::BehaviorChanged => {
            push_str(&mut s, "Succeeded on both versions but produced different account state: old -> ");
            push_state(&mut s, old);
            push_str(&mut s, ", new -> ");
            push_state(&mut s, new);
            push_str(&mut s, ".");
        },
        TxOutcomeCategory::ErrorChanged => {
            push_str(&mut s, "Failed on both versions but with different errors: old -> ");
            push_error(&mut s, old);
            push_str(&mut s, ", new -> ");
            push_error(&mut s, new);
            push_str(&mut s, ".");
        },
        TxOutcomeCategory::NewFailure => {
            push_str(&mut s, "Succeeded on the old program (");
            push_state(&mut s, old);
            push_str(&mut s, ") but failed on the new program: ");
            push_error(&mut s, new);
            push_str(&mut s, ".");
        },
        TxOutcomeCategory::NewSuccess => {
            push_str(&mut s, "Failed on the old program (");
            push_error(&mut s, old);
            push_str(&mut s, ") but succeeded on the new program (");
            push_state(&mut s, new);
            push_str(&mut s, ").");
        },
    }
    assert(s@ =~= explain_spec(category, *old, *new));
    s
}

// ---------------------------------------------------------------------------
// Comparison of two aligned runs
// ---------------------------------------------------------------------------

/// The `j`-th transaction carries the same label in the fixture and in both
/// runs.
pub open spec fn pair_ok(
    ts: Seq<TransactionSpec>,
    olds: Seq<TxExecutionResult>,
    news: Seq<TxExecutionResult>,
    j: int,
) -> bool {
    ts[j].label@ == olds[j].label@ && ts[j].label@ == news[j].label@
}

/// The fixture and both runs have the same length.
pub open spec fn lengths_agree(
    ts: Seq<TransactionSpec>,
    olds: Seq<TxExecutionResult>,
    news: Seq<TxExecutionResult>,
) -> bool {
    ts.len() == olds.len() && ts.len() == news.len()
}

/// The lengths agree and the first `k` transactions carry matching labels.
pub open spec fn agree_upto(
    ts: Seq<TransactionSpec>,
    olds: Seq<TxExecutionResult>,
    news: Seq<TxExecutionResult>,
    k: int,
) -> bool {
    lengths_agree(ts, olds, news) && forall|j: int| 0 <= j < k ==> #[trigger] pair_ok(ts, olds, news, j)
}

/// A run lines up with the fixture: same length, same label at every index.
pub open spec fn aligned(ts: Seq<TransactionSpec>, rs: Seq<TxExecutionResult>) -> bool {
    ts.len() == rs.len() && forall|j: int| 0 <= j < ts.len() ==> #[trigger] ts[j].label@ == rs[j].label@
}

/// How many of the first `k` transactions fall into category `c`.
pub open spec fn category_count(
    olds: Seq<TxExecutionResult>,
    news: Seq<TxExecutionResult>,
    k: int,
    c: TxOutcomeCategory,
) -> nat
    decreases k,
{
    if k <= 0 {
        0
    } else {
        category_count(olds, news, k - 1, c) + if categorize_spec(olds[k - 1], news[k - 1]) == c {
            1nat
        } else {
            0nat
        }
    }
}

/// The sum of the penalties of the first `k` transactions.
pub open spec fn penalty_total(olds: Seq<TxExecutionResult>, news: Seq<TxExecutionResult>, k: int) -> int
    decreases k,
{
    if k <= 0 {
        0
    } else {
        penalty_total(olds, news, k - 1) + penalty_of(categorize_spec(olds[k - 1], news[k - 1]))
    }
}

/// The safety score of a run: 100 minus the penalties, clamped to 0..=100.
pub open spec fn safety_score_of(olds: Seq<TxExecutionResult>, news: Seq<TxExecutionResult>) -> int {
    let raw = 100 - penalty_total(olds, news, olds.len() as int);
    if raw < 0 {
        0
    } else if raw > 100 {
        100
    } else {
        raw
    }
}

/// The error message for runs of the wrong length.
pub open spec fn length_message(expected: nat, old_len: nat, new_len: nat) -> Seq<char> {
    "expected "@ + dec(expected) + " results from each run, got "@ + dec(old_len) + " old and "@
        + dec(new_len) + " new"@
}

/// The error message for a transaction whose label differs between the
/// fixture and a run.
pub open spec fn drift_message(t: TransactionSpec, old: TxExecutionResult, new: TxExecutionResult) -> Seq<char> {
    "transaction order drifted: expected '"@ + t.label@ + "', got old='"@ + old.label@ + "' new='"@
        + new.label@ + "'"@
}

/// `c` is the comparison of transaction `t` run as `old` and as `new`.
pub open spec fn comparison_of(c: TxComparison, t: TransactionSpec, old: TxExecutionResult, new: TxExecutionResult) -> bool {
    &&& c.label == t.label
    &&& c.description == t.description
    &&& c.category == categorize_spec(old, new)
    &&& same_result(c.old, old)
    &&& same_result(c.new, new)
    &&& c.compute_units_delta == cu_delta(old, new)
    &&& c.notes@ == explain_spec(c.category, old, new)
}

/// The summary counts each category among all `n` transactions and scores
/// them.
pub open spec fn summary_of(s: RunSummary, olds: Seq<TxExecutionResult>, news: Seq<TxExecutionResult>) -> bool {
    let n = olds.len() as int;
    &&& s.total == n
    &&& s.unchanged == category_count(olds, news, n, TxOutcomeCategory::Unchanged)
    &&& s.compute_units_changed == category_count(olds, news, n, TxOutcomeCategory::ComputeUnitsChanged)
    &&& s.behavior_changed == category_count(olds, news, n, TxOutcomeCategory::BehaviorChanged)
    &&& s.error_changed == category_count(olds, news, n, TxOutcomeCategory::ErrorChanged)
    &&& s.new_failures == category_count(olds, news, n, TxOutcomeCategory::NewFailure)
    &&& s.new_successes == category_count(olds, news, n, TxOutcomeCategory::NewSuccess)
    &&& s.safety_score == safety_score_of(olds, news)
}

/// `report` is the full comparison of the aligned runs `olds` and `news` of
/// the transactions `ts`.
pub open spec fn report_of(
    report: Report,
    old_program: Seq<char>,
    new_program: Seq<char>,
    ts: Seq<TransactionSpec>,
    olds: Seq<TxExecutionResult>,
    news: Seq<TxExecutionResult>,
) -> bool {
    &&& report.old_program@ == old_program
    &&& report.new_program@ == new_program
    &&& report.comparisons@.len() == ts.len()
    &&& forall|i: int| 0 <= i < ts.len() ==> #[trigger] comparison_of(report.comparisons@[i], ts[i], olds[i], news[i])
    &&& summary_of(report.summary, olds, news)
}

/// Every transaction that the comparison reaches has a compute unit delta
/// that fits in an `i64`.
pub open spec fn deltas_fit(
    ts: Seq<TransactionSpec>,
    olds: Seq<TxExecutionResult>,
    news: Seq<TxExecutionResult>,
) -> bool {
    forall|i: int| 0 <= i < ts.len() && #[trigger] agree_upto(ts, olds, news, i + 1) ==> delta_fits(olds[i], news[i])
}

/// The six category counts of the first `k` transactions add up to `k`.
pub proof fn lemma_counts_sum(olds: Seq<TxExecutionResult>, news: Seq<TxExecutionResult>, k: int)
    requires
        0 <= k,
    ensures
        category_count(olds, news, k, TxOutcomeCategory::Unchanged)
            + category_count(olds, news, k, TxOutcomeCategory::ComputeUnitsChanged)
            + category_count(olds, news, k, TxOutcomeCategory::BehaviorChanged)
            + category_count(olds, news, k, TxOutcomeCategory::ErrorChanged)
            + category_count(olds, news, k, TxOutcomeCategory::NewFailure)
            + category_count(olds, news, k, TxOutcomeCategory::NewSuccess) == k,
    decreases k,
{
    if k > 0 {
        lemma_counts_sum(olds, news, k - 1);
    }
}

proof fn lemma_penalty_total_nonneg(olds: Seq<TxExecutionResult>, news: Seq<TxExecutionResult>, k: int)
    ensures
        penalty_total(olds, news, k) >= 0,
    decreases k,
{
    if k > 0 {
        lemma_penalty_total_nonneg(olds, news, k - 1);
    }
}

/// The running score: `100 - total` while that is not negative, `-1` after.
spec fn running_score(total: int) -> int {
    if 100 - total >= 0 {
        100 - total
    } else {
        -1
    }
}

/// Compares aligned old/new replay results and produces a full [`Report`].
///
/// `transactions`, `old_results` and `new_results` must have the same length
/// and agree on transaction order (they do when both runs replayed the same
/// fixture); otherwise the result is `Error::Mismatch`.
pub fn compare(
    old_program: &str,
    new_program: &str,
    transactions: &[TransactionSpec],
    old_results: &[TxExecutionResult],
    new_results: &[TxExecutionResult],
) -> (r: Result<Report, Error>)
    requires
        deltas_fit(transactions@, old_results@, new_results@),
    ensures
        match r {
            Ok(report) => {
                &&& agree_upto(transactions@, old_results@, new_results@, transactions@.len() as int)
                &&& report_of(report, old_program@, new_program@, transactions@, old_results@, new_results@)
            },
            Err(Error::Mismatch(msg)) => {
                ||| {
                    &&& !lengths_agree(transactions@, old_results@, new_results@)
                    &&& msg@ == length_message(transactions@.len(), old_results@.len(), new_results@.len())
                }
                ||| exists|k: int| {
                    &&& 0 <= k < transactions@.len()
                    &&& #[trigger] agree_upto(transactions@, old_results@, new_results@, k)
                    &&& !pair_ok(transactions@, old_results@, new_results@, k)
                    &&& msg@ == drift_message(transactions@[k], old_results@[k], new_results@[k])
                }
            },
            Err(_) => false,
        },
{
    let ghost ts = transactions@;
    let ghost olds = old_results@;
    let ghost news = new_results@;
    if transactions.len() != old_results.len() || transactions.len() != new_results.len() {
        let mut msg = String::new();
        push_str(&mut msg, "expected ");
        push_usize(&mut msg, transactions.len());
        push_str(&mut msg, " results from each run, got ");
        push_usize(&mut msg, old_results.len());
        push_str(&mut msg, " old and ");
        push_usize(&mut msg, new_results.len());
        push_str(&mut msg, " new");
        assert(msg@ =~= length_message(ts.len(), olds.len(), news.len()));
        return Err(Error::Mismatch(msg));
    }
    let n = transactions.len();
    let mut comparisons: Vec<TxComparison> = Vec::new();
    let mut summary = RunSummary {
        total: n,
        unchanged: 0,
        compute_units_changed: 0,
        behavior_changed: 0,
        error_changed: 0,
        new_failures: 0,
        new_successes: 0,
        safety_score: 0,
    };
    let mut score: i64 = 100;
    let mut i: usize = 0;
    while i < n
        invariant
            n == ts.len(),
            lengths_agree(ts, olds, news),
            ts == transactions@,
            olds == old_results@,
            news == new_results@,
            deltas_fit(ts, olds, news),
            i <= n,
            agree_upto(ts, olds, news, i as int),
            comparisons@.len() == i,
            forall|j: int| 0 <= j < i ==> #[trigger] comparison_of(comparisons@[j], ts[j], olds[j], news[j]),
            summary.total == n,
            summary.unchanged == category_count(olds, news, i as int, TxOutcomeCategory::Unchanged),
            summary.compute_units_changed == category_count(olds, news, i as int, TxOutcomeCategory::ComputeUnitsChanged),
            summary.behavior_changed == category_count(olds, news, i as int, TxOutcomeCategory::BehaviorChanged),
            summary.error_changed == category_count(olds, news, i as int, TxOutcomeCategory::ErrorChanged),
            summary.new_failures == category_count(olds, news, i as int, TxOutcomeCategory::NewFailure),
            summary.new_successes == category_count(olds, news, i as int, TxOutcomeCategory::NewSuccess),
            score == running_score(penalty_total(olds, news, i as int)),
        decreases n - i,
    {
        let spec_i = &transactions[i];
        let old = &old_results[i];
        let new = &new_results[i];
        if spec_i.label != old.label || spec_i.label != new.label {
            let mut msg = String::new();
            push_str(&mut msg, "transaction order drifted: expected '");
            push_str(&mut msg, spec_i.label.as_str());
            push_str(&mut msg, "', got old='");
            push_str(&mut msg, old.label.as_str());
            push_str(&mut msg, "' new='");
            push_str(&mut msg, new.label.as_str());
            push_str(&mut msg, "'");
            assert(msg@ =~= drift_message(ts[i as int], olds[i as int], news[i as int]));
            assert(agree_upto(ts, olds, news, i as int));
            return Err(Error::Mismatch(msg));
        }
        assert(agree_upto(ts, olds, news, i + 1)) by {
            assert forall|j: int| 0 <= j < i + 1 implies #[trigger] pair_ok(ts, olds, news, j) by {
                if j < i {
                    assert(pair_ok(ts, olds, news, j));
                }
            }
        }
        assert(delta_fits(olds[i as int], news[i as int]));

        let category = categorize(old, new);
        proof {
            lemma_penalty_total_nonneg(olds, news, i as int);
            lemma_counts_sum(olds, news, i as int);
        }
        if score >= 0 {
            let next = score - penalty(category);
            score = if next < 0 { -1 } else { next };
        }
        match category {
            TxOutcomeCategory::Unchanged => summary.unchanged = summary.unchanged + 1,
            TxOutcomeCategory::ComputeUnitsChanged => summary.compute_units_changed = summary.compute_units_changed + 1,
            TxOutcomeCategory::BehaviorChanged => summary.behavior_changed = summary.behavior_changed + 1,
            TxOutcomeCategory::ErrorChanged => summary.error_changed = summary.error_changed + 1,
            TxOutcomeCategory::NewFailure => summary.new_failures = summary.new_failures + 1,
            TxOutcomeCategory::NewSuccess => summary.new_successes = summary.new_successes + 1,
        }
        let comparison = TxComparison {
            label: spec_i.label.clone(),
            description: spec_i.description.clone(),
            category,
            compute_units_delta: delta(old, new),
            notes: explain(category, old, new),
            old: old.clone(),
            new: new.clone(),
        };
        comparisons.push(comparison);
        i = i + 1;
    }
    proof {
        lemma_penalty_total_nonneg(olds, news, n as int);
    }
    summary.safety_score = if score < 0 { 0 } else { score as u8 };
    let report = Report {
        old_program: String::from_str(old_program),
        new_program: String::from_str(new_program),
        summary,
        comparisons,
    };
    Ok(report)
}

/// Whether [`compare`] can run on these inputs: every transaction it reaches
/// has a compute unit difference that fits in an `i64`.
pub fn compute_units_fit(
    transactions: &[TransactionSpec],
    old_results: &[TxExecutionResult],
    new_results: &[TxExecutionResult],
) -> (r: bool)
    ensures
        r == deltas_fit(transactions@, old_results@, new_results@),
{
    let ghost ts = transactions@;
    let ghost olds = old_results@;
    let ghost news = new_results@;
    if transactions.len() != old_results.len() || transactions.len() != new_results.len() {
        return true;
    }
    let mut i: usize = 0;
    while i < transactions.len()
        invariant
            ts == transactions@,
            olds == old_results@,
            news == new_results@,
            lengths_agree(ts, olds, news),
            i <= ts.len(),
            agree_upto(ts, olds, news, i as int),
            forall|j: int| 0 <= j < i ==> #[trigger] agree_upto(ts, olds, news, j + 1) ==> delta_fits(olds[j], news[j]),
        decreases ts.len() - i,
    {
        if transactions[i].label != old_results[i].label || transactions[i].label != new_results[i].label {
            assert forall|j: int| 0 <= j < ts.len() && #[trigger] agree_upto(ts, olds, news, j + 1) implies delta_fits(olds[j], news[j]) by {
                if j >= i {
                    assert(pair_ok(ts, olds, news, i as int));
                }
            }
            return true;
        }
        assert(agree_upto(ts, olds, news, i + 1)) by {
            assert forall|j: int| 0 <= j < i + 1 implies #[trigger] pair_ok(ts, olds, news, j) by {
                if j < i {
                    assert(pair_ok(ts, olds, news, j));
                }
            }
        }
        let old_cu = as_i64(old_results[i].compute_units_consumed) as i128;
        let new_cu = as_i64(new_results[i].compute_units_consumed) as i128;
        let d: i128 = new_cu - old_cu;
        if d < i64::MIN as i128 || d > i64::MAX as i128 {
            return false;
        }
        i = i + 1;
    }
    true
}

} // verus!
