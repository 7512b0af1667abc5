//! Renders a [`Report`] as the human-readable `report.md`, and gives the
//! qualitative verdict on a safety score.

use vstd::prelude::*;

use crate::report::{category_is_regression, category_label, Report, RunSummary, TxComparison};
use crate::text::{dec, push_char, push_signed, push_str, push_u64, push_usize, signed_dec};

verus! {

/// The headline for a safety score.
pub open spec fn verdict_text(score: u8) -> Seq<char> {
    if 90 <= score <= 100 {
        "Safe to deploy - no meaningful behavioral differences detected."@
    } else if 70 <= score <= 89 {
        "Low risk - minor differences detected. Review recommended before deploying."@
    } else if 40 <= score <= 69 {
        "Elevated risk - behavioral changes detected. Review carefully before deploying."@
    } else {
        "High risk - regressions detected. Do not deploy without further review."@
    }
}

/// Qualitative read on a safety score, used as the report's headline.
pub fn verdict(safety_score: u8) -> (r: &'static str)
    ensures
        r@ == verdict_text(safety_score),
{
    if 90 <= safety_score && safety_score <= 100 {
        "Safe to deploy - no meaningful behavioral differences detected."
    } else if 70 <= safety_score && safety_score <= 89 {
        "Low risk - minor differences detected. Review recommended before deploying."
    } else if 40 <= safety_score && safety_score <= 69 {
        "Elevated risk - behavioral changes detected. Review carefully before deploying."
    } else {
        "High risk - regressions detected. Do not deploy without further review."
    }
}

/// `s` with every `|` escaped as `\|`, so that it can stand in a Markdown
/// table cell.
pub open spec fn escape_pipes(s: Seq<char>) -> Seq<char>
    decreases s.len(),
{
    if s.len() == 0 {
        Seq::empty()
    } else {
        escape_pipes(s.drop_last()) + if s.last() == '|' {
            seq!['\\', '|']
        } else {
            seq![s.last()]
        }
    }
}

/// Appends `t` with its pipes escaped.
pub fn push_escaped(s: &mut String, t: &str)
    ensures
        final(s)@ == old(s)@ + escape_pipes(t@),
{
    let n = t.unicode_len();
    let mut i: usize = 0;
    while i < n
        invariant
            n == t@.len(),
            i <= n,
            s@ == old(s)@ + escape_pipes(t@.subrange(0, i as int)),
        decreases n - i,
    {
        let c = t.get_char(i);
        if c == '|' {
            push_char(s, '\\');
            push_char(s, '|');
        } else {
            push_char(s, c);
        }
        assert(t@.subrange(0, i + 1).drop_last() =~= t@.subrange(0, i as int));
        i = i + 1;
        assert(s@ =~= old(s)@ + escape_pipes(t@.subrange(0, i as int)));
    }
    assert(t@.subrange(0, n as int) =~= t@);
}

/// The title block: both program names and the number of transactions.
pub open spec fn md_header(r: Report) -> Seq<char> {
    "# Preflight Regression Report\n\n- **Old program:** `"@ + r.old_program@ + "`\n- **New program:** `"@
        + r.new_program@ + "`\n- **Transactions replayed:** "@ + dec(r.summary.total as nat) + "\n\n"@
}

/// The score and its verdict.
pub open spec fn md_score(s: RunSummary) -> Seq<char> {
    "## Safety score: "@ + dec(s.safety_score as nat) + "/100\n\n"@ + verdict_text(s.safety_score)
        + "\n\n"@
}

/// The table of category counts.
pub open spec fn md_summary(s: RunSummary) -> Seq<char> {
    "## Summary\n\n| Outcome | Count |\n|---|---|\n| Unchanged | "@ + dec(s.unchanged as nat)
        + " |\n| Compute units changed | "@ + dec(s.compute_units_changed as nat)
        + " |\n| Behavior changed | "@ + dec(s.behavior_changed as nat) + " |\n| Error changed | "@
        + dec(s.error_changed as nat) + " |\n| New failures (regressions) | "@ + dec(s.new_failures as nat)
        + " |\n| New successes | "@ + dec(s.new_successes as nat) + " |\n\n"@
}

/// How many of the comparisons are regressions.
pub open spec fn regression_count(cs: Seq<TxComparison>) -> nat
    decreases cs.len(),
{
    if cs.len() == 0 {
        0
    } else {
        regression_count(cs.drop_last()) + if category_is_regression(cs.last().category) {
            1nat
        } else {
            0nat
        }
    }
}

/// The section that explains one regression.
pub open spec fn regression_block(c: TxComparison) -> Seq<char> {
    "### `"@ + c.label@ + "` - "@ + category_label(c.category) + "\n\n"@ + c.description@ + "\n\n"@
        + c.notes@ + "\n\n"@
}

/// The sections of all regressions, in order.
pub open spec fn regression_blocks(cs: Seq<TxComparison>) -> Seq<char>
    decreases cs.len(),
{
    if cs.len() == 0 {
        Seq::empty()
    } else {
        regression_blocks(cs.drop_last()) + if category_is_regression(cs.last().category) {
            regression_block(cs.last())
        } else {
            Seq::empty()
        }
    }
}

/// Either the note that nothing regressed, or the regression sections under
/// a heading that counts them.
pub open spec fn md_regressions(r: Report) -> Seq<char> {
    let cs = r.comparisons@;
    if regression_count(cs) == 0 {
        "No behavioral regressions were detected among the replayed transactions.\n"@
    } else {
        "## Behavioral differences ("@ + dec(regression_count(cs)) + " of "@ + dec(r.summary.total as nat)
            + ")\n\n"@ + regression_blocks(cs)
    }
}

/// Row `index` (counted from 0, shown from 1) of the table of all
/// transactions.
pub open spec fn table_row(index: int, c: TxComparison) -> Seq<char> {
    "| "@ + dec((index + 1) as nat) + " | `"@ + c.label@ + "` | "@ + category_label(c.category) + " | "@
        + dec(c.old.compute_units_consumed as nat) + " -> "@ + dec(c.new.compute_units_consumed as nat)
        + " ("@ + signed_dec(c.compute_units_delta as int) + ") | "@ + escape_pipes(c.notes@) + " |\n"@
}

/// The first `k` rows of the table of all transactions.
pub open spec fn table_rows(cs: Seq<TxComparison>, k: int) -> Seq<char>
    decreases k,
{
    if k <= 0 {
        Seq::empty()
    } else {
        table_rows(cs, k - 1) + table_row(k - 1, cs[k - 1])
    }
}

/// The table of all transactions.
pub open spec fn md_table(r: Report) -> Seq<char> {
    "## All transactions\n\n| # | Label | Outcome | Compute units (old -> new) | Notes |\n|---|---|---|---|---|\n"@
        + table_rows(r.comparisons@, r.comparisons@.len() as int) + "\n"@
}

/// The closing note on what the report is and is not.
pub open spec fn md_about(s: RunSummary) -> Seq<char> {
    "## About this report\n\nPreflight is a proof of concept. It replays a fixed set of "@
        + dec(s.total as nat)
        + " example transactions against both program builds inside an in-process local Solana VM ([litesvm](https://github.com/LiteSVM/litesvm)) and diffs the results. It is not a substitute for a full audit, and does not replay real historical transactions from any live network.\n"@
}

/// The whole Markdown document for a report.
pub open spec fn markdown_of(r: Report) -> Seq<char> {
    md_header(r) + md_score(r.summary) + md_summary(r.summary) + md_regressions(r) + md_table(r)
        + md_about(r.summary)
}

fn push_header(out: &mut String, report: &Report)
    ensures
        final(out)@ == old(out)@ + md_header(*report),
{
    push_str(out, "# Preflight Regression Report\n\n- **Old program:** `");
    push_str(out, report.old_program.as_str());
    push_str(out, "`\n- **New program:** `");
    push_str(out, report.new_program.as_str());
    push_str(out, "`\n- **Transactions replayed:** ");
    push_usize(out, report.summary.total);
    push_str(out, "\n\n");
    assert(out@ =~= old(out)@ + md_header(*report));
}

fn push_score(out: &mut String, summary: &RunSummary)
    ensures
        final(out)@ == old(out)@ + md_score(*summary),
{
    push_str(out, "## Safety score: ");
    push_u64(out, summary.safety_score as u64);
    push_str(out, "/100\n\n");
    push_str(out, verdict(summary.safety_score));
    push_str(out, "\n\n");
    assert(out@ =~= old(out)@ + md_score(*summary));
}

fn push_summary(out: &mut String, summary: &RunSummary)
    ensures
        final(out)@ == old(out)@ + md_summary(*summary),
{
    push_str(out, "## Summary\n\n| Outcome | Count |\n|---|---|\n| Unchanged | ");
    push_usize(out, summary.unchanged);
    push_str(out, " |\n| Compute units changed | ");
    push_usize(out, summary.compute_units_changed);
    push_str(out, " |\n| Behavior changed | ");
    push_usize(out, summary.behavior_changed);
    push_str(out, " |\n| Error changed | ");
    push_usize(out, summary.error_changed);
    push_str(out, " |\n| New failures (regressions) | ");
    push_usize(out, summary.new_failures);
    push_str(out, " |\n| New successes | ");
    push_usize(out, summary.new_successes);
    push_str(out, " |\n\n");
    assert(out@ =~= old(out)@ + md_summary(*summary));
}

fn count_regressions(cs: &Vec<TxComparison>) -> (r: usize)
    ensures
        r == regression_count(cs@),
{
    let mut count: usize = 0;
    let mut i: usize = 0;
    while i < cs.len()
        invariant
            i <= cs@.len(),
            count == regression_count(cs@.subrange(0, i as int)),
            count <= i,
        decreases cs@.len() - i,
    {
        assert(cs@.subrange(0, i + 1).drop_last() =~= cs@.subrange(0, i as int));
        if cs[i].category.is_regression() {
            count = count + 1;
        }
        i = i + 1;
    }
    assert(cs@.subrange(0, cs@.len() as int) =~= cs@);
    count
}

fn push_regression_block(out: &mut String, c: &TxComparison)
    ensures
        final(out)@ == old(out)@ + regression_block(*c),
{
    push_str(out, "### `");
    push_str(out, c.label.as_str());
    push_str(out, "` - ");
    push_str(out, c.category.label());
    push_str(out, "\n\n");
    push_str(out, c.description.as_str());
    push_str(out, "\n\n");
    push_str(out, c.notes.as_str());
    push_str(out, "\n\n");
    assert(out@ =~= old(out)@ + regression_block(*c));
}

fn push_regressions(out: &mut String, report: &Report)
    ensures
        final(out)@ == old(out)@ + md_regressions(*report),
{
    let cs = &report.comparisons;
    let count = count_regressions(cs);
    if count == 0 {
        push_str(out, "No behavioral regressions were detected among the replayed transactions.\n");
    } else {
        push_str(out, "## Behavioral differences (");
        push_usize(out, count);
        push_str(out, " of ");
        push_usize(out, report.summary.total);
        push_str(out, ")\n\n");
        let ghost start = out@;
        let mut i: usize = 0;
        while i < cs.len()
            invariant
                cs == &report.comparisons,
                i <= cs@.len(),
                out@ == start + regression_blocks(cs@.subrange(0, i as int)),
            decreases cs@.len() - i,
        {
            assert(cs@.subrange(0, i + 1).drop_last() =~= cs@.subrange(0, i as int));
            if cs[i].category.is_regression() {
                push_regression_block(out, &cs[i]);
            }
            i = i + 1;
            assert(out@ =~= start + regression_blocks(cs@.subrange(0, i as int)));
        }
        assert(cs@.subrange(0, cs@.len() as int) =~= cs@);
    }
    assert(out@ =~= old(out)@ + md_regressions(*report));
}

fn push_row(out: &mut String, index: usize, c: &TxComparison)
    requires
        index < usize::MAX,
    ensures
        final(out)@ == old(out)@ + table_row(index as int, *c),
{
    push_str(out, "| ");
    push_usize(out, index + 1);
    push_str(out, " | `");
    push_str(out, c.label.as_str());
    push_str(out, "` | ");
    push_str(out, c.category.label());
    push_str(out, " | ");
    push_u64(out, c.old.compute_units_consumed);
    push_str(out, " -> ");
    push_u64(out, c.new.compute_units_consumed);
    push_str(out, " (");
    push_signed(out, c.compute_units_delta);
    push_str(out, ") | ");
    push_escaped(out, c.notes.as_str());
    push_str(out, " |\n");
    assert(out@ =~= old(out)@ + table_row(index as int, *c));
}

fn push_table(out: &mut String, report: &Report)
    ensures
        final(out)@ == old(out)@ + md_table(*report),
{
    let cs = &report.comparisons;
    push_str(out, "## All transactions\n\n| # | Label | Outcome | Compute units (old -> new) | Notes |\n|---|---|---|---|---|\n");
    let ghost start = out@;
    let mut i: usize = 0;
    while i < cs.len()
        invariant
            cs == &report.comparisons,
            i <= cs@.len(),
            out@ == start + table_rows(cs@, i as int),
        decreases cs@.len() - i,
    {
        push_row(out, i, &cs[i]);
        i = i + 1;
        assert(out@ =~= start + table_rows(cs@, i as int));
    }
    push_str(out, "\n");
    assert(out@ =~= old(out)@ + md_table(*report));
}

fn push_about(out: &mut String, summary: &RunSummary)
    ensures
        final(out)@ == old(out)@ + md_about(*summary),
{
    push_str(out, "## About this report\n\nPreflight is a proof of concept. It replays a fixed set of ");
    push_usize(out, summary.total);
    push_str(out, " example transactions against both program builds inside an in-process local Solana VM ([litesvm](https://github.com/LiteSVM/litesvm)) and diffs the results. It is not a substitute for a full audit, and does not replay real historical transactions from any live network.\n");
    assert(out@ =~= old(out)@ + md_about(*summary));
}

/// Renders a report as a Markdown document.
pub fn render_markdown(report: &Report) -> (r: String)
    ensures
        r@ == markdown_of(*report),
{
    let mut out = String::new();
    push_header(&mut out, report);
    push_score(&mut out, &report.summary);
    push_summary(&mut out, &report.summary);
    push_regressions(&mut out, report);
    push_table(&mut out, report);
    push_about(&mut out, &report.summary);
    assert(out@ =~= markdown_of(*report));
    out
}

/// The color band in which the terminal summary shows a score.
#[derive(Clone, Copy, Debug, PartialEq, Eq, Structural)]
pub enum ScoreTone {
    Green,
    Yellow,
    Red,
}

/// Green from 90, yellow from 70, red below.
pub open spec fn tone_of(score: u8) -> ScoreTone {
    if 90 <= score <= 100 {
        ScoreTone::Green
    } else if 70 <= score <= 89 {
        ScoreTone::Yellow
    } else {
        ScoreTone::Red
    }
}

/// The color band in which the terminal summary shows a safety score.
pub fn score_tone(safety_score: u8) -> (r: ScoreTone)
    ensures
        r == tone_of(safety_score),
{
    if 90 <= safety_score && safety_score <= 100 {
        ScoreTone::Green
    } else if 70 <= safety_score && safety_score <= 89 {
        ScoreTone::Yellow
    } else {
        ScoreTone::Red
    }
}

} // verus!
