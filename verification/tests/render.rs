use preflight::execution::{CounterStateSnapshot, TxExecutionResult};
use preflight::render::{render_markdown, score_tone, verdict, ScoreTone};
use preflight::report::{Report, RunSummary, TxComparison, TxOutcomeCategory};

#[test]
fn verdict_thresholds() {
    assert!(verdict(100).starts_with("Safe"));
    assert!(verdict(90).starts_with("Safe"));
    assert!(verdict(89).starts_with("Low risk"));
    assert!(verdict(70).starts_with("Low risk"));
    assert!(verdict(69).starts_with("Elevated risk"));
    assert!(verdict(40).starts_with("Elevated risk"));
    assert!(verdict(39).starts_with("High risk"));
    assert!(verdict(0).starts_with("High risk"));
}

#[test]
fn verdict_above_100_is_high_risk() {
    assert!(verdict(101).starts_with("High risk"));
    assert!(verdict(255).starts_with("High risk"));
}

#[test]
fn score_tone_bands() {
    assert_eq!(score_tone(100), ScoreTone::Green);
    assert_eq!(score_tone(90), ScoreTone::Green);
    assert_eq!(score_tone(89), ScoreTone::Yellow);
    assert_eq!(score_tone(70), ScoreTone::Yellow);
    assert_eq!(score_tone(69), ScoreTone::Red);
    assert_eq!(score_tone(0), ScoreTone::Red);
}

fn sample_report() -> Report {
    Report {
        old_program: "old.so".to_string(),
        new_program: "new.so".to_string(),
        summary: RunSummary {
            total: 1,
            new_failures: 1,
            safety_score: 20,
            ..Default::default()
        },
        comparisons: vec![TxComparison {
            label: "increment_past_cap".to_string(),
            description: "Increment past the cap.".to_string(),
            category: TxOutcomeCategory::NewFailure,
            old: TxExecutionResult {
                label: "increment_past_cap".to_string(),
                success: true,
                error: None,
                logs: vec![],
                compute_units_consumed: 100,
                counter_state: Some(CounterStateSnapshot {
                    is_initialized: true,
                    authority: "auth".to_string(),
                    value: 2000,
                }),
            },
            new: TxExecutionResult {
                label: "increment_past_cap".to_string(),
                success: false,
                error: Some("ValueExceedsMax".to_string()),
                logs: vec![],
                compute_units_consumed: 80,
                counter_state: None,
            },
            compute_units_delta: -20,
            notes: "Succeeded on the old program but failed on the new program.".to_string(),
        }],
    }
}

#[test]
fn markdown_includes_the_regression_and_the_score() {
    let markdown = render_markdown(&sample_report());
    assert!(markdown.contains("Safety score: 20/100"));
    assert!(markdown.contains("increment_past_cap"));
    assert!(markdown.contains("new failure"));
}

#[test]
fn markdown_document_is_exact() {
    let markdown = render_markdown(&sample_report());
    let expected = "# Preflight Regression Report\n\
\n\
- **Old program:** `old.so`\n\
- **New program:** `new.so`\n\
- **Transactions replayed:** 1\n\
\n\
## Safety score: 20/100\n\
\n\
High risk - regressions detected. Do not deploy without further review.\n\
\n\
## Summary\n\
\n\
| Outcome | Count |\n\
|---|---|\n\
| Unchanged | 0 |\n\
| Compute units changed | 0 |\n\
| Behavior changed | 0 |\n\
| Error changed | 0 |\n\
| New failures (regressions) | 1 |\n\
| New successes | 0 |\n\
\n\
## Behavioral differences (1 of 1)\n\
\n\
### `increment_past_cap` - new failure\n\
\n\
Increment past the cap.\n\
\n\
Succeeded on the old program but failed on the new program.\n\
\n\
## All transactions\n\
\n\
| # | Label | Outcome | Compute units (old -> new) | Notes |\n\
|---|---|---|---|---|\n\
| 1 | `increment_past_cap` | new failure | 100 -> 80 (-20) | Succeeded on the old program but failed on the new program. |\n\
\n\
## About this report\n\
\n\
Preflight is a proof of concept. It replays a fixed set of 1 example transactions against both program builds inside an in-process local Solana VM ([litesvm](https://github.com/LiteSVM/litesvm)) and diffs the results. It is not a substitute for a full audit, and does not replay real historical transactions from any live network.\n";
    assert_eq!(markdown, expected);
}

#[test]
fn markdown_without_regressions_says_so_and_escapes_pipes() {
    let mut report = sample_report();
    report.summary = RunSummary { total: 1, unchanged: 1, safety_score: 100, ..Default::default() };
    report.comparisons[0].category = TxOutcomeCategory::Unchanged;
    report.comparisons[0].compute_units_delta = 0;
    report.comparisons[0].new.compute_units_consumed = 100;
    report.comparisons[0].notes = "a|b".to_string();
    let markdown = render_markdown(&report);
    assert!(markdown.contains("No behavioral regressions were detected among the replayed transactions.\n"));
    assert!(!markdown.contains("## Behavioral differences"));
    assert!(markdown.contains("| 1 | `increment_past_cap` | unchanged | 100 -> 100 (+0) | a\\|b |\n"));
    assert!(markdown.contains("Safe to deploy"));
}

#[test]
fn category_labels_and_regressions() {
    assert_eq!(TxOutcomeCategory::Unchanged.label(), "unchanged");
    assert_eq!(TxOutcomeCategory::ComputeUnitsChanged.label(), "compute units changed");
    assert_eq!(TxOutcomeCategory::BehaviorChanged.label(), "behavior changed");
    assert_eq!(TxOutcomeCategory::ErrorChanged.label(), "error changed");
    assert_eq!(TxOutcomeCategory::NewFailure.label(), "new failure");
    assert_eq!(TxOutcomeCategory::NewSuccess.label(), "new success");
    assert!(!TxOutcomeCategory::Unchanged.is_regression());
    assert!(!TxOutcomeCategory::ComputeUnitsChanged.is_regression());
    assert!(TxOutcomeCategory::BehaviorChanged.is_regression());
    assert!(TxOutcomeCategory::ErrorChanged.is_regression());
    assert!(TxOutcomeCategory::NewFailure.is_regression());
    assert!(TxOutcomeCategory::NewSuccess.is_regression());
}
