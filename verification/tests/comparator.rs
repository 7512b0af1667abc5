use preflight::comparator::{categorize, compare};
use preflight::error::Error;
use preflight::execution::{CounterStateSnapshot, TxExecutionResult};
use preflight::fixture::{CounterInstructionSpec, SignerRole, TransactionSpec};
use preflight::report::TxOutcomeCategory;

fn spec(label: &str) -> TransactionSpec {
    TransactionSpec {
        label: label.to_string(),
        description: "test transaction".to_string(),
        instruction: CounterInstructionSpec::Increment { amount: 1 },
        signer: SignerRole::Authority,
    }
}

fn ok(label: &str, value: u64, cu: u64) -> TxExecutionResult {
    TxExecutionResult {
        label: label.to_string(),
        success: true,
        error: None,
        logs: vec![],
        compute_units_consumed: cu,
        counter_state: Some(CounterStateSnapshot {
            is_initialized: true,
            authority: "11111111111111111111111111111111".to_string(),
            value,
        }),
    }
}

fn failed(label: &str, error: &str, cu: u64) -> TxExecutionResult {
    TxExecutionResult {
        label: label.to_string(),
        success: false,
        error: Some(error.to_string()),
        logs: vec![],
        compute_units_consumed: cu,
        counter_state: None,
    }
}

#[test]
fn identical_runs_score_100_and_are_all_unchanged() {
    let specs = vec![spec("a"), spec("b")];
    let old = vec![ok("a", 10, 100), ok("b", 20, 100)];
    let new = old.clone();

    let report = compare("old.so", "new.so", &specs, &old, &new).unwrap();

    assert_eq!(report.summary.safety_score, 100);
    assert_eq!(report.summary.unchanged, 2);
    assert!(report
        .comparisons
        .iter()
        .all(|c| c.category == TxOutcomeCategory::Unchanged));
}

#[test]
fn success_to_failure_is_a_new_failure_and_docks_the_score() {
    let specs = vec![spec("a")];
    let old = vec![ok("a", 10, 100)];
    let new = vec![failed("a", "Custom(1)", 90)];

    let report = compare("old.so", "new.so", &specs, &old, &new).unwrap();

    assert_eq!(report.comparisons[0].category, TxOutcomeCategory::NewFailure);
    assert_eq!(report.summary.new_failures, 1);
    assert!(report.summary.safety_score < 100);
}

#[test]
fn same_success_different_state_is_behavior_changed() {
    let specs = vec![spec("a")];
    let old = vec![ok("a", 10, 100)];
    let new = vec![ok("a", 999, 100)];

    let report = compare("old.so", "new.so", &specs, &old, &new).unwrap();

    assert_eq!(report.comparisons[0].category, TxOutcomeCategory::BehaviorChanged);
}

#[test]
fn same_success_different_cu_only_is_compute_units_changed() {
    let specs = vec![spec("a")];
    let old = vec![ok("a", 10, 100)];
    let new = vec![ok("a", 10, 150)];

    let report = compare("old.so", "new.so", &specs, &old, &new).unwrap();

    assert_eq!(report.comparisons[0].category, TxOutcomeCategory::ComputeUnitsChanged);
    assert_eq!(report.comparisons[0].compute_units_delta, 50);
}

#[test]
fn both_fail_with_different_errors_is_error_changed() {
    let specs = vec![spec("a")];
    let old = vec![failed("a", "InvalidArgument", 50)];
    let new = vec![failed("a", "Custom(2)", 50)];

    let report = compare("old.so", "new.so", &specs, &old, &new).unwrap();

    assert_eq!(report.comparisons[0].category, TxOutcomeCategory::ErrorChanged);
}

#[test]
fn both_fail_with_the_same_error_is_unchanged() {
    let specs = vec![spec("a")];
    let old = vec![failed("a", "InvalidArgument", 50)];
    let new = vec![failed("a", "InvalidArgument", 50)];

    let report = compare("old.so", "new.so", &specs, &old, &new).unwrap();

    assert_eq!(report.comparisons[0].category, TxOutcomeCategory::Unchanged);
}

#[test]
fn failure_to_success_is_a_new_success() {
    let specs = vec![spec("a")];
    let old = vec![failed("a", "InvalidArgument", 50)];
    let new = vec![ok("a", 1, 60)];

    let report = compare("old.so", "new.so", &specs, &old, &new).unwrap();

    assert_eq!(report.comparisons[0].category, TxOutcomeCategory::NewSuccess);
}

#[test]
fn mismatched_lengths_are_rejected() {
    let specs = vec![spec("a"), spec("b")];
    let old = vec![ok("a", 10, 100)];
    let new = vec![ok("a", 10, 100)];

    assert!(compare("old.so", "new.so", &specs, &old, &new).is_err());
}

#[test]
fn mismatched_lengths_report_all_three_lengths() {
    let specs = vec![spec("a"), spec("b")];
    let old = vec![ok("a", 10, 100)];
    let new = vec![ok("a", 10, 100), ok("b", 1, 1), ok("c", 1, 1)];

    match compare("old.so", "new.so", &specs, &old, &new) {
        Err(Error::Mismatch(msg)) => {
            assert_eq!(msg, "expected 2 results from each run, got 1 old and 3 new")
        }
        other => panic!("unexpected result: {:?}", other),
    }
}

#[test]
fn drifted_labels_are_rejected_with_both_labels() {
    let specs = vec![spec("a"), spec("b")];
    let old = vec![ok("a", 10, 100), ok("b", 10, 100)];
    let new = vec![ok("a", 10, 100), ok("x", 10, 100)];

    match compare("old.so", "new.so", &specs, &old, &new) {
        Err(Error::Mismatch(msg)) => assert_eq!(
            msg,
            "transaction order drifted: expected 'b', got old='b' new='x'"
        ),
        other => panic!("unexpected result: {:?}", other),
    }
}

#[test]
fn notes_explain_each_category() {
    let specs = vec![spec("a"), spec("b"), spec("c"), spec("d"), spec("e"), spec("f"), spec("g")];
    let old = vec![
        ok("a", 10, 100),
        failed("b", "Boom", 50),
        ok("c", 10, 100),
        ok("d", 10, 100),
        failed("e", "InvalidArgument", 50),
        ok("f", 60, 100),
        failed("g", "InvalidArgument", 40),
    ];
    let new = vec![
        ok("a", 10, 100),
        failed("b", "Boom", 50),
        ok("c", 10, 90),
        ok("d", 11, 100),
        failed("e", "Custom(2)", 50),
        failed("f", "instruction 0 failed: custom program error 2 (Underflow)", 80),
        ok("g", 5, 70),
    ];

    let report = compare("old.so", "new.so", &specs, &old, &new).unwrap();
    let notes: Vec<&str> = report.comparisons.iter().map(|c| c.notes.as_str()).collect();

    assert_eq!(notes[0], "Succeeded on both versions with identical resulting state (value=10).");
    assert_eq!(notes[1], "Failed on both versions with the same error (Boom).");
    assert_eq!(
        notes[2],
        "Succeeded on both versions with identical resulting state (value=10), but compute units changed from 100 to 90 (-10)."
    );
    assert_eq!(
        notes[3],
        "Succeeded on both versions but produced different account state: old -> value=10, new -> value=11."
    );
    assert_eq!(
        notes[4],
        "Failed on both versions but with different errors: old -> InvalidArgument, new -> Custom(2)."
    );
    assert_eq!(
        notes[5],
        "Succeeded on the old program (value=60) but failed on the new program: instruction 0 failed: custom program error 2 (Underflow)."
    );
    assert_eq!(
        notes[6],
        "Failed on the old program (InvalidArgument) but succeeded on the new program (value=5)."
    );
}

#[test]
fn summary_counts_add_up_and_score_is_clamped_at_zero() {
    let labels = ["a", "b", "c", "d", "e", "f", "g"];
    let specs: Vec<TransactionSpec> = labels.iter().map(|l| spec(l)).collect();
    let old: Vec<TxExecutionResult> = labels.iter().map(|l| ok(l, 1, 100)).collect();
    let new: Vec<TxExecutionResult> = labels.iter().map(|l| failed(l, "Custom(1)", 100)).collect();

    let report = compare("old.so", "new.so", &specs, &old, &new).unwrap();
    let s = &report.summary;

    assert_eq!(s.total, 7);
    assert_eq!(
        s.unchanged + s.compute_units_changed + s.behavior_changed + s.error_changed + s.new_failures + s.new_successes,
        7
    );
    assert_eq!(s.new_failures, 7);
    assert_eq!(s.safety_score, 0);
}

#[test]
fn score_subtracts_each_category_penalty() {
    let specs = vec![spec("a"), spec("b"), spec("c"), spec("d")];
    let old = vec![ok("a", 1, 100), failed("b", "x", 10), failed("c", "y", 10), ok("d", 1, 100)];
    let new = vec![ok("a", 1, 101), failed("b", "z", 10), ok("c", 1, 10), ok("d", 1, 100)];

    let report = compare("old.so", "new.so", &specs, &old, &new).unwrap();

    // compute units changed (3) + error changed (8) + new success (15)
    assert_eq!(report.summary.safety_score, 100 - 3 - 8 - 15);
    assert_eq!(report.old_program, "old.so");
    assert_eq!(report.new_program, "new.so");
    assert_eq!(report.comparisons[0].compute_units_delta, 1);
}

#[test]
fn empty_runs_score_100() {
    let report = compare("old.so", "new.so", &[], &[], &[]).unwrap();
    assert_eq!(report.summary.total, 0);
    assert_eq!(report.summary.safety_score, 100);
    assert!(report.comparisons.is_empty());
}

#[test]
fn same_error_with_different_compute_units_is_compute_units_changed() {
    let specs = vec![spec("a")];
    let old = vec![failed("a", "InvalidArgument", 50)];
    let new = vec![failed("a", "InvalidArgument", 70)];

    let report = compare("old.so", "new.so", &specs, &old, &new).unwrap();

    assert_eq!(report.comparisons[0].category, TxOutcomeCategory::ComputeUnitsChanged);
    assert_eq!(report.comparisons[0].compute_units_delta, 20);
    assert_eq!(
        report.comparisons[0].notes,
        "Failed on both versions with the same error (InvalidArgument), but compute units changed from 50 to 70 (+20)."
    );
    assert_eq!(report.summary.compute_units_changed, 1);
    assert_eq!(report.summary.safety_score, 97);
}

#[test]
fn swapping_the_builds_mirrors_each_category() {
    let pairs = [
        (ok("t", 1, 100), failed("t", "boom", 100)),
        (ok("t", 1, 100), ok("t", 2, 100)),
        (ok("t", 1, 100), ok("t", 1, 120)),
        (failed("t", "a", 100), failed("t", "b", 100)),
        (failed("t", "a", 100), failed("t", "a", 100)),
    ];
    for (a, b) in pairs.iter() {
        let forward = categorize(a, b);
        let backward = categorize(b, a);
        let expected = match forward {
            TxOutcomeCategory::NewFailure => TxOutcomeCategory::NewSuccess,
            TxOutcomeCategory::NewSuccess => TxOutcomeCategory::NewFailure,
            other => other,
        };
        assert_eq!(backward, expected);
    }
    assert_eq!(categorize(&ok("t", 1, 100), &failed("t", "boom", 100)), TxOutcomeCategory::NewFailure);
    assert_eq!(categorize(&failed("t", "boom", 100), &ok("t", 1, 100)), TxOutcomeCategory::NewSuccess);
}
