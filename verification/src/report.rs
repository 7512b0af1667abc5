//! The structures produced by comparing two replay runs.

use vstd::prelude::*;

use crate::execution::TxExecutionResult;

verus! {

/// How a single transaction's outcome differs between the old and new
/// program builds, ordered roughly from "fine" to "concerning".
#[derive(Clone, Copy, Debug, PartialEq, Eq, Structural)]
pub enum TxOutcomeCategory {
    /// Same success/failure, same resulting state or error, same compute
    /// units.
    Unchanged,
    /// Same success/failure and same resulting state or error, but compute
    /// unit consumption differs.
    ComputeUnitsChanged,
    /// Both versions succeeded, but the resulting account state differs.
    BehaviorChanged,
    /// Both versions failed, but with a different error.
    ErrorChanged,
    /// Succeeded on the old program, failed on the new one.
    NewFailure,
    /// Failed on the old program, succeeded on the new one.
    NewSuccess,
}

/// The label under which a category is shown in reports.
pub open spec fn category_label(c: TxOutcomeCategory) -> Seq<char> {
    match c {
        TxOutcomeCategory::Unchanged => "unchanged"@,
        TxOutcomeCategory::ComputeUnitsChanged => "compute units changed"@,
        TxOutcomeCategory::BehaviorChanged => "behavior changed"@,
        TxOutcomeCategory::ErrorChanged => "error changed"@,
        TxOutcomeCategory::NewFailure => "new failure"@,
        TxOutcomeCategory::NewSuccess => "new success"@,
    }
}

/// A category is a regression unless it is no change at all or only a
/// compute unit shift.
pub open spec fn category_is_regression(c: TxOutcomeCategory) -> bool {
    !(c is Unchanged || c is ComputeUnitsChanged)
}

impl TxOutcomeCategory {
    /// The label under which this category is shown in reports.
    pub fn label(self) -> (r: &'static str)
        ensures
            r@ == category_label(self),
    {
        match self {
            TxOutcomeCategory::Unchanged => "unchanged",
            TxOutcomeCategory::ComputeUnitsChanged => "compute units changed",
            TxOutcomeCategory::BehaviorChanged => "behavior changed",
            TxOutcomeCategory::ErrorChanged => "error changed",
            TxOutcomeCategory::NewFailure => "new failure",
            TxOutcomeCategory::NewSuccess => "new success",
        }
    }

    /// Whether this category is a behavioral regression worth calling out,
    /// as opposed to background noise like a compute unit shift.
    pub fn is_regression(self) -> (r: bool)
        ensures
            r == category_is_regression(self),
    {
        match self {
            TxOutcomeCategory::BehaviorChanged
            | TxOutcomeCategory::ErrorChanged
            | TxOutcomeCategory::NewFailure
            | TxOutcomeCategory::NewSuccess => true,
            _ => false,
        }
    }
}

/// Full comparison of one transaction's execution against both builds.
#[derive(Debug)]
pub struct TxComparison {
    pub label: String,
    pub description: String,
    pub category: TxOutcomeCategory,
    pub old: TxExecutionResult,
    pub new: TxExecutionResult,
    pub compute_units_delta: i64,
    /// Plain-language explanation of what changed.
    pub notes: String,
}

impl Clone for TxComparison {
    fn clone(&self) -> (r: Self)
        ensures
            r.label == self.label,
            r.description == self.description,
            r.category == self.category,
            crate::execution::same_result(r.old, self.old),
            crate::execution::same_result(r.new, self.new),
            r.compute_units_delta == self.compute_units_delta,
            r.notes == self.notes,
    {
        TxComparison {
            label: self.label.clone(),
            description: self.description.clone(),
            category: self.category,
            old: self.old.clone(),
            new: self.new.clone(),
            compute_units_delta: self.compute_units_delta,
            notes: self.notes.clone(),
        }
    }
}

/// Aggregate counts and the overall safety score for a run.
#[derive(Clone, Copy, Debug)]
pub struct RunSummary {
    pub total: usize,
    pub unchanged: usize,
    pub compute_units_changed: usize,
    pub behavior_changed: usize,
    pub error_changed: usize,
    pub new_failures: usize,
    pub new_successes: usize,
    /// 0 (unsafe to deploy) to 100 (no observed behavioral difference).
    pub safety_score: u8,
}

impl Default for RunSummary {
    fn default() -> (r: Self)
        ensures
            r.total == 0,
            r.unchanged == 0,
            r.compute_units_changed == 0,
            r.behavior_changed == 0,
            r.error_changed == 0,
            r.new_failures == 0,
            r.new_successes == 0,
            r.safety_score == 0,
    {
        RunSummary {
            total: 0,
            unchanged: 0,
            compute_units_changed: 0,
            behavior_changed: 0,
            error_changed: 0,
            new_failures: 0,
            new_successes: 0,
            safety_score: 0,
        }
    }
}

/// The complete result of a run, in the shape written to `report.json` and
/// rendered into `report.md`.
#[derive(Debug)]
pub struct Report {
    pub old_program: String,
    pub new_program: String,
    pub summary: RunSummary,
    pub comparisons: Vec<TxComparison>,
}

impl Clone for Report {
    fn clone(&self) -> (r: Self)
        ensures
            r.old_program == self.old_program,
            r.new_program == self.new_program,
            r.summary == self.summary,
            r.comparisons@.len() == self.comparisons@.len(),
            forall|i: int| 0 <= i < self.comparisons@.len() ==> {
                &&& (#[trigger] r.comparisons@[i]).label == self.comparisons@[i].label
                &&& r.comparisons@[i].description == self.comparisons@[i].description
                &&& r.comparisons@[i].category == self.comparisons@[i].category
                &&& crate::execution::same_result(r.comparisons@[i].old, self.comparisons@[i].old)
                &&& crate::execution::same_result(r.comparisons@[i].new, self.comparisons@[i].new)
                &&& r.comparisons@[i].compute_units_delta == self.comparisons@[i].compute_units_delta
                &&& r.comparisons@[i].notes == self.comparisons@[i].notes
            },
    {
        let mut comparisons: Vec<TxComparison> = Vec::new();
        let mut i: usize = 0;
        while i < self.comparisons.len()
            invariant
                i <= self.comparisons@.len(),
                comparisons@.len() == i,
                forall|j: int| 0 <= j < i ==> {
                    &&& (#[trigger] comparisons@[j]).label == self.comparisons@[j].label
                    &&& comparisons@[j].description == self.comparisons@[j].description
                    &&& comparisons@[j].category == self.comparisons@[j].category
                    &&& crate::execution::same_result(comparisons@[j].old, self.comparisons@[j].old)
                    &&& crate::execution::same_result(comparisons@[j].new, self.comparisons@[j].new)
                    &&& comparisons@[j].compute_units_delta == self.comparisons@[j].compute_units_delta
                    &&& comparisons@[j].notes == self.comparisons@[j].notes
                },
            decreases self.comparisons@.len() - i,
        {
            comparisons.push(self.comparisons[i].clone());
            i = i + 1;
        }
        Report {
            old_program: self.old_program.clone(),
            new_program: self.new_program.clone(),
            summary: self.summary,
            comparisons,
        }
    }
}

} // verus!
