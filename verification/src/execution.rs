//! The observable outcome of replaying one transaction against one program
//! build.

use vstd::prelude::*;

verus! {

/// Decoded on-chain state of the counter account after a transaction.
///
/// `None` on a `TxExecutionResult` means the transaction failed before any
/// state existed to read (or the account could not be decoded), not that the
/// value is zero.
#[derive(Debug, PartialEq, Eq)]
pub struct CounterStateSnapshot {
    pub is_initialized: bool,
    /// The authority's address, base58-encoded.
    pub authority: String,
    pub value: u64,
}

/// What a snapshot says, with the authority taken as its characters.
pub open spec fn snapshot_view(s: CounterStateSnapshot) -> (bool, Seq<char>, u64) {
    (s.is_initialized, s.authority@, s.value)
}

/// What an optional snapshot says.
pub open spec fn state_view(s: Option<CounterStateSnapshot>) -> Option<(bool, Seq<char>, u64)> {
    match s {
        Some(snapshot) => Some(snapshot_view(snapshot)),
        None => None,
    }
}

/// An optional string taken as its characters.
pub open spec fn text_view(s: Option<String>) -> Option<Seq<char>> {
    match s {
        Some(t) => Some(t@),
        None => None,
    }
}

impl Clone for CounterStateSnapshot {
    fn clone(&self) -> (r: Self)
        ensures
            r == *self,
    {
        CounterStateSnapshot {
            is_initialized: self.is_initialized,
            authority: self.authority.clone(),
            value: self.value,
        }
    }
}

/// The observable outcome of replaying one transaction against one program
/// build.
#[derive(Debug)]
pub struct TxExecutionResult {
    pub label: String,
    pub success: bool,
    /// Human-readable error description, e.g. a decoded custom program error
    /// or a transaction error. `None` on success.
    pub error: Option<String>,
    pub logs: Vec<String>,
    pub compute_units_consumed: u64,
    pub counter_state: Option<CounterStateSnapshot>,
}

/// Copies an optional string.
fn clone_text(s: &Option<String>) -> (r: Option<String>)
    ensures
        r == *s,
{
    match s {
        Some(t) => Some(t.clone()),
        None => None,
    }
}

/// Copies an optional snapshot.
fn clone_state(s: &Option<CounterStateSnapshot>) -> (r: Option<CounterStateSnapshot>)
    ensures
        r == *s,
{
    match s {
        Some(t) => Some(t.clone()),
        None => None,
    }
}

/// Copies a list of log lines.
pub(crate) fn clone_lines(lines: &Vec<String>) -> (r: Vec<String>)
    ensures
        r@ == lines@,
{
    let mut out: Vec<String> = Vec::new();
    let mut i: usize = 0;
    while i < lines.len()
        invariant
            i <= lines@.len(),
            out@ == lines@.subrange(0, i as int),
        decreases lines@.len() - i,
    {
        out.push(lines[i].clone());
        i = i + 1;
        assert(out@ =~= lines@.subrange(0, i as int));
    }
    assert(lines@.subrange(0, lines@.len() as int) =~= lines@);
    out
}

impl Clone for TxExecutionResult {
    fn clone(&self) -> (r: Self)
        ensures
            r.label == self.label,
            r.success == self.success,
            r.error == self.error,
            r.logs@ == self.logs@,
            r.compute_units_consumed == self.compute_units_consumed,
            r.counter_state == self.counter_state,
    {
        TxExecutionResult {
            label: self.label.clone(),
            success: self.success,
            error: clone_text(&self.error),
            logs: clone_lines(&self.logs),
            compute_units_consumed: self.compute_units_consumed,
            counter_state: clone_state(&self.counter_state),
        }
    }
}

/// Two results are copies of each other: every field agrees, the log lines
/// compared one by one.
pub open spec fn same_result(a: TxExecutionResult, b: TxExecutionResult) -> bool {
    &&& a.label == b.label
    &&& a.success == b.success
    &&& a.error == b.error
    &&& a.logs@ == b.logs@
    &&& a.compute_units_consumed == b.compute_units_consumed
    &&& a.counter_state == b.counter_state
}

} // verus!
