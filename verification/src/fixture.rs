//! The transaction fixture format: the keypairs and the sequence of counter
//! instructions that are replayed against both program builds.

use vstd::prelude::*;
use vstd::string::StringExecFns;

verus! {

/// Raw bytes of an ed25519 keypair, in the 64-byte layout that
/// `solana-keygen` writes (secret key, then public key). Kept as raw bytes so
/// the fixture is plain data; the replay turns them back into signers.
#[derive(Debug)]
pub struct KeypairBytes(pub Vec<u8>);

impl Clone for KeypairBytes {
    fn clone(&self) -> (r: Self)
        ensures
            r.0@ == self.0@,
    {
        KeypairBytes(self.0.clone())
    }
}

/// Which role signs the "authority" account slot of an instruction.
///
/// The counter program always expects `[counter_account, authority]` as its
/// accounts. `Rogue` deliberately signs with a different keypair so the
/// fixture exercises the "wrong signer" rejection path.
#[derive(Clone, Copy, Debug, PartialEq, Eq, Structural)]
pub enum SignerRole {
    Authority,
    Rogue,
}

/// One of the counter program's instructions, variant for variant and field
/// for field.
#[derive(Clone, Copy, Debug, PartialEq, Eq, Structural)]
pub enum CounterInstructionSpec {
    Initialize { start_value: u64 },
    Increment { amount: u64 },
    Decrement { amount: u64 },
    SetValue { value: u64 },
}

/// One transaction in the replay sequence.
#[derive(Debug)]
pub struct TransactionSpec {
    /// Short, stable, human-readable identifier used in reports.
    pub label: String,
    /// What this transaction is expected to demonstrate.
    pub description: String,
    pub instruction: CounterInstructionSpec,
    pub signer: SignerRole,
}

/// A transaction spec with its texts taken as characters.
pub open spec fn spec_view(t: TransactionSpec) -> (Seq<char>, Seq<char>, CounterInstructionSpec, SignerRole) {
    (t.label@, t.description@, t.instruction, t.signer)
}

impl Clone for TransactionSpec {
    fn clone(&self) -> (r: Self)
        ensures
            r == *self,
    {
        TransactionSpec {
            label: self.label.clone(),
            description: self.description.clone(),
            instruction: self.instruction,
            signer: self.signer,
        }
    }
}

/// Everything needed to replay the same sequence of transactions against an
/// arbitrary build of the counter program.
#[derive(Debug)]
pub struct Fixture {
    pub payer: KeypairBytes,
    pub authority: KeypairBytes,
    pub rogue: KeypairBytes,
    pub counter_account: KeypairBytes,
    pub transactions: Vec<TransactionSpec>,
}

impl Clone for Fixture {
    fn clone(&self) -> (r: Self)
        ensures
            r.payer.0@ == self.payer.0@,
            r.authority.0@ == self.authority.0@,
            r.rogue.0@ == self.rogue.0@,
            r.counter_account.0@ == self.counter_account.0@,
            r.transactions@ == self.transactions@,
    {
        let mut transactions: Vec<TransactionSpec> = Vec::new();
        let mut i: usize = 0;
        while i < self.transactions.len()
            invariant
                i <= self.transactions@.len(),
                transactions@ == self.transactions@.subrange(0, i as int),
            decreases self.transactions@.len() - i,
        {
            transactions.push(self.transactions[i].clone());
            i = i + 1;
            assert(transactions@ =~= self.transactions@.subrange(0, i as int));
        }
        assert(self.transactions@.subrange(0, i as int) =~= self.transactions@);
        Fixture {
            payer: self.payer.clone(),
            authority: self.authority.clone(),
            rogue: self.rogue.clone(),
            counter_account: self.counter_account.clone(),
            transactions,
        }
    }
}

/// The `i`-th entry of the example sequence: label, description, instruction
/// and signer.
pub open spec fn example_entry(i: int) -> (Seq<char>, Seq<char>, CounterInstructionSpec, SignerRole) {
    if i == 0 {
        ("initialize"@, "Create the counter starting at 10."@,
         CounterInstructionSpec::Initialize { start_value: 10 }, SignerRole::Authority)
    } else if i == 1 {
        ("increment_50"@, "Increment by 50 (10 -> 60). Within limits in both versions."@,
         CounterInstructionSpec::Increment { amount: 50 }, SignerRole::Authority)
    } else if i == 2 {
        ("increment_20"@, "Increment by 20 (60 -> 80). Still within limits."@,
         CounterInstructionSpec::Increment { amount: 20 }, SignerRole::Authority)
    } else if i == 3 {
        ("decrement_30"@, "Decrement by 30 (80 -> 50). No underflow, unaffected by the new version's stricter check."@,
         CounterInstructionSpec::Decrement { amount: 30 }, SignerRole::Authority)
    } else if i == 4 {
        ("decrement_past_zero"@, "Decrement by 1000 from 50. The old program clamps to 0; the new program treats this as an underflow error."@,
         CounterInstructionSpec::Decrement { amount: 1000 }, SignerRole::Authority)
    } else if i == 5 {
        ("increment_past_cap"@, "Increment by 2000. The old program has no upper bound; the new program rejects values over 1000."@,
         CounterInstructionSpec::Increment { amount: 2000 }, SignerRole::Authority)
    } else if i == 6 {
        ("set_value_over_cap"@, "Set the value to 5000. Allowed in the old program, rejected by the new program's value cap."@,
         CounterInstructionSpec::SetValue { value: 5000 }, SignerRole::Authority)
    } else if i == 7 {
        ("set_value_wrong_authority"@, "Attempt to set the value while signing with a non-authority key. Fails in both versions, but with a different error code."@,
         CounterInstructionSpec::SetValue { value: 1 }, SignerRole::Rogue)
    } else {
        ("increment_10_final"@, "Increment by 10. Included to show how the two versions' account state has diverged by the end of the sequence."@,
         CounterInstructionSpec::Increment { amount: 10 }, SignerRole::Authority)
    }
}

/// The number of transactions in the example sequence.
pub open spec fn example_len() -> nat {
    9
}

/// `txs` is exactly the example sequence.
pub open spec fn is_example_sequence(txs: Seq<TransactionSpec>) -> bool {
    &&& txs.len() == example_len()
    &&& forall|i: int| 0 <= i < txs.len() ==> #[trigger] spec_view(txs[i]) == example_entry(i)
}

fn example(label: &str, description: &str, instruction: CounterInstructionSpec, signer: SignerRole) -> (r: TransactionSpec)
    ensures
        spec_view(r) == (label@, description@, instruction, signer),
{
    TransactionSpec {
        label: String::from_str(label),
        description: String::from_str(description),
        instruction,
        signer,
    }
}

impl Fixture {
    /// The example transaction sequence used by `preflight demo`.
    ///
    /// It exercises every intentional behavior change between the two
    /// bundled counter programs: a value cap on `Increment`/`SetValue`, a
    /// hard underflow error on `Decrement`, and a different error code for a
    /// wrong-authority `SetValue`.
    pub fn example_transactions() -> (r: Vec<TransactionSpec>)
        ensures
            is_example_sequence(r@),
    {
        let mut v: Vec<TransactionSpec> = Vec::new();
        v.push(example("initialize", "Create the counter starting at 10.",
            CounterInstructionSpec::Initialize { start_value: 10 }, SignerRole::Authority));
        v.push(example("increment_50", "Increment by 50 (10 -> 60). Within limits in both versions.",
            CounterInstructionSpec::Increment { amount: 50 }, SignerRole::Authority));
        v.push(example("increment_20", "Increment by 20 (60 -> 80). Still within limits.",
            CounterInstructionSpec::Increment { amount: 20 }, SignerRole::Authority));
        v.push(example("decrement_30", "Decrement by 30 (80 -> 50). No underflow, unaffected by the new version's stricter check.",
            CounterInstructionSpec::Decrement { amount: 30 }, SignerRole::Authority));
        v.push(example("decrement_past_zero", "Decrement by 1000 from 50. The old program clamps to 0; the new program treats this as an underflow error.",
            CounterInstructionSpec::Decrement { amount: 1000 }, SignerRole::Authority));
        v.push(example("increment_past_cap", "Increment by 2000. The old program has no upper bound; the new program rejects values over 1000.",
            CounterInstructionSpec::Increment { amount: 2000 }, SignerRole::Authority));
        v.push(example("set_value_over_cap", "Set the value to 5000. Allowed in the old program, rejected by the new program's value cap.",
            CounterInstructionSpec::SetValue { value: 5000 }, SignerRole::Authority));
        v.push(example("set_value_wrong_authority", "Attempt to set the value while signing with a non-authority key. Fails in both versions, but with a different error code.",
            CounterInstructionSpec::SetValue { value: 1 }, SignerRole::Rogue));
        v.push(example("increment_10_final", "Increment by 10. Included to show how the two versions' account state has diverged by the end of the sequence.",
            CounterInstructionSpec::Increment { amount: 10 }, SignerRole::Authority));
        assert forall|i: int| 0 <= i < v@.len() implies #[trigger] spec_view(v@[i]) == example_entry(i) by {
        }
        v
    }
}

} // verus!
