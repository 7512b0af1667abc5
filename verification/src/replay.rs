//! Executes a fixture's transaction sequence against a compiled program
//! inside an in-process local Solana VM (litesvm): no RPC, no validator, no
//! network.
//!
//! What is sent, and how the outcome is read back, is decided here and
//! verified; the calls into litesvm and the Solana SDK go through `svm`,
//! whose VM keeps a record of every call, so that a replay's contract can say
//! what it sent and what it read back.

use vstd::prelude::*;
use vstd::string::StringExecFns;

use crate::comparator::{aligned, compute_units_fit, deltas_fit, report_of};
use crate::error::Error;
use crate::report::Report;
use crate::execution::{state_view, text_view, CounterStateSnapshot, TxExecutionResult};
use crate::fixture::{is_example_sequence, CounterInstructionSpec, Fixture, KeypairBytes, SignerRole, TransactionSpec};
use crate::program_abi::{
    counter_data_ok, custom_error_name, describe_custom_error, instruction_data, instruction_of,
    le_bytes, le_u64, Counter, CounterInstruction,
};
use crate::svm::{
    data_view, instruction_view, keypair_new, keypair_try_from, message_with_blockhash,
    system_create_account, transaction_sign, transaction_unsigned, valid_keypair_bytes,
    InstructionView, SigningKey, Tx, TxView, Vm, VmEvent,
};
use crate::text::{dec, push_str, push_u64};


verus! {

// ---------------------------------------------------------------------------
// Addresses as text
// ---------------------------------------------------------------------------

/// The bytes read as one big-endian number.
pub open spec fn big_endian_value(b: Seq<u8>) -> nat
    decreases b.len(),
{
    if b.len() == 0 {
        0
    } else {
        big_endian_value(b.drop_last()) * 256 + b.last() as nat
    }
}

/// How many zero bytes `b` starts with.
pub open spec fn leading_zero_bytes(b: Seq<u8>) -> nat
    decreases b.len(),
{
    if b.len() == 0 || b[0] != 0 {
        0
    } else {
        1 + leading_zero_bytes(b.drop_first())
    }
}

/// The base58 digit `d`, `0 <= d < 58`, in the Bitcoin alphabet.
pub open spec fn base58_digit(d: nat) -> char {
    "123456789ABCDEFGHJKLMNPQRSTUVWXYZabcdefghijkmnopqrstuvwxyz"@[d as int]
}

/// The base58 digits of `n`, most significant first; none for zero.
pub open spec fn base58_digits(n: nat) -> Seq<char>
    decreases n,
{
    if n == 0 {
        Seq::empty()
    } else {
        base58_digits(n / 58).push(base58_digit(n % 58))
    }
}

/// The base58 text of an address, as `Pubkey`'s `Display` writes it: one `1`
/// for each leading zero byte, then the base58 digits of the bytes read as a
/// big-endian number.
pub open spec fn base58_address(bytes: Seq<u8>) -> Seq<char> {
    Seq::new(leading_zero_bytes(bytes), |i: int| '1') + base58_digits(big_endian_value(bytes))
}

/// `Pubkey`'s `Display`: the base58 text of an address.
#[verifier::external_body]
fn address_text(address: [u8; 32]) -> (r: String)
    ensures
        r@ == base58_address(address@),
{
    solana_pubkey::Pubkey::new_from_array(address).to_string()
}

// ---------------------------------------------------------------------------
// Outcomes, as plain values
// ---------------------------------------------------------------------------

/// What every executed transaction reports: its logs and compute units.
pub struct TxReceipt {
    pub logs: Vec<String>,
    pub compute_units_consumed: u64,
}

/// A transaction the runtime rejected.
pub struct TxRejection {
    /// The runtime's reason.
    pub failure: TxFailure,
    pub receipt: TxReceipt,
    /// The debug text of the whole failure record.
    pub text: String,
}

/// Why a transaction failed, as far as the report reads it.
#[derive(Debug)]
pub enum TxFailure {
    /// Instruction `index` returned the program's custom error `code`.
    CustomProgramError { index: u8, code: u32 },
    /// Any other failure, as the runtime's debug text.
    Other { description: String },
}

/// The outcome of sending one transaction.
pub enum TxOutcome {
    Succeeded { receipt: TxReceipt },
    Failed { failure: TxFailure, receipt: TxReceipt },
}

/// The report's description of a failure. Custom program errors name the
/// failing instruction and decode the error code where it is known.
pub open spec fn failure_text(f: TxFailure) -> Seq<char> {
    match f {
        TxFailure::CustomProgramError { index, code } => match custom_error_name(code) {
            Some(name) => "instruction "@ + dec(index as nat) + " failed: custom program error "@
                + dec(code as nat) + " ("@ + name + ")"@,
            None => "instruction "@ + dec(index as nat) + " failed: custom program error "@
                + dec(code as nat),
        },
        TxFailure::Other { description } => description@,
    }
}

/// Formats a failure for the report, decoding custom program error codes of
/// the bundled example program where possible.
pub fn describe_transaction_error(failure: &TxFailure) -> (r: String)
    ensures
        r@ == failure_text(*failure),
{
    match failure {
        TxFailure::CustomProgramError { index, code } => {
            let mut s = String::new();
            push_str(&mut s, "instruction ");
            push_u64(&mut s, *index as u64);
            push_str(&mut s, " failed: custom program error ");
            push_u64(&mut s, *code as u64);
            match describe_custom_error(*code) {
                Some(name) => {
                    push_str(&mut s, " (");
                    push_str(&mut s, name);
                    push_str(&mut s, ")");
                },
                None => {},
            }
            assert(s@ =~= failure_text(*failure));
            s
        },
        TxFailure::Other { description } => description.clone(),
    }
}

/// What the counter account's data says, with the authority written as its
/// base58 text: `None` where there is no account or its data does not decode.
pub open spec fn snapshot_of(data: Option<Seq<u8>>) -> Option<(bool, Seq<char>, u64)> {
    match data {
        Some(d) => if counter_data_ok(d) {
            Some((d[0] == 1, base58_address(d.subrange(1, 33)), le_u64(d.subrange(33, 41))))
        } else {
            None
        },
        None => None,
    }
}

/// The snapshot of the counter account, read from its data.
pub fn snapshot_from_data(data: Option<Vec<u8>>) -> (r: Option<CounterStateSnapshot>)
    ensures
        state_view(r) == snapshot_of(data_view(data)),
{
    match data {
        Some(bytes) => match Counter::decode(bytes.as_slice()) {
            Some(counter) => Some(CounterStateSnapshot {
                is_initialized: counter.is_initialized,
                authority: address_text(counter.authority),
                value: counter.value,
            }),
            None => None,
        },
        None => None,
    }
}

/// The outcome's failure and receipt, if it failed.
pub open spec fn outcome_failure(o: TxOutcome) -> Option<TxFailure> {
    match o {
        TxOutcome::Succeeded { .. } => None,
        TxOutcome::Failed { failure, .. } => Some(failure),
    }
}

/// The outcome's receipt.
pub open spec fn outcome_receipt(o: TxOutcome) -> TxReceipt {
    match o {
        TxOutcome::Succeeded { receipt } => receipt,
        TxOutcome::Failed { receipt, .. } => receipt,
    }
}

/// `r` is the report's record of transaction `t`, sent with outcome `o`,
/// after which the counter account held `state`.
pub open spec fn execution_result_is(
    r: TxExecutionResult,
    t: TransactionSpec,
    o: TxOutcome,
    state: Option<CounterStateSnapshot>,
) -> bool {
    &&& r.label == t.label
    &&& r.success == (outcome_failure(o) is None)
    &&& text_view(r.error) == match outcome_failure(o) {
        Some(f) => Some(failure_text(f)),
        None => None,
    }
    &&& r.logs@ == outcome_receipt(o).logs@
    &&& r.compute_units_consumed == outcome_receipt(o).compute_units_consumed
    &&& r.counter_state == state
}

/// Builds the report's record of one executed transaction.
pub fn to_execution_result(
    spec: &TransactionSpec,
    outcome: TxOutcome,
    counter_state: Option<CounterStateSnapshot>,
) -> (r: TxExecutionResult)
    ensures
        execution_result_is(r, *spec, outcome, counter_state),
{
    match outcome {
        TxOutcome::Succeeded { receipt } => TxExecutionResult {
            label: spec.label.clone(),
            success: true,
            error: None,
            logs: receipt.logs,
            compute_units_consumed: receipt.compute_units_consumed,
            counter_state,
        },
        TxOutcome::Failed { failure, receipt } => TxExecutionResult {
            label: spec.label.clone(),
            success: false,
            error: Some(describe_transaction_error(&failure)),
            logs: receipt.logs,
            compute_units_consumed: receipt.compute_units_consumed,
            counter_state,
        },
    }
}

// ---------------------------------------------------------------------------
// What is sent, as plain values
// ---------------------------------------------------------------------------

/// One account an instruction names, with its flags.
#[derive(Clone, Copy, Debug, PartialEq, Eq)]
pub struct AccountRef {
    pub address: [u8; 32],
    pub is_signer: bool,
    pub is_writable: bool,
}

/// An instruction: the program it calls, the accounts it names, its data.
#[derive(Debug)]
pub struct InstructionModel {
    pub program_id: [u8; 32],
    pub accounts: Vec<AccountRef>,
    pub data: Vec<u8>,
}

/// The system program's `CreateAccount`: fund `to` from `from` with
/// `lamports`, give it `space` bytes of data, owned by `owner`.
#[derive(Clone, Copy, Debug, PartialEq, Eq)]
pub struct CreateAccountModel {
    pub from: [u8; 32],
    pub to: [u8; 32],
    pub lamports: u64,
    pub space: u64,
    pub owner: [u8; 32],
}

/// The counter program's instruction for a fixture entry: it names the
/// counter account (writable, not a signer), then the signing key (a
/// read-only signer), and carries the encoded instruction.
pub open spec fn counter_instruction_is(
    r: InstructionModel,
    program_id: [u8; 32],
    counter: [u8; 32],
    signer: [u8; 32],
    instruction: CounterInstructionSpec,
) -> bool {
    &&& r.program_id == program_id
    &&& r.accounts@ == seq![
        AccountRef { address: counter, is_signer: false, is_writable: true },
        AccountRef { address: signer, is_signer: true, is_writable: false },
    ]
    &&& r.data@ == instruction_data(instruction_of(instruction))
}

/// Builds the counter program's instruction for a fixture entry.
pub fn counter_instruction(
    program_id: [u8; 32],
    counter: [u8; 32],
    signer: [u8; 32],
    instruction: &CounterInstructionSpec,
) -> (r: InstructionModel)
    ensures
        counter_instruction_is(r, program_id, counter, signer, *instruction),
{
    let mut accounts: Vec<AccountRef> = Vec::new();
    accounts.push(AccountRef { address: counter, is_signer: false, is_writable: true });
    accounts.push(AccountRef { address: signer, is_signer: true, is_writable: false });
    let data = CounterInstruction::from(instruction).encode();
    let r = InstructionModel { program_id, accounts, data };
    assert(r.accounts@ =~= seq![
        AccountRef { address: counter, is_signer: false, is_writable: true },
        AccountRef { address: signer, is_signer: true, is_writable: false },
    ]);
    r
}

/// The creation of the counter account: paid by `payer`, rent-exempt with
/// `lamports`, `Counter::LEN` bytes, owned by the program under test.
pub open spec fn counter_account_creation_spec(
    payer: [u8; 32],
    counter: [u8; 32],
    lamports: u64,
    program_id: [u8; 32],
) -> CreateAccountModel {
    CreateAccountModel { from: payer, to: counter, lamports, space: 41, owner: program_id }
}

/// Describes the creation of the counter account.
pub fn counter_account_creation(
    payer: [u8; 32],
    counter: [u8; 32],
    lamports: u64,
    program_id: [u8; 32],
) -> (r: CreateAccountModel)
    ensures
        r == counter_account_creation_spec(payer, counter, lamports, program_id),
{
    CreateAccountModel { from: payer, to: counter, lamports, space: Counter::LEN as u64, owner: program_id }
}

/// The system program's address: 32 zero bytes.
pub open spec fn system_program() -> Seq<u8> {
    Seq::new(32, |i: int| 0u8)
}

/// The data of the system program's `CreateAccount`, as bincode writes it:
/// the variant's index as a little-endian `u32`, then the lamports and the
/// space as little-endian `u64`s, then the owner's 32 bytes.
pub open spec fn create_account_data(lamports: u64, space: u64, owner: Seq<u8>) -> Seq<u8> {
    seq![0u8, 0u8, 0u8, 0u8] + le_bytes(lamports) + le_bytes(space) + owner
}

/// `ix` is the system program's `CreateAccount` described by `m`: it names
/// the funding account, then the new account, both writable signers.
pub open spec fn create_account_instruction_is(ix: InstructionModel, m: CreateAccountModel) -> bool {
    &&& ix.program_id@ == system_program()
    &&& ix.accounts@ == seq![
        AccountRef { address: m.from, is_signer: true, is_writable: true },
        AccountRef { address: m.to, is_signer: true, is_writable: true },
    ]
    &&& ix.data@ == create_account_data(m.lamports, m.space, m.owner@)
}

// ---------------------------------------------------------------------------
// Keys
// ---------------------------------------------------------------------------

/// One SOL, in lamports.
pub const LAMPORTS_PER_SOL: u64 = 1_000_000_000;

/// What each fixture account is credited before the replay: 10 SOL.
pub const AIRDROP_LAMPORTS: u64 = 10 * LAMPORTS_PER_SOL;

/// The address at which the program under test is loaded: 32 bytes of 7.
pub open spec fn program_address() -> Seq<u8> {
    Seq::new(32, |i: int| 7u8)
}

/// The fixed address at which the program under test is loaded. It is not a
/// real deployment address: every replay gets its own fresh VM, so there is
/// nothing for it to collide with.
pub fn program_id() -> (r: [u8; 32])
    ensures
        r@ == program_address(),
{
    let r = [7u8; 32];
    assert(r@ =~= program_address());
    r
}

/// Turns a fixture keypair back into a signer. It succeeds exactly on
/// encodings that `Keypair::try_from` accepts, and the key it gives holds
/// those same bytes.
pub fn keypair_from_bytes(label: &str, bytes: &KeypairBytes) -> (r: Result<SigningKey, Error>)
    ensures
        r is Ok <==> valid_keypair_bytes(bytes.0@),
        bytes.0@.len() != 64 ==> r is Err,
        r matches Ok(k) ==> k.bytes() == bytes.0@,
        r matches Err(e) ==> e matches Error::InvalidKeypair { label: l } && l@ == label@,
{
    match keypair_try_from(bytes.0.as_slice()) {
        Some(key) => Ok(key),
        None => Err(Error::InvalidKeypair { label: String::from_str(label) }),
    }
}

/// The address of a fixture key: the public half of its bytes.
pub open spec fn key_address(k: KeypairBytes) -> Seq<u8> {
    k.0@.subrange(32, 64)
}

/// The label of the first of the fixture's four keys, in the order payer,
/// authority, rogue, counter account, whose bytes are not a valid keypair.
pub open spec fn first_invalid_key(f: Fixture) -> Option<Seq<char>> {
    if !valid_keypair_bytes(f.payer.0@) {
        Some("payer"@)
    } else if !valid_keypair_bytes(f.authority.0@) {
        Some("authority"@)
    } else if !valid_keypair_bytes(f.rogue.0@) {
        Some("rogue"@)
    } else if !valid_keypair_bytes(f.counter_account.0@) {
        Some("counter_account"@)
    } else {
        None
    }
}

/// The signers of a replay, one per fixture key.
pub struct ReplayKeys {
    pub payer: SigningKey,
    pub authority: SigningKey,
    pub rogue: SigningKey,
    pub counter: SigningKey,
}

/// Each key holds the fixture's bytes for it.
pub open spec fn keys_of(keys: ReplayKeys, f: Fixture) -> bool {
    &&& keys.payer.bytes() == f.payer.0@
    &&& keys.authority.bytes() == f.authority.0@
    &&& keys.rogue.bytes() == f.rogue.0@
    &&& keys.counter.bytes() == f.counter_account.0@
}

/// The fixture's bytes for the key that signs for `role`.
pub open spec fn role_key(f: Fixture, role: SignerRole) -> KeypairBytes {
    match role {
        SignerRole::Authority => f.authority,
        SignerRole::Rogue => f.rogue,
    }
}

/// The key that signs for `role`.
pub open spec fn signer_for(keys: ReplayKeys, role: SignerRole) -> SigningKey {
    match role {
        SignerRole::Authority => keys.authority,
        SignerRole::Rogue => keys.rogue,
    }
}

/// Turns the fixture's four keypairs into signers, in the order payer,
/// authority, rogue, counter account; the first invalid one is the error.
pub fn replay_keys(fixture: &Fixture) -> (r: Result<ReplayKeys, Error>)
    ensures
        match r {
            Ok(keys) => first_invalid_key(*fixture) is None && keys_of(keys, *fixture),
            Err(e) => e matches Error::InvalidKeypair { label } && first_invalid_key(*fixture) == Some(label@),
        },
{
    let payer = keypair_from_bytes("payer", &fixture.payer)?;
    let authority = keypair_from_bytes("authority", &fixture.authority)?;
    let rogue = keypair_from_bytes("rogue", &fixture.rogue)?;
    let counter = keypair_from_bytes("counter_account", &fixture.counter_account)?;
    Ok(ReplayKeys { payer, authority, rogue, counter })
}

impl ReplayKeys {
    /// The key that signs for `role`.
    pub fn signer(&self, role: SignerRole) -> (r: &SigningKey)
        ensures
            *r == signer_for(*self, role),
    {
        match role {
            SignerRole::Authority => &self.authority,
            SignerRole::Rogue => &self.rogue,
        }
    }
}

// ---------------------------------------------------------------------------
// What a replay sends
// ---------------------------------------------------------------------------

/// A transaction ready to sign and send: one instruction, the fee payer, and
/// the two keys that sign it (the payer first).
pub struct TransactionPlan<'a> {
    pub instruction: InstructionModel,
    pub payer: &'a SigningKey,
    pub signer: &'a SigningKey,
}

/// The transaction for a fixture entry: the counter instruction naming the
/// counter account and the key of the entry's role, paid by the payer and
/// signed by the payer and that key.
pub open spec fn counter_transaction_is(
    plan: TransactionPlan,
    keys: ReplayKeys,
    program: Seq<u8>,
    spec: TransactionSpec,
) -> bool {
    &&& counter_call(instruction_view(plan.instruction), program, keys.counter.address(),
        signer_for(keys, spec.signer).address(), spec.instruction)
    &&& *plan.payer == keys.payer
    &&& *plan.signer == signer_for(keys, spec.signer)
}

/// `ix` calls the counter program at `program` with `instruction`, naming
/// the account at `counter` (writable, not a signer), then the one at
/// `signer` (a read-only signer).
pub open spec fn counter_call(
    ix: InstructionView,
    program: Seq<u8>,
    counter: Seq<u8>,
    signer: Seq<u8>,
    instruction: CounterInstructionSpec,
) -> bool {
    &&& ix.program_id@ == program
    &&& ix.accounts.len() == 2
    &&& ix.accounts[0].address@ == counter
    &&& !ix.accounts[0].is_signer && ix.accounts[0].is_writable
    &&& ix.accounts[1].address@ == signer
    &&& ix.accounts[1].is_signer && !ix.accounts[1].is_writable
    &&& ix.data == instruction_data(instruction_of(instruction))
}

/// Plans the transaction for a fixture entry.
pub fn counter_transaction<'a>(
    keys: &'a ReplayKeys,
    program: [u8; 32],
    spec: &TransactionSpec,
) -> (r: TransactionPlan<'a>)
    ensures
        counter_transaction_is(r, *keys, program@, *spec),
{
    let signer = keys.signer(spec.signer);
    let instruction = counter_instruction(program, keys.counter.address_bytes(), signer.address_bytes(), &spec.instruction);
    TransactionPlan { instruction, payer: &keys.payer, signer }
}

/// `tx` is the transaction of fixture entry `t`, for the program at
/// `program`: the counter call, paid by the payer, signed by the payer and
/// the key of the entry's role.
pub open spec fn counter_tx(tx: TxView, f: Fixture, program: Seq<u8>, t: TransactionSpec) -> bool {
    &&& counter_call(tx.instruction, program, key_address(f.counter_account),
        key_address(role_key(f, t.signer)), t.instruction)
    &&& tx.payer@ == key_address(f.payer)
    &&& tx.signers == seq![f.payer.0@, role_key(f, t.signer).0@]
}

/// `tx` creates the counter account, whose key is `counter`: the key `payer`
/// funds it with `lamports`, and gives it `Counter::LEN` bytes owned by the
/// program at `program`; the payer pays, the payer and the counter account
/// sign, at `blockhash`.
pub open spec fn creation_tx(
    tx: TxView,
    payer: Seq<u8>,
    counter: Seq<u8>,
    program: Seq<u8>,
    lamports: u64,
    blockhash: [u8; 32],
) -> bool {
    &&& tx.instruction.program_id@ == system_program()
    &&& tx.instruction.accounts.len() == 2
    &&& tx.instruction.accounts[0].address@ == payer.subrange(32, 64)
    &&& tx.instruction.accounts[0].is_signer && tx.instruction.accounts[0].is_writable
    &&& tx.instruction.accounts[1].address@ == counter.subrange(32, 64)
    &&& tx.instruction.accounts[1].is_signer && tx.instruction.accounts[1].is_writable
    &&& tx.instruction.data == create_account_data(lamports, 41, program)
    &&& tx.payer@ == payer.subrange(32, 64)
    &&& tx.blockhash == blockhash
    &&& tx.signers == seq![payer, counter]
}

/// `e` read the rent-exempt minimum for `Counter::LEN` bytes.
pub open spec fn counter_rent_read(e: VmEvent) -> bool {
    match e {
        VmEvent::RentRead { data_len, .. } => data_len == 41,
        _ => false,
    }
}

/// The lamports a rent read gave.
pub open spec fn read_lamports(e: VmEvent) -> u64 {
    match e {
        VmEvent::RentRead { lamports, .. } => lamports,
        _ => 0,
    }
}

/// `e` read the latest blockhash.
pub open spec fn blockhash_read(e: VmEvent) -> bool {
    e is BlockhashRead
}

/// The blockhash a blockhash read gave.
pub open spec fn read_hash(e: VmEvent) -> [u8; 32] {
    match e {
        VmEvent::BlockhashRead { hash } => hash,
        _ => arbitrary(),
    }
}

/// `e` sent a transaction and the VM accepted it.
pub open spec fn sent_ok(e: VmEvent) -> bool {
    match e {
        VmEvent::Sent { result, .. } => result is Ok,
        _ => false,
    }
}

/// The record's calls from `b` on create the counter account: the rent
/// read for its `Counter::LEN` bytes, a blockhash read, then the send of the
/// creation transaction with exactly that rent, at that blockhash.
pub open spec fn creation_sent(
    events: Seq<VmEvent>,
    b: int,
    payer: Seq<u8>,
    counter: Seq<u8>,
    program: Seq<u8>,
) -> bool {
    &&& 0 <= b && b + 3 <= events.len()
    &&& counter_rent_read(events[b])
    &&& blockhash_read(events[b + 1])
    &&& match events[b + 2] {
        VmEvent::Sent { tx, .. } => creation_tx(tx, payer, counter, program,
            read_lamports(events[b]), read_hash(events[b + 1])),
        _ => false,
    }
}

/// The receipt of an answer to a send.
pub open spec fn sent_receipt(sent: Result<TxReceipt, TxRejection>) -> TxReceipt {
    match sent {
        Ok(receipt) => receipt,
        Err(rejection) => rejection.receipt,
    }
}

/// `r` is the report's record of fixture entry `t`, whose send the VM
/// answered with `sent`, after which the counter account's data read `data`.
pub open spec fn result_of(
    r: TxExecutionResult,
    t: TransactionSpec,
    sent: Result<TxReceipt, TxRejection>,
    data: Option<Seq<u8>>,
) -> bool {
    &&& r.label == t.label
    &&& r.success == sent is Ok
    &&& text_view(r.error) == match sent {
        Ok(_) => None,
        Err(rejection) => Some(failure_text(rejection.failure)),
    }
    &&& r.logs@ == sent_receipt(sent).logs@
    &&& r.compute_units_consumed == sent_receipt(sent).compute_units_consumed
    &&& state_view(r.counter_state) == snapshot_of(data)
}

/// Two calls of a replay's loop: `sent` sent fixture entry `t` at
/// `blockhash`, then `read` read the counter account back.
pub open spec fn sent_step(sent: VmEvent, read: VmEvent, f: Fixture, blockhash: [u8; 32], t: TransactionSpec) -> bool {
    match (sent, read) {
        (VmEvent::Sent { tx, .. }, VmEvent::AccountRead { address, .. }) => {
            &&& counter_tx(tx, f, program_address(), t)
            &&& tx.blockhash == blockhash
            &&& address@ == key_address(f.counter_account)
        },
        _ => false,
    }
}

/// As [`sent_step`], and `r` records both calls.
pub open spec fn replayed_step(
    sent: VmEvent,
    read: VmEvent,
    f: Fixture,
    blockhash: [u8; 32],
    t: TransactionSpec,
    r: TxExecutionResult,
) -> bool {
    &&& sent_step(sent, read, f, blockhash, t)
    &&& match (sent, read) {
        (VmEvent::Sent { result, .. }, VmEvent::AccountRead { data, .. }) => result_of(r, t, result, data),
        _ => false,
    }
}

/// Where step `i` of a replay starts in its record of calls.
pub open spec fn step_start(i: int) -> int {
    8 + 2 * i
}

/// Step `i` of a replay was sent and read back, at the blockhash read just
/// before the loop.
pub open spec fn step_sent(events: Seq<VmEvent>, f: Fixture, i: int) -> bool {
    sent_step(events[step_start(i)], events[step_start(i) + 1], f, read_hash(events[7]), f.transactions@[i])
}

/// Step `i` of a replay, with its result, as the record of calls holds it.
pub open spec fn step_of(events: Seq<VmEvent>, f: Fixture, results: Seq<TxExecutionResult>, i: int) -> bool {
    replayed_step(events[step_start(i)], events[step_start(i) + 1], f, read_hash(events[7]),
        f.transactions@[i], results[i])
}

/// `e` airdropped 10 SOL to the key `k`, and it was credited.
pub open spec fn funded(e: VmEvent, k: KeypairBytes) -> bool {
    airdropped(e, key_address(k), true)
}

/// `e` airdropped 10 SOL to `address`; `credited` tells whether it went
/// through.
pub open spec fn airdropped(e: VmEvent, address: Seq<u8>, credited: bool) -> bool {
    match e {
        VmEvent::Airdrop { address: a, lamports, credited: c } => {
            a@ == address && lamports == AIRDROP_LAMPORTS && c == credited
        },
        _ => false,
    }
}

/// The key funded by the `k`-th airdrop of a replay (counting from 1): the
/// payer, then the authority, then the rogue key.
pub open spec fn funded_key(f: Fixture, k: int) -> KeypairBytes {
    if k == 1 {
        f.payer
    } else if k == 2 {
        f.authority
    } else {
        f.rogue
    }
}

/// The first `n` airdrops of the record, right after the deployment, were
/// credited, each to its key.
pub open spec fn airdrops_done(events: Seq<VmEvent>, f: Fixture, n: int) -> bool {
    &&& n + 1 <= events.len()
    &&& forall|k: int| 1 <= k <= n ==> funded(#[trigger] events[k], funded_key(f, k))
}

/// The record starts by deploying `program_bytes` at the program address;
/// `loaded` tells whether the VM took them.
pub open spec fn deployed_first(events: Seq<VmEvent>, program_bytes: Seq<u8>, loaded: bool) -> bool {
    &&& events.len() >= 1
    &&& match events[0] {
        VmEvent::ProgramAdded { program_id, bytes, loaded: l } => {
            program_id@ == program_address() && bytes == program_bytes && l == loaded
        },
        _ => false,
    }
}

/// The record starts with a replay's setup: the program is deployed from
/// `program_bytes`, the payer, authority and rogue keys are funded with 10
/// SOL each, the payer creates the counter account with the rent-exempt
/// minimum read for it, and the VM accepts that; then the blockhash for the
/// fixture's transactions is read.
pub open spec fn set_up(events: Seq<VmEvent>, program_bytes: Seq<u8>, f: Fixture) -> bool {
    &&& deployed_first(events, program_bytes, true)
    &&& events.len() >= 8
    &&& airdrops_done(events, f, 3)
    &&& creation_sent(events, 4, f.payer.0@, f.counter_account.0@, program_address())
    &&& sent_ok(events[6])
    &&& blockhash_read(events[7])
}

/// The record of a complete replay of `f` against `program_bytes` that gave
/// `results`: the setup, then each fixture entry in order is sent, at the
/// blockhash read last in the setup, and the counter account read back; each
/// result records its entry's send and read.
pub open spec fn replay_log(
    events: Seq<VmEvent>,
    program_bytes: Seq<u8>,
    f: Fixture,
    results: Seq<TxExecutionResult>,
) -> bool {
    &&& set_up(events, program_bytes, f)
    &&& events.len() == step_start(f.transactions@.len() as int)
    &&& results.len() == f.transactions@.len()
    &&& forall|i: int| 0 <= i < results.len() ==> #[trigger] step_of(events, f, results, i)
}

/// The record of a replay whose airdrops stopped at a failed one: the
/// earlier airdrops were credited, and the last call is the failed one, to
/// the next key.
pub open spec fn airdrop_failed(events: Seq<VmEvent>, f: Fixture) -> bool {
    &&& 2 <= events.len() <= 4
    &&& airdrops_done(events, f, events.len() - 2)
    &&& airdropped(events.last(), key_address(funded_key(f, events.len() - 1)), false)
}

/// The record of a replay that could not create the counter account: the
/// three airdrops were credited, the rent and a blockhash were read, and then
/// either the creation transaction could not be signed (nothing more was
/// sent), or it was sent, as planned, and the VM rejected it.
pub open spec fn creation_failed(events: Seq<VmEvent>, f: Fixture) -> bool {
    &&& airdrops_done(events, f, 3)
    &&& events.len() == 6 || events.len() == 7
    &&& counter_rent_read(events[4])
    &&& blockhash_read(events[5])
    &&& events.len() == 7 ==> {
        &&& creation_sent(events, 4, f.payer.0@, f.counter_account.0@, program_address())
        &&& !sent_ok(events[6])
    }
}

/// The record of a replay that stopped at fixture entry `k` because its
/// transaction could not be signed: the setup, then every earlier entry sent
/// and read back, and nothing more.
pub open spec fn transaction_failed(events: Seq<VmEvent>, program_bytes: Seq<u8>, f: Fixture, k: int) -> bool {
    &&& set_up(events, program_bytes, f)
    &&& events.len() == step_start(k)
    &&& forall|j: int| 0 <= j < k ==> #[trigger] step_sent(events, f, j)
}

/// The record of a replay of `f` against `program_bytes` that failed with
/// `e`: a program that did not load, or a fixture key that is not valid,
/// stops the replay right after the deployment; an airdrop error ends the
/// record with that failed airdrop; an error in creating the counter account
/// comes from its send or its signing; an error under an entry's label comes
/// after the earlier entries were all sent and read back.
pub open spec fn failure_log(events: Seq<VmEvent>, program_bytes: Seq<u8>, f: Fixture, e: Error) -> bool {
    match e {
        Error::ProgramLoad { .. } => events.len() == 1 && deployed_first(events, program_bytes, false),
        Error::InvalidKeypair { .. } => events.len() == 1 && deployed_first(events, program_bytes, true),
        Error::TransactionBuild { label, .. } => {
            &&& deployed_first(events, program_bytes, true)
            &&& {
                ||| label@ == "airdrop"@ && airdrop_failed(events, f)
                ||| label@ == "create_counter_account"@ && creation_failed(events, f)
                ||| exists|k: int| 0 <= k < f.transactions@.len() && label == f.transactions@[k].label
                    && #[trigger] transaction_failed(events, program_bytes, f, k)
            }
        },
        _ => false,
    }
}

/// The labels under which a replay's setup can fail: funding an account,
/// creating the counter account, or building one of the fixture's
/// transactions.
pub open spec fn setup_or_transaction_label(label: Seq<char>, ts: Seq<TransactionSpec>) -> bool {
    ||| label == "airdrop"@
    ||| label == "create_counter_account"@
    ||| exists|i: int| 0 <= i < ts.len() && label == #[trigger] ts[i].label@
}

/// What a replay of `fixture` against the program named `name` can fail
/// with: the program does not load; the first invalid fixture key; or a
/// failure to fund, create the counter account or build a transaction.
pub open spec fn replay_error(e: Error, name: Seq<char>, fixture: Fixture) -> bool {
    match e {
        Error::ProgramLoad { path, .. } => path@ == name,
        Error::InvalidKeypair { label } => first_invalid_key(fixture) == Some(label@),
        Error::TransactionBuild { label, .. } => first_invalid_key(fixture) is None
            && setup_or_transaction_label(label@, fixture.transactions@),
        _ => false,
    }
}

// ---------------------------------------------------------------------------
// Replaying
// ---------------------------------------------------------------------------

/// `after` is `before` with more calls appended.
pub open spec fn extends(after: Seq<VmEvent>, before: Seq<VmEvent>) -> bool {
    &&& before.len() <= after.len()
    &&& forall|k: int| 0 <= k < before.len() ==> #[trigger] after[k] == before[k]
}

/// Compiles, builds and signs a one-instruction transaction paid by `payer`
/// and signed by `payer` and `signer`.
fn signed_transaction(
    instruction: &InstructionModel,
    payer: &SigningKey,
    signer: &SigningKey,
    blockhash: [u8; 32],
) -> (r: Result<Tx, String>)
    requires
        instruction.accounts@.len() <= 253,
    ensures
        r matches Ok(tx) ==> {
            &&& tx.view().instruction == instruction_view(*instruction)
            &&& tx.view().payer@ == payer.address()
            &&& tx.view().blockhash == blockhash
            &&& tx.view().signers == seq![payer.bytes(), signer.bytes()]
        },
{
    let message = message_with_blockhash(instruction, payer.address_bytes(), blockhash);
    let mut tx = transaction_unsigned(message);
    match transaction_sign(&mut tx, payer, signer, blockhash) {
        Ok(()) => Ok(tx),
        Err(reason) => Err(reason),
    }
}

/// Airdrops 10 SOL to `key`.
fn fund(vm: &mut Vm, key: &SigningKey) -> (r: Result<(), Error>)
    ensures
        final(vm).events() == old(vm).events().push(final(vm).events().last()),
        airdropped(final(vm).events().last(), key.address(), r is Ok),
        r matches Err(e) ==> e matches Error::TransactionBuild { label, .. } && label@ == "airdrop"@,
{
    match vm.airdrop(key.address_bytes(), AIRDROP_LAMPORTS) {
        Ok(()) => Ok(()),
        Err(reason) => Err(Error::TransactionBuild { label: String::from_str("airdrop"), reason }),
    }
}

/// The payer creates the counter account, owned by the program at
/// `program`, with `Counter::LEN` bytes and the rent-exempt minimum the VM
/// gives for them, at the latest blockhash.
fn create_counter_account(vm: &mut Vm, keys: &ReplayKeys, program: [u8; 32]) -> (r: Result<(), Error>)
    ensures
        extends(final(vm).events(), old(vm).events()),
        r is Ok ==> {
            &&& final(vm).events().len() == old(vm).events().len() + 3
            &&& creation_sent(final(vm).events(), old(vm).events().len() as int,
                keys.payer.bytes(), keys.counter.bytes(), program@)
            &&& sent_ok(final(vm).events().last())
        },
        r matches Err(e) ==> {
            &&& e matches Error::TransactionBuild { label, .. } && label@ == "create_counter_account"@
            &&& final(vm).events().len() >= old(vm).events().len() + 2
            &&& counter_rent_read(final(vm).events()[old(vm).events().len() as int])
            &&& blockhash_read(final(vm).events()[old(vm).events().len() + 1int])
            &&& final(vm).events().len() == old(vm).events().len() + 2 || {
                &&& final(vm).events().len() == old(vm).events().len() + 3
                &&& creation_sent(final(vm).events(), old(vm).events().len() as int,
                    keys.payer.bytes(), keys.counter.bytes(), program@)
                &&& !sent_ok(final(vm).events().last())
            }
        },
{
    let ghost start = vm.events();
    let rent = vm.rent_exempt_minimum(Counter::LEN);
    let creation = counter_account_creation(keys.payer.address_bytes(), keys.counter.address_bytes(), rent, program);
    let instruction = system_create_account(&creation);
    let blockhash = vm.latest_blockhash();
    let tx = match signed_transaction(&instruction, &keys.payer, &keys.counter, blockhash) {
        Ok(tx) => tx,
        Err(reason) => {
            return Err(Error::TransactionBuild { label: String::from_str("create_counter_account"), reason });
        },
    };
    proof {
        assert(tx.view().instruction.data == create_account_data(rent, 41, program@));
    }
    let sent = vm.send(tx);
    proof {
        let events = vm.events();
        assert(events[start.len() as int] == VmEvent::RentRead { data_len: Counter::LEN, lamports: rent });
        assert(events[start.len() + 1int] == VmEvent::BlockhashRead { hash: blockhash });
        assert forall|k: int| 0 <= k < start.len() implies #[trigger] events[k] == start[k] by {}
    }
    match sent {
        Ok(_) => Ok(()),
        Err(rejection) => Err(Error::TransactionBuild {
            label: String::from_str("create_counter_account"),
            reason: rejection.text,
        }),
    }
}

/// Sends fixture entry `spec` at `blockhash`, then reads the counter account
/// back, and records both. When the transaction cannot be signed, nothing is
/// sent.
fn send_one(
    vm: &mut Vm,
    keys: &ReplayKeys,
    fixture: &Fixture,
    blockhash: [u8; 32],
    spec: &TransactionSpec,
) -> (r: Result<TxExecutionResult, Error>)
    requires
        keys_of(*keys, *fixture),
    ensures
        extends(final(vm).events(), old(vm).events()),
        r matches Ok(result) ==> {
            &&& final(vm).events().len() == old(vm).events().len() + 2
            &&& replayed_step(final(vm).events()[old(vm).events().len() as int],
                final(vm).events()[old(vm).events().len() + 1int], *fixture, blockhash, *spec, result)
        },
        r matches Err(e) ==> {
            &&& e matches Error::TransactionBuild { label, .. } && label == spec.label
            &&& final(vm).events() == old(vm).events()
        },
{
    let plan = counter_transaction(keys, program_id(), spec);
    let tx = match signed_transaction(&plan.instruction, plan.payer, plan.signer, blockhash) {
        Ok(tx) => tx,
        Err(reason) => {
            return Err(Error::TransactionBuild { label: spec.label.clone(), reason });
        },
    };
    let ghost sent_view = tx.view();
    let sent = vm.send(tx);
    let ghost sent_result = sent;
    let outcome = match sent {
        Ok(receipt) => TxOutcome::Succeeded { receipt },
        Err(rejection) => TxOutcome::Failed { failure: rejection.failure, receipt: rejection.receipt },
    };
    let data = vm.account_data(keys.counter.address_bytes());
    let ghost read = data_view(data);
    let state = snapshot_from_data(data);
    let result = to_execution_result(spec, outcome, state);
    proof {
        assert(result_of(result, *spec, sent_result, read));
        assert(counter_tx(sent_view, *fixture, program_address(), *spec));
    }
    Ok(result)
}

/// A record that extends one that starts with a replay's setup starts with
/// it too.
proof fn lemma_set_up_kept(events: Seq<VmEvent>, before: Seq<VmEvent>, program_bytes: Seq<u8>, f: Fixture)
    requires
        set_up(before, program_bytes, f),
        extends(events, before),
    ensures
        set_up(events, program_bytes, f),
{
    assert(events[0] == before[0]);
    assert forall|k: int| 1 <= k <= 3 implies funded(#[trigger] events[k], funded_key(f, k)) by {
        assert(events[k] == before[k]);
        assert(funded(before[k], funded_key(f, k)));
    }
    assert(events[4] == before[4]);
    assert(events[5] == before[5]);
    assert(events[6] == before[6]);
    assert(events[7] == before[7]);
}

/// Executes the fixture's transaction sequence against the program given as
/// `program_bytes` (named `program_name` in errors) inside `vm`, a fresh VM.
///
/// The program is deployed; each of the payer, authority and rogue keys is
/// funded with 10 SOL; the payer creates the counter account (owned by the
/// program, `Counter::LEN` bytes, with the rent-exempt minimum the VM gives);
/// the latest blockhash is read; then each fixture transaction is sent at
/// that blockhash as planned by [`counter_transaction`], and the counter
/// account read back and recorded with [`to_execution_result`]. `on_step` is
/// invoked after each transaction executes, so callers can report progress
/// as the replay proceeds. The VM's record of calls is exactly that, or, on
/// an error, the part of it made before the error.
pub fn replay_in<F: Fn(&TransactionSpec, &TxExecutionResult)>(
    vm: &mut Vm,
    program_bytes: &[u8],
    program_name: String,
    fixture: &Fixture,
    on_step: F,
) -> (r: Result<Vec<TxExecutionResult>, Error>)
    requires
        old(vm).events() == Seq::<VmEvent>::empty(),
        forall|t: &TransactionSpec, x: &TxExecutionResult| on_step.requires((t, x)),
    ensures
        match r {
            Ok(results) => {
                &&& first_invalid_key(*fixture) is None
                &&& replay_log(final(vm).events(), program_bytes@, *fixture, results@)
            },
            Err(e) => {
                &&& replay_error(e, program_name@, *fixture)
                &&& failure_log(final(vm).events(), program_bytes@, *fixture, e)
            },
        },
        first_invalid_key(*fixture) is Some ==> r is Err,
{
    proof {
        reveal_strlit("airdrop");
        reveal_strlit("create_counter_account");
    }
    let program = program_id();
    match vm.add_program(program, program_bytes) {
        Ok(()) => {},
        Err(reason) => {
            return Err(Error::ProgramLoad { path: program_name, reason });
        },
    }
    let keys = replay_keys(fixture)?;

    fund(vm, &keys.payer)?;
    let ghost after_payer = vm.events();
    match fund(vm, &keys.authority) {
        Ok(()) => {},
        Err(e) => {
            assert(vm.events()[1] == after_payer[1]);
            return Err(e);
        },
    }
    let ghost after_authority = vm.events();
    match fund(vm, &keys.rogue) {
        Ok(()) => {},
        Err(e) => {
            assert(vm.events()[1] == after_payer[1]);
            assert(vm.events()[2] == after_authority[2]);
            return Err(e);
        },
    }
    let ghost after_rogue = vm.events();
    proof {
        assert(after_rogue[1] == after_payer[1]);
        assert(after_rogue[2] == after_authority[2]);
        assert(airdrops_done(after_rogue, *fixture, 3));
    }
    match create_counter_account(vm, &keys, program) {
        Ok(()) => {},
        Err(e) => {
            proof {
                let events = vm.events();
                assert(events[0] == after_rogue[0]);
                assert forall|k: int| 1 <= k <= 3 implies funded(#[trigger] events[k], funded_key(*fixture, k)) by {
                    assert(events[k] == after_rogue[k]);
                }
                assert(creation_failed(events, *fixture));
            }
            return Err(e);
        },
    }
    let blockhash = vm.latest_blockhash();
    let ghost setup = vm.events();
    proof {
        assert forall|k: int| 1 <= k <= 3 implies funded(#[trigger] setup[k], funded_key(*fixture, k)) by {
            assert(setup[k] == after_rogue[k]);
        }
        assert(setup[0] == after_rogue[0]);
        assert(set_up(setup, program_bytes@, *fixture));
    }

    let transactions = &fixture.transactions;
    let mut results: Vec<TxExecutionResult> = Vec::new();
    let mut i: usize = 0;
    while i < transactions.len()
        invariant
            transactions == &fixture.transactions,
            keys_of(keys, *fixture),
            first_invalid_key(*fixture) is None,
            setup.len() == 8,
            set_up(setup, program_bytes@, *fixture),
            read_hash(setup[7]) == blockhash,
            i <= transactions@.len(),
            results@.len() == i,
            vm.events().len() == step_start(i as int),
            extends(vm.events(), setup),
            forall|j: int| 0 <= j < i ==> #[trigger] step_of(vm.events(), *fixture, results@, j),
            forall|t: &TransactionSpec, x: &TxExecutionResult| on_step.requires((t, x)),
        decreases transactions@.len() - i,
    {
        let spec = &transactions[i];
        let ghost before = vm.events();
        let ghost before_results = results@;
        let sent = send_one(vm, &keys, fixture, blockhash, spec);
        let result = match sent {
            Ok(result) => result,
            Err(e) => {
                proof {
                    let events = vm.events();
                    assert(spec.label == fixture.transactions@[i as int].label);
                    assert(setup_or_transaction_label(spec.label@, fixture.transactions@));
                    lemma_set_up_kept(events, setup, program_bytes@, *fixture);
                    assert forall|j: int| 0 <= j < i implies #[trigger] step_sent(events, *fixture, j) by {
                        assert(step_of(events, *fixture, results@, j));
                    }
                    assert(transaction_failed(events, program_bytes@, *fixture, i as int));
                }
                return Err(e);
            },
        };
        on_step(spec, &result);
        results.push(result);
        proof {
            let events = vm.events();
            assert(events[7] == before[7]);
            assert forall|j: int| 0 <= j <= i implies #[trigger] step_of(events, *fixture, results@, j) by {
                if j < i {
                    assert(events[step_start(j)] == before[step_start(j)]);
                    assert(events[step_start(j) + 1] == before[step_start(j) + 1]);
                    assert(results@[j] == before_results[j]);
                    assert(step_of(before, *fixture, before_results, j));
                }
            }
            assert forall|k: int| 0 <= k < setup.len() implies #[trigger] events[k] == setup[k] by {
                assert(events[k] == before[k]);
            }
        }
        i = i + 1;
    }
    proof {
        lemma_set_up_kept(vm.events(), setup, program_bytes@, *fixture);
    }
    Ok(results)
}

/// Executes the fixture's transaction sequence against the program given as
/// `program_bytes` (named `program_name` in errors) inside a fresh,
/// in-process VM that it makes, as [`replay_in`] does; that VM's record of
/// calls, which the result leaves behind, is that of a complete replay, or of
/// one that failed with the error returned.
pub fn replay_bytes<F: Fn(&TransactionSpec, &TxExecutionResult)>(
    program_bytes: &[u8],
    program_name: String,
    fixture: &Fixture,
    on_step: F,
) -> (r: Result<Vec<TxExecutionResult>, Error>)
    requires
        forall|t: &TransactionSpec, x: &TxExecutionResult| on_step.requires((t, x)),
    ensures
        match r {
            Ok(results) => {
                &&& first_invalid_key(*fixture) is None
                &&& exists|vm: Vm| #[trigger] replay_log(vm.events(), program_bytes@, *fixture, results@)
            },
            Err(e) => {
                &&& replay_error(e, program_name@, *fixture)
                &&& exists|vm: Vm| #[trigger] failure_log(vm.events(), program_bytes@, *fixture, e)
            },
        },
        first_invalid_key(*fixture) is Some ==> r is Err,
{
    let mut vm = Vm::new();
    let r = replay_in(&mut vm, program_bytes, program_name, fixture, on_step);
    let ghost answer = r;
    proof {
        match answer {
            Ok(results) => {
                assert(replay_log(vm.events(), program_bytes@, *fixture, results@));
            },
            Err(e) => {
                assert(failure_log(vm.events(), program_bytes@, *fixture, e));
            },
        }
    }
    r
}

/// The results of a complete replay line up with the fixture's transactions.
pub proof fn lemma_replay_aligned(
    events: Seq<VmEvent>,
    program_bytes: Seq<u8>,
    f: Fixture,
    results: Seq<TxExecutionResult>,
)
    requires
        replay_log(events, program_bytes, f, results),
    ensures
        aligned(f.transactions@, results),
{
    assert forall|j: int| 0 <= j < f.transactions@.len() implies #[trigger] f.transactions@[j].label@ == results[j].label@ by {
        assert(step_of(events, f, results, j));
    }
}

fn to_keypair_bytes(key: &SigningKey) -> (r: KeypairBytes)
    ensures
        r.0@ == key.bytes(),
{
    let bytes = key.to_bytes();
    let mut v: Vec<u8> = Vec::new();
    let mut i: usize = 0;
    while i < 64
        invariant
            i <= 64,
            v@ == bytes@.subrange(0, i as int),
        decreases 64 - i,
    {
        v.push(bytes[i]);
        i = i + 1;
        assert(v@ =~= bytes@.subrange(0, i as int));
    }
    assert(bytes@.subrange(0, 64) =~= bytes@);
    KeypairBytes(v)
}

/// A fresh random keypair, as fixture bytes that `keypair_from_bytes`
/// accepts.
fn fresh_keypair_bytes() -> (r: KeypairBytes)
    ensures
        r.0@.len() == 64,
        valid_keypair_bytes(r.0@),
{
    to_keypair_bytes(&keypair_new())
}

/// Builds a fresh fixture: four new random keypairs plus the fixed example
/// transaction sequence. Every key it draws is one that `keypair_from_bytes`
/// accepts.
///
/// What makes a comparison valid is that the same fixture is replayed
/// against both builds, not that it is stable across separate runs.
pub fn generate_fixture() -> (r: Fixture)
    ensures
        r.payer.0@.len() == 64,
        r.authority.0@.len() == 64,
        r.rogue.0@.len() == 64,
        r.counter_account.0@.len() == 64,
        first_invalid_key(r) is None,
        is_example_sequence(r.transactions@),
{
    Fixture {
        payer: fresh_keypair_bytes(),
        authority: fresh_keypair_bytes(),
        rogue: fresh_keypair_bytes(),
        counter_account: fresh_keypair_bytes(),
        transactions: Fixture::example_transactions(),
    }
}

/// The error message when two runs cannot be compared because a compute
/// unit difference does not fit in an `i64`.
pub open spec fn overflow_message() -> Seq<char> {
    "compute unit difference out of range"@
}

/// `f` is a fresh example fixture: valid keys and the example sequence.
pub open spec fn example_fixture(f: Fixture) -> bool {
    &&& first_invalid_key(f) is None
    &&& is_example_sequence(f.transactions@)
}

/// `r` is what replaying the fixture `f` against the old build (named
/// `old_name`, given as `old_bytes`) in the VM whose record is `old_log`,
/// then against the new build in the VM whose record is `new_log`, and
/// comparing the runs, gives:
/// - the report of the two runs, when every compute unit difference fits in
///   an `i64`;
/// - otherwise `Error::Mismatch` with [`overflow_message`];
/// - `Error::ReplayFailed` naming the old build when its replay failed (the
///   new build is then not replayed), or naming the new build when its
///   replay failed after the old build's went through.
pub open spec fn compared_with(
    r: Result<Report, Error>,
    f: Fixture,
    old_log: Seq<VmEvent>,
    new_log: Seq<VmEvent>,
    old_bytes: Seq<u8>,
    old_name: Seq<char>,
    new_bytes: Seq<u8>,
    new_name: Seq<char>,
) -> bool {
    match r {
        Ok(report) => exists|olds: Seq<TxExecutionResult>, news: Seq<TxExecutionResult>|
            #![trigger replay_log(old_log, old_bytes, f, olds), replay_log(new_log, new_bytes, f, news)]
        {
            &&& replay_log(old_log, old_bytes, f, olds)
            &&& replay_log(new_log, new_bytes, f, news)
            &&& deltas_fit(f.transactions@, olds, news)
            &&& report_of(report, old_name, new_name, f.transactions@, olds, news)
        },
        Err(Error::Mismatch(msg)) => {
            &&& msg@ == overflow_message()
            &&& exists|olds: Seq<TxExecutionResult>, news: Seq<TxExecutionResult>|
                #![trigger replay_log(old_log, old_bytes, f, olds), replay_log(new_log, new_bytes, f, news)]
            {
                &&& replay_log(old_log, old_bytes, f, olds)
                &&& replay_log(new_log, new_bytes, f, news)
                &&& !deltas_fit(f.transactions@, olds, news)
            }
        },
        Err(Error::ReplayFailed { program, cause }) => {
            ||| {
                &&& program@ == old_name
                &&& replay_error(*cause, old_name, f)
                &&& failure_log(old_log, old_bytes, f, *cause)
                &&& new_log == Seq::<VmEvent>::empty()
            }
            ||| {
                &&& program@ == new_name
                &&& exists|olds: Seq<TxExecutionResult>| #[trigger] replay_log(old_log, old_bytes, f, olds)
                &&& replay_error(*cause, new_name, f)
                &&& failure_log(new_log, new_bytes, f, *cause)
            }
        },
        Err(_) => false,
    }
}

/// Replays one fresh example fixture against the old build in `old_vm`,
/// then against the new build in `new_vm`, both fresh VMs, both builds given
/// as bytes, and compares the runs, as [`compared_with`] says over the two
/// VMs' records of calls.
pub fn replay_and_compare_in(
    old_vm: &mut Vm,
    old_bytes: &[u8],
    old_name: String,
    new_vm: &mut Vm,
    new_bytes: &[u8],
    new_name: String,
) -> (r: Result<Report, Error>)
    requires
        old(old_vm).events() == Seq::<VmEvent>::empty(),
        old(new_vm).events() == Seq::<VmEvent>::empty(),
    ensures
        exists|f: Fixture| example_fixture(f) && #[trigger] compared_with(r, f, final(old_vm).events(),
            final(new_vm).events(), old_bytes@, old_name@, new_bytes@, new_name@),
{
    let fixture = generate_fixture();
    let old_label = old_name.clone();
    let new_label = new_name.clone();
    let ghost old_text = old_name@;
    let ghost new_text = new_name@;
    let old_results = match replay_in(old_vm, old_bytes, old_name, &fixture, |_t: &TransactionSpec, _x: &TxExecutionResult| {}) {
        Ok(results) => results,
        Err(e) => {
            let ghost cause = e;
            let r = Err(Error::ReplayFailed { program: old_label, cause: Box::new(e) });
            assert(compared_with(r, fixture, old_vm.events(), new_vm.events(), old_bytes@, old_text, new_bytes@, new_text));
            return r;
        },
    };
    let new_results = match replay_in(new_vm, new_bytes, new_name, &fixture, |_t: &TransactionSpec, _x: &TxExecutionResult| {}) {
        Ok(results) => results,
        Err(e) => {
            let ghost cause = e;
            let r = Err(Error::ReplayFailed { program: new_label, cause: Box::new(e) });
            assert(replay_log(old_vm.events(), old_bytes@, fixture, old_results@));
            assert(compared_with(r, fixture, old_vm.events(), new_vm.events(), old_bytes@, old_text, new_bytes@, new_text));
            return r;
        },
    };
    proof {
        lemma_replay_aligned(old_vm.events(), old_bytes@, fixture, old_results@);
        lemma_replay_aligned(new_vm.events(), new_bytes@, fixture, new_results@);
        crate::laws::lemma_aligned_runs_agree(fixture.transactions@, old_results@, new_results@);
        assert(replay_log(old_vm.events(), old_bytes@, fixture, old_results@));
        assert(replay_log(new_vm.events(), new_bytes@, fixture, new_results@));
    }
    if !compute_units_fit(fixture.transactions.as_slice(), old_results.as_slice(), new_results.as_slice()) {
        let r = Err(Error::Mismatch(String::from_str("compute unit difference out of range")));
        assert(!deltas_fit(fixture.transactions@, old_results@, new_results@));
        assert(compared_with(r, fixture, old_vm.events(), new_vm.events(), old_bytes@, old_text, new_bytes@, new_text));
        return r;
    }
    let compared = crate::comparator::compare(
        old_label.as_str(),
        new_label.as_str(),
        fixture.transactions.as_slice(),
        old_results.as_slice(),
        new_results.as_slice(),
    );
    assert(compared is Ok);
    assert(report_of(compared->Ok_0, old_label@, new_label@, fixture.transactions@, old_results@, new_results@));
    assert(compared_with(compared, fixture, old_vm.events(), new_vm.events(), old_bytes@, old_text, new_bytes@, new_text));
    compared
}

/// Replays one fresh example fixture against the old build, then against
/// the new build, both given as bytes, each in a fresh VM that it makes, and
/// compares the runs, as [`replay_and_compare_in`] does; the two VMs'
/// records, which the result leaves behind, are as [`compared_with`] says.
pub fn replay_and_compare(
    old_bytes: &[u8],
    old_name: String,
    new_bytes: &[u8],
    new_name: String,
) -> (r: Result<Report, Error>)
    ensures
        exists|old_vm: Vm, new_vm: Vm, f: Fixture| example_fixture(f) && #[trigger] compared_with(r, f,
            old_vm.events(), new_vm.events(), old_bytes@, old_name@, new_bytes@, new_name@),
{
    let mut old_vm = Vm::new();
    let mut new_vm = Vm::new();
    let r = replay_and_compare_in(&mut old_vm, old_bytes, old_name, &mut new_vm, new_bytes, new_name);
    r
}

} // verus!
