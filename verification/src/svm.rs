//! The boundary with litesvm and the Solana SDK.
//!
//! The VM, the signing keys and the transactions live in types of this
//! module whose fields nothing else can set. Each call into the VM appends an
//! event to the VM's record of calls, so that what a replay sent, and what it
//! read back, can be stated over that record. The functions marked
//! `external_body` make the outside calls; their contracts are trusted.

use vstd::prelude::*;

use solana_instruction::{AccountMeta, Instruction};
use solana_instruction_error::InstructionError;
use solana_keypair::Keypair;
use solana_message::Message;
use solana_pubkey::Pubkey;
use solana_transaction::Transaction;
use solana_transaction_error::TransactionError;

use crate::replay::{
    create_account_instruction_is, AccountRef, CreateAccountModel, InstructionModel, TxFailure, TxReceipt,
    TxRejection,
};

verus! {

/// The in-process Solana VM.
#[verifier::external_type_specification]
#[verifier::external_body]
pub struct ExLiteSVM(litesvm::LiteSVM);

/// An ed25519 signing keypair.
#[verifier::external_type_specification]
#[verifier::external_body]
pub struct ExKeypair(solana_keypair::Keypair);

/// A legacy transaction message.
#[verifier::external_type_specification]
#[verifier::external_body]
pub struct ExMessage(solana_message::Message);

/// A legacy transaction.
#[verifier::external_type_specification]
#[verifier::external_body]
pub struct ExTransaction(solana_transaction::Transaction);

// ---------------------------------------------------------------------------
// Signing keys
// ---------------------------------------------------------------------------

/// The 64-byte keypair encodings that `Keypair::try_from` accepts: a secret
/// key followed by the public key derived from it.
pub uninterp spec fn valid_keypair_bytes(bytes: Seq<u8>) -> bool;

/// A signing keypair together with its 64-byte encoding: the secret key,
/// then the public key.
pub struct SigningKey {
    keypair: Keypair,
    encoded: [u8; 64],
}

impl SigningKey {
    /// The key's encoding.
    pub closed spec fn bytes(&self) -> Seq<u8> {
        self.encoded@
    }

    /// The key's address: the public half of its encoding.
    pub open spec fn address(&self) -> Seq<u8> {
        self.bytes().subrange(32, 64)
    }

    /// The key's 64-byte encoding.
    pub fn to_bytes(&self) -> (r: [u8; 64])
        ensures
            r@ == self.bytes(),
    {
        self.encoded
    }

    /// The key's address, as 32 bytes.
    pub fn address_bytes(&self) -> (r: [u8; 32])
        ensures
            r@ == self.address(),
    {
        let mut address: [u8; 32] = [0u8; 32];
        let mut k: usize = 0;
        while k < 32
            invariant
                k <= 32,
                forall|j: int| 0 <= j < k ==> address@[j] == self.encoded@[j + 32],
            decreases 32 - k,
        {
            address[k] = self.encoded[k + 32];
            k = k + 1;
        }
        assert(address@ =~= self.address());
        address
    }
}

/// `Keypair::try_from(&[u8])`. It accepts exactly the 64-byte encodings of a
/// secret key followed by the public key derived from it (ed25519's
/// `from_keypair_bytes` checks that the two halves agree). For those,
/// `Keypair::to_bytes` gives the same 64 bytes back, which is what the key
/// records. Which inputs pass the ed25519 check is named, not spelled out.
#[verifier::external_body]
pub(crate) fn keypair_try_from(bytes: &[u8]) -> (r: Option<SigningKey>)
    ensures
        r is Some <==> valid_keypair_bytes(bytes@),
        r is Some ==> bytes@.len() == 64,
        r matches Some(k) ==> k.bytes() == bytes@,
{
    match Keypair::try_from(bytes) {
        Ok(keypair) => {
            let encoded = keypair.to_bytes();
            Some(SigningKey { keypair, encoded })
        },
        Err(_) => None,
    }
}

/// `Keypair::new`: a keypair from a fresh random secret, recorded with the
/// encoding `Keypair::to_bytes` gives, whose public half is derived from the
/// secret half, so that `Keypair::try_from` accepts it.
#[verifier::external_body]
pub(crate) fn keypair_new() -> (r: SigningKey)
    ensures
        valid_keypair_bytes(r.bytes()),
        r.bytes().len() == 64,
{
    let keypair = Keypair::new();
    let encoded = keypair.to_bytes();
    SigningKey { keypair, encoded }
}

// ---------------------------------------------------------------------------
// Transactions
// ---------------------------------------------------------------------------

/// An instruction as a transaction carries it.
pub struct InstructionView {
    pub program_id: [u8; 32],
    pub accounts: Seq<AccountRef>,
    pub data: Seq<u8>,
}

/// The view of an instruction model.
pub open spec fn instruction_view(m: InstructionModel) -> InstructionView {
    InstructionView { program_id: m.program_id, accounts: m.accounts@, data: m.data@ }
}

/// A one-instruction transaction: its instruction, fee payer and blockhash,
/// and the encodings of the keys that signed it, in the order they were
/// given.
pub struct TxView {
    pub instruction: InstructionView,
    pub payer: [u8; 32],
    pub blockhash: [u8; 32],
    pub signers: Seq<Seq<u8>>,
}

/// A compiled message with one instruction.
pub struct TxMessage {
    message: Message,
    view: Ghost<TxView>,
}

impl TxMessage {
    /// What the message holds.
    pub closed spec fn view(&self) -> TxView {
        self.view@
    }
}

/// A transaction.
pub struct Tx {
    tx: Transaction,
    view: Ghost<TxView>,
}

impl Tx {
    /// What the transaction holds, and who signed it.
    pub closed spec fn view(&self) -> TxView {
        self.view@
    }
}

/// `Message::new_with_blockhash` for one instruction, paid by `payer`. It
/// compiles the instruction's keys, with the payer and the program, into
/// `u8` indexes and panics where they do not fit; with at most 253 accounts
/// they always do.
#[verifier::external_body]
pub(crate) fn message_with_blockhash(
    instruction: &InstructionModel,
    payer: [u8; 32],
    blockhash: [u8; 32],
) -> (r: TxMessage)
    requires
        instruction.accounts@.len() <= 253,
    ensures
        r.view() == (TxView { instruction: instruction_view(*instruction), payer, blockhash, signers: seq![] }),
{
    let accounts = instruction.accounts.iter().map(|a| AccountMeta {
        pubkey: Pubkey::new_from_array(a.address),
        is_signer: a.is_signer,
        is_writable: a.is_writable,
    }).collect();
    let ix = Instruction { program_id: Pubkey::new_from_array(instruction.program_id), accounts, data: instruction.data.clone() };
    let message = Message::new_with_blockhash(&[ix], Some(&Pubkey::new_from_array(payer)), &solana_message::Hash::new_from_array(blockhash));
    TxMessage { message, view: Ghost(TxView { instruction: instruction_view(*instruction), payer, blockhash, signers: seq![] }) }
}

/// `Transaction::new_unsigned`.
#[verifier::external_body]
pub(crate) fn transaction_unsigned(message: TxMessage) -> (r: Tx)
    ensures
        r.view() == message.view(),
{
    Tx { tx: Transaction::new_unsigned(message.message), view: message.view }
}

/// `Transaction::try_sign` with two keys at `blockhash`, which becomes the
/// message's blockhash. A signing failure (a key the message does not ask
/// for, or a missing signer) is returned as its display text instead of
/// panicking; after one, nothing is said of the transaction.
#[verifier::external_body]
pub(crate) fn transaction_sign(
    tx: &mut Tx,
    first: &SigningKey,
    second: &SigningKey,
    blockhash: [u8; 32],
) -> (r: Result<(), String>)
    ensures
        r is Ok ==> final(tx).view() == (TxView {
            blockhash,
            signers: seq![first.bytes(), second.bytes()],
            ..old(tx).view()
        }),
{
    match tx.tx.try_sign(&[&first.keypair, &second.keypair], solana_message::Hash::new_from_array(blockhash)) {
        Ok(()) => Ok(()),
        Err(e) => Err(e.to_string()),
    }
}

/// `system_instruction::create_account`: the system program instruction that
/// creates `to` with `lamports` and `space` bytes of data owned by `owner`,
/// paid by `from`; both are writable signers, and the data is the bincode of
/// `SystemInstruction::CreateAccount`.
#[verifier::external_body]
pub(crate) fn system_create_account(model: &CreateAccountModel) -> (r: InstructionModel)
    ensures
        create_account_instruction_is(r, *model),
{
    let ix = solana_system_interface::instruction::create_account(
        &Pubkey::new_from_array(model.from),
        &Pubkey::new_from_array(model.to),
        model.lamports,
        model.space,
        &Pubkey::new_from_array(model.owner),
    );
    let accounts = ix.accounts.iter().map(|a| AccountRef {
        address: a.pubkey.to_bytes(),
        is_signer: a.is_signer,
        is_writable: a.is_writable,
    }).collect();
    InstructionModel { program_id: ix.program_id.to_bytes(), accounts, data: ix.data }
}

// ---------------------------------------------------------------------------
// The VM and its record of calls
// ---------------------------------------------------------------------------

/// One call into the VM.
pub enum VmEvent {
    /// `bytes` were deployed as the program at `program_id`; `loaded` tells
    /// whether the VM took them.
    ProgramAdded { program_id: [u8; 32], bytes: Seq<u8>, loaded: bool },
    /// `lamports` were airdropped to `address`; `credited` tells whether the
    /// airdrop went through.
    Airdrop { address: [u8; 32], lamports: u64, credited: bool },
    /// The rent-exempt minimum for `data_len` bytes was read: `lamports`.
    RentRead { data_len: usize, lamports: u64 },
    /// The latest blockhash was read: `hash`.
    BlockhashRead { hash: [u8; 32] },
    /// The transaction `tx` was sent, and the VM answered `result`.
    Sent { tx: TxView, result: Result<TxReceipt, TxRejection> },
    /// The data of the account at `address` was read: `None` where there is
    /// no such account.
    AccountRead { address: [u8; 32], data: Option<Seq<u8>> },
}

/// The data of an account, as a sequence.
pub open spec fn data_view(data: Option<Vec<u8>>) -> Option<Seq<u8>> {
    match data {
        Some(d) => Some(d@),
        None => None,
    }
}

/// An in-process Solana VM with the record of the calls made into it.
pub struct Vm {
    svm: litesvm::LiteSVM,
    log: Ghost<Seq<VmEvent>>,
}

/// `LiteSVM::new`: a fresh VM with the default builtins and sysvars.
#[verifier::external_body]
fn svm_new() -> (r: litesvm::LiteSVM) {
    litesvm::LiteSVM::new()
}

impl Vm {
    /// The calls made into this VM so far, oldest first.
    pub closed spec fn events(&self) -> Seq<VmEvent> {
        self.log@
    }

    /// A fresh VM, into which no call has been made.
    pub fn new() -> (r: Vm)
        ensures
            r.events() == Seq::<VmEvent>::empty(),
    {
        Vm { svm: svm_new(), log: Ghost(Seq::empty()) }
    }

    /// `LiteSVM::add_program`: deploys `bytes` as the program at
    /// `program_id`. The error, if any, is returned as its display text.
    #[verifier::external_body]
    pub(crate) fn add_program(&mut self, program_id: [u8; 32], bytes: &[u8]) -> (r: Result<(), String>)
        ensures
            final(self).events() == old(self).events().push(
                VmEvent::ProgramAdded { program_id, bytes: bytes@, loaded: r is Ok },
            ),
    {
        match self.svm.add_program(Pubkey::new_from_array(program_id), bytes) {
            Ok(()) => Ok(()),
            Err(e) => Err(e.to_string()),
        }
    }

    /// `LiteSVM::airdrop`: credits `lamports` to `address`. A failure is
    /// returned as the debug text of the failed transaction.
    #[verifier::external_body]
    pub(crate) fn airdrop(&mut self, address: [u8; 32], lamports: u64) -> (r: Result<(), String>)
        ensures
            final(self).events() == old(self).events().push(
                VmEvent::Airdrop { address, lamports, credited: r is Ok },
            ),
    {
        match self.svm.airdrop(&Pubkey::new_from_array(address), lamports) {
            Ok(_) => Ok(()),
            Err(e) => Err(format!("{:?}", e)),
        }
    }

    /// `LiteSVM::minimum_balance_for_rent_exemption`: litesvm never returns
    /// less than one lamport.
    #[verifier::external_body]
    pub(crate) fn rent_exempt_minimum(&mut self, data_len: usize) -> (r: u64)
        ensures
            r >= 1,
            final(self).events() == old(self).events().push(VmEvent::RentRead { data_len, lamports: r }),
    {
        self.svm.minimum_balance_for_rent_exemption(data_len)
    }

    /// `LiteSVM::latest_blockhash`, as its 32 bytes.
    #[verifier::external_body]
    pub(crate) fn latest_blockhash(&mut self) -> (r: [u8; 32])
        ensures
            final(self).events() == old(self).events().push(VmEvent::BlockhashRead { hash: r }),
    {
        self.svm.latest_blockhash().to_bytes()
    }

    /// `LiteSVM::send_transaction`. A rejection keeps the logs and compute
    /// units, tells a custom program error apart from every other
    /// `TransactionError` (kept as its debug text), and keeps the debug text
    /// of the whole failure record.
    #[verifier::external_body]
    pub(crate) fn send(&mut self, tx: Tx) -> (r: Result<TxReceipt, TxRejection>)
        ensures
            final(self).events() == old(self).events().push(VmEvent::Sent { tx: tx.view(), result: r }),
    {
        match self.svm.send_transaction(tx.tx) {
            Ok(meta) => Ok(TxReceipt { logs: meta.logs, compute_units_consumed: meta.compute_units_consumed }),
            Err(failed) => Err(TxRejection {
                text: format!("{:?}", failed),
                failure: match failed.err {
                    TransactionError::InstructionError(index, InstructionError::Custom(code)) =>
                        TxFailure::CustomProgramError { index, code },
                    other => TxFailure::Other { description: format!("{:?}", other) },
                },
                receipt: TxReceipt { logs: failed.meta.logs, compute_units_consumed: failed.meta.compute_units_consumed },
            }),
        }
    }

    /// `LiteSVM::get_account`, keeping only the account's data.
    #[verifier::external_body]
    pub(crate) fn account_data(&mut self, address: [u8; 32]) -> (r: Option<Vec<u8>>)
        ensures
            final(self).events() == old(self).events().push(
                VmEvent::AccountRead { address, data: data_view(r) },
            ),
    {
        self.svm.get_account(&Pubkey::new_from_array(address)).map(|account| account.data)
    }
}

} // verus!
