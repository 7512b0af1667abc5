use preflight::comparator::compute_units_fit;
use preflight::error::Error;
use preflight::fixture::{CounterInstructionSpec, Fixture, KeypairBytes, SignerRole};
use preflight::program_abi::{describe_custom_error, Counter, CounterInstruction};
use preflight::programs::program_artifact_name;
use preflight::replay::{
    counter_account_creation, counter_instruction, counter_transaction, describe_transaction_error,
    generate_fixture, keypair_from_bytes, program_id, replay_and_compare, replay_and_compare_in, replay_bytes, replay_in,
    replay_keys, snapshot_from_data, to_execution_result, AccountRef, TxFailure, TxOutcome, TxReceipt,
    AIRDROP_LAMPORTS,
};
use preflight::report::TxOutcomeCategory;
use preflight::svm::Vm;
use preflight::text::{push_signed, push_u64};

#[test]
fn example_transactions_are_the_nine_demo_steps() {
    let txs = Fixture::example_transactions();
    let labels: Vec<&str> = txs.iter().map(|t| t.label.as_str()).collect();
    assert_eq!(
        labels,
        vec![
            "initialize",
            "increment_50",
            "increment_20",
            "decrement_30",
            "decrement_past_zero",
            "increment_past_cap",
            "set_value_over_cap",
            "set_value_wrong_authority",
            "increment_10_final",
        ]
    );
    assert!(matches!(txs[0].instruction, CounterInstructionSpec::Initialize { start_value: 10 }));
    assert!(matches!(txs[4].instruction, CounterInstructionSpec::Decrement { amount: 1000 }));
    assert_eq!(txs[7].signer, SignerRole::Rogue);
    assert!(txs.iter().filter(|t| t.signer == SignerRole::Rogue).count() == 1);
}

#[test]
fn instructions_encode_as_tag_then_little_endian_field() {
    let spec = CounterInstructionSpec::SetValue { value: 0x0102_0304_0506_0708 };
    let data = CounterInstruction::from(&spec).encode();
    assert_eq!(data, vec![3, 8, 7, 6, 5, 4, 3, 2, 1]);
    let data = CounterInstruction::Initialize { start_value: 10 }.encode();
    assert_eq!(data, vec![0, 10, 0, 0, 0, 0, 0, 0, 0]);
    assert_eq!(CounterInstruction::Increment { amount: 1 }.encode()[0], 1);
    assert_eq!(CounterInstruction::Decrement { amount: 1 }.encode()[0], 2);
}

#[test]
fn counter_state_decodes_only_exact_layout() {
    let mut data = vec![1u8];
    data.extend_from_slice(&[9u8; 32]);
    data.extend_from_slice(&50u64.to_le_bytes());
    let counter = Counter::decode(&data).unwrap();
    assert!(counter.is_initialized);
    assert_eq!(counter.authority, [9u8; 32]);
    assert_eq!(counter.value, 50);

    let mut bad_flag = data.clone();
    bad_flag[0] = 2;
    assert!(Counter::decode(&bad_flag).is_none());
    assert!(Counter::decode(&data[..40]).is_none());
    let mut longer = data.clone();
    longer.push(0);
    assert!(Counter::decode(&longer).is_none());
    assert_eq!(Counter::LEN, 41);
}

#[test]
fn snapshot_writes_the_authority_in_base58() {
    let mut data = vec![0u8];
    data.extend_from_slice(&[0u8; 32]);
    data.extend_from_slice(&7u64.to_le_bytes());
    let snapshot = snapshot_from_data(Some(data)).unwrap();
    assert!(!snapshot.is_initialized);
    assert_eq!(snapshot.authority, "11111111111111111111111111111111");
    assert_eq!(snapshot.value, 7);
    assert!(snapshot_from_data(None).is_none());
    assert!(snapshot_from_data(Some(vec![0u8; 3])).is_none());
}

#[test]
fn custom_errors_are_named() {
    assert_eq!(describe_custom_error(0), Some("InvalidAuthority"));
    assert_eq!(describe_custom_error(1), Some("ValueExceedsMax"));
    assert_eq!(describe_custom_error(2), Some("Underflow"));
    assert_eq!(describe_custom_error(3), None);
}

#[test]
fn transaction_errors_are_described() {
    let known = TxFailure::CustomProgramError { index: 0, code: 2 };
    assert_eq!(
        describe_transaction_error(&known),
        "instruction 0 failed: custom program error 2 (Underflow)"
    );
    let unknown = TxFailure::CustomProgramError { index: 3, code: 77 };
    assert_eq!(describe_transaction_error(&unknown), "instruction 3 failed: custom program error 77");
    let other = TxFailure::Other { description: "AccountNotFound".to_string() };
    assert_eq!(describe_transaction_error(&other), "AccountNotFound");
}

#[test]
fn execution_results_follow_the_outcome() {
    let spec = &Fixture::example_transactions()[1];
    let ok = to_execution_result(
        spec,
        TxOutcome::Succeeded { receipt: TxReceipt { logs: vec!["log".to_string()], compute_units_consumed: 42 } },
        None,
    );
    assert!(ok.success);
    assert_eq!(ok.error, None);
    assert_eq!(ok.label, "increment_50");
    assert_eq!(ok.logs, vec!["log".to_string()]);
    assert_eq!(ok.compute_units_consumed, 42);

    let failed = to_execution_result(
        spec,
        TxOutcome::Failed {
            failure: TxFailure::CustomProgramError { index: 0, code: 1 },
            receipt: TxReceipt { logs: vec![], compute_units_consumed: 7 },
        },
        None,
    );
    assert!(!failed.success);
    assert_eq!(
        failed.error.as_deref(),
        Some("instruction 0 failed: custom program error 1 (ValueExceedsMax)")
    );
}

#[test]
fn keypair_bytes_of_the_wrong_length_are_rejected() {
    match keypair_from_bytes("payer", &KeypairBytes(vec![1, 2, 3])) {
        Err(Error::InvalidKeypair { label }) => assert_eq!(label, "payer"),
        _ => panic!("expected an invalid keypair"),
    }
    let mismatched = KeypairBytes(vec![5u8; 64]);
    assert!(keypair_from_bytes("rogue", &mismatched).is_err());
}

#[test]
fn generated_fixtures_hold_fresh_valid_keypairs() {
    let fixture = generate_fixture();
    for bytes in [&fixture.payer, &fixture.authority, &fixture.rogue, &fixture.counter_account] {
        assert_eq!(bytes.0.len(), 64);
        assert!(keypair_from_bytes("key", bytes).is_ok());
    }
    assert_ne!(fixture.payer.0, fixture.authority.0);
    assert_eq!(fixture.transactions.len(), 9);
}

#[test]
fn program_id_is_fixed() {
    assert_eq!(program_id(), [7u8; 32]);
}

#[test]
fn artifact_names_use_the_crate_name() {
    assert_eq!(program_artifact_name("counter-old"), "counter_old.so");
    assert_eq!(program_artifact_name("counter-new"), "counter_new.so");
    assert_eq!(program_artifact_name("plain"), "plain.so");
}

#[test]
fn decimal_rendering() {
    let mut s = String::new();
    push_u64(&mut s, 0);
    push_u64(&mut s, 20);
    push_u64(&mut s, u64::MAX);
    assert_eq!(s, "02018446744073709551615");
    let mut t = String::new();
    push_signed(&mut t, 0);
    push_signed(&mut t, -7);
    push_signed(&mut t, i64::MIN);
    push_signed(&mut t, i64::MAX);
    assert_eq!(t, "+0-7-9223372036854775808+9223372036854775807");
}

/// An SBF program that loads and runs: the memo program that litesvm deploys
/// by default, read back from a fresh VM.
fn memo_program() -> Vec<u8> {
    let svm = litesvm::LiteSVM::new();
    let id = solana_pubkey::Pubkey::from_str_const("MemoSq4gqABAXKb96qnH8TysNcWxMyWCqXgDLGmfcHr");
    svm.get_account(&id).expect("memo program is deployed by default").data
}

#[test]
fn unloadable_program_is_a_program_load_error() {
    let fixture = generate_fixture();
    match replay_bytes(&[0u8; 16], "garbage.so".to_string(), &fixture, |_, _| {}) {
        Err(Error::ProgramLoad { path, .. }) => assert_eq!(path, "garbage.so"),
        other => panic!("unexpected result: {:?}", other.map(|r| r.len())),
    }
}

#[test]
fn invalid_keypair_stops_the_replay() {
    let mut fixture = generate_fixture();
    fixture.rogue = KeypairBytes(vec![0u8; 10]);
    match replay_bytes(&memo_program(), "memo.so".to_string(), &fixture, |_, _| {}) {
        Err(Error::InvalidKeypair { label }) => assert_eq!(label, "rogue"),
        other => panic!("unexpected result: {:?}", other.map(|r| r.len())),
    }
}

#[test]
fn replay_reports_every_transaction_in_order() {
    let fixture = generate_fixture();
    let steps = std::cell::Cell::new(0usize);
    let results = replay_bytes(&memo_program(), "memo.so".to_string(), &fixture, |spec, result| {
        assert_eq!(spec.label, result.label);
        steps.set(steps.get() + 1);
    })
    .unwrap();
    assert_eq!(steps.get(), 9);
    assert_eq!(results.len(), 9);
    for (spec, result) in fixture.transactions.iter().zip(&results) {
        assert_eq!(spec.label, result.label);
        assert_eq!(result.success, result.error.is_none());
        let state = result.counter_state.as_ref().expect("the counter account exists");
        assert_eq!(state.value, 0);
        assert!(!state.is_initialized);
    }
    assert!(compute_units_fit(&fixture.transactions, &results, &results));
}

#[test]
fn the_same_build_against_itself_is_unchanged() {
    let program = memo_program();
    let report = replay_and_compare(&program, "a.so".to_string(), &program, "b.so".to_string()).unwrap();
    assert_eq!(report.old_program, "a.so");
    assert_eq!(report.new_program, "b.so");
    assert_eq!(report.summary.total, 9);
    assert_eq!(report.summary.unchanged, 9);
    assert_eq!(report.summary.safety_score, 100);
    assert!(report.comparisons.iter().all(|c| c.category == TxOutcomeCategory::Unchanged));
}

#[test]
fn counter_instructions_name_the_counter_then_the_signer() {
    let spec = CounterInstructionSpec::Decrement { amount: 30 };
    let model = counter_instruction([7u8; 32], [1u8; 32], [2u8; 32], &spec);
    assert_eq!(model.program_id, [7u8; 32]);
    assert_eq!(
        model.accounts,
        vec![
            AccountRef { address: [1u8; 32], is_signer: false, is_writable: true },
            AccountRef { address: [2u8; 32], is_signer: true, is_writable: false },
        ]
    );
    assert_eq!(model.data, vec![2, 30, 0, 0, 0, 0, 0, 0, 0]);
}

#[test]
fn counter_account_is_created_for_the_program() {
    let creation = counter_account_creation([1u8; 32], [2u8; 32], 890, [7u8; 32]);
    assert_eq!(creation.from, [1u8; 32]);
    assert_eq!(creation.to, [2u8; 32]);
    assert_eq!(creation.lamports, 890);
    assert_eq!(creation.space, 41);
    assert_eq!(creation.owner, [7u8; 32]);
    assert_eq!(AIRDROP_LAMPORTS, 10_000_000_000);
}

#[test]
fn fixture_keys_are_addressed_by_their_public_half() {
    let fixture = generate_fixture();
    let key = keypair_from_bytes("payer", &fixture.payer).unwrap();
    assert_eq!(&key.address_bytes()[..], &fixture.payer.0[32..64]);
}

#[test]
fn a_parsed_keypair_gives_back_its_bytes() {
    let fixture = generate_fixture();
    for bytes in [&fixture.payer, &fixture.authority, &fixture.rogue, &fixture.counter_account] {
        let key = keypair_from_bytes("key", bytes).unwrap();
        assert_eq!(key.to_bytes().to_vec(), bytes.0);
    }
}

#[test]
fn the_first_invalid_key_is_reported() {
    let mut fixture = generate_fixture();
    fixture.authority = KeypairBytes(vec![1u8; 64]);
    fixture.counter_account = KeypairBytes(vec![]);
    match replay_keys(&fixture) {
        Err(Error::InvalidKeypair { label }) => assert_eq!(label, "authority"),
        _ => panic!("expected an invalid keypair"),
    }
}

#[test]
fn each_role_signs_with_its_own_key() {
    let fixture = generate_fixture();
    let keys = replay_keys(&fixture).unwrap();
    let txs = Fixture::example_transactions();
    let plan = counter_transaction(&keys, program_id(), &txs[7]);
    assert_eq!(&plan.signer.address_bytes()[..], &fixture.rogue.0[32..64]);
    assert_eq!(&plan.payer.address_bytes()[..], &fixture.payer.0[32..64]);
    assert_eq!(plan.instruction.accounts[0].address, keys.counter.address_bytes());
    assert_eq!(plan.instruction.accounts[1].address, keys.rogue.address_bytes());
    let plan = counter_transaction(&keys, program_id(), &txs[0]);
    assert_eq!(plan.instruction.accounts[1].address, keys.authority.address_bytes());
    assert_eq!(plan.instruction.data, vec![0, 10, 0, 0, 0, 0, 0, 0, 0]);
}

#[test]
fn a_replay_runs_in_a_vm_it_is_given() {
    let fixture = generate_fixture();
    let mut vm = Vm::new();
    let results = replay_in(&mut vm, &memo_program(), "memo.so".to_string(), &fixture, |_, _| {}).unwrap();
    assert_eq!(results.len(), 9);
    let state = results[0].counter_state.as_ref().expect("the counter account was created");
    assert_eq!(state.value, 0);
}

#[test]
fn a_failed_replay_names_the_build_it_failed_against() {
    let program = memo_program();
    match replay_and_compare(&program, "a.so".to_string(), &[0u8; 16], "b.so".to_string()) {
        Err(Error::ReplayFailed { program, cause }) => {
            assert_eq!(program, "b.so");
            match *cause {
                Error::ProgramLoad { path, .. } => assert_eq!(path, "b.so"),
                other => panic!("unexpected cause: {:?}", other),
            }
        },
        other => panic!("unexpected result: {:?}", other.map(|r| r.summary.total)),
    }
}

#[test]
fn a_comparison_runs_in_the_vms_it_is_given() {
    let program = memo_program();
    let mut old_vm = Vm::new();
    let mut new_vm = Vm::new();
    let report = replay_and_compare_in(&mut old_vm, &program, "a.so".to_string(), &mut new_vm, &program, "b.so".to_string())
        .unwrap();
    assert_eq!(report.summary.total, 9);
    assert_eq!(report.summary.safety_score, 100);
}
