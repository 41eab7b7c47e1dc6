use confidential_workflow::bundle::{
    add_relay_incentive, assemble_bundle, create_jito_tip_instruction, relay_supported_target,
    run_bundle_attempt, with_split_proofs_atomic, BundleAttemptInput, TIP_TRANSFER_TAG,
};
use confidential_workflow::error::{PollPhase, WorkflowError};
use confidential_workflow::frame::{encode_bundle_entry, frame_transaction, serialize_bundle};
use confidential_workflow::ledger::{Anchor, Identity, LedgerTransaction};
use confidential_workflow::proof_account::{ProofKind, ProofPayload};
use confidential_workflow::sequencer::{
    prepare_transactions, Reserves, ScratchAccounts, TransferProofs, TransferRequest,
    ValidityProofPayload,
};
use confidential_workflow::status::{FinalReport, MAX_RETRIES};
use confidential_workflow::store::KvStore;

fn identity(tag: u8) -> Identity {
    Identity::from_bytes(vec![tag; 32]).expect("32 bytes make an identity")
}

fn request() -> TransferRequest {
    TransferRequest {
        amount: 10_000,
        sender: identity(1),
        recipient: identity(2),
        proofs: TransferProofs {
            equality: Some(ProofPayload {
                kind: ProofKind::Equality,
                data: vec![0xE0],
                space: 100,
            }),
            validity: Some(ValidityProofPayload {
                proof: ProofPayload { kind: ProofKind::Validity, data: vec![0xC0], space: 200 },
                ciphertext_lo: vec![0x10],
                ciphertext_hi: vec![0x20],
            }),
            range: Some(ProofPayload { kind: ProofKind::Range, data: vec![0xA0], space: 300 }),
        },
    }
}

fn scratch(tag: u8) -> ScratchAccounts {
    ScratchAccounts {
        equality: identity(tag),
        validity: identity(tag.wrapping_add(1)),
        range: identity(tag.wrapping_add(2)),
    }
}

fn final_report(
    confirmation_status: Option<&str>,
    err: Option<&str>,
    transactions: Option<Vec<&str>>,
) -> FinalReport {
    FinalReport {
        confirmation_status: confirmation_status.map(|s| s.to_owned()),
        err: err.map(|s| s.to_owned()),
        transactions: transactions.map(|ids| ids.into_iter().map(|s| s.to_owned()).collect()),
    }
}

fn attempt(scratch_tag: u8, succeeds: bool) -> BundleAttemptInput {
    let (inflight, finals) = if succeeds {
        (
            vec![Some("Pending".to_owned()), Some("Landed".to_owned())],
            vec![Some(final_report(
                Some("finalized"),
                None,
                Some(vec!["s1", "s2", "s3", "s4", "s5"]),
            ))],
        )
    } else {
        // the relay never answers with a terminal status: the attempt
        // times out in the in-flight phase
        (
            (0..MAX_RETRIES).map(|_| Some("Pending".to_owned())).collect(),
            Vec::new(),
        )
    };
    BundleAttemptInput {
        scratch: scratch(scratch_tag),
        reserves: Reserves { equality: 1000, validity: 2000, range: 3000 },
        anchor: Anchor { slot: u64::from(scratch_tag) },
        tip_account: identity(0xF0),
        tip_lamports: 50_000,
        submit_result: Ok("bundle-id".to_owned()),
        inflight_reports: inflight,
        final_reports: finals,
    }
}

#[test]
fn tip_instruction_pays_the_relay_account() {
    let ix = create_jito_tip_instruction(&identity(1), &identity(0xF0), 77);
    assert_eq!(ix.program.bytes, vec![0u8; 32]);
    assert_eq!(ix.accounts.len(), 2);
    assert_eq!(ix.accounts[0].bytes, vec![1u8; 32]);
    assert_eq!(ix.accounts[1].bytes, vec![0xF0; 32]);
    let mut expected = vec![TIP_TRANSFER_TAG];
    expected.extend_from_slice(&77u64.to_le_bytes());
    assert_eq!(ix.payload, expected);
}

#[test]
fn only_test_and_main_networks_support_the_relay() {
    assert!(relay_supported_target("https://api.testnet.example.com"));
    assert!(relay_supported_target("https://api.mainnet-beta.example.com"));
    assert!(!relay_supported_target("http://localhost:8899"));
    assert!(!relay_supported_target("https://api.devnet.example.com"));
}

#[test]
fn the_incentive_goes_into_step_three_which_is_resigned() {
    let req = request();
    let mut plan = prepare_transactions(
        &req,
        &scratch(0xAA),
        &Reserves { equality: 1000, validity: 2000, range: 3000 },
        Anchor { slot: 5 },
    )
    .expect("all proofs are present");
    let before: Vec<usize> = plan.transactions.iter().map(|tx| tx.instructions.len()).collect();

    let tip = create_jito_tip_instruction(&req.sender, &identity(0xF0), 42);
    add_relay_incentive(&mut plan, tip, Anchor { slot: 6 });

    let after: Vec<usize> = plan.transactions.iter().map(|tx| tx.instructions.len()).collect();
    assert_eq!(after[2], before[2] + 1);
    for i in [0usize, 1, 3, 4] {
        assert_eq!(after[i], before[i]);
        assert_eq!(plan.transactions[i].anchor, Anchor { slot: 5 });
    }
    assert!(plan.transactions[2].signed);
    assert_eq!(plan.transactions[2].anchor, Anchor { slot: 6 });
    let appended = plan.transactions[2].instructions.last().expect("appended");
    assert_eq!(appended.accounts[1].bytes, vec![0xF0; 32]);
}

#[test]
fn framing_is_the_documented_layout_and_base58_is_real() {
    // a minimal transaction: no signers, no instructions
    let tx = LedgerTransaction::new_signed(
        Vec::new(),
        identity(3),
        Vec::new(),
        Anchor { slot: 0x0102030405060708 },
    );
    let mut expected = vec![3u8; 32];
    expected.extend_from_slice(&0x0102030405060708u64.to_le_bytes());
    expected.extend_from_slice(&0u64.to_le_bytes());
    expected.extend_from_slice(&0u64.to_le_bytes());
    assert_eq!(frame_transaction(&tx), expected);

    // the bundle entry is the base58 text of exactly those bytes — not
    // the bytes themselves, and not empty
    let entry = encode_bundle_entry(&tx);
    assert_eq!(entry, bs58::encode(&expected).into_string());
    assert_ne!(entry.as_bytes(), expected.as_slice());
}

#[test]
fn a_bundle_has_one_entry_per_transaction() {
    let req = request();
    let plan = prepare_transactions(
        &req,
        &scratch(0xAA),
        &Reserves { equality: 1000, validity: 2000, range: 3000 },
        Anchor { slot: 5 },
    )
    .expect("all proofs are present");
    let entries = serialize_bundle(&plan);
    assert_eq!(entries.len(), 5);
    for (i, tx) in plan.transactions.iter().enumerate() {
        assert_eq!(entries[i], bs58::encode(&frame_transaction(tx)).into_string());
    }
}

#[test]
fn the_assembled_bundle_serializes_the_tipped_plan() {
    let req = request();
    let (plan, entries) = assemble_bundle(
        &req,
        &scratch(0xAA),
        &Reserves { equality: 1000, validity: 2000, range: 3000 },
        Anchor { slot: 5 },
        &identity(0xF0),
        42,
    )
    .expect("all proofs are present");
    // five entries, each the base58 text of the framed transaction
    assert_eq!(entries.len(), 5);
    for (i, tx) in plan.transactions.iter().enumerate() {
        assert_eq!(entries[i], bs58::encode(&frame_transaction(tx)).into_string());
    }
    // the plan is the sequencer's, with the incentive appended to step 3
    assert_eq!(plan.transactions[2].instructions.len(), 3);
    let tip = plan.transactions[2].instructions.last().expect("tip present");
    assert_eq!(tip.accounts[1].bytes, vec![0xF0; 32]);
    // a missing proof builds nothing
    let mut req = request();
    req.proofs.range = None;
    let r = assemble_bundle(
        &req,
        &scratch(0xAA),
        &Reserves { equality: 1000, validity: 2000, range: 3000 },
        Anchor { slot: 5 },
        &identity(0xF0),
        42,
    );
    assert!(matches!(r, Err(WorkflowError::ProofUnavailable)));
}

#[test]
fn an_unsupported_target_is_rejected_before_anything_runs() {
    let mut store = KvStore::new();
    let mut last_bundle = Vec::new();
    let attempts = vec![attempt(0xAA, true)];
    let r = with_split_proofs_atomic(
        &request(),
        "http://localhost:8899",
        &attempts,
        &mut store,
        &mut last_bundle,
    );
    assert!(last_bundle.is_empty());
    assert!(matches!(r, Err(WorkflowError::BundleRejected(_))));
    assert!(store
        .load_value(&"last_confidential_transfer_signature".to_owned())
        .is_none());
}

#[test]
fn a_relay_refusal_surfaces_as_rejected() {
    let mut store = KvStore::new();
    let mut input = attempt(0xAA, true);
    input.submit_result = Err("malformed request".to_owned());
    let mut submitted = Vec::new();
    let r = run_bundle_attempt(&request(), &input, &mut store, &mut submitted);
    // the bundle was assembled and would have been handed over even
    // though the relay refused it
    assert_eq!(submitted.len(), 5);
    match r {
        Err(WorkflowError::BundleRejected(reason)) => assert_eq!(reason, "malformed request"),
        other => panic!("expected BundleRejected, got {:?}", other),
    }
}

#[test]
fn two_timeouts_then_success_returns_the_ids_and_records_step_four() {
    // three attempts, each with fresh scratch identities; the first two
    // time out, the third lands and finalizes
    let attempts = vec![attempt(0x10, false), attempt(0x20, false), attempt(0x30, true)];
    let mut store = KvStore::new();
    let mut last_bundle = Vec::new();
    let r = with_split_proofs_atomic(
        &request(),
        "https://api.testnet.example.com",
        &attempts,
        &mut store,
        &mut last_bundle,
    );
    // the deciding (third) attempt's bundle is what was submitted
    let (_, expected) = assemble_bundle(
        &request(),
        &attempts[2].scratch,
        &attempts[2].reserves,
        attempts[2].anchor,
        &attempts[2].tip_account,
        attempts[2].tip_lamports,
    )
    .expect("all proofs are present");
    assert_eq!(last_bundle, expected);
    let ids = r.expect("the third attempt succeeds");
    assert_eq!(ids, vec!["s1", "s2", "s3", "s4", "s5"]);
    let recorded = store.load_value(&"last_confidential_transfer_signature".to_owned());
    assert_eq!(recorded, Some("s4".to_owned()));
}

#[test]
fn exhausting_every_attempt_wraps_the_last_failure() {
    let attempts = vec![attempt(0x10, false), attempt(0x20, false)];
    let mut store = KvStore::new();
    let mut last_bundle = Vec::new();
    let r = with_split_proofs_atomic(
        &request(),
        "https://api.testnet.example.com",
        &attempts,
        &mut store,
        &mut last_bundle,
    );
    match r {
        Err(WorkflowError::RetryExhausted(last)) => {
            assert!(matches!(
                *last,
                WorkflowError::BundleTimedOut(PollPhase::InFlight)
            ));
        }
        other => panic!("expected RetryExhausted, got {:?}", other),
    }
    assert!(store
        .load_value(&"last_confidential_transfer_signature".to_owned())
        .is_none());
}
