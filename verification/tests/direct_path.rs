use confidential_workflow::direct::{direct_step, with_split_proofs, DirectProgress};
use confidential_workflow::error::WorkflowError;
use confidential_workflow::ledger::{Anchor, Identity};
use confidential_workflow::proof_account::{ProofKind, ProofPayload};
use confidential_workflow::sequencer::{
    Reserves, ScratchAccounts, TransferProofs, TransferRequest, ValidityProofPayload,
};
use confidential_workflow::store::KvStore;

fn identity(tag: u8) -> Identity {
    Identity::from_bytes(vec![tag; 32]).expect("32 bytes make an identity")
}

fn request() -> TransferRequest {
    TransferRequest {
        amount: 10_000,
        sender: identity(1),
        recipient: identity(2),
        proofs: TransferProofs {
            equality: Some(ProofPayload {
                kind: ProofKind::Equality,
                data: vec![0xE0],
                space: 100,
            }),
            validity: Some(ValidityProofPayload {
                proof: ProofPayload { kind: ProofKind::Validity, data: vec![0xC0], space: 200 },
                ciphertext_lo: vec![0x10],
                ciphertext_hi: vec![0x20],
            }),
            range: Some(ProofPayload { kind: ProofKind::Range, data: vec![0xA0], space: 300 }),
        },
    }
}

fn scratch() -> ScratchAccounts {
    ScratchAccounts {
        equality: identity(0xAA),
        validity: identity(0xBB),
        range: identity(0xCC),
    }
}

fn reserves() -> Reserves {
    Reserves { equality: 1000, validity: 2000, range: 3000 }
}

fn ok(id: &str) -> Result<String, String> {
    Ok(id.to_owned())
}

#[test]
fn all_five_steps_landing_returns_the_execute_id_and_records_it() {
    let outcomes = vec![ok("tx1"), ok("tx2"), ok("tx3"), ok("tx4"), ok("tx5")];
    let mut store = KvStore::new();
    let r = with_split_proofs(
        &request(),
        &scratch(),
        &reserves(),
        Anchor { slot: 9 },
        &outcomes,
        &mut store,
    );
    assert_eq!(r.expect("all steps landed"), "tx4");
    let recorded = store.load_value(&"last_confidential_transfer_signature".to_owned());
    assert_eq!(recorded, Some("tx4".to_owned()));
}

#[test]
fn failure_at_step_two_names_the_step_and_records_nothing() {
    let outcomes = vec![
        ok("tx1"),
        Err("transaction too large".to_owned()),
        ok("tx3"),
        ok("tx4"),
        ok("tx5"),
    ];
    let mut store = KvStore::new();
    let r = with_split_proofs(
        &request(),
        &scratch(),
        &reserves(),
        Anchor { slot: 9 },
        &outcomes,
        &mut store,
    );
    match r {
        Err(WorkflowError::StepSubmissionFailed(step, cause)) => {
            assert_eq!(step, 2);
            assert_eq!(cause, "transaction too large");
        }
        other => panic!("expected StepSubmissionFailed, got {:?}", other),
    }
    let recorded = store.load_value(&"last_confidential_transfer_signature".to_owned());
    assert!(recorded.is_none());
}

#[test]
fn absent_proofs_fail_before_any_submission() {
    let mut req = request();
    req.proofs.equality = None;
    let outcomes = vec![ok("tx1"), ok("tx2"), ok("tx3"), ok("tx4"), ok("tx5")];
    let mut store = KvStore::new();
    let r = with_split_proofs(
        &req,
        &scratch(),
        &reserves(),
        Anchor { slot: 9 },
        &outcomes,
        &mut store,
    );
    assert!(matches!(r, Err(WorkflowError::ProofUnavailable)));
    assert!(store
        .load_value(&"last_confidential_transfer_signature".to_owned())
        .is_none());
}

#[test]
fn a_failed_step_stops_the_run_immediately() {
    // drive the incremental interface by hand: after the failure there is
    // nothing left to submit — the run is over at that very answer
    let mut progress = DirectProgress::new();
    let mut store = KvStore::new();

    let first = direct_step(&mut progress, ok("tx1"), &mut store);
    assert!(first.is_none());

    let second = direct_step(&mut progress, Err("rejected".to_owned()), &mut store);
    match second {
        Some(Err(WorkflowError::StepSubmissionFailed(step, cause))) => {
            assert_eq!(step, 2);
            assert_eq!(cause, "rejected");
        }
        _ => panic!("the second answer must end the run"),
    }
}

#[test]
fn the_fifth_success_ends_the_run_with_the_fourth_id() {
    let mut progress = DirectProgress::new();
    let mut store = KvStore::new();
    for id in ["a", "b", "c", "d"] {
        assert!(direct_step(&mut progress, ok(id), &mut store).is_none());
    }
    let last = direct_step(&mut progress, ok("e"), &mut store);
    match last {
        Some(Ok(sig)) => assert_eq!(sig, "d"),
        _ => panic!("the fifth answer must end the run"),
    }
    let recorded = store.load_value(&"last_confidential_transfer_signature".to_owned());
    assert_eq!(recorded, Some("d".to_owned()));
}

#[test]
fn store_keeps_the_newest_binding() {
    let mut store = KvStore::new();
    store.record_value("k".to_owned(), "v1".to_owned());
    store.record_value("k".to_owned(), "v2".to_owned());
    store.record_value("other".to_owned(), "x".to_owned());
    assert_eq!(store.load_value(&"k".to_owned()), Some("v2".to_owned()));
    assert_eq!(store.load_value(&"other".to_owned()), Some("x".to_owned()));
    assert_eq!(store.load_value(&"missing".to_owned()), None);
}
