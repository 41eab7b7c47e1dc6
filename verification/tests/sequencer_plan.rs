use confidential_workflow::error::WorkflowError;
use confidential_workflow::ledger::{Anchor, Identity};
use confidential_workflow::proof_account::{ProofKind, ProofPayload, ALLOCATE_TAG, CLOSE_TAG};
use confidential_workflow::sequencer::{
    prepare_transactions, Reserves, ScratchAccounts, TransferProofs, TransferRequest,
    ValidityProofPayload, TRANSFER_TAG,
};

fn identity(tag: u8) -> Identity {
    Identity::from_bytes(vec![tag; 32]).expect("32 bytes make an identity")
}

fn proofs() -> TransferProofs {
    TransferProofs {
        equality: Some(ProofPayload {
            kind: ProofKind::Equality,
            data: vec![0xE0, 0xE1],
            space: 100,
        }),
        validity: Some(ValidityProofPayload {
            proof: ProofPayload { kind: ProofKind::Validity, data: vec![0xC0], space: 200 },
            ciphertext_lo: vec![0x10, 0x11],
            ciphertext_hi: vec![0x20, 0x21],
        }),
        range: Some(ProofPayload {
            kind: ProofKind::Range,
            data: vec![0xA0, 0xA1, 0xA2],
            space: 300,
        }),
    }
}

fn request() -> TransferRequest {
    TransferRequest {
        amount: 10_000,
        sender: identity(1),
        recipient: identity(2),
        proofs: proofs(),
    }
}

fn scratch() -> ScratchAccounts {
    ScratchAccounts {
        equality: identity(0xAA),
        validity: identity(0xBB),
        range: identity(0xCC),
    }
}

fn reserves() -> Reserves {
    Reserves { equality: 1000, validity: 2000, range: 3000 }
}

#[test]
fn plan_has_exactly_five_transactions_in_order() {
    let plan =
        prepare_transactions(&request(), &scratch(), &reserves(), Anchor { slot: 7 })
            .expect("all proofs are present");
    let txs = &plan.transactions;
    assert_eq!(txs.len(), 5);

    // step 1 allocates three accounts, step 2 encodes one proof,
    // step 3 encodes two, step 4 executes, step 5 closes three
    assert_eq!(txs[0].instructions.len(), 3);
    assert_eq!(txs[1].instructions.len(), 1);
    assert_eq!(txs[2].instructions.len(), 2);
    assert_eq!(txs[3].instructions.len(), 1);
    assert_eq!(txs[4].instructions.len(), 3);

    // the allocate instructions carry the allocate tag; the encodes the
    // kind tags; the closes the close tag
    assert_eq!(txs[0].instructions[0].payload[0], ALLOCATE_TAG);
    assert_eq!(txs[1].instructions[0].payload[0], 3); // range
    assert_eq!(txs[2].instructions[0].payload[0], 1); // equality
    assert_eq!(txs[2].instructions[1].payload[0], 2); // validity
    assert_eq!(txs[3].instructions[0].payload[0], TRANSFER_TAG);
    assert_eq!(txs[4].instructions[0].payload, vec![CLOSE_TAG]);

    // every transaction is signed against the anchor, fee-paid by the sender
    for tx in txs.iter() {
        assert!(tx.signed);
        assert_eq!(tx.anchor, Anchor { slot: 7 });
        assert_eq!(tx.fee_payer.bytes, vec![1u8; 32]);
    }
}

#[test]
fn execute_references_the_three_allocated_scratch_accounts() {
    let plan =
        prepare_transactions(&request(), &scratch(), &reserves(), Anchor { slot: 7 })
            .expect("all proofs are present");
    let txs = &plan.transactions;

    // the identities allocated in step 1, in instruction order
    let allocated: Vec<&Vec<u8>> =
        txs[0].instructions.iter().map(|ix| &ix.accounts[1].bytes).collect();
    assert_eq!(allocated[0], &vec![0xCC; 32]); // range
    assert_eq!(allocated[1], &vec![0xAA; 32]); // equality
    assert_eq!(allocated[2], &vec![0xBB; 32]); // validity

    // the execute instruction references sender, recipient, and exactly
    // those three identities
    let execute = &txs[3].instructions[0];
    assert_eq!(execute.accounts.len(), 5);
    assert_eq!(execute.accounts[0].bytes, vec![1u8; 32]);
    assert_eq!(execute.accounts[1].bytes, vec![2u8; 32]);
    assert_eq!(execute.accounts[2].bytes, vec![0xAA; 32]);
    assert_eq!(execute.accounts[3].bytes, vec![0xBB; 32]);
    assert_eq!(execute.accounts[4].bytes, vec![0xCC; 32]);
}

#[test]
fn allocate_transaction_is_cosigned_by_the_fresh_identities() {
    let plan =
        prepare_transactions(&request(), &scratch(), &reserves(), Anchor { slot: 7 })
            .expect("all proofs are present");
    let signers = &plan.transactions[0].signers;
    assert_eq!(signers.len(), 4);
    assert_eq!(signers[0].bytes, vec![1u8; 32]);
    assert_eq!(signers[1].bytes, vec![0xCC; 32]);
    assert_eq!(signers[2].bytes, vec![0xAA; 32]);
    assert_eq!(signers[3].bytes, vec![0xBB; 32]);
}

#[test]
fn allocate_payload_carries_reserve_space_and_owner() {
    let plan =
        prepare_transactions(&request(), &scratch(), &reserves(), Anchor { slot: 7 })
            .expect("all proofs are present");
    // the first allocate instruction is for the range proof: reserve
    // 3000, space 300, owned by the proof program
    let payload = &plan.transactions[0].instructions[0].payload;
    let mut expected = vec![ALLOCATE_TAG];
    expected.extend_from_slice(&3000u64.to_le_bytes());
    expected.extend_from_slice(&300u64.to_le_bytes());
    expected.extend_from_slice(&[7u8; 32]);
    assert_eq!(payload, &expected);
}

#[test]
fn missing_proof_fails_fast() {
    let mut req = request();
    req.proofs.validity = None;
    let r = prepare_transactions(&req, &scratch(), &reserves(), Anchor { slot: 7 });
    assert!(matches!(r, Err(WorkflowError::ProofUnavailable)));

    let mut req = request();
    req.proofs.range = None;
    let r = prepare_transactions(&req, &scratch(), &reserves(), Anchor { slot: 7 });
    assert!(matches!(r, Err(WorkflowError::ProofUnavailable)));
}

#[test]
fn identity_needs_exactly_thirty_two_bytes() {
    assert!(Identity::from_bytes(vec![0; 31]).is_none());
    assert!(Identity::from_bytes(vec![0; 33]).is_none());
    assert!(Identity::from_bytes(vec![0; 32]).is_some());
}
