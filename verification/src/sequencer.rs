//! The workflow sequencer.
//!
//! One confidential transfer needs more proof bytes than any single
//! ledger transaction can carry, so the sequencer splits the work into a
//! fixed, ordered plan of exactly five transactions:
//!
//! 1. allocate the three proof context accounts,
//! 2. encode the range proof alone (it is the largest payload and must
//!    not share a transaction with anything else),
//! 3. encode the two remaining proofs together,
//! 4. execute the transfer, referencing the three context accounts,
//! 5. close the three context accounts, refunding their reserves.
//!
//! The order is a correctness requirement, not an optimization: the
//! encodes must land before the execute, and the close must land after
//! it. If any externally supplied proof payload is absent, the sequencer
//! fails fast before anything is built — it never produces a partial
//! plan.

use vstd::prelude::*;
use vstd::bytes::{spec_u64_to_le_bytes, u64_to_le_bytes};

use crate::error::{ErrView, WorkflowError};
use crate::ledger::{
    copy_bytes, spec_token_program_id, token_program_id, Anchor, Identity, Instruction,
    LedgerTransaction,
};
use crate::proof_account::{
    get_zk_proof_context_state_account_creation_instructions, close_context_state, is_allocate_ix,
    is_close_ix, is_encode_ix, ProofKind, ProofPayload,
};

verus! {

/// The payload tag of the transfer-execution instruction.
pub const TRANSFER_TAG: u8 = 8;

/// A ciphertext-validity proof travels with the ciphertext pair the
/// transfer-execution instruction needs.
pub struct ValidityProofPayload {
    pub proof: ProofPayload,
    pub ciphertext_lo: Vec<u8>,
    pub ciphertext_hi: Vec<u8>,
}

/// The externally generated proof material for one transfer. Any absent
/// member (for instance, when no auditor key is configured for the
/// asset) makes the whole transfer impossible.
pub struct TransferProofs {
    pub equality: Option<ProofPayload>,
    pub validity: Option<ValidityProofPayload>,
    pub range: Option<ProofPayload>,
}

/// One transfer to sequence: the amount, the participants, and the
/// proof material.
pub struct TransferRequest {
    pub amount: u64,
    pub sender: Identity,
    pub recipient: Identity,
    pub proofs: TransferProofs,
}

/// The three freshly generated scratch-account identities of one
/// attempt. They are single-use: a retry generates new ones.
pub struct ScratchAccounts {
    pub equality: Identity,
    pub validity: Identity,
    pub range: Identity,
}

/// The ledger-quoted minimum reserve for each proof context account.
pub struct Reserves {
    pub equality: u64,
    pub validity: u64,
    pub range: u64,
}

/// The ordered list of exactly five transactions for one transfer
/// attempt: allocate, encode-large, encode-rest, execute, close.
pub struct WorkflowPlan {
    pub transactions: Vec<LedgerTransaction>,
}

/// Whether all three proof payloads are present.
pub open spec fn proofs_present(proofs: TransferProofs) -> bool {
    proofs.equality is Some && proofs.validity is Some && proofs.range is Some
}

/// Each proof payload that is present carries the kind tag of the slot
/// it fills: the proof generator tags its three payloads, and a request
/// is only meaningful when the tags agree with the slots.
pub open spec fn proofs_wf(proofs: TransferProofs) -> bool {
    &&& proofs.equality matches Option::Some(p) ==> p.kind == ProofKind::Equality
    &&& proofs.validity matches Option::Some(p) ==> p.proof.kind == ProofKind::Validity
    &&& proofs.range matches Option::Some(p) ==> p.kind == ProofKind::Range
}

/// The payload of the transfer-execution instruction: the amount and the
/// validity proof's ciphertext pair.
pub open spec fn spec_execute_payload(amount: u64, lo: Seq<u8>, hi: Seq<u8>) -> Seq<u8> {
    seq![TRANSFER_TAG] + spec_u64_to_le_bytes(amount) + lo + hi
}

/// Holds when `ix` executes the transfer of `req` through the three
/// scratch accounts: it is addressed to the token program, and its
/// account list is exactly the sender, the recipient, and the three
/// proof context accounts.
pub open spec fn is_execute_ix(
    ix: Instruction,
    req: TransferRequest,
    scratch: ScratchAccounts,
) -> bool {
    &&& ix.program@ == spec_token_program_id()
    &&& ix.accounts@.len() == 5
    &&& ix.accounts@[0]@ == req.sender@
    &&& ix.accounts@[1]@ == req.recipient@
    &&& ix.accounts@[2]@ == scratch.equality@
    &&& ix.accounts@[3]@ == scratch.validity@
    &&& ix.accounts@[4]@ == scratch.range@
    &&& req.proofs.validity matches Option::Some(v) && ix.payload@ == spec_execute_payload(
        req.amount,
        v.ciphertext_lo@,
        v.ciphertext_hi@,
    )
}

/// Holds when `tx` is the workflow's first step: one transaction that
/// allocates the three proof context accounts, fee-paid by the sender
/// and co-signed by the three fresh identities.
pub open spec fn is_allocate_tx(
    tx: LedgerTransaction,
    req: TransferRequest,
    scratch: ScratchAccounts,
    reserves: Reserves,
    anchor: Anchor,
) -> bool {
    &&& tx.fee_payer@ == req.sender@ && tx.anchor == anchor && tx.signed
    &&& tx.instructions@.len() == 3
    &&& req.proofs.range matches Option::Some(range_proof) && is_allocate_ix(
        tx.instructions@[0],
        req.sender@,
        scratch.range@,
        reserves.range,
        range_proof.space,
    )
    &&& req.proofs.equality matches Option::Some(equality_proof) && is_allocate_ix(
        tx.instructions@[1],
        req.sender@,
        scratch.equality@,
        reserves.equality,
        equality_proof.space,
    )
    &&& req.proofs.validity matches Option::Some(validity_proof) && is_allocate_ix(
        tx.instructions@[2],
        req.sender@,
        scratch.validity@,
        reserves.validity,
        validity_proof.proof.space,
    )
    &&& tx.signers@.len() == 4
    &&& tx.signers@[0]@ == req.sender@
    &&& tx.signers@[1]@ == scratch.range@
    &&& tx.signers@[2]@ == scratch.equality@
    &&& tx.signers@[3]@ == scratch.validity@
}

/// Holds when `tx` is the workflow's second step: the range proof
/// encoded alone, because it is the largest payload.
pub open spec fn is_encode_large_tx(
    tx: LedgerTransaction,
    req: TransferRequest,
    scratch: ScratchAccounts,
    anchor: Anchor,
) -> bool {
    &&& tx.fee_payer@ == req.sender@ && tx.anchor == anchor && tx.signed
    &&& tx.instructions@.len() == 1
    &&& req.proofs.range matches Option::Some(range_proof) && is_encode_ix(
        tx.instructions@[0],
        scratch.range@,
        req.sender@,
        ProofKind::Range,
        range_proof.data@,
    )
    &&& tx.signers@.len() == 1 && tx.signers@[0]@ == req.sender@
}

/// Holds when `ixs` begins with the workflow's two remaining encode
/// instructions: the equality proof, then the validity proof.
pub open spec fn has_encode_rest_instructions(
    ixs: Seq<Instruction>,
    req: TransferRequest,
    scratch: ScratchAccounts,
) -> bool {
    &&& ixs.len() >= 2
    &&& req.proofs.equality matches Option::Some(equality_proof) && is_encode_ix(
        ixs[0],
        scratch.equality@,
        req.sender@,
        ProofKind::Equality,
        equality_proof.data@,
    )
    &&& req.proofs.validity matches Option::Some(validity_proof) && is_encode_ix(
        ixs[1],
        scratch.validity@,
        req.sender@,
        ProofKind::Validity,
        validity_proof.proof.data@,
    )
}

/// Holds when `tx` is the workflow's third step: the two remaining
/// proofs encoded together.
pub open spec fn is_encode_rest_tx(
    tx: LedgerTransaction,
    req: TransferRequest,
    scratch: ScratchAccounts,
    anchor: Anchor,
) -> bool {
    &&& tx.fee_payer@ == req.sender@ && tx.anchor == anchor && tx.signed
    &&& tx.instructions@.len() == 2
    &&& has_encode_rest_instructions(tx.instructions@, req, scratch)
    &&& tx.signers@.len() == 1 && tx.signers@[0]@ == req.sender@
}

/// Holds when `tx` is the workflow's fourth step: the transfer executed
/// through the three proof context accounts.
pub open spec fn is_execute_tx(
    tx: LedgerTransaction,
    req: TransferRequest,
    scratch: ScratchAccounts,
    anchor: Anchor,
) -> bool {
    &&& tx.fee_payer@ == req.sender@ && tx.anchor == anchor && tx.signed
    &&& tx.instructions@.len() == 1
    &&& is_execute_ix(tx.instructions@[0], req, scratch)
    &&& tx.signers@.len() == 1 && tx.signers@[0]@ == req.sender@
}

/// Holds when `tx` is the workflow's fifth step: the three proof
/// context accounts closed, refunding the sender.
pub open spec fn is_close_tx(
    tx: LedgerTransaction,
    req: TransferRequest,
    scratch: ScratchAccounts,
    anchor: Anchor,
) -> bool {
    &&& tx.fee_payer@ == req.sender@ && tx.anchor == anchor && tx.signed
    &&& tx.instructions@.len() == 3
    &&& is_close_ix(tx.instructions@[0], scratch.equality@, req.sender@, req.sender@)
    &&& is_close_ix(tx.instructions@[1], scratch.validity@, req.sender@, req.sender@)
    &&& is_close_ix(tx.instructions@[2], scratch.range@, req.sender@, req.sender@)
    &&& tx.signers@.len() == 1 && tx.signers@[0]@ == req.sender@
}

/// Holds when `plan` is the five-transaction plan for `req` built over
/// the scratch accounts `scratch` with the quoted `reserves`, each
/// transaction signed against `anchor`.
pub open spec fn is_plan_for(
    plan: WorkflowPlan,
    req: TransferRequest,
    scratch: ScratchAccounts,
    reserves: Reserves,
    anchor: Anchor,
) -> bool {
    let txs = plan.transactions@;
    &&& txs.len() == 5
    &&& is_allocate_tx(txs[0], req, scratch, reserves, anchor)
    &&& is_encode_large_tx(txs[1], req, scratch, anchor)
    &&& is_encode_rest_tx(txs[2], req, scratch, anchor)
    &&& is_execute_tx(txs[3], req, scratch, anchor)
    &&& is_close_tx(txs[4], req, scratch, anchor)
}

/// Builds the five-transaction plan for one transfer attempt.
///
/// Fails fast with `ProofUnavailable`, before anything is built, exactly
/// when any of the three proof payloads is absent. On success the plan
/// has the fixed shape of [`is_plan_for`]: five transactions in the
/// order allocate, encode-large, encode-rest, execute, close.
pub fn prepare_transactions(
    req: &TransferRequest,
    scratch: &ScratchAccounts,
    reserves: &Reserves,
    anchor: Anchor,
) -> (r: Result<WorkflowPlan, WorkflowError>)
    requires
        proofs_wf(req.proofs),
    ensures
        r is Ok <==> proofs_present(req.proofs),
        r matches Result::Ok(plan) ==> is_plan_for(plan, *req, *scratch, *reserves, anchor),
        r matches Result::Err(e) ==> e@ == ErrView::ProofUnavailable,
{
    let equality_proof = match &req.proofs.equality {
        Option::Some(p) => p,
        Option::None => {
            return Result::Err(WorkflowError::ProofUnavailable);
        },
    };
    let validity_proof = match &req.proofs.validity {
        Option::Some(p) => p,
        Option::None => {
            return Result::Err(WorkflowError::ProofUnavailable);
        },
    };
    let range_proof = match &req.proofs.range {
        Option::Some(p) => p,
        Option::None => {
            return Result::Err(WorkflowError::ProofUnavailable);
        },
    };

    let (range_create_ix, range_encode_ix) =
        get_zk_proof_context_state_account_creation_instructions(
        &req.sender,
        &scratch.range,
        &req.sender,
        range_proof,
        reserves.range,
    );
    let (equality_create_ix, equality_encode_ix) =
        get_zk_proof_context_state_account_creation_instructions(
        &req.sender,
        &scratch.equality,
        &req.sender,
        equality_proof,
        reserves.equality,
    );
    let (validity_create_ix, validity_encode_ix) =
        get_zk_proof_context_state_account_creation_instructions(
        &req.sender,
        &scratch.validity,
        &req.sender,
        &validity_proof.proof,
        reserves.validity,
    );

    // step 1: allocate all three proof context accounts at once
    let mut allocate_ixs: Vec<Instruction> = Vec::new();
    allocate_ixs.push(range_create_ix);
    allocate_ixs.push(equality_create_ix);
    allocate_ixs.push(validity_create_ix);
    let mut allocate_signers: Vec<Identity> = Vec::new();
    allocate_signers.push(req.sender.duplicate());
    allocate_signers.push(scratch.range.duplicate());
    allocate_signers.push(scratch.equality.duplicate());
    allocate_signers.push(scratch.validity.duplicate());
    let tx_allocate = LedgerTransaction::new_signed(
        allocate_ixs,
        req.sender.duplicate(),
        allocate_signers,
        anchor,
    );

    // step 2: encode the range proof on its own, because it is the largest
    let mut encode_large_ixs: Vec<Instruction> = Vec::new();
    encode_large_ixs.push(range_encode_ix);
    let mut encode_large_signers: Vec<Identity> = Vec::new();
    encode_large_signers.push(req.sender.duplicate());
    let tx_encode_large = LedgerTransaction::new_signed(
        encode_large_ixs,
        req.sender.duplicate(),
        encode_large_signers,
        anchor,
    );

    // step 3: encode the remaining proofs together
    let mut encode_rest_ixs: Vec<Instruction> = Vec::new();
    encode_rest_ixs.push(equality_encode_ix);
    encode_rest_ixs.push(validity_encode_ix);
    let mut encode_rest_signers: Vec<Identity> = Vec::new();
    encode_rest_signers.push(req.sender.duplicate());
    let tx_encode_rest = LedgerTransaction::new_signed(
        encode_rest_ixs,
        req.sender.duplicate(),
        encode_rest_signers,
        anchor,
    );

    // step 4: execute the transfer through the three context accounts
    let mut execute_payload: Vec<u8> = Vec::new();
    execute_payload.push(TRANSFER_TAG);
    let mut amount_bytes = u64_to_le_bytes(req.amount);
    execute_payload.append(&mut amount_bytes);
    let mut lo_bytes = copy_bytes(&validity_proof.ciphertext_lo);
    execute_payload.append(&mut lo_bytes);
    let mut hi_bytes = copy_bytes(&validity_proof.ciphertext_hi);
    execute_payload.append(&mut hi_bytes);
    proof {
        assert(execute_payload@ =~= spec_execute_payload(
            req.amount,
            validity_proof.ciphertext_lo@,
            validity_proof.ciphertext_hi@,
        ));
    }
    let mut execute_accounts: Vec<Identity> = Vec::new();
    execute_accounts.push(req.sender.duplicate());
    execute_accounts.push(req.recipient.duplicate());
    execute_accounts.push(scratch.equality.duplicate());
    execute_accounts.push(scratch.validity.duplicate());
    execute_accounts.push(scratch.range.duplicate());
    let execute_ix = Instruction {
        program: token_program_id(),
        accounts: execute_accounts,
        payload: execute_payload,
    };
    let mut execute_ixs: Vec<Instruction> = Vec::new();
    execute_ixs.push(execute_ix);
    let mut execute_signers: Vec<Identity> = Vec::new();
    execute_signers.push(req.sender.duplicate());
    let tx_execute = LedgerTransaction::new_signed(
        execute_ixs,
        req.sender.duplicate(),
        execute_signers,
        anchor,
    );

    // step 5: close the three context accounts, refunding the sender
    let mut close_ixs: Vec<Instruction> = Vec::new();
    close_ixs.push(close_context_state(&scratch.equality, &req.sender, &req.sender));
    close_ixs.push(close_context_state(&scratch.validity, &req.sender, &req.sender));
    close_ixs.push(close_context_state(&scratch.range, &req.sender, &req.sender));
    let mut close_signers: Vec<Identity> = Vec::new();
    close_signers.push(req.sender.duplicate());
    let tx_close = LedgerTransaction::new_signed(
        close_ixs,
        req.sender.duplicate(),
        close_signers,
        anchor,
    );

    let mut transactions: Vec<LedgerTransaction> = Vec::new();
    transactions.push(tx_allocate);
    transactions.push(tx_encode_large);
    transactions.push(tx_encode_rest);
    transactions.push(tx_execute);
    transactions.push(tx_close);
    let plan = WorkflowPlan { transactions };
    proof {
        assert(is_plan_for(plan, *req, *scratch, *reserves, anchor));
    }
    Result::Ok(plan)
}

/// Workflow shape law: every plan the sequencer can produce holds
/// exactly five transactions in the fixed order allocate, encode-large,
/// encode-rest, execute, close; and the execute transaction references
/// exactly the three scratch-account identities that the allocate
/// transaction creates, in its account list positions 2, 3 and 4.
pub proof fn lemma_plan_shape(
    plan: WorkflowPlan,
    req: TransferRequest,
    scratch: ScratchAccounts,
    reserves: Reserves,
    anchor: Anchor,
)
    requires
        is_plan_for(plan, req, scratch, reserves, anchor),
    ensures
        plan.transactions@.len() == 5,
        // the allocate transaction creates exactly the three scratch accounts
        plan.transactions@[0].instructions@.len() == 3,
        plan.transactions@[0].instructions@[0].accounts@[1]@ == scratch.range@,
        plan.transactions@[0].instructions@[1].accounts@[1]@ == scratch.equality@,
        plan.transactions@[0].instructions@[2].accounts@[1]@ == scratch.validity@,
        // the execute transaction references exactly those three identities
        plan.transactions@[3].instructions@.len() == 1,
        plan.transactions@[3].instructions@[0].accounts@.len() == 5,
        plan.transactions@[3].instructions@[0].accounts@[2]@ == scratch.equality@,
        plan.transactions@[3].instructions@[0].accounts@[3]@ == scratch.validity@,
        plan.transactions@[3].instructions@[0].accounts@[4]@ == scratch.range@,
{
}

} // verus!
