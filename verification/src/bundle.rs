//! The bundle submission path.
//!
//! Instead of confirming the five transactions one at a time, the plan
//! can be handed as one atomic, ordered unit to an external block-space
//! auction relay: either every transaction lands or none does. The relay
//! is paid with an incentive instruction added to one transaction of the
//! plan — step 3, which has the most size margin — which is then
//! re-signed, since mutating a transaction invalidates its signatures.
//! The whole plan is serialized, each transaction framed to bytes and
//! encoded as base58 text, the form the relay accepts.
//!
//! The relay is only reachable on ledger environments that support it,
//! so the path validates the configured network target up front and
//! fails fast otherwise. The incentive amount comes from an external
//! fee-market oracle at submission time; it is handed in as a plain
//! value.

use vstd::prelude::*;
use vstd::bytes::{spec_u64_to_le_bytes, u64_to_le_bytes};
use vstd::string::StrSliceExecFns;

use crate::error::{ErrView, WorkflowError};
use crate::frame::{base58_of, serialize_bundle, spec_frame_transaction};
use crate::ledger::{
    spec_system_program_id, system_program_id, Anchor, Identity, Instruction, LedgerTransaction,
};
use crate::sequencer::{
    has_encode_rest_instructions, is_allocate_tx, is_close_tx, is_encode_large_tx, is_execute_tx,
    prepare_transactions, proofs_present, proofs_wf, Reserves, ScratchAccounts, TransferRequest,
    WorkflowPlan,
};
use crate::status::{
    confirm_bundle_status, poll_result_view, report_seq_view, spec_confirm_bundle_status,
    status_seq_view, FinalReport,
};
use crate::store::{last_transfer_signature_key, KvStore};

verus! {

/// The payload tag of a plain balance-transfer instruction, which pays
/// the relay incentive.
pub const TIP_TRANSFER_TAG: u8 = 2;

/// The payload of the incentive payment: a transfer of `lamports` native
/// units.
pub open spec fn spec_tip_payload(lamports: u64) -> Seq<u8> {
    seq![TIP_TRANSFER_TAG] + spec_u64_to_le_bytes(lamports)
}

/// Holds when `ix` pays `lamports` from `sender` to the relay's
/// `tip_account`.
pub open spec fn is_tip_ix(
    ix: Instruction,
    sender: Seq<u8>,
    tip_account: Seq<u8>,
    lamports: u64,
) -> bool {
    &&& ix.program@ == spec_system_program_id()
    &&& ix.accounts@.len() == 2
    &&& ix.accounts@[0]@ == sender
    &&& ix.accounts@[1]@ == tip_account
    &&& ix.payload@ == spec_tip_payload(lamports)
}

/// Builds the relay incentive payment: a plain transfer of `lamports`
/// from `sender` to the relay-designated `tip_account`. The account and
/// the amount come from the relay and its fee-market oracle at
/// submission time.
pub fn create_jito_tip_instruction(
    sender: &Identity,
    tip_account: &Identity,
    lamports: u64,
) -> (ix: Instruction)
    ensures
        is_tip_ix(ix, sender@, tip_account@, lamports),
{
    let mut payload: Vec<u8> = Vec::new();
    payload.push(TIP_TRANSFER_TAG);
    let mut amount_bytes = u64_to_le_bytes(lamports);
    payload.append(&mut amount_bytes);
    proof {
        assert(payload@ =~= spec_tip_payload(lamports));
    }
    let mut accounts: Vec<Identity> = Vec::new();
    accounts.push(sender.duplicate());
    accounts.push(tip_account.duplicate());
    Instruction { program: system_program_id(), accounts, payload }
}

/// Whether `pat` occurs as a contiguous run inside `s`.
pub open spec fn spec_contains_sub(s: Seq<char>, pat: Seq<char>) -> bool {
    exists|i: int|
        0 <= i && i + pat.len() <= s.len() && #[trigger] s.subrange(i, i + pat.len()) == pat
}

/// Looks for `needle` inside `hay`.
fn str_contains_sub(hay: &str, needle: &str) -> (b: bool)
    ensures
        b == spec_contains_sub(hay@, needle@),
{
    let hay_len = hay.unicode_len();
    let needle_len = needle.unicode_len();
    if needle_len > hay_len {
        proof {
            assert(!spec_contains_sub(hay@, needle@));
        }
        return false;
    }
    if needle_len == 0 {
        proof {
            assert(hay@.subrange(0, 0 + needle@.len() as int) =~= needle@);
        }
        return true;
    }
    let mut i: usize = 0;
    while i <= hay_len - needle_len
        invariant
            hay_len == hay@.len(),
            needle_len == needle@.len(),
            1 <= needle_len <= hay_len,
            i <= hay_len - needle_len + 1,
            forall|k: int|
                0 <= k < i ==> #[trigger] hay@.subrange(k, k + needle@.len() as int) != needle@,
        decreases hay_len - i,
    {
        let mut j: usize = 0;
        let mut matched = true;
        while j < needle_len
            invariant
                hay_len == hay@.len(),
                needle_len == needle@.len(),
                i + needle_len <= hay_len,
                j <= needle_len,
                matched ==> forall|k: int| 0 <= k < j ==> hay@[i + k] == needle@[k],
                !matched ==> hay@.subrange(i as int, i as int + needle@.len() as int) != needle@,
            decreases needle_len - j,
        {
            if hay.get_char(i + j) != needle.get_char(j) {
                proof {
                    assert(hay@.subrange(i as int, i as int + needle@.len() as int)[j as int]
                        != needle@[j as int]);
                }
                matched = false;
                j = needle_len;
            } else {
                j = j + 1;
            }
        }
        if matched {
            proof {
                assert(hay@.subrange(i as int, i as int + needle@.len() as int) =~= needle@);
            }
            return true;
        }
        i = i + 1;
    }
    proof {
        assert forall|k: int| 0 <= k && k + needle@.len() <= hay@.len() implies #[trigger] hay@
            .subrange(k, k + needle@.len() as int) != needle@ by {
            assert(k < i);
        }
    }
    false
}

/// Whether the configured network target supports the relay: only the
/// shared test network and the main network do; a local or custom
/// endpoint does not.
pub open spec fn spec_relay_supported_target(url: Seq<char>) -> bool {
    spec_contains_sub(url, "testnet"@) || spec_contains_sub(url, "mainnet"@)
}

/// Validates the configured network target for the bundle path.
pub fn relay_supported_target(url: &str) -> (b: bool)
    ensures
        b == spec_relay_supported_target(url@),
{
    str_contains_sub(url, "testnet") || str_contains_sub(url, "mainnet")
}

/// Adds the relay incentive payment to the plan and restores the plan's
/// validity: the instruction is appended to step 3 (the transaction with
/// the most size margin), and that transaction — whose signatures the
/// mutation invalidated — is re-signed against `anchor`. The other four
/// transactions are untouched.
pub fn add_relay_incentive(plan: &mut WorkflowPlan, tip: Instruction, anchor: Anchor)
    requires
        old(plan).transactions@.len() == 5,
    ensures
        final(plan).transactions@.len() == 5,
        forall|i: int|
            0 <= i < 5 && i != 2 ==> final(plan).transactions@[i] == old(plan).transactions@[i],
        final(plan).transactions@[2].instructions@ == old(
            plan,
        ).transactions@[2].instructions@.push(tip),
        final(plan).transactions@[2].fee_payer == old(plan).transactions@[2].fee_payer,
        final(plan).transactions@[2].signers == old(plan).transactions@[2].signers,
        final(plan).transactions@[2].anchor == anchor,
        final(plan).transactions@[2].signed,
{
    let mut tx = plan.transactions.remove(2);
    tx.push_instruction(tip);
    tx.sign(anchor);
    plan.transactions.insert(2, tx);
    proof {
        assert(plan.transactions@ =~= old(plan).transactions@.update(
            2,
            plan.transactions@[2],
        ));
    }
}

/// Holds when `tx` is the workflow's third step carrying the relay
/// incentive: the two remaining encode instructions followed by exactly
/// one incentive payment, re-signed against `anchor` after the
/// addition.
pub open spec fn is_tipped_encode_rest_tx(
    tx: LedgerTransaction,
    req: TransferRequest,
    scratch: ScratchAccounts,
    tip_account: Seq<u8>,
    tip_lamports: u64,
    anchor: Anchor,
) -> bool {
    &&& tx.fee_payer@ == req.sender@ && tx.anchor == anchor && tx.signed
    &&& tx.instructions@.len() == 3
    &&& has_encode_rest_instructions(tx.instructions@, req, scratch)
    &&& is_tip_ix(tx.instructions@[2], req.sender@, tip_account, tip_lamports)
    &&& tx.signers@.len() == 1 && tx.signers@[0]@ == req.sender@
}

/// Holds when `plan` is the sequencer's five-transaction plan with the
/// relay incentive added: steps 1, 2, 4 and 5 exactly as the sequencer
/// builds them, and step 3 carrying one added incentive payment.
pub open spec fn is_tipped_plan_for(
    plan: WorkflowPlan,
    req: TransferRequest,
    scratch: ScratchAccounts,
    reserves: Reserves,
    anchor: Anchor,
    tip_account: Seq<u8>,
    tip_lamports: u64,
) -> bool {
    let txs = plan.transactions@;
    &&& txs.len() == 5
    &&& is_allocate_tx(txs[0], req, scratch, reserves, anchor)
    &&& is_encode_large_tx(txs[1], req, scratch, anchor)
    &&& is_tipped_encode_rest_tx(txs[2], req, scratch, tip_account, tip_lamports, anchor)
    &&& is_execute_tx(txs[3], req, scratch, anchor)
    &&& is_close_tx(txs[4], req, scratch, anchor)
}

/// Holds when `entries` is the relay bundle of `plan`: one base58
/// entry per transaction, each the base58 text of the framed
/// transaction, in plan order.
pub open spec fn is_bundle_of(entries: Vec<String>, plan: WorkflowPlan) -> bool {
    &&& entries@.len() == plan.transactions@.len()
    &&& forall|i: int|
        0 <= i < plan.transactions@.len() ==> entries.deep_view()[i] == base58_of(
            spec_frame_transaction(#[trigger] plan.transactions@[i]),
        )
}

/// Assembles everything one bundle submission hands the relay: the
/// sequencer's five-transaction plan with the incentive payment added
/// to step 3 (which is re-signed), and the serialized bundle — the
/// base58 text of each framed transaction, in plan order. What the
/// caller submits is exactly the returned entries.
///
/// Fails with `ProofUnavailable`, building nothing, exactly when any
/// proof payload is absent.
pub fn assemble_bundle(
    req: &TransferRequest,
    scratch: &ScratchAccounts,
    reserves: &Reserves,
    anchor: Anchor,
    tip_account: &Identity,
    tip_lamports: u64,
) -> (r: Result<(WorkflowPlan, Vec<String>), WorkflowError>)
    requires
        proofs_wf(req.proofs),
    ensures
        r is Ok <==> proofs_present(req.proofs),
        r matches Result::Ok(pair) ==> {
            &&& is_tipped_plan_for(
                pair.0,
                *req,
                *scratch,
                *reserves,
                anchor,
                tip_account@,
                tip_lamports,
            )
            &&& is_bundle_of(pair.1, pair.0)
        },
        r matches Result::Err(e) ==> e@ == ErrView::ProofUnavailable,
{
    let mut plan = match prepare_transactions(req, scratch, reserves, anchor) {
        Result::Ok(p) => p,
        Result::Err(e) => {
            return Result::Err(e);
        },
    };
    let tip = create_jito_tip_instruction(&req.sender, tip_account, tip_lamports);
    add_relay_incentive(&mut plan, tip, anchor);
    let entries = serialize_bundle(&plan);
    Result::Ok((plan, entries))
}

/// Everything one bundle attempt consumes, beyond the transfer request
/// itself: the freshly generated scratch identities, the ledger's
/// reserve quotes, a fresh anchor, the relay's tip account and the
/// oracle-quoted tip amount, and — observed after the bundle is handed
/// over — the relay's answer to the submission and its status reports.
/// Every attempt gets fresh values for all of these.
pub struct BundleAttemptInput {
    pub scratch: ScratchAccounts,
    pub reserves: Reserves,
    pub anchor: Anchor,
    pub tip_account: Identity,
    pub tip_lamports: u64,
    pub submit_result: Result<String, String>,
    pub inflight_reports: Vec<Option<String>>,
    pub final_reports: Vec<Option<FinalReport>>,
}

/// The outcome of one bundle attempt: absent proof material fails it
/// before anything is built; a relay refusal surfaces as a rejection;
/// otherwise the polling machine decides, and a landed bundle whose
/// report does not carry one identifier per submitted transaction is a
/// broken response, not a success.
pub open spec fn spec_attempt_outcome(req: TransferRequest, input: BundleAttemptInput) -> Result<
    Seq<Seq<char>>,
    ErrView,
> {
    if !proofs_present(req.proofs) {
        Result::Err(ErrView::ProofUnavailable)
    } else {
        match input.submit_result {
            Result::Err(reason) => Result::Err(ErrView::BundleRejected(reason@)),
            Result::Ok(_) => match spec_confirm_bundle_status(
                status_seq_view(input.inflight_reports),
                report_seq_view(input.final_reports),
            ) {
                Result::Ok(ids) => {
                    if ids.len() == 5 {
                        Result::Ok(ids)
                    } else {
                        Result::Err(
                            ErrView::BundleRejected(
                                "bundle landed with a different number of transactions than submitted"@,
                            ),
                        )
                    }
                },
                Result::Err(e) => Result::Err(e),
            },
        }
    }
}

/// The bundle an attempt hands the relay, tied to its inputs: the
/// serialized entries of a plan that is the sequencer's output for the
/// attempt's scratch accounts, reserves and anchor, with the attempt's
/// incentive payment added.
pub open spec fn is_attempt_bundle(
    entries: Vec<String>,
    req: TransferRequest,
    input: BundleAttemptInput,
) -> bool {
    exists|tipped: WorkflowPlan|
        #[trigger] is_tipped_plan_for(
            tipped,
            req,
            input.scratch,
            input.reserves,
            input.anchor,
            input.tip_account@,
            input.tip_lamports,
        ) && is_bundle_of(entries, tipped)
}

/// Runs one whole bundle attempt: builds a fresh five-step plan, adds
/// the relay incentive to step 3 and re-signs it, serializes the plan
/// into `submitted` — the very bundle the caller hands the relay — and
/// consumes the relay's answers: the submission result, then the
/// status reports, through the polling machine. On success the execute
/// step's identifier (position 3 of the five) is recorded in the
/// durable store.
pub fn run_bundle_attempt(
    req: &TransferRequest,
    input: &BundleAttemptInput,
    store: &mut KvStore,
    submitted: &mut Vec<String>,
) -> (r: Result<Vec<String>, WorkflowError>)
    requires
        proofs_wf(req.proofs),
    ensures
        poll_result_view(r) == spec_attempt_outcome(*req, *input),
        r matches Result::Ok(ids) ==> final(store)@ == old(store)@.insert(
            "last_confidential_transfer_signature"@,
            ids.deep_view()[3],
        ),
        r is Err ==> final(store)@ == old(store)@,
        proofs_present(req.proofs) ==> is_attempt_bundle(*final(submitted), *req, *input),
        !proofs_present(req.proofs) ==> final(submitted)@ == old(submitted)@,
{
    let (plan, entries) = match assemble_bundle(
        req,
        &input.scratch,
        &input.reserves,
        input.anchor,
        &input.tip_account,
        input.tip_lamports,
    ) {
        Result::Ok(pair) => pair,
        Result::Err(e) => {
            return Result::Err(e);
        },
    };
    *submitted = entries;
    proof {
        assert(is_attempt_bundle(*submitted, *req, *input));
    }
    match &input.submit_result {
        Result::Err(reason) => {
            return Result::Err(WorkflowError::BundleRejected(reason.clone()));
        },
        Result::Ok(_) => {},
    }
    let ids = match confirm_bundle_status(&input.inflight_reports, &input.final_reports) {
        Result::Ok(ids) => ids,
        Result::Err(e) => {
            return Result::Err(e);
        },
    };
    if ids.len() == 5 {
        let sig = ids[3].clone();
        store.record_value(last_transfer_signature_key(), sig);
        Result::Ok(ids)
    } else {
        Result::Err(
            WorkflowError::BundleRejected(
                "bundle landed with a different number of transactions than submitted".to_owned(),
            ),
        )
    }
}

/// The index of the first attempt whose outcome is a success, if any.
pub open spec fn spec_first_successful_attempt(
    req: TransferRequest,
    attempts: Seq<BundleAttemptInput>,
) -> Option<int>
    decreases attempts.len(),
{
    if attempts.len() == 0 {
        Option::None
    } else if spec_attempt_outcome(req, attempts[0]) is Ok {
        Option::Some(0)
    } else {
        match spec_first_successful_attempt(req, attempts.drop_first()) {
            Option::None => Option::None,
            Option::Some(k) => Option::Some(k + 1),
        }
    }
}

/// If the first `k` attempts fail and attempt `k` succeeds, then `k` is
/// the first success.
proof fn lemma_first_success_at(
    req: TransferRequest,
    attempts: Seq<BundleAttemptInput>,
    k: int,
)
    requires
        0 <= k < attempts.len(),
        forall|j: int| 0 <= j < k ==> spec_attempt_outcome(req, #[trigger] attempts[j]) is Err,
        spec_attempt_outcome(req, attempts[k]) is Ok,
    ensures
        spec_first_successful_attempt(req, attempts) == Option::Some(k),
    decreases k,
{
    if k > 0 {
        lemma_first_success_at(req, attempts.drop_first(), k - 1);
    }
}

/// If every attempt fails, there is no first success.
proof fn lemma_no_successful_attempt(req: TransferRequest, attempts: Seq<BundleAttemptInput>)
    requires
        forall|j: int|
            0 <= j < attempts.len() ==> spec_attempt_outcome(req, #[trigger] attempts[j]) is Err,
    ensures
        spec_first_successful_attempt(req, attempts) is None,
    decreases attempts.len(),
{
    if attempts.len() > 0 {
        lemma_no_successful_attempt(req, attempts.drop_first());
    }
}

/// The index of the attempt that decides the bundle path's result:
/// the first successful attempt, or the last attempt when every one
/// fails.
pub open spec fn spec_deciding_attempt(req: TransferRequest, attempts: Seq<BundleAttemptInput>) -> int {
    match spec_first_successful_attempt(req, attempts) {
        Option::Some(k) => k,
        Option::None => attempts.len() - 1,
    }
}

/// Runs a whole transfer along the bundle path, retrying with a
/// completely fresh attempt on each failure, up to the number of
/// attempt inputs supplied.
///
/// The path is only valid against ledger environments that support the
/// relay, so an unsupported `target_url` is rejected before anything is
/// built. The first successful attempt's five identifiers are returned
/// and remaining attempts are never consulted; if every attempt fails,
/// the last failure is surfaced, wrapped in `RetryExhausted`. The
/// durable store gains the execute step's identifier exactly on
/// success. `last_bundle` is left holding the deciding attempt's
/// submitted bundle, tied to that attempt's inputs by
/// [`is_attempt_bundle`].
pub fn with_split_proofs_atomic(
    req: &TransferRequest,
    target_url: &str,
    attempts: &Vec<BundleAttemptInput>,
    store: &mut KvStore,
    last_bundle: &mut Vec<String>,
) -> (r: Result<Vec<String>, WorkflowError>)
    requires
        proofs_wf(req.proofs),
        attempts@.len() >= 1,
    ensures
        spec_relay_supported_target(target_url@) && proofs_present(req.proofs)
            ==> is_attempt_bundle(
            *final(last_bundle),
            *req,
            attempts@[spec_deciding_attempt(*req, attempts@)],
        ),
        !(spec_relay_supported_target(target_url@) && proofs_present(req.proofs))
            ==> final(last_bundle)@ == old(last_bundle)@,
        !spec_relay_supported_target(target_url@) ==> {
            &&& r matches Result::Err(e) && e@ == ErrView::BundleRejected(
                "the configured network target does not support the relay"@,
            )
            &&& final(store)@ == old(store)@
        },
        spec_relay_supported_target(target_url@) && spec_first_successful_attempt(*req, attempts@)
            is Some ==> {
            &&& poll_result_view(r) == spec_attempt_outcome(
                *req,
                attempts@[spec_first_successful_attempt(*req, attempts@)->Some_0],
            )
            &&& final(store)@ == old(store)@.insert(
                "last_confidential_transfer_signature"@,
                spec_attempt_outcome(
                    *req,
                    attempts@[spec_first_successful_attempt(*req, attempts@)->Some_0],
                )->Ok_0[3],
            )
        },
        spec_relay_supported_target(target_url@) && spec_first_successful_attempt(*req, attempts@)
            is None ==> {
            &&& r matches Result::Err(e) && e@ == ErrView::RetryExhausted(
                Box::new(spec_attempt_outcome(*req, attempts@[attempts@.len() - 1])->Err_0),
            )
            &&& final(store)@ == old(store)@
        },
{
    if !relay_supported_target(target_url) {
        return Result::Err(
            WorkflowError::BundleRejected(
                "the configured network target does not support the relay".to_owned(),
            ),
        );
    }
    let mut k: usize = 0;
    while k < attempts.len() - 1
        invariant
            proofs_wf(req.proofs),
            spec_relay_supported_target(target_url@),
            attempts@.len() >= 1,
            k <= attempts@.len() - 1,
            forall|j: int|
                0 <= j < k ==> spec_attempt_outcome(*req, #[trigger] attempts@[j]) is Err,
            store@ == old(store)@,
            !proofs_present(req.proofs) ==> (*last_bundle)@ == (*old(last_bundle))@,
        decreases attempts.len() - k,
    {
        match run_bundle_attempt(req, &attempts[k], store, last_bundle) {
            Result::Ok(ids) => {
                proof {
                    lemma_first_success_at(*req, attempts@, k as int);
                }
                return Result::Ok(ids);
            },
            Result::Err(_last) => {},
        }
        k = k + 1;
    }
    match run_bundle_attempt(req, &attempts[k], store, last_bundle) {
        Result::Ok(ids) => {
            proof {
                lemma_first_success_at(*req, attempts@, k as int);
            }
            Result::Ok(ids)
        },
        Result::Err(last) => {
            proof {
                lemma_no_successful_attempt(*req, attempts@);
            }
            Result::Err(WorkflowError::RetryExhausted(Box::new(last)))
        },
    }
}

} // verus!
