//! The direct submission path.
//!
//! The five transactions of a plan are submitted one at a time, each
//! confirmed before the next is sent. On the first failure the path
//! stops immediately and reports which step failed; later steps are
//! never attempted. (An unexecuted transfer with allocated-but-unclosed
//! scratch accounts is a recoverable end state — the accounts remain
//! closeable — so nothing is rolled back and nothing retries here.)
//! After all five steps land, the execute step's transaction identifier
//! is recorded in the durable store for later audit lookup.
//!
//! The submission round-trips themselves happen outside: the caller
//! submits one transaction, observes the ledger's answer, and feeds it
//! to [`direct_step`].

use vstd::prelude::*;

use crate::error::{ErrView, WorkflowError};
use crate::ledger::Anchor;
use crate::sequencer::{
    prepare_transactions, proofs_present, proofs_wf, Reserves, ScratchAccounts, TransferRequest,
};
use crate::store::{last_transfer_signature_key, KvStore};

verus! {

/// The number of transactions in a workflow plan.
pub const PLAN_STEPS: usize = 5;

/// How far a direct-path run has come: the transaction identifiers of
/// the steps that have landed, in step order.
pub struct DirectProgress {
    pub landed: Vec<String>,
}

impl DirectProgress {
    /// A run with no steps landed yet.
    pub fn new() -> (r: DirectProgress)
        ensures
            r.landed@.len() == 0,
    {
        DirectProgress { landed: Vec::new() }
    }
}

/// The view of one submission outcome: the ledger's transaction
/// identifier on success, or the reported cause on failure.
pub open spec fn outcome_view(o: Result<String, String>) -> Result<Seq<char>, Seq<char>> {
    match o {
        Result::Ok(id) => Result::Ok(id@),
        Result::Err(cause) => Result::Err(cause@),
    }
}

/// The views of a list of submission outcomes.
pub open spec fn outcome_seq_view(v: Vec<Result<String, String>>) -> Seq<
    Result<Seq<char>, Seq<char>>,
> {
    v@.map_values(|o: Result<String, String>| outcome_view(o))
}

/// The index of the first failed outcome, if any.
pub open spec fn spec_first_failure(outcomes: Seq<Result<Seq<char>, Seq<char>>>) -> Option<int>
    decreases outcomes.len(),
{
    if outcomes.len() == 0 {
        Option::None
    } else if outcomes[0] is Err {
        Option::Some(0)
    } else {
        match spec_first_failure(outcomes.drop_first()) {
            Option::None => Option::None,
            Option::Some(k) => Option::Some(k + 1),
        }
    }
}

/// If the first `k` outcomes succeeded and outcome `k` failed, then `k`
/// is the first failure.
proof fn lemma_first_failure_at(outcomes: Seq<Result<Seq<char>, Seq<char>>>, k: int)
    requires
        0 <= k < outcomes.len(),
        forall|j: int| 0 <= j < k ==> outcomes[j] is Ok,
        outcomes[k] is Err,
    ensures
        spec_first_failure(outcomes) == Option::Some(k),
    decreases k,
{
    if k > 0 {
        lemma_first_failure_at(outcomes.drop_first(), k - 1);
    }
}

/// If every outcome succeeded, there is no first failure.
proof fn lemma_no_failure(outcomes: Seq<Result<Seq<char>, Seq<char>>>)
    requires
        forall|j: int| 0 <= j < outcomes.len() ==> outcomes[j] is Ok,
    ensures
        spec_first_failure(outcomes) is None,
    decreases outcomes.len(),
{
    if outcomes.len() > 0 {
        lemma_no_failure(outcomes.drop_first());
    }
}

/// Absorbs the ledger's answer for the next step of a direct-path run.
///
/// A failure ends the run at once with `StepSubmissionFailed` naming the
/// 1-based step and the reported cause, and leaves both the progress and
/// the store untouched. A success extends the progress; when it is the
/// fifth, the run ends successfully with the execute step's transaction
/// identifier (step 4), which is also recorded in the durable store
/// under the audit key. `None` means: submit the next step.
pub fn direct_step(
    progress: &mut DirectProgress,
    outcome: Result<String, String>,
    store: &mut KvStore,
) -> (r: Option<Result<String, WorkflowError>>)
    requires
        old(progress).landed@.len() < PLAN_STEPS,
    ensures
        outcome matches Result::Err(cause) ==> {
            &&& final(progress).landed@ == old(progress).landed@
            &&& final(store)@ == old(store)@
            &&& r matches Option::Some(Result::Err(e)) && e@ == ErrView::StepSubmissionFailed(
                old(progress).landed@.len() as int + 1,
                cause@,
            )
        },
        outcome matches Result::Ok(id) ==> final(progress).landed@ == old(progress).landed@.push(
            id,
        ),
        outcome is Ok && old(progress).landed@.len() < PLAN_STEPS - 1 ==> {
            &&& r is None
            &&& final(store)@ == old(store)@
        },
        outcome is Ok && old(progress).landed@.len() == PLAN_STEPS - 1 ==> {
            &&& r matches Option::Some(Result::Ok(sig)) && sig@ == final(progress).landed.deep_view()[3]
            &&& final(store)@ == old(store)@.insert(
                "last_confidential_transfer_signature"@,
                final(progress).landed.deep_view()[3],
            )
        },
{
    match outcome {
        Result::Err(cause) => {
            let step = progress.landed.len() as u64 + 1;
            Option::Some(Result::Err(WorkflowError::StepSubmissionFailed(step, cause)))
        },
        Result::Ok(id) => {
            progress.landed.push(id);
            if progress.landed.len() == PLAN_STEPS {
                let sig = progress.landed[3].clone();
                let recorded = sig.clone();
                store.record_value(last_transfer_signature_key(), recorded);
                Option::Some(Result::Ok(sig))
            } else {
                Option::None
            }
        },
    }
}

/// The view of a direct-path result.
pub open spec fn direct_result_view(r: Result<String, WorkflowError>) -> Result<Seq<char>, ErrView> {
    match r {
        Result::Ok(id) => Result::Ok(id@),
        Result::Err(e) => Result::Err(e@),
    }
}

/// What the direct path returns for a given list of per-step submission
/// outcomes: the execute step's identifier (step 4) when every step
/// lands, and `StepSubmissionFailed` naming the first failed 1-based
/// step and its cause otherwise.
pub open spec fn spec_direct_result(outcomes: Seq<Result<Seq<char>, Seq<char>>>) -> Result<
    Seq<char>,
    ErrView,
> {
    match spec_first_failure(outcomes) {
        Option::None => Result::Ok(outcomes[3]->Ok_0),
        Option::Some(k) => Result::Err(
            ErrView::StepSubmissionFailed(k + 1, outcomes[k]->Err_0),
        ),
    }
}

/// Copies one submission outcome.
fn clone_outcome(o: &Result<String, String>) -> (r: Result<String, String>)
    ensures
        outcome_view(r) == outcome_view(*o),
        r is Ok <==> o is Ok,
{
    match o {
        Result::Ok(id) => Result::Ok(id.clone()),
        Result::Err(cause) => Result::Err(cause.clone()),
    }
}

/// Runs a whole transfer along the direct path: builds the five-step
/// plan and consumes the ledger's per-step answers in order, stopping at
/// the first failure. `outcomes[i]` is the ledger's answer to the plan's
/// step `i + 1`; steps after the first failure are never consulted.
///
/// Fails with `ProofUnavailable`, touching nothing, when any proof
/// payload is absent. Otherwise returns [`spec_direct_result`] of the
/// outcomes, and records the execute step's identifier in `store` under
/// the audit key exactly when every step landed.
pub fn with_split_proofs(
    req: &TransferRequest,
    scratch: &ScratchAccounts,
    reserves: &Reserves,
    anchor: Anchor,
    outcomes: &Vec<Result<String, String>>,
    store: &mut KvStore,
) -> (r: Result<String, WorkflowError>)
    requires
        proofs_wf(req.proofs),
        outcomes@.len() == PLAN_STEPS,
    ensures
        !proofs_present(req.proofs) ==> {
            &&& r matches Result::Err(e) && e@ == ErrView::ProofUnavailable
            &&& final(store)@ == old(store)@
        },
        proofs_present(req.proofs) ==> direct_result_view(r) == spec_direct_result(
            outcome_seq_view(*outcomes),
        ),
        proofs_present(req.proofs) && spec_first_failure(outcome_seq_view(*outcomes)) is None
            ==> final(store)@ == old(store)@.insert(
            "last_confidential_transfer_signature"@,
            outcome_seq_view(*outcomes)[3]->Ok_0,
        ),
        proofs_present(req.proofs) && spec_first_failure(outcome_seq_view(*outcomes)) is Some
            ==> final(store)@ == old(store)@,
{
    let ghost ov = outcome_seq_view(*outcomes);
    let plan = match prepare_transactions(req, scratch, reserves, anchor) {
        Result::Ok(p) => p,
        Result::Err(e) => {
            return Result::Err(e);
        },
    };
    let mut progress = DirectProgress::new();
    let mut i: usize = 0;
    while i < PLAN_STEPS - 1
        invariant
            i <= PLAN_STEPS - 1,
            proofs_present(req.proofs),
            outcomes@.len() == PLAN_STEPS,
            ov == outcome_seq_view(*outcomes),
            progress.landed@.len() == i,
            forall|j: int| 0 <= j < i ==> (#[trigger] ov[j]) is Ok,
            forall|j: int| 0 <= j < i ==> progress.landed.deep_view()[j] == (#[trigger] ov[j])->Ok_0,
            store@ == old(store)@,
        decreases PLAN_STEPS - i,
    {
        let outcome = clone_outcome(&outcomes[i]);
        proof {
            assert(ov[i as int] == outcome_view(outcomes@[i as int]));
        }
        let verdict = direct_step(&mut progress, outcome, store);
        match verdict {
            Option::Some(res) => {
                proof {
                    lemma_first_failure_at(ov, i as int);
                }
                return res;
            },
            Option::None => {},
        }
        i = i + 1;
    }
    let outcome = clone_outcome(&outcomes[PLAN_STEPS - 1]);
    proof {
        assert(ov[PLAN_STEPS - 1] == outcome_view(outcomes@[PLAN_STEPS - 1]));
    }
    let verdict = direct_step(&mut progress, outcome, store);
    match verdict {
        Option::Some(res) => {
            proof {
                if res is Err {
                    lemma_first_failure_at(ov, PLAN_STEPS - 1);
                } else {
                    assert(forall|j: int| 0 <= j < PLAN_STEPS ==> (#[trigger] ov[j]) is Ok);
                    lemma_no_failure(ov);
                }
            }
            res
        },
        Option::None => {
            proof {
                // the fifth answer always ends the run, one way or the other
                assert(false);
            }
            Result::Err(WorkflowError::ProofUnavailable)
        },
    }
}

} // verus!
