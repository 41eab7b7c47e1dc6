//! The closed set of failures a transfer workflow can surface.

use vstd::prelude::*;

verus! {

/// The two bounded polling phases of the bundle status state machine.
///
/// A relay reports a bundle's *inclusion* (landed) before it reports
/// ledger-level *finalization*, so the machine polls in two phases and a
/// timeout names the phase it ran out of attempts in.
#[derive(Clone, Copy, Debug, PartialEq, Eq, Structural)]
pub enum PollPhase {
    InFlight,
    Final,
}

/// Every failure a workflow operation can return.
///
/// All failures are returned to the immediate caller as values; none is
/// silently swallowed and none panics.
#[derive(Debug)]
pub enum WorkflowError {
    /// A required proof payload was absent; nothing was built or submitted.
    ProofUnavailable,
    /// The direct path's transaction for the given step (1 through 5) was
    /// rejected or failed to confirm; later steps were never attempted.
    StepSubmissionFailed(u64, String),
    /// The relay refused the bundle outright, or answered with a shape the
    /// protocol does not allow.
    BundleRejected(String),
    /// In-flight polling observed the relay status `Failed`.
    BundleLandingFailed,
    /// Polling exhausted its bounded attempts in the given phase without
    /// reaching a terminal state.
    BundleTimedOut(PollPhase),
    /// The relay finalized the bundle, but the transfer itself reported an
    /// execution error; the detail is the relay-reported cause.
    BundleFinalizedWithError(String),
    /// Every attempt of the bounded-retry wrapper failed; wraps the last
    /// observed failure.
    RetryExhausted(Box<WorkflowError>),
}

/// The mathematical shape of a [`WorkflowError`]: the same variants, with
/// every carried string abstracted to its character sequence. Contracts
/// speak of this shape, so that two separately built strings with the same
/// characters denote the same failure.
pub enum ErrView {
    ProofUnavailable,
    StepSubmissionFailed(int, Seq<char>),
    BundleRejected(Seq<char>),
    BundleLandingFailed,
    BundleTimedOut(PollPhase),
    BundleFinalizedWithError(Seq<char>),
    RetryExhausted(Box<ErrView>),
}

impl View for WorkflowError {
    type V = ErrView;

    open spec fn view(&self) -> ErrView
        decreases self,
    {
        match self {
            WorkflowError::ProofUnavailable => ErrView::ProofUnavailable,
            WorkflowError::StepSubmissionFailed(step, cause) => ErrView::StepSubmissionFailed(
                *step as int,
                cause@,
            ),
            WorkflowError::BundleRejected(reason) => ErrView::BundleRejected(reason@),
            WorkflowError::BundleLandingFailed => ErrView::BundleLandingFailed,
            WorkflowError::BundleTimedOut(phase) => ErrView::BundleTimedOut(*phase),
            WorkflowError::BundleFinalizedWithError(detail) => ErrView::BundleFinalizedWithError(
                detail@,
            ),
            WorkflowError::RetryExhausted(last) => ErrView::RetryExhausted(Box::new((**last)@)),
        }
    }
}

} // verus!
