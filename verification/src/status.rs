//! The bundle status state machine.
//!
//! After a bundle is handed to the relay, its fate is learned by polling:
//! first for the in-flight status (did the bundle land on the ledger at
//! all?), then for the finalization status (are its effects irreversible?).
//! A relay reports inclusion before finalization, so "landed" must never be
//! treated as success. Both phases poll on a fixed cadence and are bounded
//! by [`MAX_RETRIES`] attempts; exhausting a phase terminates the machine
//! with a timeout rather than hanging.
//!
//! The machine itself is pure: [`poll_step_inflight`] and
//! [`poll_step_final`] map the current state and one observed report to the
//! next state or a terminal outcome. The caller performs the actual network
//! round-trips and delays between steps.

use vstd::prelude::*;

use crate::error::{ErrView, PollPhase, WorkflowError};

verus! {

/// Bound on the number of polls in each phase.
pub const MAX_RETRIES: u64 = 40;

/// Fixed delay, in seconds, between two polls of the same phase. Bundle
/// outcomes resolve on a roughly fixed ledger cadence, so the delay is
/// constant rather than exponential.
pub const RETRY_DELAY_SECS: u64 = 3;

/// What one in-flight status report asks the machine to do.
#[derive(Clone, Copy, Debug, PartialEq, Eq, Structural)]
pub enum StatusClass {
    /// The report is not terminal for this phase: wait and poll again.
    ContinuePolling,
    /// The bundle landed on the ledger: move on to finalization polling.
    AdvanceToFinal,
    /// The report is a terminal failure.
    TerminalFailure,
}

/// Where the machine stands: the phase being polled and how many polls
/// this phase has already consumed.
#[derive(Clone, Copy, Debug, PartialEq, Eq, Structural)]
pub struct PollState {
    pub phase: PollPhase,
    pub attempts: u64,
}

/// The finalization-phase status of a bundle as projected from one relay
/// response: the coarse confirmation status, the relay-reported execution
/// error if the transfer itself failed, and the ordered on-ledger
/// transaction identifiers once known.
pub struct FinalReport {
    pub confirmation_status: Option<String>,
    pub err: Option<String>,
    pub transactions: Option<Vec<String>>,
}

/// The mathematical shape of a [`FinalReport`], with strings abstracted to
/// character sequences.
pub struct FinalReportView {
    pub confirmation_status: Option<Seq<char>>,
    pub err: Option<Seq<char>>,
    pub transactions: Option<Seq<Seq<char>>>,
}

/// The character sequence of an optional string.
pub open spec fn opt_str_view(s: Option<String>) -> Option<Seq<char>> {
    match s {
        Option::None => Option::None,
        Option::Some(x) => Option::Some(x@),
    }
}

impl View for FinalReport {
    type V = FinalReportView;

    open spec fn view(&self) -> FinalReportView {
        FinalReportView {
            confirmation_status: opt_str_view(self.confirmation_status),
            err: opt_str_view(self.err),
            transactions: match self.transactions {
                Option::None => Option::None,
                Option::Some(ids) => Option::Some(ids.deep_view()),
            },
        }
    }
}

/// What one step of the machine produced: either the next state together
/// with whether to wait the fixed delay before polling again, or a
/// terminal outcome carrying the five on-ledger transaction identifiers on
/// success.
pub enum PollOutcome {
    KeepPolling(PollState, bool),
    Finished(Result<Vec<String>, WorkflowError>),
}

/// The mathematical shape of a [`PollOutcome`].
pub enum PollOutcomeView {
    KeepPolling(PollState, bool),
    Finished(Result<Seq<Seq<char>>, ErrView>),
}

impl View for PollOutcome {
    type V = PollOutcomeView;

    open spec fn view(&self) -> PollOutcomeView {
        match self {
            PollOutcome::KeepPolling(state, wait) => PollOutcomeView::KeepPolling(*state, *wait),
            PollOutcome::Finished(r) => PollOutcomeView::Finished(
                match r {
                    Result::Ok(ids) => Result::Ok(ids.deep_view()),
                    Result::Err(e) => Result::Err(e@),
                },
            ),
        }
    }
}

/// How an in-flight status report is classified. The relay's status
/// vocabulary is open-ended: exactly `Landed` advances, exactly `Failed`
/// is a terminal failure, and everything else — `Pending`, an unknown
/// string, or a response with no readable status — means keep polling.
pub open spec fn spec_classify_inflight(status: Option<Seq<char>>) -> StatusClass {
    if status == Option::Some("Landed"@) {
        StatusClass::AdvanceToFinal
    } else if status == Option::Some("Failed"@) {
        StatusClass::TerminalFailure
    } else {
        StatusClass::ContinuePolling
    }
}

/// Classifies one in-flight status report.
pub fn classify_inflight(status: &Option<String>) -> (c: StatusClass)
    ensures
        c == spec_classify_inflight(opt_str_view(*status)),
{
    match status {
        Option::None => StatusClass::ContinuePolling,
        Option::Some(s) => {
            if *s == "Landed".to_owned() {
                StatusClass::AdvanceToFinal
            } else if *s == "Failed".to_owned() {
                StatusClass::TerminalFailure
            } else {
                StatusClass::ContinuePolling
            }
        },
    }
}

/// The terminal verdict, if any, that one finalization report forces.
///
/// `None` means the report is not terminal and polling continues: this
/// covers an unreadable report, an unknown confirmation status, and
/// `confirmed` without an execution error (confirmed is inclusion-plus,
/// but still short of irreversibility). A report whose status is
/// `confirmed` or `finalized` and that carries an execution error is a
/// terminal failure surfacing that error. `finalized` without an error is
/// terminal success with the reported transaction identifiers; if the
/// relay finalized but reported no identifiers, the response shape is
/// broken and the verdict is a rejection rather than an invented success.
pub open spec fn spec_final_verdict(report: Option<FinalReportView>) -> Option<
    Result<Seq<Seq<char>>, ErrView>,
> {
    match report {
        Option::None => Option::None,
        Option::Some(rep) => {
            if rep.confirmation_status == Option::Some("confirmed"@) {
                match rep.err {
                    Option::Some(detail) => Option::Some(
                        Result::Err(ErrView::BundleFinalizedWithError(detail)),
                    ),
                    Option::None => Option::None,
                }
            } else if rep.confirmation_status == Option::Some("finalized"@) {
                match rep.err {
                    Option::Some(detail) => Option::Some(
                        Result::Err(ErrView::BundleFinalizedWithError(detail)),
                    ),
                    Option::None => match rep.transactions {
                        Option::Some(ids) => Option::Some(Result::Ok(ids)),
                        Option::None => Option::Some(
                            Result::Err(
                                ErrView::BundleRejected(
                                    "finalized bundle status carried no transaction list"@,
                                ),
                            ),
                        ),
                    },
                }
            } else {
                Option::None
            }
        },
    }
}

/// One step of the in-flight polling phase.
pub open spec fn spec_step_inflight(state: PollState, status: Option<Seq<char>>) -> PollOutcomeView {
    match spec_classify_inflight(status) {
        StatusClass::AdvanceToFinal => PollOutcomeView::KeepPolling(
            (PollState { phase: PollPhase::Final, attempts: 0 }),
            false,
        ),
        StatusClass::TerminalFailure => PollOutcomeView::Finished(
            Result::Err(ErrView::BundleLandingFailed),
        ),
        StatusClass::ContinuePolling => {
            if state.attempts + 1 == MAX_RETRIES {
                PollOutcomeView::Finished(
                    Result::Err(ErrView::BundleTimedOut(PollPhase::InFlight)),
                )
            } else {
                PollOutcomeView::KeepPolling(
                    (PollState { phase: PollPhase::InFlight, attempts: (state.attempts + 1) as u64 }),
                    true,
                )
            }
        },
    }
}

/// One step of the finalization polling phase.
pub open spec fn spec_step_final(state: PollState, report: Option<FinalReportView>) -> PollOutcomeView {
    match spec_final_verdict(report) {
        Option::Some(verdict) => PollOutcomeView::Finished(verdict),
        Option::None => {
            if state.attempts + 1 == MAX_RETRIES {
                PollOutcomeView::Finished(Result::Err(ErrView::BundleTimedOut(PollPhase::Final)))
            } else {
                PollOutcomeView::KeepPolling(
                    (PollState { phase: PollPhase::Final, attempts: (state.attempts + 1) as u64 }),
                    true,
                )
            }
        },
    }
}

/// Advances the machine by one in-flight poll.
///
/// `Landed` advances to the finalization phase (with no delay before its
/// first poll and a fresh attempt budget); `Failed` terminates the
/// workflow; anything else consumes one attempt and asks the caller to
/// wait the fixed delay, until the attempt budget is exhausted and the
/// machine times out.
pub fn poll_step_inflight(state: PollState, status: &Option<String>) -> (r: PollOutcome)
    requires
        state.phase == PollPhase::InFlight,
        state.attempts < MAX_RETRIES,
    ensures
        r@ == spec_step_inflight(state, opt_str_view(*status)),
{
    match classify_inflight(status) {
        StatusClass::AdvanceToFinal => PollOutcome::KeepPolling(
            PollState { phase: PollPhase::Final, attempts: 0 },
            false,
        ),
        StatusClass::TerminalFailure => PollOutcome::Finished(
            Result::Err(WorkflowError::BundleLandingFailed),
        ),
        StatusClass::ContinuePolling => {
            if state.attempts + 1 == MAX_RETRIES {
                PollOutcome::Finished(
                    Result::Err(WorkflowError::BundleTimedOut(PollPhase::InFlight)),
                )
            } else {
                PollOutcome::KeepPolling(
                    PollState { phase: PollPhase::InFlight, attempts: state.attempts + 1 },
                    true,
                )
            }
        },
    }
}

/// Copies a list of transaction identifiers.
fn clone_id_list(ids: &Vec<String>) -> (r: Vec<String>)
    ensures
        r.deep_view() == ids.deep_view(),
{
    let mut r: Vec<String> = Vec::new();
    let mut i: usize = 0;
    while i < ids.len()
        invariant
            i <= ids.len(),
            r.len() == i,
            forall|j: int| 0 <= j < i ==> r.deep_view()[j] == ids.deep_view()[j],
        decreases ids.len() - i,
    {
        let entry = ids[i].clone();
        r.push(entry);
        i = i + 1;
    }
    proof {
        assert(r.deep_view() =~= ids.deep_view());
    }
    r
}

/// Advances the machine by one finalization poll, per
/// [`spec_final_verdict`].
pub fn poll_step_final(state: PollState, report: &Option<FinalReport>) -> (r: PollOutcome)
    requires
        state.phase == PollPhase::Final,
        state.attempts < MAX_RETRIES,
    ensures
        r@ == spec_step_final(state, opt_report_view(*report)),
{
    let verdict: Option<Result<Vec<String>, WorkflowError>> = match report {
        Option::None => Option::None,
        Option::Some(rep) => {
            let confirmed = match &rep.confirmation_status {
                Option::Some(s) => *s == "confirmed".to_owned(),
                Option::None => false,
            };
            let finalized = match &rep.confirmation_status {
                Option::Some(s) => *s == "finalized".to_owned(),
                Option::None => false,
            };
            if confirmed {
                match &rep.err {
                    Option::Some(detail) => Option::Some(
                        Result::Err(WorkflowError::BundleFinalizedWithError(detail.clone())),
                    ),
                    Option::None => Option::None,
                }
            } else if finalized {
                match &rep.err {
                    Option::Some(detail) => Option::Some(
                        Result::Err(WorkflowError::BundleFinalizedWithError(detail.clone())),
                    ),
                    Option::None => match &rep.transactions {
                        Option::Some(ids) => Option::Some(Result::Ok(clone_id_list(ids))),
                        Option::None => Option::Some(
                            Result::Err(
                                WorkflowError::BundleRejected(
                                    "finalized bundle status carried no transaction list".to_owned(),
                                ),
                            ),
                        ),
                    },
                }
            } else {
                Option::None
            }
        },
    };
    match verdict {
        Option::Some(v) => PollOutcome::Finished(v),
        Option::None => {
            if state.attempts + 1 == MAX_RETRIES {
                PollOutcome::Finished(Result::Err(WorkflowError::BundleTimedOut(PollPhase::Final)))
            } else {
                PollOutcome::KeepPolling(
                    PollState { phase: PollPhase::Final, attempts: state.attempts + 1 },
                    true,
                )
            }
        },
    }
}

/// The view of an optional finalization report.
pub open spec fn opt_report_view(report: Option<FinalReport>) -> Option<FinalReportView> {
    match report {
        Option::None => Option::None,
        Option::Some(rep) => Option::Some(rep@),
    }
}

/// The view of a polling result: identifiers and errors abstracted to
/// their character sequences.
pub open spec fn poll_result_view(r: Result<Vec<String>, WorkflowError>) -> Result<
    Seq<Seq<char>>,
    ErrView,
> {
    match r {
        Result::Ok(ids) => Result::Ok(ids.deep_view()),
        Result::Err(e) => Result::Err(e@),
    }
}

/// The views of a list of in-flight status reports.
pub open spec fn status_seq_view(v: Vec<Option<String>>) -> Seq<Option<Seq<char>>> {
    v@.map_values(|s: Option<String>| opt_str_view(s))
}

/// The views of a list of finalization reports.
pub open spec fn report_seq_view(v: Vec<Option<FinalReport>>) -> Seq<Option<FinalReportView>> {
    v@.map_values(|rep: Option<FinalReport>| opt_report_view(rep))
}

/// How the in-flight phase can end.
pub enum InFlightRun {
    Advanced,
    Failed,
    TimedOut,
}

/// How the finalization phase can end.
pub enum FinalRun {
    Success(Seq<Seq<char>>),
    Failed(ErrView),
    TimedOut,
}

/// The outcome of polling the in-flight phase against a given stream of
/// status reports, having already spent `attempts` polls. A stream that
/// ends without a terminal report counts as never reaching one, so it
/// times out.
pub open spec fn spec_inflight_run(statuses: Seq<Option<Seq<char>>>, attempts: nat) -> InFlightRun
    decreases statuses.len(),
{
    if statuses.len() == 0 {
        InFlightRun::TimedOut
    } else {
        match spec_classify_inflight(statuses[0]) {
            StatusClass::AdvanceToFinal => InFlightRun::Advanced,
            StatusClass::TerminalFailure => InFlightRun::Failed,
            StatusClass::ContinuePolling => {
                if attempts + 1 >= MAX_RETRIES {
                    InFlightRun::TimedOut
                } else {
                    spec_inflight_run(statuses.drop_first(), attempts + 1)
                }
            },
        }
    }
}

/// The outcome of polling the finalization phase against a given stream
/// of reports, having already spent `attempts` polls.
pub open spec fn spec_final_run(reports: Seq<Option<FinalReportView>>, attempts: nat) -> FinalRun
    decreases reports.len(),
{
    if reports.len() == 0 {
        FinalRun::TimedOut
    } else {
        match spec_final_verdict(reports[0]) {
            Option::Some(Result::Ok(ids)) => FinalRun::Success(ids),
            Option::Some(Result::Err(e)) => FinalRun::Failed(e),
            Option::None => {
                if attempts + 1 >= MAX_RETRIES {
                    FinalRun::TimedOut
                } else {
                    spec_final_run(reports.drop_first(), attempts + 1)
                }
            },
        }
    }
}

/// The outcome of the whole two-phase polling machine against given
/// streams of in-flight and finalization reports.
pub open spec fn spec_confirm_bundle_status(
    statuses: Seq<Option<Seq<char>>>,
    reports: Seq<Option<FinalReportView>>,
) -> Result<Seq<Seq<char>>, ErrView> {
    match spec_inflight_run(statuses, 0) {
        InFlightRun::Failed => Result::Err(ErrView::BundleLandingFailed),
        InFlightRun::TimedOut => Result::Err(ErrView::BundleTimedOut(PollPhase::InFlight)),
        InFlightRun::Advanced => match spec_final_run(reports, 0) {
            FinalRun::Success(ids) => Result::Ok(ids),
            FinalRun::Failed(e) => Result::Err(e),
            FinalRun::TimedOut => Result::Err(ErrView::BundleTimedOut(PollPhase::Final)),
        },
    }
}

/// Runs the two-phase polling machine to completion over pre-observed
/// report streams: each in-flight report is consumed in turn until the
/// bundle lands, fails, or the phase is out of attempts, and then each
/// finalization report likewise. The machine never hangs: every path
/// ends in a terminal outcome.
pub fn confirm_bundle_status(
    statuses: &Vec<Option<String>>,
    reports: &Vec<Option<FinalReport>>,
) -> (r: Result<Vec<String>, WorkflowError>)
    ensures
        poll_result_view(r) == spec_confirm_bundle_status(
            status_seq_view(*statuses),
            report_seq_view(*reports),
        ),
{
    let ghost sv = status_seq_view(*statuses);
    let ghost rv = report_seq_view(*reports);
    let mut state = PollState { phase: PollPhase::InFlight, attempts: 0 };
    let mut i: usize = 0;
    proof {
        assert(sv.skip(0) =~= sv);
    }
    loop
        invariant
            state.phase == PollPhase::InFlight,
            state.attempts == i,
            i <= statuses.len(),
            i < MAX_RETRIES,
            sv == status_seq_view(*statuses),
            rv == report_seq_view(*reports),
            spec_inflight_run(sv, 0) == spec_inflight_run(sv.skip(i as int), i as nat),
        ensures
            spec_inflight_run(sv, 0) == InFlightRun::Advanced,
        decreases statuses.len() - i,
    {
        if i == statuses.len() {
            proof {
                assert(sv.skip(i as int).len() == 0);
            }
            return Result::Err(WorkflowError::BundleTimedOut(PollPhase::InFlight));
        }
        let out = poll_step_inflight(state, &statuses[i]);
        proof {
            assert(sv.skip(i as int)[0] == opt_str_view(statuses@[i as int]));
            assert(sv.skip(i as int).drop_first() =~= sv.skip(i as int + 1));
        }
        match out {
            PollOutcome::Finished(res) => {
                return res;
            },
            PollOutcome::KeepPolling(next, _wait) => {
                if next.phase == PollPhase::Final {
                    proof {
                        assert(spec_inflight_run(sv, 0) == InFlightRun::Advanced);
                    }
                    break;
                }
                state = next;
                i = i + 1;
            },
        }
    }
    state = PollState { phase: PollPhase::Final, attempts: 0 };
    let mut k: usize = 0;
    proof {
        assert(rv.skip(0) =~= rv);
    }
    loop
        invariant
            state.phase == PollPhase::Final,
            state.attempts == k,
            k <= reports.len(),
            k < MAX_RETRIES,
            sv == status_seq_view(*statuses),
            rv == report_seq_view(*reports),
            spec_inflight_run(sv, 0) == InFlightRun::Advanced,
            spec_confirm_bundle_status(sv, rv) == match spec_final_run(rv, 0) {
                FinalRun::Success(ids) => Result::<Seq<Seq<char>>, ErrView>::Ok(ids),
                FinalRun::Failed(e) => Result::<Seq<Seq<char>>, ErrView>::Err(e),
                FinalRun::TimedOut => Result::<Seq<Seq<char>>, ErrView>::Err(
                    ErrView::BundleTimedOut(PollPhase::Final),
                ),
            },
            spec_final_run(rv, 0) == spec_final_run(rv.skip(k as int), k as nat),
        decreases reports.len() - k,
    {
        if k == reports.len() {
            proof {
                assert(rv.skip(k as int).len() == 0);
            }
            return Result::Err(WorkflowError::BundleTimedOut(PollPhase::Final));
        }
        let out = poll_step_final(state, &reports[k]);
        proof {
            assert(rv.skip(k as int)[0] == opt_report_view(reports@[k as int]));
            assert(rv.skip(k as int).drop_first() =~= rv.skip(k as int + 1));
        }
        match out {
            PollOutcome::Finished(res) => {
                return res;
            },
            PollOutcome::KeepPolling(next, _wait) => {
                state = next;
                k = k + 1;
            },
        }
    }
}

/// State-machine completeness law for the in-flight phase: every status
/// report maps to exactly one class — exactly `Landed` advances, exactly
/// `Failed` is a terminal failure, and every other report, including an
/// unknown status string and an unreadable response, continues polling.
pub proof fn lemma_inflight_classification_total(status: Option<Seq<char>>)
    ensures
        spec_classify_inflight(status) == StatusClass::AdvanceToFinal <==> status
            == Option::Some("Landed"@),
        spec_classify_inflight(status) == StatusClass::TerminalFailure <==> status
            == Option::Some("Failed"@),
        spec_classify_inflight(status) == StatusClass::ContinuePolling <==> (status
            != Option::Some("Landed"@) && status != Option::Some("Failed"@)),
{
    reveal_strlit("Landed");
    reveal_strlit("Failed");
    assert("Landed"@[0] == 'L');
    assert("Failed"@[0] == 'F');
    assert("Landed"@ != "Failed"@);
}

/// State-machine completeness law for the finalization phase: every
/// report maps to exactly one of continue-polling, terminal success and
/// terminal failure. A missing or unknown confirmation status, and
/// `confirmed` without an execution error, continue polling; an execution
/// error under `confirmed` or `finalized` is a terminal failure; and
/// `finalized` without an error is terminal, successful exactly when the
/// transaction identifiers are present.
pub proof fn lemma_final_classification_total(report: Option<FinalReportView>)
    ensures
        report is None ==> spec_final_verdict(report) is None,
        report matches Option::Some(rep) && rep.confirmation_status != Option::Some("confirmed"@)
            && rep.confirmation_status != Option::Some("finalized"@) ==> spec_final_verdict(report)
            is None,
        report matches Option::Some(rep) && rep.confirmation_status == Option::Some("confirmed"@)
            && rep.err is None ==> spec_final_verdict(report) is None,
        report is Some && (report->Some_0.confirmation_status == Option::Some("confirmed"@)
            || report->Some_0.confirmation_status == Option::Some("finalized"@))
            && report->Some_0.err is Some ==> spec_final_verdict(report) == Option::Some(
            Result::<Seq<Seq<char>>, ErrView>::Err(
                ErrView::BundleFinalizedWithError(report->Some_0.err->Some_0),
            ),
        ),
        report is Some && report->Some_0.confirmation_status == Option::Some("finalized"@)
            && report->Some_0.err is None && report->Some_0.transactions is Some
            ==> spec_final_verdict(report) == Option::Some(
            Result::<Seq<Seq<char>>, ErrView>::Ok(report->Some_0.transactions->Some_0),
        ),
        report matches Option::Some(rep) && rep.confirmation_status == Option::Some("finalized"@)
            && rep.err is None && rep.transactions is None ==> spec_final_verdict(report) matches
            Option::Some(Result::Err(ErrView::BundleRejected(_))),
{
    reveal_strlit("confirmed");
    reveal_strlit("finalized");
    assert("confirmed"@[0] == 'c');
    assert("finalized"@[0] == 'f');
    assert("confirmed"@ != "finalized"@);
}

/// Boundedness law for the in-flight phase: a stream of reports in which
/// no report is terminal — however long — ends in a timeout, never in a
/// hang or any other outcome.
pub proof fn lemma_inflight_polling_bounded(statuses: Seq<Option<Seq<char>>>, attempts: nat)
    requires
        forall|j: int|
            0 <= j < statuses.len() ==> spec_classify_inflight(statuses[j])
                == StatusClass::ContinuePolling,
    ensures
        spec_inflight_run(statuses, attempts) == InFlightRun::TimedOut,
    decreases statuses.len(),
{
    if statuses.len() > 0 && attempts + 1 < MAX_RETRIES {
        assert(forall|j: int|
            0 <= j < statuses.drop_first().len() ==> spec_classify_inflight(
                #[trigger] statuses.drop_first()[j],
            ) == StatusClass::ContinuePolling) by {
            assert(forall|j: int|
                0 <= j < statuses.drop_first().len() ==> statuses.drop_first()[j] == statuses[j
                    + 1]);
        }
        lemma_inflight_polling_bounded(statuses.drop_first(), attempts + 1);
    }
}

/// Boundedness law for the finalization phase, in the same shape.
pub proof fn lemma_final_polling_bounded(reports: Seq<Option<FinalReportView>>, attempts: nat)
    requires
        forall|j: int| 0 <= j < reports.len() ==> spec_final_verdict(reports[j]) is None,
    ensures
        spec_final_run(reports, attempts) == FinalRun::TimedOut,
    decreases reports.len(),
{
    if reports.len() > 0 && attempts + 1 < MAX_RETRIES {
        assert(forall|j: int|
            0 <= j < reports.drop_first().len() ==> spec_final_verdict(
                #[trigger] reports.drop_first()[j],
            ) is None) by {
            assert(forall|j: int|
                0 <= j < reports.drop_first().len() ==> reports.drop_first()[j] == reports[j + 1]);
        }
        lemma_final_polling_bounded(reports.drop_first(), attempts + 1);
    }
}

/// Boundedness law for the whole machine: if no in-flight report is ever
/// terminal, the machine ends with an in-flight timeout; if the bundle
/// lands but no finalization report is ever terminal, it ends with a
/// finalization timeout.
pub proof fn lemma_confirm_bundle_status_bounded(
    statuses: Seq<Option<Seq<char>>>,
    reports: Seq<Option<FinalReportView>>,
)
    ensures
        (forall|j: int|
            0 <= j < statuses.len() ==> spec_classify_inflight(statuses[j])
                == StatusClass::ContinuePolling) ==> spec_confirm_bundle_status(statuses, reports)
            == Result::<Seq<Seq<char>>, ErrView>::Err(ErrView::BundleTimedOut(PollPhase::InFlight)),
        (spec_inflight_run(statuses, 0) == InFlightRun::Advanced && (forall|j: int|
            0 <= j < reports.len() ==> spec_final_verdict(reports[j]) is None))
            ==> spec_confirm_bundle_status(statuses, reports) == Result::<
            Seq<Seq<char>>,
            ErrView,
        >::Err(ErrView::BundleTimedOut(PollPhase::Final)),
{
    if forall|j: int|
        0 <= j < statuses.len() ==> spec_classify_inflight(statuses[j])
            == StatusClass::ContinuePolling {
        lemma_inflight_polling_bounded(statuses, 0);
    }
    if forall|j: int| 0 <= j < reports.len() ==> spec_final_verdict(reports[j]) is None {
        lemma_final_polling_bounded(reports, 0);
    }
}

} // verus!
