use confidential_workflow::error::{PollPhase, WorkflowError};
use confidential_workflow::status::{
    classify_inflight, confirm_bundle_status, poll_step_final, poll_step_inflight, FinalReport,
    PollOutcome, PollState, StatusClass, MAX_RETRIES,
};

fn final_report(
    confirmation_status: Option<&str>,
    err: Option<&str>,
    transactions: Option<Vec<&str>>,
) -> FinalReport {
    FinalReport {
        confirmation_status: confirmation_status.map(|s| s.to_owned()),
        err: err.map(|s| s.to_owned()),
        transactions: transactions.map(|ids| ids.into_iter().map(|s| s.to_owned()).collect()),
    }
}

fn five_ids() -> Vec<&'static str> {
    vec!["sig1", "sig2", "sig3", "sig4", "sig5"]
}

#[test]
fn classify_inflight_landed_advances() {
    assert!(matches!(
        classify_inflight(&Some("Landed".to_owned())),
        StatusClass::AdvanceToFinal
    ));
}

#[test]
fn classify_inflight_failed_is_terminal() {
    assert!(matches!(
        classify_inflight(&Some("Failed".to_owned())),
        StatusClass::TerminalFailure
    ));
}

#[test]
fn classify_inflight_unknown_or_missing_continues() {
    assert!(matches!(
        classify_inflight(&Some("Pending".to_owned())),
        StatusClass::ContinuePolling
    ));
    assert!(matches!(
        classify_inflight(&Some("SomethingNew".to_owned())),
        StatusClass::ContinuePolling
    ));
    assert!(matches!(classify_inflight(&None), StatusClass::ContinuePolling));
}

#[test]
fn landed_then_finalized_returns_ids_in_order() {
    // in-flight poll sequence Pending, Pending, Landed; then final poll
    // sequence confirmed, finalized with no error
    let statuses = vec![
        Some("Pending".to_owned()),
        Some("Pending".to_owned()),
        Some("Landed".to_owned()),
    ];
    let reports = vec![
        Some(final_report(Some("confirmed"), None, None)),
        Some(final_report(Some("finalized"), None, Some(five_ids()))),
    ];
    let r = confirm_bundle_status(&statuses, &reports);
    let ids = r.expect("bundle should finalize");
    assert_eq!(ids, vec!["sig1", "sig2", "sig3", "sig4", "sig5"]);
}

#[test]
fn failed_on_first_poll_skips_final_phase() {
    // no final report is supplied at all: a terminal in-flight failure
    // must end the machine before any final-phase polling
    let statuses = vec![Some("Failed".to_owned())];
    let reports: Vec<Option<FinalReport>> = Vec::new();
    let r = confirm_bundle_status(&statuses, &reports);
    assert!(matches!(r, Err(WorkflowError::BundleLandingFailed)));
}

#[test]
fn never_terminal_times_out_in_flight() {
    let statuses: Vec<Option<String>> =
        (0..MAX_RETRIES).map(|_| Some("Pending".to_owned())).collect();
    let reports: Vec<Option<FinalReport>> = Vec::new();
    let r = confirm_bundle_status(&statuses, &reports);
    assert!(matches!(
        r,
        Err(WorkflowError::BundleTimedOut(PollPhase::InFlight))
    ));
}

#[test]
fn unknown_statuses_also_time_out_rather_than_crash() {
    let statuses: Vec<Option<String>> = (0..MAX_RETRIES)
        .map(|i| if i % 2 == 0 { Some(format!("Weird{}", i)) } else { None })
        .collect();
    let reports: Vec<Option<FinalReport>> = Vec::new();
    let r = confirm_bundle_status(&statuses, &reports);
    assert!(matches!(
        r,
        Err(WorkflowError::BundleTimedOut(PollPhase::InFlight))
    ));
}

#[test]
fn confirmed_keeps_polling_until_finalized() {
    let statuses = vec![Some("Landed".to_owned())];
    let reports: Vec<Option<FinalReport>> = (0..MAX_RETRIES)
        .map(|_| Some(final_report(Some("confirmed"), None, None)))
        .collect();
    let r = confirm_bundle_status(&statuses, &reports);
    assert!(matches!(
        r,
        Err(WorkflowError::BundleTimedOut(PollPhase::Final))
    ));
}

#[test]
fn finalized_with_error_surfaces_the_error() {
    let statuses = vec![Some("Landed".to_owned())];
    let reports = vec![Some(final_report(
        Some("finalized"),
        Some("InstructionError"),
        Some(five_ids()),
    ))];
    let r = confirm_bundle_status(&statuses, &reports);
    match r {
        Err(WorkflowError::BundleFinalizedWithError(detail)) => {
            assert_eq!(detail, "InstructionError");
        }
        other => panic!("expected BundleFinalizedWithError, got {:?}", other),
    }
}

#[test]
fn confirmed_with_error_is_terminal_too() {
    let statuses = vec![Some("Landed".to_owned())];
    let reports = vec![Some(final_report(Some("confirmed"), Some("boom"), None))];
    let r = confirm_bundle_status(&statuses, &reports);
    assert!(matches!(
        r,
        Err(WorkflowError::BundleFinalizedWithError(_))
    ));
}

#[test]
fn finalized_without_ids_is_a_rejection() {
    let statuses = vec![Some("Landed".to_owned())];
    let reports = vec![Some(final_report(Some("finalized"), None, None))];
    let r = confirm_bundle_status(&statuses, &reports);
    assert!(matches!(r, Err(WorkflowError::BundleRejected(_))));
}

#[test]
fn poll_step_transitions_match_the_machine() {
    let start = PollState { phase: PollPhase::InFlight, attempts: 0 };

    // Pending consumes an attempt and asks for a delay
    match poll_step_inflight(start, &Some("Pending".to_owned())) {
        PollOutcome::KeepPolling(next, wait) => {
            assert_eq!(next.phase, PollPhase::InFlight);
            assert_eq!(next.attempts, 1);
            assert!(wait);
        }
        other => panic!("expected KeepPolling, got {:?}", outcome_name(&other)),
    }

    // Landed advances with a fresh budget and no delay
    match poll_step_inflight(start, &Some("Landed".to_owned())) {
        PollOutcome::KeepPolling(next, wait) => {
            assert_eq!(next.phase, PollPhase::Final);
            assert_eq!(next.attempts, 0);
            assert!(!wait);
        }
        other => panic!("expected KeepPolling, got {:?}", outcome_name(&other)),
    }

    // the last allowed attempt times out instead of waiting again
    let last = PollState { phase: PollPhase::InFlight, attempts: MAX_RETRIES - 1 };
    match poll_step_inflight(last, &Some("Pending".to_owned())) {
        PollOutcome::Finished(Err(WorkflowError::BundleTimedOut(PollPhase::InFlight))) => {}
        other => panic!("expected timeout, got {:?}", outcome_name(&other)),
    }

    // a finalized report ends the final phase with the identifiers
    let final_state = PollState { phase: PollPhase::Final, attempts: 3 };
    let report = Some(final_report(Some("finalized"), None, Some(five_ids())));
    match poll_step_final(final_state, &report) {
        PollOutcome::Finished(Ok(ids)) => assert_eq!(ids.len(), 5),
        other => panic!("expected success, got {:?}", outcome_name(&other)),
    }
}

fn outcome_name(outcome: &PollOutcome) -> &'static str {
    match outcome {
        PollOutcome::KeepPolling(_, _) => "KeepPolling",
        PollOutcome::Finished(Ok(_)) => "Finished(Ok)",
        PollOutcome::Finished(Err(_)) => "Finished(Err)",
    }
}
