use confidential_workflow::error::WorkflowError;
use confidential_workflow::json::JsonValue;
use confidential_workflow::relay_json::{
    check_transaction_error, extract_bundle_id, extract_final_report, extract_inflight_status,
    get_bundle_status,
};

fn text(s: &str) -> JsonValue {
    JsonValue::Text(s.to_owned())
}

fn object(pairs: Vec<(&str, JsonValue)>) -> JsonValue {
    JsonValue::Object(pairs.into_iter().map(|(k, v)| (k.to_owned(), v)).collect())
}

/// A status response whose `result.value` array holds the given entries.
fn status_response(entries: Vec<JsonValue>) -> JsonValue {
    object(vec![("result", object(vec![("value", JsonValue::Array(entries))]))])
}

#[test]
fn inflight_status_is_read_from_the_first_entry() {
    let resp = status_response(vec![object(vec![("status", text("Landed"))])]);
    assert_eq!(extract_inflight_status(&resp), Some("Landed".to_owned()));

    let resp = status_response(vec![
        object(vec![("status", text("Pending"))]),
        object(vec![("status", text("Landed"))]),
    ]);
    assert_eq!(extract_inflight_status(&resp), Some("Pending".to_owned()));
}

#[test]
fn malformed_inflight_responses_read_as_nothing() {
    let malformed = vec![
        object(vec![]),
        object(vec![("error", object(vec![("code", text("-32000"))]))]),
        object(vec![("result", object(vec![]))]),
        status_response(vec![]),
        status_response(vec![object(vec![])]),
        status_response(vec![object(vec![("status", JsonValue::Number("17".to_owned()))])]),
    ];
    for resp in malformed {
        assert_eq!(extract_inflight_status(&resp), None);
    }
}

#[test]
fn bundle_status_projects_all_three_fields() {
    let resp = status_response(vec![object(vec![
        ("confirmation_status", text("finalized")),
        ("err", object(vec![("Ok", JsonValue::Null)])),
        (
            "transactions",
            JsonValue::Array(vec![text("s1"), text("s2"), text("s3"), text("s4"), text("s5")]),
        ),
    ])]);
    let status = get_bundle_status(resp).expect("well-formed response");
    assert_eq!(status.confirmation_status, Some("finalized".to_owned()));
    assert!(status.err.is_some());
    assert_eq!(
        status.transactions,
        Some(vec![
            "s1".to_owned(),
            "s2".to_owned(),
            "s3".to_owned(),
            "s4".to_owned(),
            "s5".to_owned()
        ])
    );
}

#[test]
fn non_text_transaction_entries_are_passed_over() {
    let resp = status_response(vec![object(vec![(
        "transactions",
        JsonValue::Array(vec![text("s1"), JsonValue::Null, text("s2")]),
    )])]);
    let status = get_bundle_status(resp).expect("well-formed response");
    assert_eq!(status.transactions, Some(vec!["s1".to_owned(), "s2".to_owned()]));
}

#[test]
fn an_ok_null_error_means_no_execution_error() {
    let resp = status_response(vec![object(vec![
        ("confirmation_status", text("finalized")),
        ("err", object(vec![("Ok", JsonValue::Null)])),
    ])]);
    let status = get_bundle_status(resp).expect("well-formed response");
    assert_eq!(check_transaction_error(&status), None);
}

#[test]
fn a_null_error_means_no_execution_error() {
    let resp = status_response(vec![object(vec![
        ("confirmation_status", text("confirmed")),
        ("err", JsonValue::Null),
    ])]);
    let status = get_bundle_status(resp).expect("well-formed response");
    assert_eq!(check_transaction_error(&status), None);
}

#[test]
fn a_reported_error_is_surfaced_with_its_cause() {
    let resp = status_response(vec![object(vec![
        ("confirmation_status", text("finalized")),
        ("err", object(vec![("Err", text("InstructionError"))])),
    ])]);
    let status = get_bundle_status(resp).expect("well-formed response");
    assert_eq!(
        check_transaction_error(&status),
        Some("InstructionError".to_owned())
    );
}

#[test]
fn an_unrecognized_error_shape_is_still_an_error() {
    let resp = status_response(vec![object(vec![(
        "err",
        object(vec![("InstructionError", JsonValue::Number("0".to_owned()))]),
    )])]);
    let status = get_bundle_status(resp).expect("well-formed response");
    assert_eq!(
        check_transaction_error(&status),
        Some("the transfer reported an execution error".to_owned())
    );
}

#[test]
fn final_report_combines_status_and_error() {
    let resp = status_response(vec![object(vec![
        ("confirmation_status", text("confirmed")),
        ("err", object(vec![("Ok", JsonValue::Null)])),
    ])]);
    let report = extract_final_report(resp).expect("well-formed response");
    assert_eq!(report.confirmation_status, Some("confirmed".to_owned()));
    assert_eq!(report.err, None);
    assert_eq!(report.transactions, None);

    let report = extract_final_report(status_response(vec![]));
    assert!(report.is_none());
}

#[test]
fn the_bundle_id_is_the_result_string() {
    let resp = object(vec![("result", text("b-123"))]);
    assert_eq!(extract_bundle_id(&resp).expect("id present"), "b-123");
}

#[test]
fn a_submission_without_an_id_is_rejected() {
    let resp = object(vec![("error", object(vec![("message", text("bad bundle"))]))]);
    match extract_bundle_id(&resp) {
        Err(WorkflowError::BundleRejected(reason)) => assert_eq!(reason, "bad bundle"),
        other => panic!("expected BundleRejected, got {:?}", other),
    }
    let resp = object(vec![("result", object(vec![("nested", JsonValue::Bool(true))]))]);
    match extract_bundle_id(&resp) {
        Err(WorkflowError::BundleRejected(reason)) => {
            assert_eq!(reason, "relay response carried no bundle id");
        }
        other => panic!("expected BundleRejected, got {:?}", other),
    }
}
