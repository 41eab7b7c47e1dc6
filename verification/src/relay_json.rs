//! Reading the relay's JSON answers.
//!
//! The relay speaks JSON over HTTP. The caller performs the transport
//! and the parsing, converts each parsed document into the library's
//! [`JsonValue`] model, and hands it here; this module walks the model
//! and projects the fields the workflow acts on into plain values: the
//! relay-assigned bundle identifier after a submission, the coarse
//! in-flight status, and the finalization report. Each projection's
//! contract fixes its result exactly.
//!
//! The walk is deliberately forgiving: a response missing any expected
//! field projects to "nothing", which the status state machine treats
//! as "keep polling" — never as a crash.

use vstd::prelude::*;

use crate::error::{ErrView, WorkflowError};
use crate::json::{spec_element, spec_member, spec_text_of, JsonValue};
use crate::status::{opt_report_view, opt_str_view, FinalReport, FinalReportView};

verus! {

/// The relay-reported per-bundle status projected from one status
/// response: the coarse confirmation status, the raw per-bundle error
/// value if one was reported, and the on-ledger transaction identifiers
/// once known.
pub struct BundleStatus {
    pub confirmation_status: Option<String>,
    pub err: Option<JsonValue>,
    pub transactions: Option<Vec<String>>,
}

/// The mathematical shape of a [`BundleStatus`]: strings abstracted to
/// character sequences; the raw error value carried as it stands.
pub struct BundleStatusView {
    pub confirmation_status: Option<Seq<char>>,
    pub err: Option<JsonValue>,
    pub transactions: Option<Seq<Seq<char>>>,
}

impl View for BundleStatus {
    type V = BundleStatusView;

    open spec fn view(&self) -> BundleStatusView {
        BundleStatusView {
            confirmation_status: opt_str_view(self.confirmation_status),
            err: self.err,
            transactions: match self.transactions {
                Option::None => Option::None,
                Option::Some(ids) => Option::Some(ids.deep_view()),
            },
        }
    }
}

/// The view of an optional bundle status.
pub open spec fn opt_bundle_status_view(r: Option<BundleStatus>) -> Option<BundleStatusView> {
    match r {
        Option::None => Option::None,
        Option::Some(bs) => Option::Some(bs@),
    }
}

/// The status object of the single polled bundle: `result.value[0]` of
/// a status response.
pub open spec fn spec_first_status_entry(resp: JsonValue) -> Option<JsonValue> {
    match spec_member(resp, "result"@) {
        Option::Some(result) => match spec_member(result, "value"@) {
            Option::Some(value) => spec_element(value, 0),
            Option::None => Option::None,
        },
        Option::None => Option::None,
    }
}

/// The in-flight status string of one in-flight status response:
/// `result.value[0].status`, when present and a string.
pub open spec fn spec_inflight_status_of(resp: JsonValue) -> Option<Seq<char>> {
    match spec_first_status_entry(resp) {
        Option::Some(entry) => match spec_member(entry, "status"@) {
            Option::Some(status) => spec_text_of(status),
            Option::None => Option::None,
        },
        Option::None => Option::None,
    }
}

/// The text members of a list of JSON values, in order; members of any
/// other shape are passed over.
pub open spec fn spec_text_items(items: Seq<JsonValue>) -> Seq<Seq<char>>
    decreases items.len(),
{
    if items.len() == 0 {
        Seq::empty()
    } else {
        match items[0] {
            JsonValue::Text(s) => seq![s@] + spec_text_items(items.drop_first()),
            _ => spec_text_items(items.drop_first()),
        }
    }
}

/// The bundle status projected from one finalization status response:
/// `None` when the response lacks `result.value[0]`; otherwise the
/// entry's `confirmation_status` text (absent or non-text reads as
/// `None`), its `err` member verbatim, and the text elements of its
/// `transactions` array (a missing or non-array member reads as
/// `None`).
pub open spec fn spec_bundle_status_of(resp: JsonValue) -> Option<BundleStatusView> {
    match spec_first_status_entry(resp) {
        Option::None => Option::None,
        Option::Some(entry) => Option::Some(
            BundleStatusView {
                confirmation_status: match spec_member(entry, "confirmation_status"@) {
                    Option::Some(v) => spec_text_of(v),
                    Option::None => Option::None,
                },
                err: spec_member(entry, "err"@),
                transactions: match spec_member(entry, "transactions"@) {
                    Option::Some(JsonValue::Array(items)) => Option::Some(spec_text_items(items@)),
                    _ => Option::None,
                },
            },
        ),
    }
}

/// Walks to `result.value[0]` of a status response, by reference.
fn first_status_entry<'a>(resp: &'a JsonValue) -> (r: Option<&'a JsonValue>)
    ensures
        match r {
            Option::Some(entry) => spec_first_status_entry(*resp) == Option::Some(*entry),
            Option::None => spec_first_status_entry(*resp) is None,
        },
{
    let result = match resp.member("result") {
        Option::Some(v) => v,
        Option::None => {
            return Option::None;
        },
    };
    let value = match result.member("value") {
        Option::Some(v) => v,
        Option::None => {
            return Option::None;
        },
    };
    value.element(0)
}

/// Projects the in-flight status string out of one in-flight status
/// response.
pub fn extract_inflight_status(resp: &JsonValue) -> (r: Option<String>)
    ensures
        opt_str_view(r) == spec_inflight_status_of(*resp),
{
    let entry = match first_status_entry(resp) {
        Option::Some(v) => v,
        Option::None => {
            return Option::None;
        },
    };
    let status = match entry.member("status") {
        Option::Some(v) => v,
        Option::None => {
            return Option::None;
        },
    };
    match status.as_text() {
        Option::Some(s) => Option::Some(s.clone()),
        Option::None => Option::None,
    }
}

/// Collects the text elements of a list of JSON values.
fn collect_text_items(items: &Vec<JsonValue>) -> (r: Vec<String>)
    ensures
        r.deep_view() == spec_text_items(items@),
{
    let mut r: Vec<String> = Vec::new();
    let ghost iv = items@;
    let mut i: usize = 0;
    proof {
        assert(iv.skip(0) =~= iv);
    }
    while i < items.len()
        invariant
            i <= items.len(),
            items@ == iv,
            spec_text_items(iv) == r.deep_view() + spec_text_items(iv.skip(i as int)),
        decreases items.len() - i,
    {
        proof {
            assert(iv.skip(i as int)[0] == iv[i as int]);
            assert(iv.skip(i as int).drop_first() =~= iv.skip(i as int + 1));
        }
        let ghost before = r.deep_view();
        match items[i].as_text() {
            Option::Some(s) => {
                r.push(s.clone());
                proof {
                    assert(r.deep_view() =~= before.push(iv[i as int]->Text_0@));
                    assert(before + spec_text_items(iv.skip(i as int)) =~= r.deep_view()
                        + spec_text_items(iv.skip(i as int + 1)));
                }
            },
            Option::None => {},
        }
        i = i + 1;
    }
    proof {
        assert(iv.skip(i as int).len() == 0);
        assert(r.deep_view() + spec_text_items(iv.skip(i as int)) =~= r.deep_view());
    }
    r
}

/// Projects a [`BundleStatus`] out of one finalization status response,
/// consuming it.
pub fn get_bundle_status(resp: JsonValue) -> (r: Option<BundleStatus>)
    ensures
        opt_bundle_status_view(r) == spec_bundle_status_of(resp),
{
    let entry = match resp.into_member("result") {
        Option::Some(result) => match result.into_member("value") {
            Option::Some(value) => match value.into_element(0) {
                Option::Some(entry) => entry,
                Option::None => {
                    return Option::None;
                },
            },
            Option::None => {
                return Option::None;
            },
        },
        Option::None => {
            return Option::None;
        },
    };
    let confirmation_status = match entry.member("confirmation_status") {
        Option::Some(v) => match v.as_text() {
            Option::Some(s) => Option::Some(s.clone()),
            Option::None => Option::None,
        },
        Option::None => Option::None,
    };
    let transactions = match entry.member("transactions") {
        Option::Some(v) => match v.elements() {
            Option::Some(items) => Option::Some(collect_text_items(items)),
            Option::None => Option::None,
        },
        Option::None => Option::None,
    };
    // taken last: this consumes the entry
    let err = entry.into_member("err");
    Option::Some(BundleStatus { confirmation_status, err, transactions })
}

/// The execution-error verdict carried by a status's `err` member. No
/// error was reported when the member is absent, is JSON null, or is a
/// result-shaped object whose `Ok` member is JSON null. Anything else
/// is an execution error, surfaced as [`spec_error_detail`] of it.
pub open spec fn spec_execution_error(err: Option<JsonValue>) -> Option<Seq<char>> {
    match err {
        Option::None => Option::None,
        Option::Some(e) => {
            if e is Null {
                Option::None
            } else if spec_member(e, "Ok"@) == Option::Some(JsonValue::Null) {
                Option::None
            } else {
                Option::Some(spec_error_detail(e))
            }
        },
    }
}

/// The cause string of a reported execution error: the error itself
/// when it is text, else the text of its `Err` member, else a fixed
/// description.
pub open spec fn spec_error_detail(e: JsonValue) -> Seq<char> {
    match spec_text_of(e) {
        Option::Some(s) => s,
        Option::None => match spec_member(e, "Err"@) {
            Option::Some(m) => match spec_text_of(m) {
                Option::Some(s) => s,
                Option::None => "the transfer reported an execution error"@,
            },
            Option::None => "the transfer reported an execution error"@,
        },
    }
}

/// Evaluates a bundle status's `err` member, per
/// [`spec_execution_error`]: `None` means the transfer executed without
/// errors; `Some` carries the relay-reported cause.
pub fn check_transaction_error(status: &BundleStatus) -> (r: Option<String>)
    ensures
        opt_str_view(r) == spec_execution_error(status.err),
{
    let e = match &status.err {
        Option::None => {
            return Option::None;
        },
        Option::Some(e) => e,
    };
    if e.is_null() {
        return Option::None;
    }
    match e.member("Ok") {
        Option::Some(member) => {
            if member.is_null() {
                return Option::None;
            }
        },
        Option::None => {},
    }
    if let Option::Some(s) = e.as_text() {
        return Option::Some(s.clone());
    }
    match e.member("Err") {
        Option::Some(m) => match m.as_text() {
            Option::Some(s) => Option::Some(s.clone()),
            Option::None => Option::Some("the transfer reported an execution error".to_owned()),
        },
        Option::None => Option::Some("the transfer reported an execution error".to_owned()),
    }
}

/// The plain finalization report of one status response: the projected
/// bundle status with its `err` member evaluated to an execution-error
/// verdict.
pub open spec fn spec_final_report_of(resp: JsonValue) -> Option<FinalReportView> {
    match spec_bundle_status_of(resp) {
        Option::None => Option::None,
        Option::Some(bs) => Option::Some(
            FinalReportView {
                confirmation_status: bs.confirmation_status,
                err: spec_execution_error(bs.err),
                transactions: bs.transactions,
            },
        ),
    }
}

/// Projects one finalization response into the plain report the status
/// state machine consumes, consuming it.
pub fn extract_final_report(resp: JsonValue) -> (r: Option<FinalReport>)
    ensures
        opt_report_view(r) == spec_final_report_of(resp),
{
    match get_bundle_status(resp) {
        Option::None => Option::None,
        Option::Some(status) => {
            let err = check_transaction_error(&status);
            Option::Some(
                FinalReport {
                    confirmation_status: status.confirmation_status,
                    err,
                    transactions: status.transactions,
                },
            )
        },
    }
}

/// The relay's answer to a submission: the bundle identifier when
/// `result` is a string, else a rejection carrying
/// [`spec_rejection_reason`].
pub open spec fn spec_bundle_id_of(resp: JsonValue) -> Result<Seq<char>, Seq<char>> {
    match spec_member(resp, "result"@) {
        Option::Some(v) => match spec_text_of(v) {
            Option::Some(id) => Result::Ok(id),
            Option::None => Result::Err(spec_rejection_reason(resp)),
        },
        Option::None => Result::Err(spec_rejection_reason(resp)),
    }
}

/// Why a submission response carries no bundle identifier: the text of
/// its `error` member (or of that member's `message` member), else a
/// fixed description.
pub open spec fn spec_rejection_reason(resp: JsonValue) -> Seq<char> {
    match spec_member(resp, "error"@) {
        Option::Some(e) => match spec_text_of(e) {
            Option::Some(s) => s,
            Option::None => match spec_member(e, "message"@) {
                Option::Some(m) => match spec_text_of(m) {
                    Option::Some(s) => s,
                    Option::None => "the relay refused the bundle"@,
                },
                Option::None => "the relay refused the bundle"@,
            },
        },
        Option::None => "relay response carried no bundle id"@,
    }
}

/// The relay-assigned bundle identifier out of a submission response,
/// or the rejection the response amounts to.
pub fn extract_bundle_id(resp: &JsonValue) -> (r: Result<String, WorkflowError>)
    ensures
        r matches Result::Ok(id) ==> spec_bundle_id_of(*resp) == Result::<
            Seq<char>,
            Seq<char>,
        >::Ok(id@),
        r matches Result::Err(e) ==> spec_bundle_id_of(*resp) is Err && e@
            == ErrView::BundleRejected(spec_bundle_id_of(*resp)->Err_0),
{
    match resp.member("result") {
        Option::Some(v) => match v.as_text() {
            Option::Some(id) => {
                return Result::Ok(id.clone());
            },
            Option::None => {},
        },
        Option::None => {},
    }
    let reason = match resp.member("error") {
        Option::Some(e) => match e.as_text() {
            Option::Some(s) => s.clone(),
            Option::None => match e.member("message") {
                Option::Some(m) => match m.as_text() {
                    Option::Some(s) => s.clone(),
                    Option::None => "the relay refused the bundle".to_owned(),
                },
                Option::None => "the relay refused the bundle".to_owned(),
            },
        },
        Option::None => "relay response carried no bundle id".to_owned(),
    };
    Result::Err(WorkflowError::BundleRejected(reason))
}

} // verus!
