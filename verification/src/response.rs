//! Shaping a reconciliation result into the response the transport layer
//! emits: a status code, a message, the domain, the clear flag and the
//! record list with provider-facing type names.

use vstd::prelude::*;
use vstd::string::StringExecFns;
use crate::reconcile::{ReconciliationResult, Status};
use crate::records::RecordSpec;

verus! {

/// One record as reported to the caller: the type's provider-facing name
/// and the content.
pub struct RecordResponse {
    pub record_type: String,
    pub content: String,
}

/// The response body: a message, the full domain acted on, the clear flag
/// echoed back, and the records attempted.
pub struct Response {
    pub message: String,
    pub domain: String,
    pub clear: bool,
    pub records: Vec<RecordResponse>,
}

/// The HTTP status code a terminal state maps to.
pub open spec fn spec_status_code(status: Status) -> u16 {
    match status {
        Status::Success => 200,
        Status::Unauthorized => 401,
        Status::ProviderError => 500,
    }
}

/// The HTTP status code a terminal state maps to.
pub fn status_code(status: Status) -> (r: u16)
    ensures
        r == spec_status_code(status),
{
    match status {
        Status::Success => 200,
        Status::Unauthorized => 401,
        Status::ProviderError => 500,
    }
}

/// The message a terminal state maps to.
pub open spec fn spec_message(status: Status) -> Seq<char> {
    match status {
        Status::Success => "OK"@,
        Status::Unauthorized => "Unauthorized: Invalid token"@,
        Status::ProviderError => "Internal Server Error"@,
    }
}

/// The message a terminal state maps to.
pub fn message(status: Status) -> (r: &'static str)
    ensures
        r@ == spec_message(status),
{
    match status {
        Status::Success => "OK",
        Status::Unauthorized => "Unauthorized: Invalid token",
        Status::ProviderError => "Internal Server Error",
    }
}

/// Builds the response body for a message, a domain and a record list.
pub fn response(message: &str, domain: &str, records: &Vec<RecordSpec>, clear: bool) -> (r:
    Response)
    ensures
        r.message@ == message@,
        r.domain@ == domain@,
        r.clear == clear,
        r.records@.len() == records@.len(),
        forall|i: int|
            0 <= i < records@.len() ==> (#[trigger] r.records@[i]).record_type@
                == records@[i].record_type.spec_name() && r.records@[i].content@
                == records@[i].content@,
{
    let mut out: Vec<RecordResponse> = Vec::new();
    let mut i: usize = 0;
    let n = records.len();
    while i < n
        invariant
            i <= n == records@.len(),
            out@.len() == i,
            forall|j: int|
                0 <= j < i ==> (#[trigger] out@[j]).record_type@
                    == records@[j].record_type.spec_name() && out@[j].content@
                    == records@[j].content@,
        decreases n - i,
    {
        let rec = &records[i];
        out.push(
            RecordResponse {
                record_type: String::from_str(rec.record_type.name()),
                content: rec.content.clone(),
            },
        );
        i = i + 1;
    }
    Response {
        message: String::from_str(message),
        domain: String::from_str(domain),
        clear,
        records: out,
    }
}

/// Shapes a reconciliation result into the status code and response body
/// the transport layer emits.
pub fn to_http(result: &ReconciliationResult) -> (r: (u16, Response))
    ensures
        r.0 == spec_status_code(result.status),
        r.1.message@ == spec_message(result.status),
        r.1.domain@ == result.domain@,
        r.1.clear == result.clear,
        r.1.records@.len() == result.records@.len(),
        forall|i: int|
            0 <= i < result.records@.len() ==> (#[trigger] r.1.records@[i]).record_type@
                == result.records@[i].record_type.spec_name() && r.1.records@[i].content@
                == result.records@[i].content@,
{
    let code = status_code(result.status);
    let body = response(message(result.status), result.domain.as_str(), &result.records, result.clear);
    (code, body)
}

} // verus!
