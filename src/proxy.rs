//! The end of a proxied call: whatever happened, one `ApiResult`.

use vstd::prelude::*;
use crate::request::RequestError;
use crate::response::{
    backend_unavailable, http_failure, parsed_body, status_message, transport_failure,
    transport_message, unavailable_message, ApiResult,
};
use crate::supervisor::StartupError;

verus! {

/// How a proxied call went.
#[derive(Debug)]
pub enum Exchange {
    /// The backend could not be brought up; nothing was sent.
    Unavailable(StartupError),
    /// The call could not be shaped into a request; nothing was sent.
    Refused(RequestError),
    /// No response came; the transport's text.
    TransportFailed(String),
    /// A success status, with the body read as JSON.
    Parsed(serde_json::Value),
    /// A success status, with a body that is no JSON; the parse error's text.
    Unparsable(String),
    /// A failure status, with the text of the body (empty where it could not
    /// be read).
    FailureStatus { status: u16, body: String },
}

/// The message that a failed call reports.
pub open spec fn exchange_error(x: Exchange) -> Option<Seq<char>> {
    match x {
        Exchange::Unavailable(e) => Some(unavailable_message(e.message_spec())),
        Exchange::Refused(_) => Some("endpoint must not be empty"@),
        Exchange::TransportFailed(t) => Some(transport_message(t@)),
        Exchange::Parsed(_) => None,
        Exchange::Unparsable(t) => Some(t@),
        Exchange::FailureStatus { status, body } => Some(status_message(status, body@)),
    }
}

/// The result of a call: data for a parsed body, else the message of what
/// went wrong.
pub fn call_result(x: Exchange) -> (r: ApiResult)
    ensures
        r.well_formed(),
        r.success <==> x is Parsed,
        x matches Exchange::Parsed(v) ==> r.data == Some(v),
        match exchange_error(x) {
            Some(m) => r.error matches Some(text) && text@ == m,
            None => r.error is None,
        },
{
    match x {
        Exchange::Unavailable(e) => {
            let cause = e.message();
            backend_unavailable(cause.as_str())
        },
        Exchange::Refused(e) => {
            ApiResult::failed(e.message())
        },
        Exchange::TransportFailed(t) => transport_failure(t.as_str()),
        Exchange::Parsed(v) => parsed_body(Ok(v)),
        Exchange::Unparsable(t) => parsed_body(Err(t)),
        Exchange::FailureStatus { status, body } => http_failure(status, body.as_str()),
    }
}

/// A call that got no response reports a message that is not empty.
pub proof fn lemma_transport_failure_reported(t: String)
    ensures
        exchange_error(Exchange::TransportFailed(t)) matches Some(m) && m.len() > 0,
{
    reveal_strlit("could not reach the backend");
}

} // verus!
