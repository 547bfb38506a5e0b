//! The one result shape that every proxied call ends in, whatever happened on
//! the way: data on success, a message on failure.

use vstd::prelude::*;
use vstd::string::*;

verus! {

/// The outcome of a proxied call.
#[derive(Debug)]
pub struct ApiResult {
    pub success: bool,
    pub data: Option<serde_json::Value>,
    pub error: Option<String>,
}

impl ApiResult {
    /// Data is present exactly on success, a message exactly on failure.
    pub open spec fn well_formed(&self) -> bool {
        &&& self.success <==> self.data is Some
        &&& !self.success <==> self.error is Some
    }

    /// A successful call that brought `data`.
    pub fn succeeded(data: serde_json::Value) -> (r: ApiResult)
        ensures
            r.well_formed(),
            r.success,
            r.data == Some(data),
    {
        ApiResult { success: true, data: Some(data), error: None }
    }

    /// A failed call, described by `message`.
    pub fn failed(message: String) -> (r: ApiResult)
        ensures
            r.well_formed(),
            !r.success,
            r.error matches Some(e) && e@ == message@,
    {
        ApiResult { success: false, data: None, error: Some(message) }
    }
}

/// The characters of the decimal digits, by value.
pub open spec fn digit_chars() -> Seq<char> {
    seq!['0', '1', '2', '3', '4', '5', '6', '7', '8', '9']
}

/// A number written in decimal, without leading zeros.
pub open spec fn decimal(n: nat) -> Seq<char>
    decreases n,
{
    if n < 10 {
        seq![digit_chars()[n as int]]
    } else {
        decimal(n / 10) + seq![digit_chars()[(n % 10) as int]]
    }
}

/// Appends `n` written in decimal.
fn push_decimal(out: &mut String, n: u16)
    ensures
        final(out)@ == old(out)@ + decimal(n as nat),
    decreases n,
{
    if n >= 10 {
        push_decimal(out, n / 10);
    }
    let d: usize = (n % 10) as usize;
    let digits = "0123456789";
    proof {
        reveal_strlit("0123456789");
        assert(digits@ =~= digit_chars());
    }
    let one = digits.substring_char(d, d + 1);
    assert(one@ =~= seq![digit_chars()[d as int]]);
    out.append(one);
    assert(final(out)@ =~= old(out)@ + decimal(n as nat));
}

/// Whether a status code reports success (the 2xx range).
pub fn is_success_status(status: u16) -> (r: bool)
    ensures
        r == (200 <= status && status <= 299),
{
    200 <= status && status <= 299
}

/// The message of a call that the backend answered with a failure status.
pub open spec fn status_message(status: u16, body: Seq<char>) -> Seq<char> {
    seq!['H', 'T', 'T', 'P', ' '] + decimal(status as nat) + seq![':', ' '] + body
}

/// A call that the backend answered with a failure status: the message holds
/// the status code and the text of the response body.
pub fn http_failure(status: u16, body: &str) -> (r: ApiResult)
    ensures
        r.well_formed(),
        !r.success,
        r.error matches Some(e) && e@ == status_message(status, body@),
{
    proof {
        reveal_strlit("HTTP ");
        reveal_strlit(": ");
    }
    let mut message = String::from_str("HTTP ");
    push_decimal(&mut message, status);
    message.append(": ");
    message.append(body);
    ApiResult::failed(message)
}

/// The message of a call that never reached the backend.
pub open spec fn transport_message(text: Seq<char>) -> Seq<char> {
    if text.len() > 0 {
        text
    } else {
        "could not reach the backend"@
    }
}

/// A call that failed before any response came: the transport's own text,
/// or a fixed one where that text is empty.
pub fn transport_failure(text: &str) -> (r: ApiResult)
    ensures
        r.well_formed(),
        !r.success,
        r.error matches Some(e) && e@ == transport_message(text@) && e@.len() > 0,
{
    proof {
        reveal_strlit("could not reach the backend");
    }
    if text.unicode_len() > 0 {
        ApiResult::failed(String::from_str(text))
    } else {
        ApiResult::failed(String::from_str("could not reach the backend"))
    }
}

/// The message of a call made while the backend could not be brought up.
pub open spec fn unavailable_message(cause: Seq<char>) -> Seq<char> {
    "backend unavailable: "@ + cause
}

/// A call that was given up because the backend is not running.
pub fn backend_unavailable(cause: &str) -> (r: ApiResult)
    ensures
        r.well_formed(),
        !r.success,
        r.error matches Some(e) && e@ == unavailable_message(cause@),
{
    ApiResult::failed(String::from_str("backend unavailable: ").concat(cause))
}

/// A call answered with a success status, once its body was read as JSON:
/// the data, or the text of the parse error.
pub fn parsed_body(parsed: Result<serde_json::Value, String>) -> (r: ApiResult)
    ensures
        r.well_formed(),
        match parsed {
            Ok(v) => r.success && r.data == Some(v),
            Err(e) => !r.success && (r.error matches Some(m) && m@ == e@),
        },
{
    match parsed {
        Ok(v) => ApiResult::succeeded(v),
        Err(e) => ApiResult::failed(e),
    }
}

/// The message for a failure status holds the status code in decimal right
/// after "HTTP ", and ends with the text of the response body.
pub proof fn lemma_status_message_parts(status: u16, body: Seq<char>)
    ensures
        ({
            let m = status_message(status, body);
            let d = decimal(status as nat);
            &&& m.subrange(5, 5 + d.len() as int) == d
            &&& m.subrange(m.len() - body.len(), m.len() as int) == body
        }),
{
    let m = status_message(status, body);
    let d = decimal(status as nat);
    assert(m.subrange(5, 5 + d.len() as int) =~= d);
    assert(m.subrange(m.len() - body.len(), m.len() as int) =~= body);
}

} // verus!
