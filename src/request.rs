//! How one generic call becomes one HTTP request: the verb, the payload that
//! goes on the wire, the URL and the bearer credential.

use vstd::prelude::*;
use vstd::string::*;
use crate::json::{from_object, into_object, map_entries, object_entries, remove_entry, string_text, text_of};

verus! {

/// The HTTP verbs that a proxied call can use.
#[derive(PartialEq, Eq, Structural, Clone, Copy, Debug)]
pub enum HttpMethod {
    Get,
    Post,
    Put,
    Delete,
}

impl HttpMethod {
    /// Whether a request with this verb carries the payload as its body.
    pub fn sends_body(&self) -> (r: bool)
        ensures
            r == (*self == HttpMethod::Post || *self == HttpMethod::Put),
    {
        match self {
            HttpMethod::Post | HttpMethod::Put => true,
            _ => false,
        }
    }
}

/// The payload key whose value selects the verb; it never goes on the wire.
pub open spec fn override_key() -> Seq<char> {
    seq!['_', 'm', 'e', 't', 'h', 'o', 'd']
}

/// The verb that an override value selects: "DELETE" and "PUT" name
/// themselves, anything else (or no value at all) leaves POST.
pub open spec fn override_method(text: Option<Seq<char>>) -> HttpMethod {
    match text {
        Some(t) => if t == seq!['D', 'E', 'L', 'E', 'T', 'E'] {
            HttpMethod::Delete
        } else if t == seq!['P', 'U', 'T'] {
            HttpMethod::Put
        } else {
            HttpMethod::Post
        },
        None => HttpMethod::Post,
    }
}

/// The verb of a call that carries `payload`.
pub open spec fn payload_method(payload: serde_json::Value) -> HttpMethod {
    match object_entries(payload) {
        Some(m) => if m.contains_key(override_key()) {
            override_method(string_text(m[override_key()]))
        } else {
            HttpMethod::Post
        },
        None => HttpMethod::Post,
    }
}

/// What a payload looks like once the override key is taken out: an object
/// loses that one entry, any other value stays as it is.
pub open spec fn stripped_payload(before: serde_json::Value, after: serde_json::Value) -> bool {
    match object_entries(before) {
        Some(m) => object_entries(after) == Some(m.remove(override_key())),
        None => after == before,
    }
}

/// Whether two texts hold the same characters.
fn same_text(a: &str, b: &str) -> (r: bool)
    ensures
        r == (a@ == b@),
{
    let n = a.unicode_len();
    if n != b.unicode_len() {
        return false;
    }
    let mut i: usize = 0;
    while i < n
        invariant
            n == a@.len(),
            n == b@.len(),
            i <= n,
            a@.subrange(0, i as int) == b@.subrange(0, i as int),
        decreases n - i,
    {
        if a.get_char(i) != b.get_char(i) {
            return false;
        }
        assert(a@.subrange(0, i + 1) == a@.subrange(0, i as int).push(a@[i as int]));
        assert(b@.subrange(0, i + 1) == b@.subrange(0, i as int).push(b@[i as int]));
        i = i + 1;
    }
    assert(a@ == a@.subrange(0, n as int));
    assert(b@ == b@.subrange(0, n as int));
    true
}

/// The verb that an override text selects.
pub fn method_for_override(text: Option<String>) -> (r: HttpMethod)
    ensures
        r == override_method(match text {
            Some(t) => Some(t@),
            None => None,
        }),
{
    match text {
        Some(t) => {
            proof {
                reveal_strlit("DELETE");
                reveal_strlit("PUT");
                assert("DELETE"@ =~= seq!['D', 'E', 'L', 'E', 'T', 'E']);
                assert("PUT"@ =~= seq!['P', 'U', 'T']);
            }
            if same_text(t.as_str(), "DELETE") {
                HttpMethod::Delete
            } else if same_text(t.as_str(), "PUT") {
                HttpMethod::Put
            } else {
                HttpMethod::Post
            }
        },
        None => HttpMethod::Post,
    }
}

/// Takes the override key out of a payload and says which verb it selected.
pub fn split_override(payload: serde_json::Value) -> (r: (HttpMethod, serde_json::Value))
    ensures
        r.0 == payload_method(payload),
        stripped_payload(payload, r.1),
{
    match into_object(payload) {
        Ok(m) => {
            let mut m = m;
            proof {
                reveal_strlit("_method");
                assert("_method"@ =~= override_key());
            }
            let removed = remove_entry(&mut m, "_method");
            let text = match &removed {
                Some(v) => text_of(v),
                None => None,
            };
            let method = method_for_override(text);
            (method, from_object(m))
        },
        Err(v) => (HttpMethod::Post, v),
    }
}

/// The text inside a wrapping of quote characters: every leading and every
/// trailing `"` goes.
pub open spec fn trim_quotes(s: Seq<char>) -> Seq<char>
    decreases s.len(),
{
    if s.len() > 0 && s[0] == '"' {
        trim_quotes(s.drop_first())
    } else if s.len() > 0 && s.last() == '"' {
        trim_quotes(s.drop_last())
    } else {
        s
    }
}

/// Drops the quote characters that wrap a token.
pub fn strip_quotes(s: &str) -> (r: String)
    ensures
        r@ == trim_quotes(s@),
{
    let n = s.unicode_len();
    let mut lo: usize = 0;
    assert(s@.subrange(0, n as int) =~= s@);
    while lo < n && s.get_char(lo) == '"'
        invariant
            n == s@.len(),
            lo <= n,
            trim_quotes(s@.subrange(lo as int, n as int)) == trim_quotes(s@),
        decreases n - lo,
    {
        assert(s@.subrange(lo as int, n as int).drop_first() =~= s@.subrange(lo + 1, n as int));
        lo = lo + 1;
    }
    let mut hi: usize = n;
    while hi > lo && s.get_char(hi - 1) == '"'
        invariant
            n == s@.len(),
            lo <= hi <= n,
            lo < hi ==> s@[lo as int] != '"',
            trim_quotes(s@.subrange(lo as int, hi as int)) == trim_quotes(s@),
        decreases hi - lo,
    {
        assert(s@.subrange(lo as int, hi as int).drop_last() =~= s@.subrange(lo as int, hi - 1));
        hi = hi - 1;
    }
    let inner = s.substring_char(lo, hi);
    String::from_str(inner)
}

/// The token that a call uses: the first one given that is not empty.
pub open spec fn chosen_token(auth: Option<Seq<char>>, alt: Option<Seq<char>>) -> Option<Seq<char>> {
    if auth is Some && auth->0.len() > 0 {
        auth
    } else if alt is Some && alt->0.len() > 0 {
        alt
    } else {
        None
    }
}

/// The characters of an optional text.
pub open spec fn text_view(t: Option<String>) -> Option<Seq<char>> {
    match t {
        Some(s) => Some(s@),
        None => None,
    }
}

/// The credential that a call sends: the chosen token without its quotes.
pub open spec fn credential(auth: Option<Seq<char>>, alt: Option<Seq<char>>) -> Option<Seq<char>> {
    match chosen_token(auth, alt) {
        Some(t) => Some(trim_quotes(t)),
        None => None,
    }
}

/// Picks the token of a call, the first non-empty of the two, and drops its
/// wrapping quotes.
pub fn resolve_token(auth_token: Option<String>, alt_token: Option<String>) -> (r: Option<String>)
    ensures
        text_view(r) == credential(text_view(auth_token), text_view(alt_token)),
{
    let chosen = match auth_token {
        Some(a) if a.as_str().unicode_len() > 0 => Some(a),
        _ => match alt_token {
            Some(b) if b.as_str().unicode_len() > 0 => Some(b),
            _ => None,
        },
    };
    match chosen {
        Some(t) => Some(strip_quotes(t.as_str())),
        None => None,
    }
}

/// Where the backend listens.
pub open spec fn backend_origin() -> Seq<char> {
    "http://127.0.0.1:8000"@
}

/// The URL of an endpoint of the backend.
pub fn backend_url(endpoint: &str) -> (r: String)
    ensures
        r@ == backend_origin() + endpoint@,
{
    String::from_str("http://127.0.0.1:8000").concat(endpoint)
}

/// The value of the `Authorization` header for a token.
pub fn bearer_value(token: &str) -> (r: String)
    ensures
        r@ == seq!['B', 'e', 'a', 'r', 'e', 'r', ' '] + token@,
{
    proof {
        reveal_strlit("Bearer ");
        assert("Bearer "@ =~= seq!['B', 'e', 'a', 'r', 'e', 'r', ' ']);
    }
    String::from_str("Bearer ").concat(token)
}

/// Why a call could not be shaped into a request.
#[derive(PartialEq, Eq, Structural, Clone, Copy, Debug)]
pub enum RequestError {
    EmptyEndpoint,
}

impl RequestError {
    /// A description of the error.
    pub fn message(&self) -> (r: String)
        ensures
            r@ == "endpoint must not be empty"@,
    {
        String::from_str("endpoint must not be empty")
    }
}

/// One HTTP request to the backend, ready to be sent.
#[derive(Debug)]
pub struct OutboundRequest {
    pub method: HttpMethod,
    pub url: String,
    /// The payload with the override key taken out; it goes on the wire as
    /// the body only where the verb sends one.
    pub payload: Option<serde_json::Value>,
    /// The bearer credential, without wrapping quotes.
    pub token: Option<String>,
}

impl OutboundRequest {
    /// The value of the `Authorization` header, where a credential is sent.
    pub fn authorization(&self) -> (r: Option<String>)
        ensures
            text_view(r) == match self.token {
                Some(t) => Some(seq!['B', 'e', 'a', 'r', 'e', 'r', ' '] + t@),
                None => None,
            },
    {
        match &self.token {
            Some(t) => Some(bearer_value(t.as_str())),
            None => None,
        }
    }

    /// The body that goes on the wire: the payload, for a verb that sends one.
    pub fn body(&self) -> (r: Option<&serde_json::Value>)
        ensures
            r == (if self.method == HttpMethod::Post || self.method == HttpMethod::Put {
                match &self.payload {
                    Some(p) => Some(p),
                    None => None,
                }
            } else {
                None
            }),
    {
        if self.method.sends_body() {
            match &self.payload {
                Some(p) => Some(p),
                None => None,
            }
        } else {
            None
        }
    }
}

/// The verb of a call: GET without a payload, else what the payload selects.
pub open spec fn call_method(payload: Option<serde_json::Value>) -> HttpMethod {
    match payload {
        Some(p) => payload_method(p),
        None => HttpMethod::Get,
    }
}

/// Shapes one call into one request: the verb from the payload, the payload
/// without its override key, the URL of the endpoint and the credential.
/// An empty endpoint is refused.
pub fn prepare_request(
    endpoint: &str,
    payload: Option<serde_json::Value>,
    auth_token: Option<String>,
    alt_token: Option<String>,
) -> (r: Result<OutboundRequest, RequestError>)
    ensures
        r is Err <==> endpoint@.len() == 0,
        r is Err ==> r == Err::<OutboundRequest, RequestError>(RequestError::EmptyEndpoint),
        r matches Ok(q) ==> {
            &&& q.method == call_method(payload)
            &&& q.url@ == backend_origin() + endpoint@
            &&& text_view(q.token) == credential(text_view(auth_token), text_view(alt_token))
            &&& match payload {
                Some(p) => q.payload matches Some(b) && stripped_payload(p, b),
                None => q.payload is None,
            }
        },
{
    if endpoint.unicode_len() == 0 {
        return Err(RequestError::EmptyEndpoint);
    }
    let (method, body) = match payload {
        Some(p) => {
            let (m, b) = split_override(p);
            (m, Some(b))
        },
        None => (HttpMethod::Get, None),
    };
    Ok(OutboundRequest {
        method,
        url: backend_url(endpoint),
        payload: body,
        token: resolve_token(auth_token, alt_token),
    })
}

/// A call without a payload is a GET.
pub proof fn lemma_no_payload_is_get()
    ensures
        call_method(None) == HttpMethod::Get,
{
}

/// A payload without the override key makes a POST, and goes on the wire
/// with the same entries (a payload that is no object, as it is).
pub proof fn lemma_plain_payload_is_post(p: serde_json::Value, sent: serde_json::Value)
    requires
        object_entries(p) matches Some(m) ==> !m.contains_key(override_key()),
        stripped_payload(p, sent),
    ensures
        call_method(Some(p)) == HttpMethod::Post,
        object_entries(sent) == object_entries(p),
        object_entries(p) is None ==> sent == p,
{
    if let Some(m) = object_entries(p) {
        assert(m.remove(override_key()) =~= m);
    }
}

/// A payload whose override key holds "DELETE" makes a DELETE, and the key is
/// gone from what is sent; every other entry stays.
pub proof fn lemma_delete_override(p: serde_json::Value, sent: serde_json::Value)
    requires
        object_entries(p) matches Some(m) && m.contains_key(override_key())
            && string_text(m[override_key()]) == Some(seq!['D', 'E', 'L', 'E', 'T', 'E']),
        stripped_payload(p, sent),
    ensures
        call_method(Some(p)) == HttpMethod::Delete,
        object_entries(sent) == Some(object_entries(p)->0.remove(override_key())),
        !object_entries(sent)->0.contains_key(override_key()),
{
}

/// Where the first token is given and not empty, it is the one sent; the
/// second is not looked at.
pub proof fn lemma_first_token_wins(auth: Seq<char>, alt: Option<Seq<char>>)
    requires
        auth.len() > 0,
    ensures
        credential(Some(auth), alt) == Some(trim_quotes(auth)),
{
}

/// A token wrapped in one pair of quote characters is sent without them.
pub proof fn lemma_quotes_stripped(t: Seq<char>)
    requires
        t.len() > 0 ==> t[0] != '"' && t.last() != '"',
    ensures
        trim_quotes(seq!['"'] + t + seq!['"']) == t,
{
    let w = seq!['"'] + t + seq!['"'];
    let u = t + seq!['"'];
    assert(w.drop_first() =~= u);
    assert(trim_quotes(w) == trim_quotes(u));
    if t.len() == 0 {
        assert(u.drop_first() =~= t);
        assert(trim_quotes(u) == trim_quotes(t));
    } else {
        assert(u.drop_last() =~= t);
        assert(u[0] == t[0]);
        assert(trim_quotes(u) == trim_quotes(t));
    }
    assert(trim_quotes(t) == t);
}

} // verus!
