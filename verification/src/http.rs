//! Requests and responses as plain values, and the fixed responses of the
//! service.

use vstd::prelude::*;
use vstd::string::StringExecFns;
use vstd::string::StringSliceAdditionalSpecFns;
use vstd::utf8::encode_utf8_decode_utf8;

verus! {

pub const OK: u16 = 200;

pub const BAD_REQUEST: u16 = 400;

pub const NOT_FOUND: u16 = 404;

pub const INTERNAL_SERVER_ERROR: u16 = 500;

/// An incoming request: the method by its name, the path as it was sent,
/// and the whole body.
#[derive(Debug, PartialEq, Eq)]
pub struct Request {
    pub method: String,
    pub path: String,
    pub body: Vec<u8>,
}

/// What a `Request` holds, as mathematical values.
pub struct RequestView {
    pub method: Seq<char>,
    pub path: Seq<char>,
    pub body: Seq<u8>,
}

impl View for Request {
    type V = RequestView;

    open spec fn view(&self) -> RequestView {
        RequestView { method: self.method@, path: self.path@, body: self.body@ }
    }
}

/// An outgoing response: the status code, the content type where one is
/// set, and the body as text.
#[derive(Debug, PartialEq, Eq)]
pub struct Response {
    pub status: u16,
    pub content_type: Option<String>,
    pub body: String,
}

/// What a `Response` holds, as mathematical values.
pub struct ResponseView {
    pub status: int,
    pub content_type: Option<Seq<char>>,
    pub body: Seq<char>,
}

impl View for Response {
    type V = ResponseView;

    open spec fn view(&self) -> ResponseView {
        ResponseView {
            status: self.status as int,
            content_type: match self.content_type {
                Some(name) => Some(name@),
                None => None,
            },
            body: self.body@,
        }
    }
}

/// The success response: status 200, labelled `application/json`, with the
/// given body.
pub open spec fn success(body: Seq<char>) -> ResponseView {
    ResponseView { status: 200, content_type: Some("application/json"@), body }
}

/// The response to a body that could not be decoded: status 400.
pub open spec fn bad_request() -> ResponseView {
    ResponseView { status: 400, content_type: None, body: "Bad Request"@ }
}

/// The response where no route matches: status 404 with the fixed body.
pub open spec fn not_found() -> ResponseView {
    ResponseView { status: 404, content_type: None, body: "Not Found"@ }
}

/// The response to a failure of the store or of the encoder: status 500.
pub open spec fn internal_server_error() -> ResponseView {
    ResponseView { status: 500, content_type: None, body: "Internal Server Error"@ }
}

impl Response {
    /// Status 200, labelled `application/json`, with the given body.
    pub fn success(body: String) -> (response: Response)
        ensures
            response@ == success(body@),
    {
        Response {
            status: OK,
            content_type: Some(String::from_str("application/json")),
            body,
        }
    }

    /// Status 400, for a body that could not be decoded.
    pub fn bad_request() -> (response: Response)
        ensures
            response@ == bad_request(),
    {
        Response { status: BAD_REQUEST, content_type: None, body: String::from_str("Bad Request") }
    }

    /// Status 404 with the fixed body, for a request that no route matches.
    pub fn not_found() -> (response: Response)
        ensures
            response@ == not_found(),
    {
        Response { status: NOT_FOUND, content_type: None, body: String::from_str("Not Found") }
    }

    /// Status 500, for a failure of the store or of the encoder.
    pub fn internal_server_error() -> (response: Response)
        ensures
            response@ == internal_server_error(),
    {
        Response {
            status: INTERNAL_SERVER_ERROR,
            content_type: None,
            body: String::from_str("Internal Server Error"),
        }
    }
}

/// Whether two strings hold the same characters.
pub fn same_text(a: &str, b: &str) -> (same: bool)
    ensures
        same == (a@ == b@),
{
    let x = a.as_bytes();
    let y = b.as_bytes();
    proof {
        encode_utf8_decode_utf8(a@);
        encode_utf8_decode_utf8(b@);
    }
    if x.len() != y.len() {
        return false;
    }
    let mut i: usize = 0;
    while i < x.len()
        invariant
            i <= x@.len(),
            x@ == a.spec_bytes(),
            y@ == b.spec_bytes(),
            x@.len() == y@.len(),
            forall|k: int| 0 <= k < i ==> x@[k] == y@[k],
        decreases x@.len() - i,
    {
        if x[i] != y[i] {
            return false;
        }
        i = i + 1;
    }
    assert(x@ =~= y@);
    true
}

} // verus!
