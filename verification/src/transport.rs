//! Requests and responses as plain values.
//!
//! The library never touches the network. It describes the request that is
//! to be sent as an [`HttpRequest`], and it is told what came back: an
//! [`HttpResponse`], or the `reqwest::Error` with which the exchange failed.

use vstd::prelude::*;
use vstd::string::*;

verus! {

#[verifier::external_type_specification]
#[verifier::external_body]
pub struct ExTransportError(reqwest::Error);

/// The text that `http` prints for a status code: the number, a space and
/// the standard reason phrase.
pub uninterp spec fn status_text(code: int) -> Seq<char>;

/// Makes a `reqwest::StatusCode` of a number (`from_u16`) and prints it
/// through its `Display`.
///
/// Trusted: `from_u16` accepts exactly the numbers from 100 to 999, and the
/// text printed is a function of the number alone, named [`status_text`].
#[verifier::external_body]
pub(crate) fn status_line(code: u16) -> (line: Option<String>)
    ensures
        line is Some <==> 100 <= code <= 999,
        line matches Some(text) ==> text@ == status_text(code as int),
{
    reqwest::StatusCode::from_u16(code).ok().map(|status| status.to_string())
}

/// Prints a `reqwest::Error` through its `Display`.
///
/// Trusted; nothing is claimed of the text.
#[verifier::external_body]
pub(crate) fn transport_error_text(error: &reqwest::Error) -> (text: String) {
    error.to_string()
}

/// The message for an answer with a status other than the one for
/// success: what the call was, the status as it is printed, and the body,
/// whole.
pub open spec fn refusal_text(lead: Seq<char>, status: Seq<char>, body: Seq<char>) -> Seq<char> {
    lead + status + " - "@ + body
}

/// Writes the message for an answer with a status other than the one for
/// success.
pub fn refusal_message(lead: &str, status: &str, body: &str) -> (text: String)
    ensures
        text@ == refusal_text(lead@, status@, body@),
{
    String::from_str(lead).concat(status).concat(" - ").concat(body)
}

/// A response that was received in full: its status code and its body, as
/// the server sent it.
///
/// The status code is always one that HTTP can carry, from 100 to 999. An
/// exchange whose body could not be read gave no response: it failed.
#[derive(Debug, PartialEq, Eq)]
pub struct HttpResponse {
    status: u16,
    body: String,
}

impl HttpResponse {
    #[verifier::type_invariant]
    spec fn status_in_range(self) -> bool {
        100 <= self.status <= 999
    }

    /// The status code, as a mathematical integer.
    pub closed spec fn status_code(self) -> int {
        self.status as int
    }

    /// The characters of the body.
    pub closed spec fn body_text(self) -> Seq<char> {
        self.body@
    }

    /// A response with the given status and body. There is no response
    /// for a number that is no status code.
    pub fn new(status: u16, body: String) -> (response: Option<HttpResponse>)
        ensures
            response is Some <==> 100 <= status <= 999,
            response matches Some(r) ==> r.status_code() == status && r.body_text() == body@,
    {
        if status < 100 || status > 999 {
            return None;
        }
        Some(HttpResponse { status, body })
    }

    /// The status code.
    pub fn status(&self) -> (code: u16)
        ensures
            code == self.status_code(),
            100 <= code <= 999,
    {
        proof {
            use_type_invariant(self);
        }
        self.status
    }

    /// The body.
    pub fn body(&self) -> (text: &str)
        ensures
            text@ == self.body_text(),
    {
        self.body.as_str()
    }

    /// The status as it is shown in messages: the number and its reason
    /// phrase.
    pub fn status_line(&self) -> (line: String)
        ensures
            line@ == status_text(self.status_code()),
    {
        proof {
            use_type_invariant(self);
        }
        status_line(self.status).unwrap()
    }

    /// The message for this response where its status is not the one for
    /// success; `lead` says what the call was.
    pub fn refusal(&self, lead: &str) -> (text: String)
        ensures
            text@ == refusal_text(lead@, status_text(self.status_code()), self.body_text()),
    {
        refusal_message(lead, self.status_line().as_str(), self.body())
    }
}

/// The method of a request.
#[derive(Debug, Clone, Copy, PartialEq, Eq)]
pub enum Method {
    Get,
    Post,
}

/// What a request carries.
#[derive(Debug, PartialEq, Eq)]
pub enum Payload {
    /// Nothing.
    Empty,
    /// Form fields, to be sent URL-encoded, in this order.
    Form(Vec<(String, String)>),
    /// A JSON text, to be sent as it is.
    Json(String),
}

/// A request that is to be sent.
#[derive(Debug, PartialEq, Eq)]
pub struct HttpRequest {
    pub method: Method,
    pub url: String,
    /// The bearer token for the `Authorization` header, if the request
    /// carries one.
    pub bearer: Option<String>,
    pub payload: Payload,
}

} // verus!
