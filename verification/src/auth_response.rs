//! What the token endpoint answers, and the errors of every operation.

use crate::json::{json_doc, json_member, json_parse, json_text, parse_json, JsonDoc};
use serde_json::Value;
use crate::transport::transport_error_text;
use vstd::prelude::*;
use vstd::string::*;

verus! {

/// The part of the token endpoint's answer that the client keeps.
#[derive(Debug, PartialEq, Eq)]
pub struct AuthResponse {
    /// The access token used for authenticated requests.
    pub access_token: String,
    /// The instance URL for making API requests.
    pub instance_url: String,
}

/// Why an operation failed.
#[derive(Debug)]
pub enum AuthError {
    /// The exchange with the server did not complete.
    ReqwestError(reqwest::Error),
    /// The answer was not the JSON that was expected.
    ParseError(String),
    /// The server answered with a status other than the one for success.
    CustomError(String),
    /// A record operation was asked of a client that holds no session.
    NotAuthorized,
}

impl From<reqwest::Error> for AuthError {
    /// A failed exchange as an error of an operation: the failure is kept
    /// as it is.
    fn from(error: reqwest::Error) -> (converted: AuthError) {
        AuthError::ReqwestError(error)
    }
}

impl vstd::std_specs::convert::FromSpecImpl<reqwest::Error> for AuthError {
    open spec fn obeys_from_spec() -> bool {
        true
    }

    open spec fn from_spec(error: reqwest::Error) -> AuthError {
        AuthError::ReqwestError(error)
    }
}

/// The message of the parse error for an answer without a string member
/// `access_token`.
pub open spec fn missing_access_token() -> Seq<char> {
    "missing field `access_token`"@
}

/// The message of the parse error for an answer without a string member
/// `instance_url`.
pub open spec fn missing_instance_url() -> Seq<char> {
    "missing field `instance_url`"@
}

/// What a document of the token endpoint means: the access token and the
/// instance URL, in this order, or the message of the parse error.
///
/// The document has to be an object with string members `access_token` and
/// `instance_url`; other members are ignored.
pub open spec fn auth_response_in(doc: JsonDoc) -> Result<(Seq<char>, Seq<char>), Seq<char>> {
    match doc.text_member("access_token"@) {
        None => Err(missing_access_token()),
        Some(token) => match doc.text_member("instance_url"@) {
            None => Err(missing_instance_url()),
            Some(url) => Ok((token, url)),
        },
    }
}

/// What a body of the token endpoint means: what the document means that
/// it is the JSON text of, or the message with which it fails to parse.
pub open spec fn auth_response_of(body: Seq<char>) -> Result<(Seq<char>, Seq<char>), Seq<char>> {
    match json_parse(body) {
        Err(message) => Err(message),
        Ok(doc) => auth_response_in(doc),
    }
}

/// A body gives a session exactly when it is a JSON object with both string
/// members, and then the session holds those two strings; a body that lacks
/// either is a parse error.
pub proof fn lemma_auth_response_needs_both_fields(body: Seq<char>)
    ensures
        auth_response_of(body) is Ok <==> (json_parse(body) matches Ok(doc) && doc.text_member(
            "access_token"@,
        ) is Some && doc.text_member("instance_url"@) is Some),
        auth_response_of(body) matches Ok((token, url)) ==> (json_parse(body) matches Ok(doc)
            && doc.text_member("access_token"@) == Some(token) && doc.text_member(
            "instance_url"@,
        ) == Some(url)),
{
}

impl AuthResponse {
    /// Reads the answer of the token endpoint from its text.
    pub fn parse(body: &str) -> (parsed: Result<AuthResponse, AuthError>)
        ensures
            match auth_response_of(body@) {
                Ok((token, url)) => parsed matches Ok(r) && r.access_token@ == token
                    && r.instance_url@ == url,
                Err(message) => parsed matches Err(AuthError::ParseError(m)) && m@ == message,
            },
    {
        match parse_json(body) {
            Ok(value) => AuthResponse::from_value(&value),
            Err(message) => Err(AuthError::ParseError(message)),
        }
    }

    /// Reads the answer of the token endpoint from its JSON value: the two
    /// string members, or the parse error that names the first one that is
    /// not there.
    pub fn from_value(value: &Value) -> (read: Result<AuthResponse, AuthError>)
        ensures
            match auth_response_in(json_doc(*value)) {
                Ok((token, url)) => read matches Ok(r) && r.access_token@ == token
                    && r.instance_url@ == url,
                Err(message) => read matches Err(AuthError::ParseError(m)) && m@ == message,
            },
    {
        let access_token = match json_text(json_member(value, "access_token")) {
            Some(text) => String::from_str(text),
            None => {
                return Err(
                    AuthError::ParseError(String::from_str("missing field `access_token`")),
                );
            },
        };
        let instance_url = match json_text(json_member(value, "instance_url")) {
            Some(text) => String::from_str(text),
            None => {
                return Err(
                    AuthError::ParseError(String::from_str("missing field `instance_url`")),
                );
            },
        };
        Ok(AuthResponse { access_token, instance_url })
    }
}

/// What [`AuthError::message`] puts in front of the detail of a transport
/// failure.
pub open spec fn request_error_prefix() -> Seq<char> {
    "Request error: "@
}

/// The message of the error for an operation without a session.
pub open spec fn not_authorized_text() -> Seq<char> {
    "Not authorized: the client holds no session"@
}

/// The line for a transport failure: the prefix, then the failure's own
/// text, whole.
pub fn request_error_message(detail: &str) -> (text: String)
    ensures
        text@ == request_error_prefix() + detail@,
{
    String::from_str("Request error: ").concat(detail)
}

impl AuthError {
    /// The error as a line for the operator.
    ///
    /// For a transport failure the line is [`request_error_message`] of the
    /// text that `reqwest` prints for the failure.
    pub fn message(&self) -> (text: String)
        ensures
            match *self {
                AuthError::ReqwestError(_) => text@.len() >= request_error_prefix().len()
                    && text@.subrange(0, request_error_prefix().len() as int)
                    == request_error_prefix(),
                AuthError::ParseError(detail) => text@ == "Parse error: "@ + detail@,
                AuthError::CustomError(detail) => text@ == "Custom error: "@ + detail@,
                AuthError::NotAuthorized => text@ == not_authorized_text(),
            },
    {
        match self {
            AuthError::ReqwestError(error) => {
                let detail = transport_error_text(error);
                let text = request_error_message(detail.as_str());
                assert(text@.subrange(0, request_error_prefix().len() as int)
                    =~= request_error_prefix());
                text
            },
            AuthError::ParseError(detail) => String::from_str("Parse error: ").concat(
                detail.as_str(),
            ),
            AuthError::CustomError(detail) => String::from_str("Custom error: ").concat(
                detail.as_str(),
            ),
            AuthError::NotAuthorized => String::from_str(
                "Not authorized: the client holds no session",
            ),
        }
    }
}

} // verus!
