//! The record operations: creating a record and running a SOQL query.
//!
//! Both need a session. Asked of a client without one, they fail with
//! [`AuthError::NotAuthorized`], whatever else they were given.

use crate::auth_response::AuthError;
use crate::json::{json_doc, json_member, json_parse, json_render, json_text, parse_json, JsonDoc};
use crate::record::Record;
use crate::salesforce_client::SalesforceClient;
use crate::transport::{refusal_text, status_text, HttpRequest, HttpResponse, Method, Payload};
use serde_json::Value;
use vstd::prelude::*;
use vstd::string::*;

verus! {

/// The path, below the instance URL, under which records of a type are
/// created; the name of the type follows it.
pub open spec fn sobjects_path() -> Seq<char> {
    "/services/data/v60.0/sobjects/"@
}

/// The path, below the instance URL, of the query service, up to the query
/// itself.
pub open spec fn query_path() -> Seq<char> {
    "/services/data/v60.0/query?q="@
}

/// The message of the error for an answer to a create call with a status
/// other than 201.
pub open spec fn create_refused_text(response: HttpResponse) -> Seq<char> {
    refusal_text(
        "Failed to create record. Status: "@,
        status_text(response.status_code()),
        response.body_text(),
    )
}

/// The message of the error for an answer to a query with a status other
/// than 200.
pub open spec fn query_refused_text(response: HttpResponse) -> Seq<char> {
    refusal_text(
        "Failed to query records. Status: "@,
        status_text(response.status_code()),
        response.body_text(),
    )
}

/// The message of the parse error for an answer to a create call that names
/// no id.
pub open spec fn missing_id_text() -> Seq<char> {
    "Missing ID in response"@
}

/// What the document of a successful create call means: the id of the
/// record, or the message of the parse error.
///
/// The document has to be an object with a string member `id`.
pub open spec fn created_id_in(doc: JsonDoc) -> Result<Seq<char>, Seq<char>> {
    match doc.text_member("id"@) {
        Some(id) => Ok(id),
        None => Err(missing_id_text()),
    }
}

/// What the body of a successful create call means: what the document
/// means that it is the JSON text of, or the message with which it fails to
/// parse.
pub open spec fn created_id_of(body: Seq<char>) -> Result<Seq<char>, Seq<char>> {
    match json_parse(body) {
        Err(message) => Err(message),
        Ok(doc) => created_id_in(doc),
    }
}

/// Reads the id of the new record from the JSON value of a successful
/// create call.
pub fn created_id(value: &Value) -> (id: Result<String, AuthError>)
    ensures
        match created_id_in(json_doc(*value)) {
            Ok(found) => id matches Ok(text) && text@ == found,
            Err(message) => id matches Err(AuthError::ParseError(text)) && text@ == message,
        },
{
    match json_text(json_member(value, "id")) {
        Some(id) => Ok(String::from_str(id)),
        None => Err(AuthError::ParseError(String::from_str("Missing ID in response"))),
    }
}

/// A body names an id exactly when it is a JSON object with a string member
/// `id`, and then the id is that string; a body that is JSON and lacks it
/// gives the parse error that says so.
pub proof fn lemma_created_id_needs_id(body: Seq<char>)
    ensures
        created_id_of(body) is Ok <==> (json_parse(body) matches Ok(doc) && doc.text_member(
            "id"@,
        ) is Some),
        created_id_of(body) matches Ok(id) ==> (json_parse(body) matches Ok(doc)
            && doc.text_member("id"@) == Some(id)),
        (json_parse(body) matches Ok(doc) && doc.text_member("id"@) is None) ==> created_id_of(
            body,
        ) == Err::<Seq<char>, Seq<char>>(missing_id_text()),
{
}

impl SalesforceClient {
    /// The request that creates a record of the type `object_type` with the
    /// fields of `data`: a POST, under the session's token, of the fields as
    /// one JSON object.
    ///
    /// The object holds exactly the fields of the record. It is a function
    /// of the mapping alone: the order in which the fields were set does not
    /// show in it.
    pub fn insert_record_request(&self, object_type: &str, data: &Record) -> (request: Result<
        HttpRequest,
        AuthError,
    >)
        ensures
            match self.session() {
                None => request matches Err(AuthError::NotAuthorized),
                Some((token, url)) => {
                    &&& request matches Ok(r)
                    &&& r.method == Method::Post
                    &&& r.url@ == url + sobjects_path() + object_type@
                    &&& r.bearer matches Some(bearer) && bearer@ == token
                    &&& r.payload matches Payload::Json(body) && body@ == json_render(
                        data.document(),
                    )
                },
            },
    {
        let (token, instance_url) = match self.held_session() {
            Some(session) => session,
            None => {
                return Err(AuthError::NotAuthorized);
            },
        };
        let url = String::from_str(instance_url).concat("/services/data/v60.0/sobjects/").concat(
            object_type,
        );
        Ok(
            HttpRequest {
                method: Method::Post,
                url,
                bearer: Some(String::from_str(token)),
                payload: Payload::Json(data.to_json()),
            },
        )
    }

    /// Takes what came back from a create call and gives the id of the new
    /// record.
    ///
    /// A failed exchange is handed on. A status other than 201 is an error
    /// that carries the status and the body. A body that is not JSON, or
    /// that names no id, is a parse error.
    pub fn insert_record(&self, outcome: Result<HttpResponse, reqwest::Error>) -> (created: Result<
        String,
        AuthError,
    >)
        ensures
            match self.session() {
                None => created matches Err(AuthError::NotAuthorized),
                Some(_) => match outcome {
                    Err(failure) => created == Err::<String, AuthError>(
                        AuthError::ReqwestError(failure),
                    ),
                    Ok(response) => if response.status_code() != 201 {
                        created matches Err(AuthError::CustomError(text)) && text@
                            == create_refused_text(response)
                    } else {
                        match created_id_of(response.body_text()) {
                            Ok(id) => created matches Ok(text) && text@ == id,
                            Err(message) => created matches Err(AuthError::ParseError(text))
                                && text@ == message,
                        }
                    },
                },
            },
    {
        if self.held_session().is_none() {
            return Err(AuthError::NotAuthorized);
        }
        let response = match outcome {
            Ok(response) => response,
            Err(failure) => {
                return Err(AuthError::from(failure));
            },
        };
        if response.status() != 201 {
            return Err(
                AuthError::CustomError(response.refusal("Failed to create record. Status: ")),
            );
        }
        match parse_json(response.body()) {
            Ok(response_json) => created_id(&response_json),
            Err(message) => Err(AuthError::ParseError(message)),
        }
    }

    /// The request that runs a SOQL query: a GET, under the session's
    /// token, of the query service with the query appended as it is.
    pub fn query_records_request(&self, query: &str) -> (request: Result<HttpRequest, AuthError>)
        ensures
            match self.session() {
                None => request matches Err(AuthError::NotAuthorized),
                Some((token, url)) => {
                    &&& request matches Ok(r)
                    &&& r.method == Method::Get
                    &&& r.url@ == url + query_path() + query@
                    &&& r.bearer matches Some(bearer) && bearer@ == token
                    &&& r.payload is Empty
                },
            },
    {
        let (token, instance_url) = match self.held_session() {
            Some(session) => session,
            None => {
                return Err(AuthError::NotAuthorized);
            },
        };
        let url = String::from_str(instance_url).concat("/services/data/v60.0/query?q=").concat(query);
        Ok(
            HttpRequest {
                method: Method::Get,
                url,
                bearer: Some(String::from_str(token)),
                payload: Payload::Empty,
            },
        )
    }

    /// Takes what came back from a query and gives the JSON value of the
    /// body, as it is.
    ///
    /// A failed exchange is handed on. A status other than 200 is an error
    /// that carries the status and the body. A body that is not JSON is a
    /// parse error.
    pub fn query_records(&self, outcome: Result<HttpResponse, reqwest::Error>) -> (records: Result<
        Value,
        AuthError,
    >)
        ensures
            match self.session() {
                None => records matches Err(AuthError::NotAuthorized),
                Some(_) => match outcome {
                    Err(failure) => records == Err::<Value, AuthError>(
                        AuthError::ReqwestError(failure),
                    ),
                    Ok(response) => if response.status_code() != 200 {
                        records matches Err(AuthError::CustomError(text)) && text@
                            == query_refused_text(response)
                    } else {
                        match json_parse(response.body_text()) {
                            Ok(doc) => records matches Ok(value) && json_doc(value) == doc,
                            Err(message) => records matches Err(AuthError::ParseError(text))
                                && text@ == message,
                        }
                    },
                },
            },
    {
        if self.held_session().is_none() {
            return Err(AuthError::NotAuthorized);
        }
        let response = match outcome {
            Ok(response) => response,
            Err(failure) => {
                return Err(AuthError::from(failure));
            },
        };
        if response.status() != 200 {
            return Err(
                AuthError::CustomError(response.refusal("Failed to query records. Status: ")),
            );
        }
        match parse_json(response.body()) {
            Ok(value) => Ok(value),
            Err(message) => Err(AuthError::ParseError(message)),
        }
    }
}

} // verus!
