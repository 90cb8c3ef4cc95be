//! The client and its session: the exchange of credentials for a token.

use crate::auth_response::{auth_response_of, AuthError, AuthResponse};
use crate::constants::{token_path, Constants, Credentials};
use crate::transport::{refusal_text, status_text, HttpRequest, HttpResponse, Method, Payload};
use vstd::prelude::*;
use vstd::string::*;

verus! {

/// The characters of a form field: its name and its value.
pub open spec fn field_text(field: (String, String)) -> (Seq<char>, Seq<char>) {
    (field.0@, field.1@)
}

/// The characters of the fields of a form, in their order.
pub open spec fn form_text(fields: Seq<(String, String)>) -> Seq<(Seq<char>, Seq<char>)> {
    fields.map_values(|field: (String, String)| field_text(field))
}

/// The form of the password grant: the password is followed, without a
/// separator, by the security token.
pub open spec fn token_form(credentials: Credentials) -> Seq<(Seq<char>, Seq<char>)> {
    seq![
        ("grant_type"@, "password"@),
        ("client_id"@, credentials.consumer_key),
        ("client_secret"@, credentials.consumer_secret),
        ("username"@, credentials.username),
        ("password"@, credentials.password + credentials.token),
    ]
}

/// The message of the error for an answer of the token endpoint with a
/// status other than 200.
pub open spec fn token_refused_text(response: HttpResponse) -> Seq<char> {
    refusal_text("Error: "@, status_text(response.status_code()), response.body_text())
}

/// A client of the Salesforce API.
///
/// It holds the session, once there is one: the access token and the
/// instance URL that the token endpoint gave.
#[derive(Debug)]
pub struct SalesforceClient {
    /// The access token used for authenticated requests.
    pub(crate) token: Option<String>,
    /// The instance URL for making API requests.
    pub(crate) instance_url: Option<String>,
}

impl SalesforceClient {
    /// The characters of the access token, if the client holds one.
    pub closed spec fn token_text(self) -> Option<Seq<char>> {
        match self.token {
            Some(token) => Some(token@),
            None => None,
        }
    }

    /// The characters of the instance URL, if the client holds one.
    pub closed spec fn instance_url_text(self) -> Option<Seq<char>> {
        match self.instance_url {
            Some(url) => Some(url@),
            None => None,
        }
    }

    /// The session: the access token and the instance URL, in this order.
    /// There is none until both are held.
    pub open spec fn session(self) -> Option<(Seq<char>, Seq<char>)> {
        match (self.token_text(), self.instance_url_text()) {
            (Some(token), Some(url)) => Some((token, url)),
            _ => None,
        }
    }

    /// A client without a session.
    pub fn new() -> (client: SalesforceClient)
        ensures
            client.token_text() is None,
            client.instance_url_text() is None,
            client.session() is None,
    {
        SalesforceClient { token: None, instance_url: None }
    }

    /// The access token, if the client holds one.
    pub fn token(&self) -> (token: Option<&str>)
        ensures
            match token {
                Some(text) => self.token_text() == Some(text@),
                None => self.token_text() is None,
            },
    {
        match &self.token {
            Some(token) => Some(token.as_str()),
            None => None,
        }
    }

    /// The instance URL, if the client holds one.
    pub fn instance_url(&self) -> (url: Option<&str>)
        ensures
            match url {
                Some(text) => self.instance_url_text() == Some(text@),
                None => self.instance_url_text() is None,
            },
    {
        match &self.instance_url {
            Some(url) => Some(url.as_str()),
            None => None,
        }
    }

    /// The session, if the client holds one: the access token and the
    /// instance URL.
    pub fn held_session(&self) -> (held: Option<(&str, &str)>)
        ensures
            match held {
                Some((token, url)) => self.session() == Some((token@, url@)),
                None => self.session() is None,
            },
    {
        match (&self.token, &self.instance_url) {
            (Some(token), Some(url)) => Some((token.as_str(), url.as_str())),
            _ => None,
        }
    }

    /// The request that asks the token endpoint for a session: a POST of
    /// the password-grant form to the configured endpoint.
    pub fn authorize_request(&self, constants: &Constants) -> (request: HttpRequest)
        ensures
            request.method == Method::Post,
            request.url@ == constants.endpoint@ + token_path(),
            request.bearer is None,
            request.payload matches Payload::Form(fields) && form_text(fields@) == token_form(
                constants@,
            ),
    {
        let secret = constants.password.clone().concat(constants.token.as_str());
        let mut fields: Vec<(String, String)> = Vec::new();
        fields.push((String::from_str("grant_type"), String::from_str("password")));
        fields.push((String::from_str("client_id"), constants.consumer_key.clone()));
        fields.push((String::from_str("client_secret"), constants.consumer_secret.clone()));
        fields.push((String::from_str("username"), constants.username.clone()));
        fields.push((String::from_str("password"), secret));
        assert(form_text(fields@) =~= token_form(constants@));
        HttpRequest {
            method: Method::Post,
            url: constants.token_request_endpoint_url(),
            bearer: None,
            payload: Payload::Form(fields),
        }
    }

    /// Takes what came back from the token endpoint.
    ///
    /// A response with status 200 and a body that holds an access token and
    /// an instance URL starts a session, in place of the one before. In
    /// every other case the client is left as it was: a failed exchange is
    /// handed on, another status is an error that carries the status and
    /// the body, and a body of another shape is a parse error.
    pub fn authorize(&mut self, outcome: Result<HttpResponse, reqwest::Error>) -> (done: Result<
        (),
        AuthError,
    >)
        ensures
            match outcome {
                Err(failure) => done == Err::<(), AuthError>(AuthError::ReqwestError(failure))
                    && *final(self) == *old(self),
                Ok(response) => if response.status_code() != 200 {
                    &&& done matches Err(AuthError::CustomError(text)) && text@
                        == token_refused_text(response)
                    &&& *final(self) == *old(self)
                } else {
                    match auth_response_of(response.body_text()) {
                        Err(message) => {
                            &&& done matches Err(AuthError::ParseError(text)) && text@ == message
                            &&& *final(self) == *old(self)
                        },
                        Ok((token, url)) => {
                            &&& done is Ok
                            &&& final(self).token_text() == Some(token)
                            &&& final(self).instance_url_text() == Some(url)
                            &&& final(self).session() == Some((token, url))
                        },
                    }
                },
            },
    {
        let response = match outcome {
            Ok(response) => response,
            Err(failure) => {
                return Err(AuthError::from(failure));
            },
        };
        if response.status() != 200 {
            return Err(AuthError::CustomError(response.refusal("Error: ")));
        }
        let auth_response = match AuthResponse::parse(response.body()) {
            Ok(auth_response) => auth_response,
            Err(error) => {
                return Err(error);
            },
        };
        self.token = Some(auth_response.access_token);
        self.instance_url = Some(auth_response.instance_url);
        Ok(())
    }
}

} // verus!
