use salesforce_client::auth_response::request_error_message;
use salesforce_client::transport::refusal_message;
use salesforce_client::{
    AuthError, AuthResponse, Constants, HttpResponse, Method, Payload, SalesforceClient,
};
use serde_json::Value;

fn response(status: u16, body: &str) -> HttpResponse {
    HttpResponse::new(status, body.to_string()).unwrap()
}

fn constants() -> Constants {
    Constants {
        consumer_key: "key".to_string(),
        consumer_secret: "secret".to_string(),
        username: "user@example.com".to_string(),
        token: "TOKEN".to_string(),
        password: "pass".to_string(),
        endpoint: "https://login.example.com".to_string(),
    }
}

fn authorized() -> SalesforceClient {
    let mut client = SalesforceClient::new();
    let body = "{\"access_token\":\"T1\",\"instance_url\":\"https://example.my.salesforce.com\"}";
    client.authorize(Ok(response(200, body))).unwrap();
    client
}

fn transport_failure() -> reqwest::Error {
    reqwest::Client::new().get("not a url").build().unwrap_err()
}

#[test]
fn new_client_has_no_session() {
    let client = SalesforceClient::new();
    assert_eq!(client.token(), None);
    assert_eq!(client.instance_url(), None);
    assert_eq!(client.held_session(), None);
}

#[test]
fn authorize_request_posts_the_password_grant() {
    let client = SalesforceClient::new();
    let request = client.authorize_request(&constants());
    assert_eq!(request.method, Method::Post);
    assert_eq!(request.url, "https://login.example.com/services/oauth2/token");
    assert_eq!(request.bearer, None);
    let pair = |name: &str, value: &str| (name.to_string(), value.to_string());
    assert_eq!(
        request.payload,
        Payload::Form(vec![
            pair("grant_type", "password"),
            pair("client_id", "key"),
            pair("client_secret", "secret"),
            pair("username", "user@example.com"),
            pair("password", "passTOKEN"),
        ])
    );
}

#[test]
fn authorize_stores_token_and_instance_url() {
    let mut client = SalesforceClient::new();
    let body = "{\"access_token\":\"T1\",\"instance_url\":\"https://example.my.salesforce.com\"}";
    let done = client.authorize(Ok(response(200, body)));
    assert!(done.is_ok());
    assert_eq!(client.token(), Some("T1"));
    assert_eq!(client.instance_url(), Some("https://example.my.salesforce.com"));
    assert_eq!(
        client.held_session(),
        Some(("T1", "https://example.my.salesforce.com"))
    );
}

#[test]
fn authorize_ignores_other_members() {
    let mut client = SalesforceClient::new();
    let body = "{\"id\":\"x\",\"access_token\":\"T2\",\"token_type\":\"Bearer\",\"instance_url\":\"https://u\",\"issued_at\":\"1\"}";
    assert!(client.authorize(Ok(response(200, body))).is_ok());
    assert_eq!(client.held_session(), Some(("T2", "https://u")));
}

#[test]
fn authorize_replaces_an_earlier_session() {
    let mut client = authorized();
    let body = "{\"access_token\":\"T9\",\"instance_url\":\"https://other\"}";
    assert!(client.authorize(Ok(response(200, body))).is_ok());
    assert_eq!(client.held_session(), Some(("T9", "https://other")));
}

#[test]
fn authorize_fails_on_400_with_status_and_body() {
    let mut client = SalesforceClient::new();
    let body = "{\"error\":\"invalid_grant\"}";
    match client.authorize(Ok(response(400, body))) {
        Err(AuthError::CustomError(text)) => {
            assert_eq!(text, "Error: 400 Bad Request - {\"error\":\"invalid_grant\"}")
        }
        other => panic!("unexpected: {:?}", other),
    }
    assert_eq!(client.held_session(), None);
}

#[test]
fn authorize_failure_keeps_the_session() {
    let mut client = authorized();
    match client.authorize(Ok(response(401, "denied"))) {
        Err(AuthError::CustomError(text)) => assert_eq!(text, "Error: 401 Unauthorized - denied"),
        other => panic!("unexpected: {:?}", other),
    }
    assert_eq!(
        client.held_session(),
        Some(("T1", "https://example.my.salesforce.com"))
    );
    match client.authorize(Ok(response(500, ""))) {
        Err(AuthError::CustomError(text)) => {
            assert_eq!(text, "Error: 500 Internal Server Error - ")
        }
        other => panic!("unexpected: {:?}", other),
    }
    assert_eq!(
        client.held_session(),
        Some(("T1", "https://example.my.salesforce.com"))
    );
}

#[test]
fn authorize_takes_only_status_200_for_success() {
    let mut client = SalesforceClient::new();
    let body = "{\"access_token\":\"T1\",\"instance_url\":\"https://u\"}";
    match client.authorize(Ok(response(201, body))) {
        Err(AuthError::CustomError(text)) => assert_eq!(
            text,
            "Error: 201 Created - {\"access_token\":\"T1\",\"instance_url\":\"https://u\"}"
        ),
        other => panic!("unexpected: {:?}", other),
    }
    assert_eq!(client.held_session(), None);
}

#[test]
fn authorize_names_a_status_without_reason() {
    let mut client = SalesforceClient::new();
    match client.authorize(Ok(response(999, "x"))) {
        Err(AuthError::CustomError(text)) => {
            assert_eq!(text, "Error: 999 <unknown status code> - x")
        }
        other => panic!("unexpected: {:?}", other),
    }
}

#[test]
fn authorize_missing_access_token_is_parse_error() {
    let mut client = authorized();
    match client.authorize(Ok(response(200, "{\"instance_url\":\"https://u\"}"))) {
        Err(AuthError::ParseError(text)) => assert_eq!(text, "missing field `access_token`"),
        other => panic!("unexpected: {:?}", other),
    }
    assert_eq!(
        client.held_session(),
        Some(("T1", "https://example.my.salesforce.com"))
    );
}

#[test]
fn authorize_missing_instance_url_is_parse_error() {
    let mut client = SalesforceClient::new();
    match client.authorize(Ok(response(200, "{\"access_token\":\"T1\"}"))) {
        Err(AuthError::ParseError(text)) => assert_eq!(text, "missing field `instance_url`"),
        other => panic!("unexpected: {:?}", other),
    }
    assert_eq!(client.token(), None);
    assert_eq!(client.instance_url(), None);
}

#[test]
fn authorize_member_of_another_type_is_parse_error() {
    let mut client = SalesforceClient::new();
    match client.authorize(Ok(response(200, "{\"access_token\":5,\"instance_url\":\"u\"}"))) {
        Err(AuthError::ParseError(text)) => assert_eq!(text, "missing field `access_token`"),
        other => panic!("unexpected: {:?}", other),
    }
    match client.authorize(Ok(response(200, "[\"T1\",\"u\"]"))) {
        Err(AuthError::ParseError(text)) => assert_eq!(text, "missing field `access_token`"),
        other => panic!("unexpected: {:?}", other),
    }
    assert_eq!(client.held_session(), None);
}

#[test]
fn authorize_body_that_is_no_json_is_parse_error() {
    let mut client = authorized();
    match client.authorize(Ok(response(200, "<html>"))) {
        Err(AuthError::ParseError(text)) => {
            assert_eq!(text, "expected value at line 1 column 1")
        }
        other => panic!("unexpected: {:?}", other),
    }
    assert_eq!(
        client.held_session(),
        Some(("T1", "https://example.my.salesforce.com"))
    );
}

#[test]
fn authorize_hands_on_a_transport_failure() {
    let mut client = authorized();
    let failure = transport_failure();
    let shown = failure.to_string();
    match client.authorize(Err(failure)) {
        Err(AuthError::ReqwestError(error)) => assert_eq!(error.to_string(), shown),
        other => panic!("unexpected: {:?}", other),
    }
    assert_eq!(
        client.held_session(),
        Some(("T1", "https://example.my.salesforce.com"))
    );
}

#[test]
fn auth_response_parse_reads_both_fields() {
    let parsed =
        AuthResponse::parse("{\"access_token\":\"T1\",\"instance_url\":\"https://u\"}").unwrap();
    assert_eq!(
        parsed,
        AuthResponse {
            access_token: "T1".to_string(),
            instance_url: "https://u".to_string(),
        }
    );
}

#[test]
fn auth_response_parse_unescapes_strings() {
    let parsed =
        AuthResponse::parse("{\"access_token\":\"a\\\"b\",\"instance_url\":\"\\u0041\"}").unwrap();
    assert_eq!(parsed.access_token, "a\"b");
    assert_eq!(parsed.instance_url, "A");
}

#[test]
fn error_messages() {
    assert_eq!(
        AuthError::ParseError("bad".to_string()).message(),
        "Parse error: bad"
    );
    assert_eq!(
        AuthError::CustomError("Error: 404 Not Found - x".to_string()).message(),
        "Custom error: Error: 404 Not Found - x"
    );
    assert_eq!(
        AuthError::NotAuthorized.message(),
        "Not authorized: the client holds no session"
    );
    let failure = transport_failure();
    let shown = failure.to_string();
    assert!(!shown.is_empty());
    assert_eq!(
        AuthError::ReqwestError(failure).message(),
        format!("Request error: {}", shown)
    );
}

#[test]
fn response_needs_a_status_code() {
    assert!(HttpResponse::new(99, String::new()).is_none());
    assert!(HttpResponse::new(0, "x".to_string()).is_none());
    assert!(HttpResponse::new(1000, String::new()).is_none());
    assert!(HttpResponse::new(u16::MAX, String::new()).is_none());
    let lowest = HttpResponse::new(100, "a".to_string()).unwrap();
    assert_eq!(lowest.status(), 100);
    assert_eq!(lowest.body(), "a");
    assert_eq!(lowest.status_line(), "100 Continue");
    let highest = HttpResponse::new(999, String::new()).unwrap();
    assert_eq!(highest.status(), 999);
    assert_eq!(highest.body(), "");
}

#[test]
fn response_keeps_the_body_as_it_was_sent() {
    let response = HttpResponse::new(200, "Failed to read response".to_string()).unwrap();
    assert_eq!(response.body(), "Failed to read response");
    assert_eq!(response.status_line(), "200 OK");
    let empty = HttpResponse::new(200, String::new()).unwrap();
    assert_eq!(empty.body(), "");
}

#[test]
fn refusal_message_joins_lead_status_and_body() {
    assert_eq!(
        refusal_message("Error: ", "418 I'm a teapot", "short and stout"),
        "Error: 418 I'm a teapot - short and stout"
    );
    assert_eq!(refusal_message("", "", ""), " - ");
    let response = HttpResponse::new(503, "busy - later".to_string()).unwrap();
    assert_eq!(
        response.refusal("Failed to query records. Status: "),
        "Failed to query records. Status: 503 Service Unavailable - busy - later"
    );
}

#[test]
fn request_error_message_keeps_the_whole_text() {
    assert_eq!(
        request_error_message("error sending request for url (https://x/)"),
        "Request error: error sending request for url (https://x/)"
    );
    assert_eq!(request_error_message(""), "Request error: ");
}

#[test]
fn auth_response_from_value_reads_the_two_members() {
    let mut members = serde_json::Map::new();
    members.insert("instance_url".to_string(), Value::String("https://u".to_string()));
    members.insert("access_token".to_string(), Value::String("T1".to_string()));
    members.insert("scope".to_string(), Value::Null);
    let read = AuthResponse::from_value(&Value::Object(members)).unwrap();
    assert_eq!(read.access_token, "T1");
    assert_eq!(read.instance_url, "https://u");
}

#[test]
fn auth_response_from_value_names_the_first_member_that_is_not_there() {
    let message = |value: &Value| match AuthResponse::from_value(value) {
        Err(AuthError::ParseError(text)) => text,
        other => panic!("unexpected: {:?}", other),
    };
    assert_eq!(message(&Value::Object(serde_json::Map::new())), "missing field `access_token`");
    assert_eq!(message(&Value::Null), "missing field `access_token`");
    assert_eq!(
        message(&Value::String("access_token".to_string())),
        "missing field `access_token`"
    );

    let mut only_url = serde_json::Map::new();
    only_url.insert("instance_url".to_string(), Value::String("https://u".to_string()));
    assert_eq!(message(&Value::Object(only_url)), "missing field `access_token`");

    let mut only_token = serde_json::Map::new();
    only_token.insert("access_token".to_string(), Value::String("T1".to_string()));
    assert_eq!(message(&Value::Object(only_token.clone())), "missing field `instance_url`");

    only_token.insert("instance_url".to_string(), Value::Bool(true));
    assert_eq!(message(&Value::Object(only_token)), "missing field `instance_url`");
}

#[test]
fn transport_failure_converts_into_a_request_error() {
    let failure = transport_failure();
    let shown = failure.to_string();
    match AuthError::from(failure) {
        AuthError::ReqwestError(error) => assert_eq!(error.to_string(), shown),
        other => panic!("unexpected: {:?}", other),
    }
}
