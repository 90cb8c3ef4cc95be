//! A small client for the Salesforce REST API: the OAuth2 password grant,
//! record creation and SOQL queries.
//!
//! The library decides and the caller transports. Every operation comes as
//! a pair: one function builds the request to send, the other takes what
//! came back and says what it means.

pub mod json;
pub mod transport;
pub mod auth_response;
pub mod record;
pub mod constants;
pub mod salesforce_client;
pub mod salesforce_operations;

pub use crate::auth_response::{AuthError, AuthResponse};
pub use crate::constants::{ConfigError, Constants};
pub use crate::record::Record;
pub use crate::salesforce_client::SalesforceClient;
pub use crate::transport::{HttpRequest, HttpResponse, Method, Payload};
