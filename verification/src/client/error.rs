//! Errors shared by the game API clients.
//!
//! Transport and decoding failures carry the text of the underlying error;
//! the application turns the HTTP and JSON crates' errors into that text.

use vstd::prelude::*;
use crate::text::{decimal, i64_decimal, join2, join3};

verus! {

/// Error type for API client operations.
#[derive(Debug, Clone)]
pub enum ClientError {
    /// HTTP request failed (network or transport error), with its text.
    HttpRequest(String),
    /// Failed to deserialize the response body, with the decoder's text.
    Deserialize(String),
    /// The API answered with an error code.
    ApiError {
        /// The error code returned by the API.
        code: i32,
        /// The error message returned by the API.
        message: String,
    },
    /// The server answered with an HTTP status that is not a success.
    HttpStatus {
        /// The HTTP status code.
        status: u16,
        /// What the server said.
        message: String,
    },
    /// The HTTP middleware (the retrying client) failed.
    Middleware(String),
    /// Authentication failed (invalid or expired credentials).
    AuthenticationFailed(String),
    /// Invalid configuration.
    InvalidConfig(String),
}

/// The text of a client error.
pub open spec fn client_error_text(e: ClientError) -> Seq<char> {
    match e {
        ClientError::HttpRequest(m) => "HTTP request failed: "@ + m@,
        ClientError::Deserialize(m) => "Failed to deserialize response: "@ + m@,
        ClientError::ApiError { code, message } => "API error (code "@ + decimal(code as int) + "): "@
            + message@,
        ClientError::HttpStatus { status, message } => "HTTP status "@ + decimal(status as int) + ": "@
            + message@,
        ClientError::Middleware(m) => "HTTP middleware failed: "@ + m@,
        ClientError::AuthenticationFailed(m) => "Authentication failed: "@ + m@,
        ClientError::InvalidConfig(m) => "Invalid configuration: "@ + m@,
    }
}

impl ClientError {
    /// Creates an API error with the given code and message.
    pub fn api_error(code: i32, message: &str) -> (e: Self)
        ensures
            e matches ClientError::ApiError { code: c, message: m } && c == code && m@ == message@,
    {
        ClientError::ApiError { code, message: message.to_owned() }
    }

    /// Creates an HTTP status error.
    pub fn http_status(status: u16, message: &str) -> (e: Self)
        ensures
            e matches ClientError::HttpStatus { status: s, message: m } && s == status && m@ == message@,
    {
        ClientError::HttpStatus { status, message: message.to_owned() }
    }

    /// Creates an authentication failed error.
    pub fn auth_failed(reason: &str) -> (e: Self)
        ensures
            e matches ClientError::AuthenticationFailed(m) && m@ == reason@,
    {
        ClientError::AuthenticationFailed(reason.to_owned())
    }

    /// Creates an invalid configuration error.
    pub fn invalid_config(reason: &str) -> (e: Self)
        ensures
            e matches ClientError::InvalidConfig(m) && m@ == reason@,
    {
        ClientError::InvalidConfig(reason.to_owned())
    }

    /// Returns the API error code if this is an API error.
    pub fn api_error_code(&self) -> (c: Option<i32>)
        ensures
            c == (match *self {
                ClientError::ApiError { code, .. } => Some(code),
                _ => None,
            }),
    {
        match self {
            ClientError::ApiError { code, .. } => Some(*code),
            _ => None,
        }
    }

    /// The error's text.
    pub fn message(&self) -> (s: String)
        ensures
            s@ == client_error_text(*self),
    {
        match self {
            ClientError::HttpRequest(m) => join2("HTTP request failed: ", m.as_str()),
            ClientError::Deserialize(m) => join2("Failed to deserialize response: ", m.as_str()),
            ClientError::ApiError { code, message } => {
                let c = i64_decimal(*code as i64);
                let head = join3("API error (code ", c.as_str(), "): ");
                join2(head.as_str(), message.as_str())
            },
            ClientError::HttpStatus { status, message } => {
                let c = i64_decimal(*status as i64);
                let head = join3("HTTP status ", c.as_str(), ": ");
                join2(head.as_str(), message.as_str())
            },
            ClientError::Middleware(m) => join2("HTTP middleware failed: ", m.as_str()),
            ClientError::AuthenticationFailed(m) => join2("Authentication failed: ", m.as_str()),
            ClientError::InvalidConfig(m) => join2("Invalid configuration: ", m.as_str()),
        }
    }
}

} // verus!
