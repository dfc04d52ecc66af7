//! Errors of the HoYoLab API client, and which of them a retry can clear.

use vstd::prelude::*;
use crate::client::error::{client_error_text, ClientError};
use crate::hoyolab::retcode::{has_kind, listed, listed_as, lookup, RetcodeKind};
use crate::text::{decimal, i64_decimal, join2, join3};

verus! {

/// Error type for HoYoLab API operations.
#[derive(Debug, Clone)]
pub enum Error {
    /// Base client error (HTTP, deserialization, API errors).
    Client(ClientError),
    /// Temporary throttle reported in the response body.
    RateLimited {
        /// API retcode for the throttle.
        retcode: i32,
        /// API message returned with the retcode.
        message: String,
    },
    /// The sign endpoint accepted the request but the follow-up status
    /// remains unsigned.
    ClaimNotRegistered {
        /// Risk-control code returned by the sign endpoint, when present.
        risk_code: Option<i32>,
    },
}

/// Whether retrying can clear an error: an API error unless the catalogue
/// classifies its code as rate-limited, cookie, account, already-claimed or
/// redemption; an HTTP status only for 408, 429 and 5xx; anything else.
pub open spec fn recoverable(e: Error) -> bool {
    match e {
        Error::Client(ClientError::ApiError { code, .. }) => !listed(code) || listed_as(
            code,
            RetcodeKind::Cooldown,
        ) || listed_as(code, RetcodeKind::Geetest) || listed_as(code, RetcodeKind::Request),
        Error::Client(ClientError::HttpStatus { status, .. }) => status == 408 || status == 429 || (
        500 <= status <= 599),
        _ => true,
    }
}

/// The debug text of an optional code.
pub open spec fn optional_code_text(c: Option<i32>) -> Seq<char> {
    match c {
        Some(v) => "Some("@ + decimal(v as int) + ")"@,
        None => "None"@,
    }
}

/// The text of a HoYoLab error.
pub open spec fn error_text(e: Error) -> Seq<char> {
    match e {
        Error::Client(c) => client_error_text(c),
        Error::RateLimited { retcode, message } => "HoYoLab rate limit (retcode "@ + decimal(
            retcode as int,
        ) + "): "@ + message@,
        Error::ClaimNotRegistered { risk_code } =>
            "Sign accepted but the reward is still unclaimed (risk_code "@ + optional_code_text(risk_code)
            + ")"@,
    }
}

impl Error {
    /// Returns whether retrying the error can succeed.
    ///
    /// `false` for API errors classified as rate-limited, cookie, account,
    /// already-claimed or redemption failures, and for HTTP statuses other
    /// than 408, 429 and 5xx; `true` for everything else, including the
    /// `RateLimited` variant, transport and decoding failures, geetest and
    /// request errors, and unknown API retcodes.
    pub fn is_recoverable(&self) -> (b: bool)
        ensures
            b == recoverable(*self),
    {
        match self {
            Error::Client(ClientError::ApiError { code, .. }) => {
                match lookup(*code) {
                    None => true,
                    Some(_) => has_kind(*code, RetcodeKind::Cooldown) || has_kind(
                        *code,
                        RetcodeKind::Geetest,
                    ) || has_kind(*code, RetcodeKind::Request),
                }
            },
            Error::Client(ClientError::HttpStatus { status, .. }) => {
                *status == 408 || *status == 429 || (500 <= *status && *status <= 599)
            },
            _ => true,
        }
    }

    /// The error's text.
    pub fn message(&self) -> (s: String)
        ensures
            s@ == error_text(*self),
    {
        match self {
            Error::Client(c) => c.message(),
            Error::RateLimited { retcode, message } => {
                let c = i64_decimal(*retcode as i64);
                let head = join3("HoYoLab rate limit (retcode ", c.as_str(), "): ");
                join2(head.as_str(), message.as_str())
            },
            Error::ClaimNotRegistered { risk_code } => {
                let code = match risk_code {
                    Some(v) => {
                        let d = i64_decimal(*v as i64);
                        join3("Some(", d.as_str(), ")")
                    },
                    None => "None".to_owned(),
                };
                join3(
                    "Sign accepted but the reward is still unclaimed (risk_code ",
                    code.as_str(),
                    ")",
                )
            },
        }
    }
}

} // verus!
