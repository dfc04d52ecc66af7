//! The envelopes in which the game APIs wrap their answers, and how an
//! envelope becomes either its data or a client error.

use vstd::prelude::*;
use crate::client::error::ClientError;

verus! {

/// A response envelope: a status code, a message and optional data.
pub trait ApiResponse: Sized {
    /// The payload type.
    type Data;

    /// Returns the response code.
    fn code(&self) -> i32;

    /// Returns the response message.
    fn message(&self) -> &str;

    /// Consumes the envelope and returns its data, if any.
    fn into_data(self) -> Option<Self::Data>;

    /// Returns whether the code reports success.
    fn is_success(&self) -> bool;

    /// Converts the envelope into its data, or an API error carrying the
    /// code and message; a success without data is an API error too.
    fn into_result(self) -> Result<Self::Data, ClientError>;
}

/// HoYoLab API response envelope.
#[derive(Debug)]
pub struct HoyolabApiResponse<T> {
    /// Response code (0 = success).
    pub retcode: i32,
    /// Response message.
    pub message: String,
    /// Response data (may be null on error).
    pub data: Option<T>,
}

/// Kuro Games API response envelope.
#[derive(Debug)]
pub struct KuroApiResponse<T> {
    /// Response code (0 or 200 = success).
    pub code: i32,
    /// Response message.
    pub message: String,
    /// Response data (may be null on error).
    pub data: Option<T>,
}

/// What an envelope becomes: its data when the code reports success and data
/// is present; otherwise an API error with the code and, for a failure, the
/// API's message, for a success without data "Response data is null".
pub open spec fn envelope_result<T>(
    success: bool,
    code: i32,
    message: Seq<char>,
    data: Option<T>,
    r: Result<T, ClientError>,
) -> bool {
    if !success {
        r matches Err(ClientError::ApiError { code: c, message: m }) && c == code && m@ == message
    } else {
        match data {
            Some(d) => r == Ok::<T, ClientError>(d),
            None => r matches Err(ClientError::ApiError { code: c, message: m }) && c == code
                && m@ == "Response data is null"@,
        }
    }
}

fn finish_envelope<T>(success: bool, code: i32, message: &str, data: Option<T>) -> (r: Result<T, ClientError>)
    ensures
        envelope_result(success, code, message@, data, r),
{
    if !success {
        let r = Err(ClientError::api_error(code, message));
        return r;
    }
    match data {
        Some(d) => Ok(d),
        None => {
            let r = Err(ClientError::api_error(code, "Response data is null"));
            proof {
                reveal_strlit("Response data is null");
            }
            r
        },
    }
}

impl<T> ApiResponse for HoyolabApiResponse<T> {
    type Data = T;

    fn code(&self) -> (c: i32)
        ensures
            c == self.retcode,
    {
        self.retcode
    }

    fn message(&self) -> (m: &str)
        ensures
            m@ == self.message@,
    {
        self.message.as_str()
    }

    fn into_data(self) -> (d: Option<T>)
        ensures
            d == self.data,
    {
        self.data
    }

    /// HoYoLab reports success with code 0.
    fn is_success(&self) -> (b: bool)
        ensures
            b == (self.retcode == 0),
    {
        self.retcode == 0
    }

    fn into_result(self) -> (r: Result<T, ClientError>)
        ensures
            envelope_result(self.retcode == 0, self.retcode, self.message@, self.data, r),
    {
        let success = self.retcode == 0;
        finish_envelope(success, self.retcode, self.message.as_str(), self.data)
    }
}

impl<T> ApiResponse for KuroApiResponse<T> {
    type Data = T;

    fn code(&self) -> (c: i32)
        ensures
            c == self.code,
    {
        self.code
    }

    fn message(&self) -> (m: &str)
        ensures
            m@ == self.message@,
    {
        self.message.as_str()
    }

    fn into_data(self) -> (d: Option<T>)
        ensures
            d == self.data,
    {
        self.data
    }

    /// Kuro reports success with code 0 or 200.
    fn is_success(&self) -> (b: bool)
        ensures
            b == (self.code == 0 || self.code == 200),
    {
        self.code == 0 || self.code == 200
    }

    fn into_result(self) -> (r: Result<T, ClientError>)
        ensures
            envelope_result(self.code == 0 || self.code == 200, self.code, self.message@, self.data, r),
    {
        let success = self.code == 0 || self.code == 200;
        finish_envelope(success, self.code, self.message.as_str(), self.data)
    }
}

} // verus!
