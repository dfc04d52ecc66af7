//! What the HoYoLab HTTP client decides around its requests: the cookie it
//! sends, the error an HTTP failure becomes, and what an authentication
//! check concludes.

use vstd::prelude::*;
use crate::client::error::ClientError;
use crate::hoyolab::error::Error;
use crate::text::{char_prefix, join2, join3, trim_text, trim_ws};

verus! {

/// The cookie header for a HoYoLab account.
pub open spec fn cookie_text(ltuid: Seq<char>, ltoken: Seq<char>) -> Seq<char> {
    "ltuid_v2="@ + ltuid + "; ltoken_v2="@ + ltoken
}

/// Builds the cookie header for a HoYoLab account.
pub fn cookie_header(ltuid: &str, ltoken: &str) -> (c: String)
    ensures
        c@ == cookie_text(ltuid@, ltoken@),
{
    let a = join3("ltuid_v2=", ltuid, "; ltoken_v2=");
    let c = join2(a.as_str(), ltoken);
    assert(c@ =~= cookie_text(ltuid@, ltoken@));
    c
}

/// The longest prefix of an error body quoted in the error.
pub const BODY_PREVIEW_CHARS: usize = 300;

/// The error text for an HTTP failure: the status and the trimmed start of
/// the body.
pub open spec fn http_failure_text(status_text: Seq<char>, body: Seq<char>) -> Seq<char> {
    "HTTP "@ + status_text + " from HoYoLab API: "@ + trim_ws(
        if body.len() <= BODY_PREVIEW_CHARS { body } else { body.take(BODY_PREVIEW_CHARS as int) },
    )
}

/// The error an unsuccessful HTTP status becomes: an API error whose code
/// is the status and whose message quotes the status (`status_text`, as the
/// HTTP library displays it) and the first 300 characters of the body,
/// trimmed.
pub fn http_failure_error(status: u16, status_text: &str, body: &str) -> (e: Error)
    ensures
        e matches Error::Client(ClientError::ApiError { code, message }) && code == status as i32
            && message@ == http_failure_text(status_text@, body@),
{
    let preview = char_prefix(body, BODY_PREVIEW_CHARS);
    let trimmed_preview = trim_text(preview.as_str());
    let head = join3("HTTP ", status_text, " from HoYoLab API: ");
    let message = join2(head.as_str(), trimmed_preview.as_str());
    assert(message@ =~= http_failure_text(status_text@, body@));
    Error::Client(ClientError::api_error(status as i32, message.as_str()))
}

/// The API reports that the cookie is not logged in (retcode -100).
pub open spec fn signed_out(e: Error) -> bool {
    e matches Error::Client(ClientError::ApiError { code, .. }) && code == -100
}

/// What an authentication check concludes from the probe request: signed
/// in when it succeeded, signed out on retcode -100 (not logged in), and the
/// error otherwise.
pub fn auth_check_outcome(probe: Result<(), Error>) -> (r: Result<bool, Error>)
    ensures
        probe is Ok ==> r == Ok::<bool, Error>(true),
        probe matches Err(e) ==> r == (if signed_out(e) {
            Ok::<bool, Error>(false)
        } else {
            Err::<bool, Error>(e)
        }),
{
    match probe {
        Ok(()) => Ok(true),
        Err(e) => {
            let not_logged_in = match &e {
                Error::Client(ClientError::ApiError { code, .. }) => *code == -100,
                _ => false,
            };
            if not_logged_in {
                Ok(false)
            } else {
                Err(e)
            }
        },
    }
}

} // verus!
