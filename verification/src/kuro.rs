//! The Kuro Games API rules: the client's base URL, the role query and its
//! answers, the retry on code 1005, and the XOR-5 encoding of the launcher's
//! cached OAuth code.

use vstd::prelude::*;
use crate::client::error::{client_error_text, ClientError};
use crate::client::response::KuroApiResponse;
use crate::client::retry::RetryConfig;
use crate::error::{error_message, Error as CoreError};
use crate::text::{chars_of, decimal, i64_decimal, join2, join3, string_of};

verus! {

/// Default base URL of the Kuro launcher SDK API.
pub const KURO_API_BASE: &'static str = "https://pc-launcher-sdk-api.kurogame.net";

/// Base delay between role-query retries, in milliseconds.
pub const KURO_API_DEFAULT_BASE_DELAY_MS: u64 = 1500;

/// Error type for Kuro Games API operations.
#[derive(Debug)]
pub enum Error {
    /// Base client error (HTTP, deserialization, API errors).
    Client(ClientError),
    /// Server requested retry (code 1005).
    RetryRequested,
    /// Failed to parse nested JSON data.
    NestedDataParseFailed(String),
    /// An XOR-5 payload contains a byte outside ASCII.
    NonAsciiXor5Payload,
    /// Error from the core configuration layer.
    Core(CoreError),
}

/// The text of a Kuro error.
pub open spec fn error_text(e: Error) -> Seq<char> {
    match e {
        Error::Client(c) => client_error_text(c),
        Error::RetryRequested => "Server requested retry (code 1005)"@,
        Error::NestedDataParseFailed(m) => "Failed to parse nested data: "@ + m@,
        Error::NonAsciiXor5Payload => "XOR-5 payload is not ASCII"@,
        Error::Core(c) => error_message(c),
    }
}

impl Error {
    /// The error's text.
    pub fn message(&self) -> (s: String)
        ensures
            s@ == error_text(*self),
    {
        match self {
            Error::Client(c) => c.message(),
            Error::RetryRequested => "Server requested retry (code 1005)".to_owned(),
            Error::NestedDataParseFailed(m) => join2("Failed to parse nested data: ", m.as_str()),
            Error::NonAsciiXor5Payload => "XOR-5 payload is not ASCII".to_owned(),
            Error::Core(c) => c.message(),
        }
    }
}

/// A base URL without its trailing slashes.
pub open spec fn without_trailing_slashes(s: Seq<char>) -> Seq<char>
    decreases s.len(),
{
    if s.len() > 0 && s.last() == '/' {
        without_trailing_slashes(s.drop_last())
    } else {
        s
    }
}

/// The parts of the Kuro client that its requests are built from: the OAuth
/// code and the base URL (kept without trailing slashes).
#[derive(Debug, Clone)]
pub struct KuroClient {
    oauth_code: String,
    base_url: String,
}

impl KuroClient {
    /// The OAuth code sent with every role query.
    pub closed spec fn oauth(&self) -> Seq<char> {
        self.oauth_code@
    }

    /// The base URL requests go to.
    pub closed spec fn base(&self) -> Seq<char> {
        self.base_url@
    }

    /// Creates a client for the default Kuro API.
    pub fn new(oauth_code: &str) -> (c: Self)
        ensures
            c.oauth() == oauth_code@,
            c.base() == without_trailing_slashes(KURO_API_BASE@),
    {
        Self::with_base_url(oauth_code, KURO_API_BASE)
    }

    /// Creates a client for a custom base URL; trailing slashes are removed.
    pub fn with_base_url(oauth_code: &str, base_url: &str) -> (c: Self)
        ensures
            c.oauth() == oauth_code@,
            c.base() == without_trailing_slashes(base_url@),
    {
        let mut cs = chars_of(base_url);
        let mut end: usize = cs.len();
        assert(cs@.take(cs@.len() as int) =~= cs@);
        while end > 0 && cs[end - 1] == '/'
            invariant
                cs@ == base_url@,
                0 <= end <= cs@.len(),
                without_trailing_slashes(cs@.take(end as int)) == without_trailing_slashes(base_url@),
            decreases end,
        {
            assert(cs@.take(end as int).drop_last() =~= cs@.take(end - 1));
            end -= 1;
        }
        let ghost full = cs@;
        cs.truncate(end);
        let kept = string_of(cs.as_slice());
        proof {
            assert(kept@ =~= full.take(end as int));
        }
        KuroClient { oauth_code: oauth_code.to_owned(), base_url: kept }
    }

    /// The OAuth code.
    pub fn oauth_code(&self) -> (s: &str)
        ensures
            s@ == self.oauth(),
    {
        self.oauth_code.as_str()
    }

    /// The role-query URL for a request sent at `timestamp_ms`.
    pub fn query_role_url(&self, timestamp_ms: i64) -> (u: String)
        ensures
            u@ == self.base() + "/game/queryRole?_t="@ + decimal(timestamp_ms as int),
    {
        let t = i64_decimal(timestamp_ms);
        join3(self.base_url.as_str(), "/game/queryRole?_t=", t.as_str())
    }
}

/// The error for a failed CORS preflight: an API error whose code is the
/// status, quoting the status as the HTTP library displays it.
pub fn preflight_error(status: u16, status_text: &str) -> (e: Error)
    ensures
        e matches Error::Client(ClientError::ApiError { code, message }) && code == status as i32
            && message@ == "Preflight request failed with status: "@ + status_text@,
{
    let m = join2("Preflight request failed with status: ", status_text);
    Error::Client(ClientError::api_error(status as i32, m.as_str()))
}

/// What a role-query envelope becomes: its data on success; a retry request
/// on code 1005; the API's error otherwise; and an API error with code 0
/// when a success carries no data.
pub fn check_role_response<T>(response: KuroApiResponse<T>) -> (r: Result<T, Error>)
    ensures
        (response.code == 0 || response.code == 200) && response.data is Some ==> r == Ok::<T, Error>(
            response.data->0,
        ),
        (response.code == 0 || response.code == 200) && response.data is None ==> (r matches Err(
            Error::Client(ClientError::ApiError { code, message }),
        ) && code == 0 && message@ == "Response data is null"@),
        !(response.code == 0 || response.code == 200) && response.code == 1005 ==> r matches Err(
            Error::RetryRequested,
        ),
        !(response.code == 0 || response.code == 200) && response.code != 1005 ==> (r matches Err(
            Error::Client(ClientError::ApiError { code, message }),
        ) && code == response.code && message@ == response.message@),
{
    let success = response.code == 0 || response.code == 200;
    if !success {
        if response.code == 1005 {
            return Err(Error::RetryRequested);
        }
        let r = Err(Error::Client(ClientError::api_error(response.code, response.message.as_str())));
        return r;
    }
    match response.data {
        Some(d) => Ok(d),
        None => {
            let r = Err(Error::Client(ClientError::api_error(0, "Response data is null")));
            proof {
                reveal_strlit("Response data is null");
            }
            r
        },
    }
}

/// The nested JSON text for a region, or the error naming the region when
/// the answer has no text for it.
pub fn region_payload(found: Option<String>, region: &str) -> (r: Result<String, Error>)
    ensures
        found matches Some(s) ==> (r matches Ok(t) && t@ == s@),
        found is None ==> (r matches Err(Error::NestedDataParseFailed(m)) && m@ == "No data for region: "@
            + region@),
{
    match found {
        Some(s) => Ok(s),
        None => {
            let m = join2("No data for region: ", region);
            Err(Error::NestedDataParseFailed(m))
        },
    }
}

/// The retry policy of the role query: three retries, starting at 1.5 s and
/// capped at 30 s.
pub fn role_query_retry_config() -> (c: RetryConfig)
    ensures
        c.max_retries == 3,
        c.base_delay_ms == KURO_API_DEFAULT_BASE_DELAY_MS,
        c.max_delay_ms == 30_000,
{
    RetryConfig::new(3, KURO_API_DEFAULT_BASE_DELAY_MS, 30_000)
}

/// What an authentication check concludes from a role query: signed in
/// when it succeeded, signed out on any API error, the error otherwise.
pub fn auth_check_outcome(probe: Result<(), Error>) -> (r: Result<bool, Error>)
    ensures
        probe is Ok ==> r matches Ok(true),
        probe matches Err(e) ==> r == (if e matches Error::Client(ClientError::ApiError { .. }) {
            Ok::<bool, Error>(false)
        } else {
            Err::<bool, Error>(e)
        }),
{
    match probe {
        Ok(()) => Ok(true),
        Err(Error::Client(ClientError::ApiError { .. })) => Ok(false),
        Err(e) => Err(e),
    }
}

/// A character XORed with 5 on its low byte (the launcher's encoding, which
/// is its own inverse).
pub open spec fn xor5(c: char) -> char {
    (((c as u32 % 256) as u8) ^ 5u8) as char
}

fn xor5_char(c: char) -> (d: char)
    ensures
        d == xor5(c),
{
    let b: u8 = (c as u32 % 256) as u8;
    (b ^ 5u8) as char
}

/// Decodes an XOR-5 encoded string: each character's low byte XORed with 5.
pub fn decode_xor5(encoded: &str) -> (s: String)
    ensures
        s@.len() == encoded@.len(),
        forall|i: int| 0 <= i < s@.len() ==> s@[i] == xor5(#[trigger] encoded@[i]),
{
    let cs = chars_of(encoded);
    let mut out: Vec<char> = Vec::new();
    let mut i: usize = 0;
    while i < cs.len()
        invariant
            cs@ == encoded@,
            0 <= i <= cs@.len(),
            out@.len() == i,
            forall|j: int| 0 <= j < i ==> out@[j] == xor5(#[trigger] encoded@[j]),
        decreases cs@.len() - i,
    {
        out.push(xor5_char(cs[i]));
        i += 1;
    }
    string_of(out.as_slice())
}

/// The first cached OAuth code that is present and not empty, decoded; none
/// when the cache holds no such code.
pub open spec fn first_code_index(entries: Seq<Option<String>>, i: int) -> bool {
    0 <= i < entries.len() && (entries[i] matches Some(c) && c@.len() > 0) && forall|j: int|
        0 <= j < i ==> !(#[trigger] entries[j] matches Some(c) && c@.len() > 0)
}

/// Picks the OAuth code from the launcher cache's entries: the first
/// present, non-empty code, XOR-5 decoded.
pub fn oauth_from_cache_entries(entries: &Vec<Option<String>>) -> (r: Option<String>)
    ensures
        r is None <==> forall|j: int| 0 <= j < entries@.len() ==> !(#[trigger] entries@[j] matches Some(
            c,
        ) && c@.len() > 0),
        r matches Some(s) ==> exists|i: int| #[trigger] first_code_index(entries@, i) && s@.len()
            == entries@[i]->0@.len() && forall|k: int| 0 <= k < s@.len() ==> s@[k] == xor5(
            #[trigger] entries@[i]->0@[k],
        ),
{
    let mut i: usize = 0;
    while i < entries.len()
        invariant
            0 <= i <= entries@.len(),
            forall|j: int| 0 <= j < i ==> !(#[trigger] entries@[j] matches Some(c) && c@.len() > 0),
        decreases entries@.len() - i,
    {
        match &entries[i] {
            Some(code) => {
                if code.as_str().as_bytes().len() > 0 {
                    proof {
                        vstd::utf8::encode_utf8_decode_utf8(code@);
                        assert(first_code_index(entries@, i as int));
                    }
                    return Some(decode_xor5(code.as_str()));
                } else {
                    proof {
                        vstd::utf8::encode_utf8_decode_utf8(code@);
                    }
                }
            },
            None => {},
        }
        i += 1;
    }
    None
}


/// XOR-5 is its own inverse on ASCII: decoding an encoded character gives
/// the character back.
pub proof fn lemma_xor5_involutive(c: char)
    requires
        (c as u32) < 128,
    ensures
        xor5(xor5(c)) == c,
{
    let b: u8 = (c as u32 % 256) as u8;
    assert(b == c as u32);
    assert(b < 128 ==> (b ^ 5u8) < 128) by (bit_vector);
    assert((b ^ 5u8) ^ 5u8 == b) by (bit_vector);
    let d: char = (b ^ 5u8) as char;
    assert(d as u32 == (b ^ 5u8) as u32);
    assert(((d as u32 % 256) as u8) == (b ^ 5u8));
}

} // verus!
