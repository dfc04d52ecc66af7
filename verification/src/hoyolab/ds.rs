//! DS (Dynamic Secret) header generation for the HoYoLab API.
//!
//! The header is `{timestamp},{random},{hash}`, where the hash is the
//! lowercase hexadecimal MD5 of a salted query over the timestamp and the
//! random part.

use vstd::prelude::*;
use vstd::string::StringSliceAdditionalSpecFns;
use vstd::utf8::encode_utf8;
use md5::{Digest, Md5};
use crate::clock::chrono_now_seconds;
use crate::random::{random_char_inclusive, random_u64_inclusive};
use crate::text::{decimal, digit_char_of, i64_decimal, join2, join3, string_of, u64_decimal};

verus! {

/// Salt for the overseas (global) HoYoLab API.
pub const SALT_OVERSEAS: &'static str = "6s25p5ox5y14umn1p61aqyyvbvvl3lrt";

/// Salt for the Chinese HoYoLab API (miyoushe).
pub const SALT_CHINESE: &'static str = "xV8v4Qu54lUKrEYFZkJhB8cuOh9Asafs";

/// The MD5 digest of a byte string.
pub uninterp spec fn md5_digest(data: Seq<u8>) -> Seq<u8>;

/// The MD5 digest of `data`, from `md5::Md5` (`new`, `update`, `finalize`).
///
/// Claimed: the digest is the named MD5 of the bytes, and is 16 bytes long
/// (the output size of `Md5`).
#[verifier::external_body]
fn md5_of(data: &[u8]) -> (d: Vec<u8>)
    ensures
        d@ == md5_digest(data@),
        d@.len() == 16,
{
    let mut hasher = Md5::new();
    hasher.update(data);
    hasher.finalize().to_vec()
}

/// The lowercase hexadecimal digit for a value below sixteen.
pub open spec fn hex_digit(n: int) -> char {
    if n < 10 {
        digit_char_of(n)
    } else if n == 10 {
        'a'
    } else if n == 11 {
        'b'
    } else if n == 12 {
        'c'
    } else if n == 13 {
        'd'
    } else if n == 14 {
        'e'
    } else {
        'f'
    }
}

/// The lowercase hexadecimal text of a byte string, two digits per byte.
pub open spec fn hex_of(bytes: Seq<u8>) -> Seq<char>
    decreases bytes.len(),
{
    if bytes.len() == 0 {
        Seq::empty()
    } else {
        hex_of(bytes.drop_last()) + seq![
            hex_digit(bytes.last() as int / 16),
            hex_digit(bytes.last() as int % 16),
        ]
    }
}

/// The hex text is twice as long as the bytes.
pub proof fn lemma_hex_len(bytes: Seq<u8>)
    ensures
        hex_of(bytes).len() == 2 * bytes.len(),
    decreases bytes.len(),
{
    if bytes.len() > 0 {
        lemma_hex_len(bytes.drop_last());
    }
}

fn hex_char(n: u8) -> (c: char)
    requires
        n < 16,
    ensures
        c == hex_digit(n as int),
{
    if n < 10 {
        if n == 0 { '0' } else if n == 1 { '1' } else if n == 2 { '2' } else if n == 3 { '3' }
        else if n == 4 { '4' } else if n == 5 { '5' } else if n == 6 { '6' } else if n == 7 { '7' }
        else if n == 8 { '8' } else { '9' }
    } else if n == 10 {
        'a'
    } else if n == 11 {
        'b'
    } else if n == 12 {
        'c'
    } else if n == 13 {
        'd'
    } else if n == 14 {
        'e'
    } else {
        'f'
    }
}

/// The lowercase hexadecimal text of a byte string.
pub fn hex_lower(bytes: &[u8]) -> (s: String)
    ensures
        s@ == hex_of(bytes@),
{
    let mut out: Vec<char> = Vec::new();
    let mut i: usize = 0;
    while i < bytes.len()
        invariant
            0 <= i <= bytes@.len(),
            out@ == hex_of(bytes@.take(i as int)),
        decreases bytes@.len() - i,
    {
        let b = bytes[i];
        out.push(hex_char(b / 16));
        out.push(hex_char(b % 16));
        proof {
            assert(bytes@.take(i + 1).drop_last() =~= bytes@.take(i as int));
            assert(bytes@.take(i + 1).last() == b);
            assert(out@ =~= hex_of(bytes@.take(i + 1)));
        }
        i += 1;
    }
    assert(bytes@.take(bytes@.len() as int) =~= bytes@);
    string_of(out.as_slice())
}

/// The MD5 hash of a string's UTF-8 bytes, as 32 lowercase hex digits.
pub fn md5_hex(input: &str) -> (h: String)
    ensures
        h@ == hex_of(md5_digest(input.spec_bytes())),
        h@.len() == 32,
{
    let digest = md5_of(input.as_bytes());
    proof {
        lemma_hex_len(digest@);
    }
    hex_lower(digest.as_slice())
}

/// The salted query hashed for the overseas header.
pub open spec fn overseas_input(timestamp: int, random: Seq<char>) -> Seq<char> {
    "salt="@ + SALT_OVERSEAS@ + "&t="@ + decimal(timestamp) + "&r="@ + random
}

/// The salted query hashed for the Chinese header.
pub open spec fn chinese_input(timestamp: int, random: int, body: Seq<char>, query: Seq<char>) -> Seq<
    char,
> {
    "salt="@ + SALT_CHINESE@ + "&t="@ + decimal(timestamp) + "&r="@ + decimal(random) + "&b="@ + body
        + "&q="@ + query
}

/// The hash of a salted query.
pub open spec fn query_hash(input: Seq<char>) -> Seq<char> {
    hex_of(md5_digest(encode_utf8(input)))
}

/// Computes the MD5 hash for the overseas DS header.
pub fn compute_md5_overseas(timestamp: i64, random: &str) -> (h: String)
    ensures
        h@ == query_hash(overseas_input(timestamp as int, random@)),
{
    let t = i64_decimal(timestamp);
    let head = join3("salt=", SALT_OVERSEAS, "&t=");
    let mid = join3(head.as_str(), t.as_str(), "&r=");
    let input = join2(mid.as_str(), random);
    proof {
        reveal_strlit("salt=");
        reveal_strlit("&t=");
        reveal_strlit("&r=");
        assert(input@ =~= overseas_input(timestamp as int, random@));
    }
    md5_hex(input.as_str())
}

/// Computes the MD5 hash for the Chinese DS header.
pub fn compute_md5_chinese(timestamp: i64, random: u32, body: &str, query: &str) -> (h: String)
    ensures
        h@ == query_hash(chinese_input(timestamp as int, random as int, body@, query@)),
{
    let t = i64_decimal(timestamp);
    let r = u64_decimal(random as u64);
    let a = join3("salt=", SALT_CHINESE, "&t=");
    let b = join3(a.as_str(), t.as_str(), "&r=");
    let c = join3(b.as_str(), r.as_str(), "&b=");
    let d = join3(c.as_str(), body, "&q=");
    let input = join2(d.as_str(), query);
    proof {
        reveal_strlit("salt=");
        reveal_strlit("&t=");
        reveal_strlit("&r=");
        reveal_strlit("&b=");
        reveal_strlit("&q=");
        assert(input@ =~= chinese_input(timestamp as int, random as int, body@, query@));
    }
    md5_hex(input.as_str())
}

/// The header text: timestamp, random part and hash, separated by commas.
pub open spec fn header_text(timestamp: int, random: Seq<char>, hash: Seq<char>) -> Seq<char> {
    decimal(timestamp) + ","@ + random + ","@ + hash
}

fn header(timestamp: i64, random: &str, hash: &str) -> (s: String)
    ensures
        s@ == header_text(timestamp as int, random@, hash@),
{
    let t = i64_decimal(timestamp);
    let a = join3(t.as_str(), ",", random);
    let s = join3(a.as_str(), ",", hash);
    proof {
        reveal_strlit(",");
        assert(s@ =~= header_text(timestamp as int, random@, hash@));
    }
    s
}

/// The overseas DS header for a given instant and random part.
pub fn dynamic_secret_overseas_at(timestamp: i64, random: &str) -> (s: String)
    ensures
        s@ == header_text(
            timestamp as int,
            random@,
            query_hash(overseas_input(timestamp as int, random@)),
        ),
{
    let hash = compute_md5_overseas(timestamp, random);
    header(timestamp, random, hash.as_str())
}

/// The Chinese DS header for a given instant, random number, body and query.
pub fn dynamic_secret_chinese_at(timestamp: i64, random: u32, body: &str, query: &str) -> (s: String)
    ensures
        s@ == header_text(
            timestamp as int,
            decimal(random as int),
            query_hash(chinese_input(timestamp as int, random as int, body@, query@)),
        ),
{
    let hash = compute_md5_chinese(timestamp, random, body, query);
    let r = u64_decimal(random as u64);
    header(timestamp, r.as_str(), hash.as_str())
}

/// Every character is a lowercase ASCII letter.
pub open spec fn all_lowercase_letters(s: Seq<char>) -> bool {
    forall|i: int| 0 <= i < s.len() ==> 'a' <= #[trigger] s[i] <= 'z'
}

/// A random string of `len` lowercase ASCII letters.
pub fn generate_random_lowercase_string(len: usize) -> (s: String)
    ensures
        s@.len() == len,
        all_lowercase_letters(s@),
{
    let mut out: Vec<char> = Vec::new();
    let mut i: usize = 0;
    while i < len
        invariant
            0 <= i <= len,
            out@.len() == i,
            all_lowercase_letters(out@),
        decreases len - i,
    {
        let c = random_char_inclusive('a', 'z');
        out.push(c);
        i += 1;
    }
    string_of(out.as_slice())
}

/// A random integer between 100001 and 200000 (inclusive).
pub fn generate_random_int() -> (r: u32)
    ensures
        100_001 <= r <= 200_000,
{
    random_u64_inclusive(100_001, 200_000) as u32
}

/// Generates a DS header for the overseas (global) HoYoLab API: the current
/// instant, six random lowercase letters, and the salted hash.
pub fn generate_dynamic_secret_overseas() -> (s: String)
    ensures
        exists|t: int, r: Seq<char>| r.len() == 6 && all_lowercase_letters(r) && s@ == header_text(
            t,
            r,
            query_hash(overseas_input(t, r)),
        ),
{
    let timestamp = chrono_now_seconds();
    let random = generate_random_lowercase_string(6);
    dynamic_secret_overseas_at(timestamp, random.as_str())
}

/// Generates a DS header for the Chinese HoYoLab API (miyoushe): the current
/// instant, a random number between 100001 and 200000, and the salted hash
/// over the body and query.
pub fn generate_dynamic_secret_chinese(body: &str, query: &str) -> (s: String)
    ensures
        exists|t: int, r: int| 100_001 <= r <= 200_000 && s@ == header_text(
            t,
            decimal(r),
            query_hash(chinese_input(t, r, body@, query@)),
        ),
{
    let timestamp = chrono_now_seconds();
    let random = generate_random_int();
    dynamic_secret_chinese_at(timestamp, random, body, query)
}

} // verus!
