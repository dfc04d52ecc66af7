//! Random draws from the thread-local generator of `rand`.
//!
//! Each claims only the range of its value.

use vstd::prelude::*;

verus! {

/// A uniformly random integer in `low..=high`, from `rand::random_range`.
#[verifier::external_body]
pub(crate) fn random_u64_inclusive(low: u64, high: u64) -> (r: u64)
    requires
        low <= high,
    ensures
        low <= r <= high,
{
    rand::random_range(low..=high)
}

/// A uniformly random character in `low..=high`, from `rand::random_range`.
#[verifier::external_body]
pub(crate) fn random_char_inclusive(low: char, high: char) -> (r: char)
    requires
        low <= high,
    ensures
        low <= r <= high,
{
    rand::random_range(low..=high)
}

} // verus!
