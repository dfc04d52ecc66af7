//! Retry policy with exponential backoff and jitter.

use vstd::prelude::*;
use vstd::arithmetic::power2::pow2;
use crate::random::random_u64_inclusive;
use crate::text::{contains_text, has_substring, lowercase_of, to_lowercase};

verus! {

/// Default maximum number of retry attempts.
pub const DEFAULT_MAX_RETRIES: u32 = 3;

/// Default base delay in milliseconds.
pub const DEFAULT_BASE_DELAY_MS: u64 = 500;

/// Default maximum delay in milliseconds.
pub const DEFAULT_MAX_DELAY_MS: u64 = 30_000;

/// Configuration for retry behavior.
#[derive(Debug, Clone, Copy, PartialEq, Eq, Structural)]
pub struct RetryConfig {
    /// Maximum number of retry attempts.
    pub max_retries: u32,
    /// Base delay in milliseconds (doubled on each attempt).
    pub base_delay_ms: u64,
    /// Maximum delay in milliseconds (caps the exponential growth).
    pub max_delay_ms: u64,
}

/// A value clamped to the range of `u64`, as saturating arithmetic does.
pub open spec fn saturate(x: int) -> int {
    if x > u64::MAX { u64::MAX as int } else { x }
}

/// The backoff before jitter: the base delay doubled once per attempt
/// (saturating), capped at the maximum delay.
pub open spec fn backoff(config: RetryConfig, attempt: u32) -> int {
    let grown = saturate(config.base_delay_ms * saturate(pow2(attempt as nat) as int));
    if grown < config.max_delay_ms { grown } else { config.max_delay_ms as int }
}

/// The delay with jitter added, capped at the maximum delay.
pub open spec fn delay_with(config: RetryConfig, attempt: u32, jitter: u64) -> int {
    let total = backoff(config, attempt) + jitter;
    if total < config.max_delay_ms { total } else { config.max_delay_ms as int }
}

/// 2 raised to `attempt`, saturating at `u64::MAX`.
fn saturating_pow2(attempt: u32) -> (p: u64)
    ensures
        p == saturate(pow2(attempt as nat) as int),
{
    if attempt >= 64 {
        proof {
            vstd::arithmetic::power2::lemma2_to64_rest();
            if attempt > 64 {
                vstd::arithmetic::power2::lemma_pow2_strictly_increases(64, attempt as nat);
            }
        }
        u64::MAX
    } else {
        let shift = attempt as u64;
        proof {
            vstd::bits::lemma_u64_pow2_no_overflow(shift as nat);
            vstd::bits::lemma_u64_shl_is_mul(1, shift);
        }
        1u64 << shift
    }
}

impl RetryConfig {
    /// Creates a retry configuration.
    pub fn new(max_retries: u32, base_delay_ms: u64, max_delay_ms: u64) -> (c: Self)
        ensures
            c.max_retries == max_retries,
            c.base_delay_ms == base_delay_ms,
            c.max_delay_ms == max_delay_ms,
    {
        RetryConfig { max_retries, base_delay_ms, max_delay_ms }
    }

    /// The delay in milliseconds for an attempt, given the jitter drawn for
    /// it: `min(base * 2^attempt, max) + jitter`, capped at the maximum delay,
    /// every step saturating.
    pub fn delay_with_jitter(&self, attempt: u32, jitter: u64) -> (d: u64)
        ensures
            d == delay_with(*self, attempt, jitter),
    {
        let p = saturating_pow2(attempt);
        let grown: u64 = match self.base_delay_ms.checked_mul(p) {
            Some(v) => v,
            None => u64::MAX,
        };
        let capped = if grown < self.max_delay_ms { grown } else { self.max_delay_ms };
        let total = capped.saturating_add(jitter);
        if total < self.max_delay_ms { total } else { self.max_delay_ms }
    }

    /// The delay in milliseconds before retrying after `attempt`: exponential
    /// backoff capped at the maximum, plus a random jitter of up to the base
    /// delay, capped at the maximum again.
    pub fn delay_for_attempt(&self, attempt: u32) -> (d: u64)
        ensures
            exists|j: u64| j <= self.base_delay_ms && d == delay_with(*self, attempt, j),
    {
        let jitter = random_u64_inclusive(0, self.base_delay_ms);
        self.delay_with_jitter(attempt, jitter)
    }

    /// Whether another attempt is allowed after `current_attempt` attempts.
    pub fn should_retry(&self, current_attempt: u32) -> (b: bool)
        ensures
            b == (current_attempt < self.max_retries),
    {
        current_attempt < self.max_retries
    }
}

impl Default for RetryConfig {
    fn default() -> (c: Self)
        ensures
            c.max_retries == DEFAULT_MAX_RETRIES,
            c.base_delay_ms == DEFAULT_BASE_DELAY_MS,
            c.max_delay_ms == DEFAULT_MAX_DELAY_MS,
    {
        RetryConfig {
            max_retries: DEFAULT_MAX_RETRIES,
            base_delay_ms: DEFAULT_BASE_DELAY_MS,
            max_delay_ms: DEFAULT_MAX_DELAY_MS,
        }
    }
}

/// The delay never exceeds the maximum, and never falls below the capped
/// backoff unless the maximum itself is lower.
pub proof fn lemma_delay_bounds(config: RetryConfig, attempt: u32, jitter: u64)
    ensures
        delay_with(config, attempt, jitter) <= config.max_delay_ms,
        backoff(config, attempt) <= delay_with(config, attempt, jitter),
        delay_with(config, attempt, jitter) <= backoff(config, attempt) + jitter,
{
}

impl RetryConfig {
    /// What the retry loop does after a failed attempt: `None` gives up
    /// (the error is not retryable, or the attempts are spent); `Some` waits
    /// that many milliseconds before the next attempt.
    pub fn next_retry_delay(&self, attempt: u32, retryable: bool) -> (d: Option<u64>)
        ensures
            d is Some <==> (retryable && attempt < self.max_retries),
            d matches Some(ms) ==> exists|j: u64| j <= self.base_delay_ms && ms == delay_with(*self, attempt, j),
    {
        if retryable && self.should_retry(attempt) {
            Some(self.delay_for_attempt(attempt))
        } else {
            None
        }
    }
}

/// A lowercased error text names a transient network failure.
pub open spec fn names_transient_failure(lower: Seq<char>) -> bool {
    ||| has_substring(lower, "timeout"@)
    ||| has_substring(lower, "connection"@)
    ||| has_substring(lower, "network"@)
    ||| has_substring(lower, "refused"@)
    ||| has_substring(lower, "dns"@)
    ||| has_substring(lower, "reset"@)
    ||| has_substring(lower, "unreachable"@)
}

/// Whether an already lowercased error text names a transient network
/// failure (a timeout, a refused or reset connection, DNS, an unreachable
/// host).
pub fn lowercase_names_transient_failure(lower: &str) -> (b: bool)
    ensures
        b == names_transient_failure(lower@),
{
    contains_text(lower, "timeout") || contains_text(lower, "connection") || contains_text(
        lower,
        "network",
    ) || contains_text(lower, "refused") || contains_text(lower, "dns") || contains_text(
        lower,
        "reset",
    ) || contains_text(lower, "unreachable")
}

/// Whether an error's text, read case-insensitively, names a transient
/// network failure; for errors whose type did not survive the error chain.
pub fn message_names_transient_failure(message: &str) -> (b: bool)
    ensures
        b == names_transient_failure(lowercase_of(message@)),
{
    let lower = to_lowercase(message);
    lowercase_names_transient_failure(lower.as_str())
}

} // verus!
