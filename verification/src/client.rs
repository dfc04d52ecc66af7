//! What every game API client shares: errors, response envelopes and the
//! retry policy.

pub mod error;
pub mod response;
pub mod retry;
