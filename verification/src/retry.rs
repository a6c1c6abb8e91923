//! Retry decisions for one-shot fetches.
//!
//! Unlike the push-feed reconnection path, which backs off exponentially,
//! a price-history fetch is retried only a fixed few times after a short
//! fixed pause, and a reply that cannot be decoded is fatal to the call at
//! once, never retried.  The sleeping is the runtime's; the decision is
//! here.

use vstd::prelude::*;

verus! {

/// How many attempts a price-history fetch makes before giving up.
pub const KLINE_FETCH_MAX_ATTEMPTS: u32 = 3;

/// Pause between price-history fetch attempts, in seconds.
pub const KLINE_FETCH_RETRY_PAUSE_SECS: u64 = 2;

/// How a fetch attempt failed.
#[derive(Clone, Copy, Debug, PartialEq, Eq, Structural)]
pub enum FetchFailure {
    /// The request itself failed: the network may recover.
    Transport,
    /// The reply arrived but could not be decoded: retrying cannot help.
    Decode,
}

/// What the caller does after a failed attempt.
#[derive(Clone, Copy, Debug, PartialEq, Eq, Structural)]
pub enum FetchRetry {
    /// Try again after `pause_secs` seconds.
    RetryAfter { pause_secs: u64 },
    /// Surface the failure.
    GiveUp,
}

/// Retry policy of the price-history fetch: a transport failure is retried
/// after the fixed pause until the attempt cap is reached
/// (`attempts_made` counts the failed attempts so far, this one included);
/// a decode failure is never retried.
pub fn kline_fetch_retry(failure: FetchFailure, attempts_made: u32) -> (r: FetchRetry)
    ensures
        failure == FetchFailure::Decode ==> r == FetchRetry::GiveUp,
        failure == FetchFailure::Transport && attempts_made < KLINE_FETCH_MAX_ATTEMPTS ==> r
            == (FetchRetry::RetryAfter { pause_secs: KLINE_FETCH_RETRY_PAUSE_SECS }),
        failure == FetchFailure::Transport && attempts_made >= KLINE_FETCH_MAX_ATTEMPTS ==> r
            == FetchRetry::GiveUp,
{
    match failure {
        FetchFailure::Decode => FetchRetry::GiveUp,
        FetchFailure::Transport => {
            if attempts_made < KLINE_FETCH_MAX_ATTEMPTS {
                FetchRetry::RetryAfter { pause_secs: KLINE_FETCH_RETRY_PAUSE_SECS }
            } else {
                FetchRetry::GiveUp
            }
        },
    }
}

} // verus!
