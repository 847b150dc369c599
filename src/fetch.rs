//! The retry policy of the feed fetcher: which answers are retried, after
//! what delay, and what error a fetch ends with.
use vstd::prelude::*;

verus! {

/// The number of attempts that one fetch makes at most.
pub const MAX_ATTEMPTS: u32 = 3;

/// What one HTTP attempt came to.
#[derive(Debug, Clone, Copy, PartialEq, Eq, Structural)]
pub enum Attempt {
    /// A response with the given status code.
    Status { code: u16 },
    /// No response: the connection failed.
    Network,
    /// No response within the time limit.
    TimedOut,
}

/// Why a fetch failed.
#[derive(Debug, Clone, Copy, PartialEq, Eq, Structural)]
pub enum FetchError {
    Timeout,
    Http { status: u16 },
    Network,
    ParseFeed,
}

/// What the fetcher does after an attempt.
#[derive(Debug, Clone, Copy, PartialEq, Eq, Structural)]
pub enum FetchStep {
    /// Read and parse the body of the response.
    ReadBody,
    /// Wait this many seconds, then make the next attempt.
    RetryAfter { seconds: u64 },
    /// Give up with this error.
    Fail { error: FetchError },
}

pub open spec fn is_success_spec(code: u16) -> bool {
    200 <= code <= 299
}

/// A status worth another attempt: a server error, or too many requests.
pub open spec fn is_retryable_status_spec(code: u16) -> bool {
    (500 <= code <= 599) || code == 429
}

pub open spec fn pow2(n: nat) -> nat
    decreases n,
{
    if n == 0 {
        1
    } else {
        2 * pow2((n - 1) as nat)
    }
}

/// The wait before attempt `attempt + 1`: one second after the first
/// attempt, doubling after each further one.
pub open spec fn backoff_spec(attempt: nat) -> nat {
    pow2((attempt - 1) as nat)
}

/// The error that an attempt gives when it is the last one.
pub open spec fn error_of(a: Attempt) -> FetchError {
    match a {
        Attempt::Status { code } => FetchError::Http { status: code },
        Attempt::Network => FetchError::Network,
        Attempt::TimedOut => FetchError::Timeout,
    }
}

pub open spec fn retryable_spec(a: Attempt) -> bool {
    match a {
        Attempt::Status { code } => is_retryable_status_spec(code),
        _ => true,
    }
}

/// Whether a status is a success (2xx).
pub fn is_success(code: u16) -> (r: bool)
    ensures
        r == is_success_spec(code),
{
    200 <= code && code <= 299
}

/// Whether a status is worth another attempt (5xx or 429).
pub fn is_retryable_status(code: u16) -> (r: bool)
    ensures
        r == is_retryable_status_spec(code),
{
    (500 <= code && code <= 599) || code == 429
}

/// The wait, in seconds, after attempt `attempt` fails.
pub fn backoff_seconds(attempt: u32) -> (r: u64)
    requires
        1 <= attempt <= MAX_ATTEMPTS,
    ensures
        r == backoff_spec(attempt as nat),
{
    reveal_with_fuel(pow2, 3);
    if attempt == 1 {
        1
    } else if attempt == 2 {
        2
    } else {
        4
    }
}

/// What follows attempt number `attempt` (from 1) that came to `outcome`: a
/// success is read; a network failure, a timeout, a 5xx or a 429 is retried
/// until the last attempt; any other status ends the fetch at once.
pub fn next_step(attempt: u32, outcome: Attempt) -> (r: FetchStep)
    requires
        1 <= attempt <= MAX_ATTEMPTS,
    ensures
        (outcome matches Attempt::Status { code } && is_success_spec(code)) ==> r == FetchStep::ReadBody,
        !(outcome matches Attempt::Status { code } && is_success_spec(code)) ==> {
            if retryable_spec(outcome) && attempt < MAX_ATTEMPTS {
                r == (FetchStep::RetryAfter { seconds: backoff_spec(attempt as nat) as u64 })
            } else {
                r == (FetchStep::Fail { error: error_of(outcome) })
            }
        },
{
    let retryable = match outcome {
        Attempt::Status { code } => {
            if is_success(code) {
                return FetchStep::ReadBody;
            }
            is_retryable_status(code)
        },
        _ => true,
    };
    if retryable && attempt < MAX_ATTEMPTS {
        FetchStep::RetryAfter { seconds: backoff_seconds(attempt) }
    } else {
        let error = match outcome {
            Attempt::Status { code } => FetchError::Http { status: code },
            Attempt::Network => FetchError::Network,
            Attempt::TimedOut => FetchError::Timeout,
        };
        FetchStep::Fail { error }
    }
}

} // verus!
