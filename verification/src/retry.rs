//! Bounded retry with capped exponential backoff around a fallible sensor
//! operation.
//!
//! The operation's successive answers enter as a list of recorded outcomes
//! (the caller performs the actual queries); the policy walks that list: it
//! stops at the first success or permanent failure, retries transient
//! failures, and gives up after `max_attempts` attempts. A permanent failure
//! is never retried, so an expected-absent sensor costs no extra latency.

use vstd::prelude::*;
use crate::errors::SensorError;

verus! {

/// Upper cap on a single backoff delay, in milliseconds.
pub const BACKOFF_CAP_MS: u64 = 30_000;

/// Bounded-retry policy: at most `max_attempts` attempts in all, with a
/// backoff of `base_delay_ms * 2^attempt` milliseconds, capped, between them.
#[derive(Clone, Copy, Debug, PartialEq, Eq, Structural)]
pub struct RetryPolicy {
    pub max_attempts: u32,
    pub base_delay_ms: u64,
}

/// Two to the power `e`.
pub open spec fn pow2(e: nat) -> nat
    decreases e,
{
    if e == 0 {
        1
    } else {
        2 * pow2((e - 1) as nat)
    }
}

/// The backoff delay before retry number `attempt + 1`:
/// `base * 2^attempt` milliseconds, capped at `BACKOFF_CAP_MS`.
pub open spec fn backoff_view(base: u64, attempt: nat) -> u64 {
    if base * pow2(attempt) > BACKOFF_CAP_MS {
        BACKOFF_CAP_MS
    } else {
        (base * pow2(attempt)) as u64
    }
}

/// The result the retry policy reaches on a script of attempt outcomes:
/// the first success or permanent failure among the first `attempts`
/// outcomes, or the last transient failure once attempts are exhausted.
pub open spec fn retry_result<T>(s: Seq<Result<T, SensorError>>, attempts: int) -> Result<
    T,
    SensorError,
>
    decreases attempts,
{
    if attempts <= 0 {
        Err(SensorError::Transient)
    } else {
        match s[0] {
            Ok(v) => Ok(v),
            Err(SensorError::Permanent) => Err(SensorError::Permanent),
            Err(SensorError::Transient) => if attempts == 1 {
                Err(SensorError::Transient)
            } else {
                retry_result(s.skip(1), attempts - 1)
            },
        }
    }
}

/// How many retries (attempts after the first) the policy performs on a
/// script of outcomes. A success on the first attempt, a permanent failure,
/// and a policy of one attempt all cost zero retries.
pub open spec fn retry_count<T>(s: Seq<Result<T, SensorError>>, attempts: int) -> int
    decreases attempts,
{
    if attempts <= 0 {
        0
    } else {
        match s[0] {
            Ok(v) => 0,
            Err(SensorError::Permanent) => 0,
            Err(SensorError::Transient) => if attempts == 1 {
                0
            } else {
                1 + retry_count(s.skip(1), attempts - 1)
            },
        }
    }
}

/// The retry count never reaches the attempt bound.
pub proof fn lemma_retry_count_bound<T>(s: Seq<Result<T, SensorError>>, attempts: int)
    requires
        attempts >= 1,
    ensures
        0 <= retry_count(s, attempts) <= attempts - 1,
    decreases attempts,
{
    if attempts > 1 {
        match s[0] {
            Ok(_) => {},
            Err(SensorError::Permanent) => {},
            Err(SensorError::Transient) => {
                lemma_retry_count_bound(s.skip(1), attempts - 1);
            },
        }
    }
}

impl RetryPolicy {
    /// The policy a configuration calls for.
    pub fn new(max_attempts: u32, base_delay_ms: u64) -> (r: RetryPolicy)
        ensures
            r == (RetryPolicy { max_attempts, base_delay_ms }),
    {
        RetryPolicy { max_attempts, base_delay_ms }
    }

    /// The delay before retry number `attempt + 1`: exponential in the
    /// attempt count and capped, so a refresh has a bounded worst-case
    /// duration.
    pub fn backoff_delay_ms(&self, attempt: u32) -> (r: u64)
        ensures
            r == backoff_view(self.base_delay_ms, attempt as nat),
            r <= BACKOFF_CAP_MS,
    {
        let base = self.base_delay_ms;
        let mut d: u64 = if base > BACKOFF_CAP_MS {
            BACKOFF_CAP_MS
        } else {
            base
        };
        proof {
            assert(pow2(0) == 1);
        }
        let mut i: u32 = 0;
        while i < attempt
            invariant
                i <= attempt,
                d == backoff_view(base, i as nat),
            decreases attempt - i,
        {
            proof {
                let m = pow2(i as nat);
                assert(pow2((i + 1) as nat) == 2 * m);
                assert(base * (2 * m) == 2 * (base * m)) by (nonlinear_arith);
            }
            if d <= BACKOFF_CAP_MS / 2 {
                d = d * 2;
            } else {
                d = BACKOFF_CAP_MS;
            }
            i = i + 1;
        }
        d
    }

    /// Walks the recorded outcomes of up to `max_attempts` calls of the
    /// operation, retrying only transient failures. Returns the final
    /// outcome and the number of retries performed.
    pub fn execute<T>(&self, outcomes: Vec<Result<T, SensorError>>) -> (r: (
        Result<T, SensorError>,
        u32,
    ))
        requires
            1 <= self.max_attempts,
            outcomes@.len() >= self.max_attempts,
        ensures
            r.0 == retry_result(outcomes@, self.max_attempts as int),
            r.1 == retry_count(outcomes@, self.max_attempts as int),
            r.1 <= self.max_attempts - 1,
    {
        proof {
            lemma_retry_count_bound(outcomes@, self.max_attempts as int);
        }
        Self::run(outcomes, self.max_attempts)
    }

    /// The recursive worker behind `execute`.
    fn run<T>(outcomes: Vec<Result<T, SensorError>>, attempts: u32) -> (r: (
        Result<T, SensorError>,
        u32,
    ))
        requires
            1 <= attempts,
            outcomes@.len() >= attempts,
        ensures
            r.0 == retry_result(outcomes@, attempts as int),
            r.1 == retry_count(outcomes@, attempts as int),
            r.1 <= attempts - 1,
        decreases attempts,
    {
        let ghost s = outcomes@;
        let mut rest = outcomes;
        let first = rest.remove(0);
        proof {
            assert(rest@ =~= s.skip(1));
        }
        match first {
            Ok(v) => (Ok(v), 0),
            Err(e) => {
                if attempts == 1 {
                    (Err(e), 0)
                } else {
                    match e {
                        SensorError::Permanent => (Err(SensorError::Permanent), 0),
                        SensorError::Transient => {
                            let (res, n) = Self::run(rest, attempts - 1);
                            (res, n + 1)
                        },
                    }
                }
            },
        }
    }
}

} // verus!
