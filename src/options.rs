//! The pair of retry budgets that a request runs under.
use vstd::prelude::*;
use crate::backoff::{Backoff, BackoffKind};

verus! {

/// First delay, in milliseconds, of the default region and optimistic lock schedules.
pub const DEFAULT_BASE_DELAY_MS: u64 = 2;

/// Largest delay, in milliseconds, of the default region and optimistic lock schedules.
pub const DEFAULT_MAX_DELAY_MS: u64 = 500;

/// Number of retries granted by the default region and optimistic lock schedules.
pub const DEFAULT_MAX_ATTEMPTS: u32 = 10;

/// The schedule used by default when a region has moved, split or merged.
pub open spec fn default_schedule() -> Backoff {
    Backoff {
        kind: BackoffKind::NoJitter,
        current_attempts: 0,
        max_attempts: DEFAULT_MAX_ATTEMPTS,
        base_delay_ms: DEFAULT_BASE_DELAY_MS,
        current_delay_ms: DEFAULT_BASE_DELAY_MS,
        max_delay_ms: DEFAULT_MAX_DELAY_MS,
    }
}

/// The trivial schedule, as a value.
pub open spec fn no_retry_schedule() -> Backoff {
    Backoff {
        kind: BackoffKind::NoBackoff,
        current_attempts: 0,
        max_attempts: 0,
        base_delay_ms: 0,
        current_delay_ms: 0,
        max_delay_ms: 0,
    }
}

/// The two independent retry budgets of a request.
#[derive(Clone, Copy, Debug, PartialEq, Eq, Structural)]
pub struct RetryOptions {
    /// How to retry when there is a region error and regions must be resolved again.
    pub region_backoff: Backoff,
    /// How to retry when a key is locked.
    pub lock_backoff: Backoff,
}

impl RetryOptions {
    pub fn new(region_backoff: Backoff, lock_backoff: Backoff) -> (r: RetryOptions)
        ensures
            r.region_backoff == region_backoff,
            r.lock_backoff == lock_backoff,
    {
        RetryOptions { region_backoff, lock_backoff }
    }

    /// Budgets for optimistic transactions: both region and lock errors are retried.
    pub fn default_optimistic() -> (r: RetryOptions)
        ensures
            r.region_backoff == default_schedule(),
            r.lock_backoff == default_schedule(),
    {
        RetryOptions {
            region_backoff: Backoff::no_jitter_backoff(
                DEFAULT_BASE_DELAY_MS,
                DEFAULT_MAX_DELAY_MS,
                DEFAULT_MAX_ATTEMPTS,
            ),
            lock_backoff: Backoff::no_jitter_backoff(
                DEFAULT_BASE_DELAY_MS,
                DEFAULT_MAX_DELAY_MS,
                DEFAULT_MAX_ATTEMPTS,
            ),
        }
    }

    /// Budgets for pessimistic transactions: region errors are retried, a lock fails at once.
    pub fn default_pessimistic() -> (r: RetryOptions)
        ensures
            r.region_backoff == default_schedule(),
            r.lock_backoff == no_retry_schedule(),
    {
        RetryOptions {
            region_backoff: Backoff::no_jitter_backoff(
                DEFAULT_BASE_DELAY_MS,
                DEFAULT_MAX_DELAY_MS,
                DEFAULT_MAX_ATTEMPTS,
            ),
            lock_backoff: Backoff::no_backoff(),
        }
    }

    /// No retry of any kind.
    pub fn none() -> (r: RetryOptions)
        ensures
            r.region_backoff == no_retry_schedule(),
            r.lock_backoff == no_retry_schedule(),
    {
        RetryOptions { region_backoff: Backoff::no_backoff(), lock_backoff: Backoff::no_backoff() }
    }
}

} // verus!
