//! The decisions of the two retry stages. The stages themselves wait on the network and
//! on timers; after each response they ask these functions what to do next.
use vstd::prelude::*;
use crate::backoff::{Backoff, BackoffKind, lemma_next_uses_one_attempt};

verus! {

/// What the region-retry stage does after a response.
#[derive(Clone, Debug, PartialEq, Eq, Structural)]
pub enum RegionAction<E> {
    /// The response carries no region error: hand it on.
    Finish,
    /// Sleep for the given number of milliseconds, then execute the inner plan again.
    Retry { delay_ms: u64 },
    /// The budget is spent: fail with the last region error.
    Fail(E),
}

/// What the lock-resolving stage does after a response.
#[derive(Clone, Copy, Debug, PartialEq, Eq, Structural)]
pub enum LockAction {
    /// The response carries no lock: hand it on.
    Finish,
    /// Lock retry is disabled: fail with a lock-resolution error.
    Fail,
    /// Hand the locks to the lock resolver.
    Resolve,
}

/// What the lock-resolving stage does once the resolver has answered.
#[derive(Clone, Copy, Debug, PartialEq, Eq, Structural)]
pub enum LockRetry {
    /// Every lock was cleared: execute the inner plan again at once.
    Now,
    /// A lock is still held: sleep for the given number of milliseconds, then execute again.
    After { delay_ms: u64 },
    /// The budget is spent: fail with a lock-resolution error.
    GiveUp,
}

/// The region-retry decision: the budget afterwards and the action.
pub open spec fn region_step_spec<E>(budget: Backoff, region_error: Option<E>) -> (Backoff, RegionAction<E>) {
    match region_error {
        Option::None => (budget, RegionAction::Finish),
        Option::Some(e) => {
            let (next, delay) = budget.next_spec();
            match delay {
                Option::None => (next, RegionAction::Fail(e)),
                Option::Some(d) => (next, RegionAction::Retry { delay_ms: d }),
            }
        },
    }
}

/// The lock-retry decision once the resolver has answered: the budget afterwards and the
/// action.
pub open spec fn lock_retry_spec(budget: Backoff, all_resolved: bool) -> (Backoff, LockRetry) {
    if all_resolved {
        (budget, LockRetry::Now)
    } else {
        let (next, delay) = budget.next_spec();
        match delay {
            Option::None => (next, LockRetry::GiveUp),
            Option::Some(d) => (next, LockRetry::After { delay_ms: d }),
        }
    }
}

/// Decides what the region-retry stage does with a response whose region error (if any) is
/// `region_error`, drawing from the stage's own `budget` only when there is one.
pub fn region_step<E>(budget: &mut Backoff, region_error: Option<E>) -> (r: RegionAction<E>)
    ensures
        (*final(budget), r) == region_step_spec(*old(budget), region_error),
{
    match region_error {
        Option::None => RegionAction::Finish,
        Option::Some(e) => match budget.next_delay_duration() {
            Option::None => RegionAction::Fail(e),
            Option::Some(d) => RegionAction::Retry { delay_ms: d },
        },
    }
}

/// Decides what the lock-resolving stage does with a response that carries `lock_count`
/// locks. Only an empty lock set lets the response through; the trivial schedule fails fast.
pub fn lock_step(budget: &Backoff, lock_count: usize) -> (r: LockAction)
    ensures
        lock_count == 0 ==> r == LockAction::Finish,
        lock_count > 0 && budget.kind == BackoffKind::NoBackoff ==> r == LockAction::Fail,
        lock_count > 0 && budget.kind != BackoffKind::NoBackoff ==> r == LockAction::Resolve,
{
    if lock_count == 0 {
        LockAction::Finish
    } else if budget.is_none() {
        LockAction::Fail
    } else {
        LockAction::Resolve
    }
}

/// Decides how the lock-resolving stage goes on once the resolver has answered
/// `all_resolved`. Locks that were all cleared cost nothing from the budget.
pub fn lock_retry(budget: &mut Backoff, all_resolved: bool) -> (r: LockRetry)
    ensures
        (*final(budget), r) == lock_retry_spec(*old(budget), all_resolved),
        all_resolved ==> r == LockRetry::Now && *final(budget) == *old(budget),
{
    if all_resolved {
        LockRetry::Now
    } else {
        match budget.next_delay_duration() {
            Option::None => LockRetry::GiveUp,
            Option::Some(d) => LockRetry::After { delay_ms: d },
        }
    }
}

/// How many times the region-retry stage executes its inner plan, starting from `budget`,
/// when every execution comes back with the region error `e`.
pub open spec fn region_executions<E>(budget: Backoff, e: E) -> nat
    decreases budget.max_attempts - budget.current_attempts,
{
    let (next, action) = region_step_spec(budget, Option::Some(e));
    match action {
        RegionAction::Retry { .. } => 1 + region_executions(next, e),
        _ => 1,
    }
}

/// The action that ends a region-retry run in which every execution has the region error `e`.
pub open spec fn region_outcome<E>(budget: Backoff, e: E) -> RegionAction<E>
    decreases budget.max_attempts - budget.current_attempts,
{
    let (next, action) = region_step_spec(budget, Option::Some(e));
    match action {
        RegionAction::Retry { .. } => region_outcome(next, e),
        _ => action,
    }
}

/// How many times the lock-resolving stage executes its inner plan, starting from `budget`,
/// when every response carries locks and the resolver never clears all of them.
pub open spec fn contended_lock_executions(budget: Backoff) -> nat
    decreases budget.max_attempts - budget.current_attempts,
{
    if budget.kind == BackoffKind::NoBackoff {
        1
    } else {
        let (next, action) = lock_retry_spec(budget, false);
        match action {
            LockRetry::After { .. } => 1 + contended_lock_executions(next),
            _ => 1,
        }
    }
}

/// Retry bound: when every execution meets the same region error, the region-retry stage
/// executes its inner plan once plus once per attempt of its budget, and then fails with
/// that region error.
pub proof fn lemma_region_retry_bound<E>(budget: Backoff, e: E)
    requires
        budget.wf(),
    ensures
        region_executions(budget, e) == budget.attempts_left() + 1,
        region_outcome(budget, e) == RegionAction::Fail(e),
    decreases budget.max_attempts - budget.current_attempts,
{
    lemma_next_uses_one_attempt(budget);
    let (next, delay) = budget.next_spec();
    if delay is Some {
        lemma_region_retry_bound(next, e);
    }
}

/// Contended locks: when every response carries locks that the resolver cannot clear, the
/// lock-resolving stage executes its inner plan once plus once per attempt of its budget.
pub proof fn lemma_contended_lock_bound(budget: Backoff)
    requires
        budget.wf(),
    ensures
        contended_lock_executions(budget) == budget.attempts_left() + 1,
    decreases budget.max_attempts - budget.current_attempts,
{
    lemma_next_uses_one_attempt(budget);
    let (next, delay) = budget.next_spec();
    if budget.kind != BackoffKind::NoBackoff && delay is Some {
        lemma_contended_lock_bound(next);
    }
}

/// Fail-fast: with the trivial lock schedule a response with locks is never resolved nor
/// retried; the inner plan runs once.
pub proof fn lemma_no_backoff_fails_fast(budget: Backoff)
    requires
        budget.kind == BackoffKind::NoBackoff,
    ensures
        contended_lock_executions(budget) == 1,
{
}

/// Immediate progress: once the resolver has cleared every lock, the retry draws nothing from
/// the lock budget.
pub proof fn lemma_cleared_locks_keep_budget(budget: Backoff)
    ensures
        lock_retry_spec(budget, true) == (budget, LockRetry::Now),
{
}

} // verus!
