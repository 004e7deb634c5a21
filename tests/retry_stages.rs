use std::sync::Arc;
use tikv_plan::{
    collect_results, into_shard_result, lock_retry, lock_step, order_by_shard, region_step, Backoff,
    BackoffKind, CollectError, LockAction, LockRetry, Merge, PlanBuilder, RegionAction, RetryOptions,
    SetContext,
};

#[derive(Clone, Debug, PartialEq)]
enum TestError {
    RegionNotFound { region_id: u64 },
    KeyError(String),
}

/// Runs the region-retry stage against an inner plan whose every execution reports the
/// region error of `respond`, and returns the number of executions and the final action.
fn run_region_retry(mut budget: Backoff, respond: impl Fn(usize) -> Option<TestError>) -> (usize, RegionAction<TestError>) {
    let mut executions: usize = 1;
    loop {
        match region_step(&mut budget, respond(executions)) {
            RegionAction::Retry { .. } => executions += 1,
            action => return (executions, action),
        }
    }
}

#[test]
fn test_region_retry() {
    let invoking_count = std::cell::Cell::new(0usize);
    let (_, action) = run_region_retry(Backoff::no_jitter_backoff(1, 1, 3), |_| {
        invoking_count.set(invoking_count.get() + 1);
        Some(TestError::RegionNotFound { region_id: 1 })
    });
    // The first call plus the 3 retries
    assert_eq!(invoking_count.get(), 4);
    assert_eq!(action, RegionAction::Fail(TestError::RegionNotFound { region_id: 1 }));
}

#[test]
fn region_retry_stops_when_region_error_clears() {
    let (executions, action) = run_region_retry(Backoff::no_jitter_backoff(1, 1, 3), |n| {
        if n < 2 { Some(TestError::RegionNotFound { region_id: 7 }) } else { None }
    });
    assert_eq!(executions, 2);
    assert_eq!(action, RegionAction::Finish);
}

#[test]
fn region_retry_with_no_backoff_fails_at_once() {
    let (executions, action) = run_region_retry(Backoff::no_backoff(), |_| {
        Some(TestError::RegionNotFound { region_id: 2 })
    });
    assert_eq!(executions, 1);
    assert_eq!(action, RegionAction::Fail(TestError::RegionNotFound { region_id: 2 }));
}

#[test]
fn region_step_without_error_keeps_budget() {
    let mut budget = Backoff::no_jitter_backoff(5, 50, 2);
    let before = budget;
    assert_eq!(region_step::<TestError>(&mut budget, None), RegionAction::Finish);
    assert_eq!(budget, before);
}

#[test]
fn every_shard_is_dispatched_once_per_fan_out_attempt() {
    // Three shards; only the second keeps reporting a region error. Region retry wraps the
    // whole fan-out, so each shard is dispatched once per attempt.
    let mut budget = Backoff::no_jitter_backoff(1, 1, 2);
    let mut dispatches = [0usize; 3];
    loop {
        let mut shard_errors = Vec::new();
        for (shard, count) in dispatches.iter_mut().enumerate() {
            *count += 1;
            shard_errors.push(if shard == 1 { Some(TestError::RegionNotFound { region_id: 2 }) } else { None });
        }
        let first = shard_errors.into_iter().flatten().next();
        match region_step(&mut budget, first) {
            RegionAction::Retry { .. } => continue,
            action => {
                assert_eq!(action, RegionAction::Fail(TestError::RegionNotFound { region_id: 2 }));
                break;
            }
        }
    }
    assert_eq!(dispatches, [3, 3, 3]);
}

#[test]
fn no_jitter_delays_double_up_to_the_ceiling() {
    let mut b = Backoff::no_jitter_backoff(2, 10, 5);
    let delays: Vec<Option<u64>> = (0..6).map(|_| b.next_delay_duration()).collect();
    assert_eq!(delays, vec![Some(2), Some(4), Some(8), Some(10), Some(10), None]);
    assert_eq!(b.current_attempts, 5);
    assert!(!b.is_none());
}

#[test]
fn base_above_ceiling_is_capped() {
    let mut b = Backoff::no_jitter_backoff(100, 30, 2);
    assert_eq!(b.next_delay_duration(), Some(30));
    assert_eq!(b.next_delay_duration(), Some(30));
    assert_eq!(b.next_delay_duration(), None);
}

#[test]
fn large_delays_do_not_overflow() {
    let mut b = Backoff::no_jitter_backoff(u64::MAX - 1, u64::MAX, 3);
    assert_eq!(b.next_delay_duration(), Some(u64::MAX - 1));
    assert_eq!(b.next_delay_duration(), Some(u64::MAX));
    assert_eq!(b.next_delay_duration(), Some(u64::MAX));
    assert_eq!(b.next_delay_duration(), None);
}

#[test]
fn no_backoff_never_grants_a_delay() {
    let mut b = Backoff::no_backoff();
    assert!(b.is_none());
    assert_eq!(b.kind, BackoffKind::NoBackoff);
    assert_eq!(b.next_delay_duration(), None);
    assert_eq!(b, Backoff::no_backoff());
}

#[test]
fn retry_option_presets() {
    let default_region = Backoff::no_jitter_backoff(2, 500, 10);
    let optimistic = RetryOptions::default_optimistic();
    assert_eq!(optimistic.region_backoff, default_region);
    assert_eq!(optimistic.lock_backoff, default_region);
    let pessimistic = RetryOptions::default_pessimistic();
    assert_eq!(pessimistic.region_backoff, default_region);
    assert!(pessimistic.lock_backoff.is_none());
    let none = RetryOptions::none();
    assert!(none.region_backoff.is_none());
    assert!(none.lock_backoff.is_none());
    let custom = RetryOptions::new(Backoff::no_backoff(), default_region);
    assert_eq!(custom.lock_backoff, default_region);
    assert_ne!(custom, optimistic);
}

/// Runs the lock-resolving stage: `locks(n)` is the number of locks in the n-th response and
/// `resolver(n)` what the resolver answers for it. Returns executions, backoff draws and
/// whether the stage failed.
fn run_resolve_lock(
    mut budget: Backoff,
    locks: impl Fn(usize) -> usize,
    resolver: impl Fn(usize) -> bool,
) -> (usize, usize, bool) {
    let mut executions: usize = 1;
    let mut draws: usize = 0;
    loop {
        match lock_step(&budget, locks(executions)) {
            LockAction::Finish => return (executions, draws, false),
            LockAction::Fail => return (executions, draws, true),
            LockAction::Resolve => {}
        }
        let before = budget;
        match lock_retry(&mut budget, resolver(executions)) {
            LockRetry::Now => {}
            LockRetry::After { .. } => draws += 1,
            LockRetry::GiveUp => return (executions, draws, true),
        }
        if budget != before {
            assert!(draws > 0);
        }
        executions += 1;
    }
}

#[test]
fn lock_cleared_immediately() {
    let (executions, draws, failed) =
        run_resolve_lock(Backoff::no_jitter_backoff(1, 1, 2), |n| if n == 1 { 1 } else { 0 }, |_| true);
    assert_eq!((executions, draws, failed), (2, 0, false));
}

#[test]
fn lock_contended_then_exhausted() {
    let (executions, draws, failed) = run_resolve_lock(Backoff::no_jitter_backoff(1, 1, 2), |_| 1, |_| false);
    assert_eq!((executions, draws, failed), (3, 2, true));
}

#[test]
fn lock_no_backoff_fails_fast() {
    let (executions, draws, failed) = run_resolve_lock(Backoff::no_backoff(), |_| 1, |_| true);
    assert_eq!((executions, draws, failed), (1, 0, true));
}

#[test]
fn lock_retry_contended_draws_a_delay() {
    let mut budget = Backoff::no_jitter_backoff(3, 100, 4);
    assert_eq!(lock_retry(&mut budget, false), LockRetry::After { delay_ms: 3 });
    assert_eq!(budget.current_attempts, 1);
    assert_eq!(lock_retry(&mut budget, true), LockRetry::Now);
    assert_eq!(budget.current_attempts, 1);
    assert_eq!(lock_step(&budget, 0), LockAction::Finish);
    assert_eq!(lock_step(&budget, 3), LockAction::Resolve);
}

#[test]
fn collect_error_happy_path() {
    let input: Vec<Result<u32, TestError>> = (0..3).map(Ok).collect();
    assert_eq!(CollectError.merge(input), Ok(vec![0, 1, 2]));
    assert_eq!(collect_results::<u32, TestError>(vec![]), Ok(vec![]));
}

#[test]
fn collect_error_returns_first_error() {
    let input = vec![
        Ok(1u32),
        Err(TestError::KeyError("a".to_owned())),
        Ok(3),
        Err(TestError::KeyError("b".to_owned())),
    ];
    assert_eq!(collect_results(input), Err(TestError::KeyError("a".to_owned())));
}

#[test]
fn shard_results_come_back_in_stream_order() {
    // The shards' requests completed in the order s2, s1, s3.
    let completed = vec![(1usize, "r2"), (0, "r1"), (2, "r3")];
    assert_eq!(order_by_shard(completed), vec!["r1", "r2", "r3"]);
    assert_eq!(order_by_shard::<u8>(vec![]), Vec::<u8>::new());
}

#[test]
fn top_level_error_becomes_shard_error() {
    assert_eq!(into_shard_result::<u8, TestError>(5, None), Ok(5));
    assert_eq!(
        into_shard_result(5u8, Some(TestError::KeyError("k".to_owned()))),
        Err(TestError::KeyError("k".to_owned()))
    );
}

#[derive(Clone, Debug, PartialEq)]
struct MockRequest {
    key: Vec<u8>,
    region_id: Option<u64>,
}

impl SetContext<u64> for MockRequest {
    fn context_spec(&self) -> Option<u64> {
        self.region_id
    }

    fn set_context(&mut self, context: u64) {
        self.region_id = Some(context);
    }
}

#[test]
fn builder_assembles_multi_region_stack() {
    let request = MockRequest { key: b"mock_key".to_vec(), region_id: None };
    let plan = PlanBuilder::<(), _, _>::new(Arc::new(()), request.clone())
        .resolve_lock(Backoff::no_backoff())
        .multi_region()
        .retry_region(Backoff::no_jitter_backoff(1, 1, 3))
        .merge::<u32, _>(CollectError)
        .plan();
    let dispatch: &tikv_plan::Dispatch<MockRequest, &str> = &plan.inner.inner.inner.inner;
    assert_eq!(dispatch.request, request);
    assert!(dispatch.kv_client.is_none());
    assert_eq!(plan.inner.backoff, Backoff::no_jitter_backoff(1, 1, 3));
    assert!(plan.inner.inner.inner.backoff.is_none());
}

#[test]
fn builder_targets_single_region() {
    let request = MockRequest { key: b"k".to_vec(), region_id: None };
    let plan = PlanBuilder::<(), _, _>::new(Arc::new(()), request)
        .single_region_with_store(42u64, "store-1")
        .plan();
    assert_eq!(plan.kv_client, Some("store-1"));
    assert_eq!(plan.request.region_id, Some(42));
    assert_eq!(plan.request.context_spec(), Some(42));
}

#[test]
fn stage_clone_keeps_budget_and_shares_handle() {
    let pd = Arc::new(7u32);
    let stage = tikv_plan::RetryRegion { inner: 3u8, pd_client: pd.clone(), backoff: Backoff::no_jitter_backoff(4, 40, 2) };
    let mut copy = stage.clone();
    assert_eq!(copy.inner, 3);
    assert!(Arc::ptr_eq(&copy.pd_client, &stage.pd_client));
    assert_eq!(copy.backoff, stage.backoff);
    assert_eq!(copy.backoff.next_delay_duration(), Some(4));
    assert_eq!(stage.backoff.current_attempts, 0);
    let merged: Result<Vec<u8>, TestError> = CollectError.merge(vec![]);
    assert_eq!(merged, Ok(vec![]));
}
