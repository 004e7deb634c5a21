//! Building blocks of a request-execution pipeline for a sharded, region-replicated
//! transactional key-value store: retry schedules, the decisions of the retry stages,
//! the fan-out and merge steps, and a phase-typed plan builder.

pub mod backoff;
pub mod options;
pub mod plan;
pub mod plan_builder;
pub mod retry;

pub use backoff::{Backoff, BackoffKind};
pub use options::RetryOptions;
pub use plan::{
    collect_results, into_shard_result, order_by_shard, Collect, CollectError, Dispatch, Heartbeat,
    Merge, MergeResponse, MultiRegion, Process, ProcessResponse, ResolveLock, RetryRegion,
};
pub use plan_builder::{LockResolvable, NoTarget, PlanBuilder, PlanBuilderPhase, SetContext, SingleKey, Targetted, Unmerged};
pub use retry::{lock_retry, lock_step, region_step, LockAction, LockRetry, RegionAction};
