//! Assembles plans stage by stage. The phase parameter makes `plan()` reachable only once
//! every leaf has a target store, and the `Unmerged` bound keeps the merge and processing
//! steps last.
use vstd::prelude::*;
use std::marker::PhantomData;
use std::sync::Arc;
use crate::backoff::Backoff;
use crate::plan::{Dispatch, Heartbeat, MergeResponse, MultiRegion, ProcessResponse, ResolveLock, RetryRegion};

verus! {

/// Builder type for plans.
pub struct PlanBuilder<PdC, P, Ph: PlanBuilderPhase> {
    pd_client: Arc<PdC>,
    plan: P,
    phantom: PhantomData<Ph>,
}

/// Used to ensure that a plan has a designated target or targets, a target is a particular
/// store.
pub trait PlanBuilderPhase {}

/// The plan does not yet resolve to concrete stores.
pub struct NoTarget;

impl PlanBuilderPhase for NoTarget {}

/// Every leaf of the plan has a store client.
pub struct Targetted;

impl PlanBuilderPhase for Targetted {}

/// A plan whose result is still a response (or a vector of per-shard responses), so that
/// further retry, merge or processing stages may wrap it.
pub trait Unmerged {}

impl<Req, C> Unmerged for Dispatch<Req, C> {}

impl<P, PdC> Unmerged for MultiRegion<P, PdC> {}

impl<P, PdC> Unmerged for RetryRegion<P, PdC> {}

impl<P, PdC> Unmerged for ResolveLock<P, PdC> {}

impl<P, S> Unmerged for Heartbeat<P, S> {}

/// A plan that lock resolution may wrap: anything but a region-retry stage, because locks
/// are resolved only against the region that actually served the response and region retry
/// sits outside lock resolution.
pub trait LockResolvable {}

impl<Req, C> LockResolvable for Dispatch<Req, C> {}

impl<P, PdC> LockResolvable for MultiRegion<P, PdC> {}

impl<P, PdC> LockResolvable for ResolveLock<P, PdC> {}

impl<P, S> LockResolvable for Heartbeat<P, S> {}

/// A request whose region context is set when it is targeted at a store. Request types
/// implement it; `context_spec` is the region context the request currently carries.
pub trait SetContext<Ctx> {
    spec fn context_spec(&self) -> Option<Ctx>;

    fn set_context(&mut self, context: Ctx)
        ensures
            final(self).context_spec() == Some(context),
    ;
}

/// Indicates that a request operates on a single key.
pub trait SingleKey {
    fn key(&self) -> &Vec<u8>;
}

impl<PdC, P, Ph: PlanBuilderPhase> PlanBuilder<PdC, P, Ph> {
    /// The plan assembled so far.
    pub closed spec fn spec_plan(&self) -> P {
        self.plan
    }

    /// The placement-directory handle that the stages share.
    pub closed spec fn spec_pd_client(&self) -> Arc<PdC> {
        self.pd_client
    }
}

impl<PdC, Req, C> PlanBuilder<PdC, Dispatch<Req, C>, NoTarget> {
    /// Starts a plan that dispatches `request`, not yet targeted at any store.
    pub fn new(pd_client: Arc<PdC>, request: Req) -> (r: Self)
        ensures
            r.spec_pd_client() == pd_client,
            r.spec_plan() == (Dispatch::<Req, C> { request, kv_client: None }),
    {
        PlanBuilder { pd_client, plan: Dispatch { request, kv_client: None }, phantom: PhantomData }
    }

    /// The request that the plan will dispatch.
    pub fn request(&self) -> (r: &Req)
        ensures
            *r == self.spec_plan().request,
    {
        &self.plan.request
    }

    /// The placement-directory handle that the plan's stages share.
    pub fn pd_client(&self) -> (r: &Arc<PdC>)
        ensures
            *r == self.spec_pd_client(),
    {
        &self.pd_client
    }
}

impl<PdC, P> PlanBuilder<PdC, P, Targetted> {
    /// Return the built plan, note that this can only be called once the plan has a target.
    pub fn plan(self) -> (r: P)
        ensures
            r == self.spec_plan(),
    {
        self.plan
    }
}

impl<PdC, P: Unmerged, Ph: PlanBuilderPhase> PlanBuilder<PdC, P, Ph> {
    /// If there is a region error, re-shard the request and re-resolve regions, then retry.
    ///
    /// Note that this plan must wrap a multi-region plan if the request should be re-sharded.
    pub fn retry_region(self, backoff: Backoff) -> (r: PlanBuilder<PdC, RetryRegion<P, PdC>, Ph>)
        ensures
            r.spec_plan().inner == self.spec_plan(),
            r.spec_plan().backoff == backoff,
            r.spec_plan().pd_client == self.spec_pd_client(),
            cloned(self.spec_pd_client(), r.spec_pd_client()),
    {
        PlanBuilder {
            pd_client: self.pd_client.clone(),
            plan: RetryRegion { inner: self.plan, backoff, pd_client: self.pd_client },
            phantom: PhantomData,
        }
    }

    /// Merge the results of a request. Usually used where a request is sent to multiple
    /// regions to combine the responses from each region.
    pub fn merge<In, M>(self, merge: M) -> (r: PlanBuilder<PdC, MergeResponse<P, In, M>, Ph>)
        ensures
            r.spec_plan().inner == self.spec_plan(),
            r.spec_plan().merge == merge,
            r.spec_pd_client() == self.spec_pd_client(),
    {
        PlanBuilder {
            pd_client: self.pd_client,
            plan: MergeResponse { inner: self.plan, merge, phantom: PhantomData },
            phantom: PhantomData,
        }
    }

    /// Apply a processing step to a response (usually only needed if the request is sent to
    /// a single region, because post-processing can be part of the merge step for
    /// multi-region requests).
    pub fn post_process<Pr>(self) -> (r: PlanBuilder<PdC, ProcessResponse<P, Pr>, Ph>)
        ensures
            r.spec_plan().inner == self.spec_plan(),
            r.spec_pd_client() == self.spec_pd_client(),
    {
        PlanBuilder {
            pd_client: self.pd_client,
            plan: ProcessResponse { inner: self.plan, phantom: PhantomData },
            phantom: PhantomData,
        }
    }

    /// Keep the transaction whose state is `status` alive while the plan runs.
    pub fn heart_beat<S>(self, status: S) -> (r: PlanBuilder<PdC, Heartbeat<P, S>, Ph>)
        ensures
            r.spec_plan() == (Heartbeat { inner: self.spec_plan(), status }),
            r.spec_pd_client() == self.spec_pd_client(),
    {
        PlanBuilder {
            pd_client: self.pd_client,
            plan: Heartbeat { inner: self.plan, status },
            phantom: PhantomData,
        }
    }
}

impl<PdC, P: Unmerged + LockResolvable, Ph: PlanBuilderPhase> PlanBuilder<PdC, P, Ph> {
    /// If there is a lock error, then resolve the lock and retry the request.
    pub fn resolve_lock(self, backoff: Backoff) -> (r: PlanBuilder<PdC, ResolveLock<P, PdC>, Ph>)
        ensures
            r.spec_plan().inner == self.spec_plan(),
            r.spec_plan().backoff == backoff,
            r.spec_plan().pd_client == self.spec_pd_client(),
            cloned(self.spec_pd_client(), r.spec_pd_client()),
    {
        PlanBuilder {
            pd_client: self.pd_client.clone(),
            plan: ResolveLock { inner: self.plan, backoff, pd_client: self.pd_client },
            phantom: PhantomData,
        }
    }
}

impl<PdC, P: Unmerged> PlanBuilder<PdC, P, NoTarget> {
    /// Split the request into shards sending a request to the region of each shard.
    pub fn multi_region(self) -> (r: PlanBuilder<PdC, MultiRegion<P, PdC>, Targetted>)
        ensures
            r.spec_plan().inner == self.spec_plan(),
            r.spec_plan().pd_client == self.spec_pd_client(),
            cloned(self.spec_pd_client(), r.spec_pd_client()),
    {
        PlanBuilder {
            pd_client: self.pd_client.clone(),
            plan: MultiRegion { inner: self.plan, pd_client: self.pd_client },
            phantom: PhantomData,
        }
    }
}

impl<PdC, Req, C> PlanBuilder<PdC, Dispatch<Req, C>, NoTarget> {
    /// Target the request at a single region: `context` describes the region and `client`
    /// reaches the store that leads it.
    pub fn single_region_with_store<Ctx>(self, context: Ctx, client: C) -> (r: PlanBuilder<
        PdC,
        Dispatch<Req, C>,
        Targetted,
    >) where Req: SetContext<Ctx>
        ensures
            r.spec_plan().kv_client == Some(client),
            r.spec_plan().request.context_spec() == Some(context),
            r.spec_pd_client() == self.spec_pd_client(),
    {
        set_single_region_store(self.plan, context, client, self.pd_client)
    }
}

/// Sets the request's region context and store client, which targets the plan.
fn set_single_region_store<PdC, Req: SetContext<Ctx>, Ctx, C>(
    plan: Dispatch<Req, C>,
    context: Ctx,
    client: C,
    pd_client: Arc<PdC>,
) -> (r: PlanBuilder<PdC, Dispatch<Req, C>, Targetted>)
    ensures
        r.spec_plan().kv_client == Some(client),
        r.spec_plan().request.context_spec() == Some(context),
        r.spec_pd_client() == pd_client,
{
    let mut plan = plan;
    plan.request.set_context(context);
    plan.kv_client = Some(client);
    PlanBuilder { plan, pd_client, phantom: PhantomData }
}

} // verus!
