//! The stages of a plan, and the pure steps that combine per-shard results.
use vstd::prelude::*;
use std::marker::PhantomData;
use std::sync::Arc;
use crate::backoff::Backoff;

verus! {

/// The leaf stage: one request sent to one store. `kv_client` is the store client, filled in
/// when the plan is targeted.
#[derive(Clone)]
pub struct Dispatch<Req, C> {
    pub request: Req,
    pub kv_client: Option<C>,
}

/// Fans a shardable plan out over the regions that its shards live in.
pub struct MultiRegion<P, PdC> {
    pub inner: P,
    pub pd_client: Arc<PdC>,
}

impl<P: Clone, PdC> Clone for MultiRegion<P, PdC> {
    fn clone(&self) -> (r: Self)
        ensures
            cloned(self.inner, r.inner),
            cloned(self.pd_client, r.pd_client),
    {
        MultiRegion { inner: self.inner.clone(), pd_client: self.pd_client.clone() }
    }
}

/// A technique for merging per-shard results into a single result of type `Out`.
pub trait Merge<In, E>: Sized {
    type Out;

    fn merge(&self, input: Vec<Result<In, E>>) -> Result<Self::Out, E>;
}

/// Combines the per-shard results of the inner plan with `merge`.
pub struct MergeResponse<P, In, M> {
    pub inner: P,
    pub merge: M,
    pub phantom: PhantomData<In>,
}

impl<P: Clone, In, M: Clone> Clone for MergeResponse<P, In, M> {
    fn clone(&self) -> Self {
        MergeResponse { inner: self.inner.clone(), merge: self.merge.clone(), phantom: PhantomData }
    }
}

/// A merge strategy which collects data from a response into a single type.
#[derive(Clone, Copy)]
pub struct Collect;

/// A merge strategy which returns an error if any response is an error and otherwise
/// returns a vector of the results.
#[derive(Clone, Copy)]
pub struct CollectError;

/// Every per-shard result is a success.
pub open spec fn all_ok<T, E>(s: Seq<Result<T, E>>) -> bool {
    forall|i: int| 0 <= i < s.len() ==> (#[trigger] s[i]) is Ok
}

/// The position of the first failed per-shard result is `i`.
pub open spec fn first_err_at<T, E>(s: Seq<Result<T, E>>, i: int) -> bool {
    &&& 0 <= i < s.len()
    &&& s[i] is Err
    &&& forall|j: int| 0 <= j < i ==> (#[trigger] s[j]) is Ok
}

/// Short-circuits on the first failed per-shard result; otherwise yields every value, in
/// shard order.
pub fn collect_results<T, E>(input: Vec<Result<T, E>>) -> (r: Result<Vec<T>, E>)
    ensures
        r is Ok <==> all_ok(input@),
        r matches Ok(v) ==> v@.len() == input@.len() && forall|i: int|
            0 <= i < input@.len() ==> input@[i] == Ok::<T, E>(#[trigger] v@[i]),
        r matches Err(e) ==> exists|i: int| first_err_at(input@, i) && input@[i] == Err::<T, E>(e),
{
    let ghost s = input@;
    let mut rest = input;
    let mut out: Vec<T> = Vec::new();
    while rest.len() > 0
        invariant
            s == input@,
            out@.len() + rest@.len() == s.len(),
            rest@ == s.subrange(out@.len() as int, s.len() as int),
            forall|j: int| 0 <= j < out@.len() ==> s[j] == Ok::<T, E>(#[trigger] out@[j]),
            forall|j: int| 0 <= j < out@.len() ==> (#[trigger] s[j]) is Ok,
        decreases rest@.len(),
    {
        let ghost k = out@.len() as int;
        let x = rest.remove(0);
        assert(x == s[k]);
        match x {
            Ok(v) => out.push(v),
            Err(e) => {
                assert(first_err_at(s, k) && s[k] == Err::<T, E>(e));
                assert(!all_ok(s));
                return Err(e);
            },
        }
    }
    assert(all_ok(s));
    Ok(out)
}

impl<T, E> Merge<T, E> for CollectError {
    type Out = Vec<T>;

    fn merge(&self, input: Vec<Result<T, E>>) -> (r: Result<Vec<T>, E>)
        ensures
            r is Ok <==> all_ok(input@),
            r matches Ok(v) ==> v@.len() == input@.len() && forall|i: int|
                0 <= i < input@.len() ==> input@[i] == Ok::<T, E>(#[trigger] v@[i]),
            r matches Err(e) ==> exists|i: int| first_err_at(input@, i) && input@[i] == Err::<T, E>(e),
    {
        collect_results(input)
    }
}

/// Process data into another kind of data.
pub trait Process<E>: Sized {
    type Out;

    fn process(input: Result<Self, E>) -> Result<Self::Out, E>;
}

/// Applies the result type's `Process` step to the result of the inner plan.
pub struct ProcessResponse<P, Pr> {
    pub inner: P,
    pub phantom: PhantomData<Pr>,
}

impl<P: Clone, Pr> Clone for ProcessResponse<P, Pr> {
    fn clone(&self) -> Self {
        ProcessResponse { inner: self.inner.clone(), phantom: PhantomData }
    }
}

/// Re-executes the inner plan while its result carries a region error, within `backoff`.
pub struct RetryRegion<P, PdC> {
    pub inner: P,
    pub pd_client: Arc<PdC>,
    pub backoff: Backoff,
}

impl<P: Clone, PdC> Clone for RetryRegion<P, PdC> {
    fn clone(&self) -> (r: Self)
        ensures
            cloned(self.inner, r.inner),
            cloned(self.pd_client, r.pd_client),
            r.backoff == self.backoff,
    {
        RetryRegion { inner: self.inner.clone(), pd_client: self.pd_client.clone(), backoff: self.backoff }
    }
}

/// Resolves the locks that the inner plan's result carries and re-executes it, within
/// `backoff`.
pub struct ResolveLock<P, PdC> {
    pub inner: P,
    pub pd_client: Arc<PdC>,
    pub backoff: Backoff,
}

impl<P: Clone, PdC> Clone for ResolveLock<P, PdC> {
    fn clone(&self) -> (r: Self)
        ensures
            cloned(self.inner, r.inner),
            cloned(self.pd_client, r.pd_client),
            r.backoff == self.backoff,
    {
        ResolveLock { inner: self.inner.clone(), pd_client: self.pd_client.clone(), backoff: self.backoff }
    }
}

/// Forwards the inner plan's result while a keep-alive for the transaction `status` runs.
#[derive(Clone)]
pub struct Heartbeat<P, S> {
    pub inner: P,
    pub status: S,
}

/// The per-shard outcome of a response: its top-level error if it has one, else the response.
pub fn into_shard_result<T, E>(response: T, error: Option<E>) -> (r: Result<T, E>)
    ensures
        error matches Some(e) ==> r == Err::<T, E>(e),
        error is None ==> r == Ok::<T, E>(response),
{
    match error {
        Some(e) => Err(e),
        None => Ok(response),
    }
}

/// Some item is tagged with position `i`.
pub open spec fn has_tag<T>(tagged: Seq<(usize, T)>, i: int) -> bool {
    exists|k: int| 0 <= k < tagged.len() && (#[trigger] tagged[k]).0 == i
}

/// Each position `0..tagged.len()` is tagged on exactly one item.
pub open spec fn is_shard_permutation<T>(tagged: Seq<(usize, T)>) -> bool {
    &&& forall|k: int| 0 <= k < tagged.len() ==> (#[trigger] tagged[k]).0 < tagged.len()
    &&& forall|k1: int, k2: int|
        0 <= k1 < tagged.len() && 0 <= k2 < tagged.len() && k1 != k2 ==> (#[trigger] tagged[k1]).0
            != (#[trigger] tagged[k2]).0
    &&& forall|i: int| 0 <= i < tagged.len() ==> #[trigger] has_tag(tagged, i)
}

/// Puts per-shard results, given in the order they completed and each tagged with the
/// position of its shard in the shard stream, back into shard-stream order.
pub fn order_by_shard<T>(tagged: Vec<(usize, T)>) -> (r: Vec<T>)
    requires
        is_shard_permutation(tagged@),
    ensures
        r@.len() == tagged@.len(),
        forall|k: int| 0 <= k < tagged@.len() ==> r@[(#[trigger] tagged@[k]).0 as int] == tagged@[k].1,
{
    let ghost s = tagged@;
    let n = tagged.len();
    let mut slots: Vec<Option<T>> = Vec::new();
    while slots.len() < n
        invariant
            slots@.len() <= n,
            forall|i: int| 0 <= i < slots@.len() ==> (#[trigger] slots@[i]) is None,
        decreases n - slots@.len(),
    {
        slots.push(None);
    }
    let mut rest = tagged;
    while rest.len() > 0
        invariant
            slots@.len() == n,
            n == s.len(),
            rest@.len() <= n,
            is_shard_permutation(s),
            rest@ == s.subrange(0, rest@.len() as int),
            forall|k: int| rest@.len() <= k < n ==> slots@[(#[trigger] s[k]).0 as int] == Some(s[k].1),
        decreases rest@.len(),
    {
        let ghost m = rest@.len() - 1;
        let last = rest.pop();
        assert(last == Some(s[m]));
        match last {
            Some((i, v)) => {
                slots.set(i, Some(v));
                assert forall|k: int| rest@.len() <= k < n implies slots@[(#[trigger] s[k]).0 as int] == Some(s[k].1) by {
                    if k != m {
                        assert(s[k].0 != s[m].0);
                    }
                }
            },
            None => {},
        }
    }
    assert forall|i: int| 0 <= i < n implies (#[trigger] slots@[i]) is Some by {
        assert(has_tag(s, i));
        let k = choose|k: int| 0 <= k < s.len() && (#[trigger] s[k]).0 == i;
        assert(slots@[s[k].0 as int] == Some(s[k].1));
    }
    let ghost full = slots@;
    let mut out: Vec<T> = Vec::new();
    while slots.len() > 0
        invariant
            out@.len() + slots@.len() == n,
            full.len() == n,
            slots@ == full.subrange(out@.len() as int, n as int),
            forall|i: int| 0 <= i < n ==> (#[trigger] full[i]) is Some,
            forall|i: int| 0 <= i < out@.len() ==> full[i] == Some(#[trigger] out@[i]),
        decreases slots@.len(),
    {
        let ghost j = out@.len() as int;
        let x = slots.remove(0);
        assert(x == full[j]);
        out.push(x.unwrap());
    }
    out
}

} // verus!
