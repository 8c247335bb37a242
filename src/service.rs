use vstd::pervasive::cloned;
use vstd::prelude::*;

use crate::classify::{Classification, Policy};
use crate::pool::{DEFAULT_CEILING, Exhausted, Outcome, Pool, ProtocolViolation, Ticket};

verus! {

/// Builds admission-controlled services that share one policy.
pub struct QualityOfServiceLayer<P, S> {
    policy: P,
    service: S,
}

impl<P, S> QualityOfServiceLayer<P, S> {
    pub closed spec fn policy_spec(&self) -> P {
        self.policy
    }

    pub closed spec fn service_spec(&self) -> S {
        self.service
    }

    pub fn new(policy: P, service: S) -> (r: Self)
        ensures
            r.policy_spec() == policy,
            r.service_spec() == service,
    {
        QualityOfServiceLayer { policy, service }
    }

    /// Wraps `service` with a copy of this layer's policy and a fresh pool of
    /// the default ceiling.
    pub fn layer(&self, service: S) -> (r: QualityOfService<P, S>) where P: Clone
        ensures
            cloned(self.policy_spec(), r.policy_spec()),
            r.service_spec() == service,
            r.pool_spec().is_fresh(DEFAULT_CEILING as nat),
            r.pool_spec().id_spec() == 0,
    {
        self.layer_with_id(service, 0)
    }

    /// As `layer`, with a pool of identity `pool_id`: services whose pools
    /// have distinct identities never act on each other's tickets.
    pub fn layer_with_id(&self, service: S, pool_id: u64) -> (r: QualityOfService<P, S>) where
        P: Clone,
        ensures
            cloned(self.policy_spec(), r.policy_spec()),
            r.service_spec() == service,
            r.pool_spec().is_fresh(DEFAULT_CEILING as nat),
            r.pool_spec().id_spec() == pool_id,
    {
        QualityOfService::with_ceiling(self.policy.clone(), service, pool_id, DEFAULT_CEILING)
    }
}

/// The admission-control state of one wrapped service: its policy, the
/// downstream service, and the capacity pool that gates calls into it.
pub struct QualityOfService<P, S> {
    policy: P,
    /// The downstream service; its readiness and its calls are the caller's.
    pub service: S,
    pool: Pool,
}

impl<P, S> QualityOfService<P, S> {
    pub closed spec fn policy_spec(&self) -> P {
        self.policy
    }

    pub closed spec fn service_spec(&self) -> S {
        self.service
    }

    pub closed spec fn pool_spec(&self) -> Pool {
        self.pool
    }

    /// The pool is always well formed.
    pub open spec fn wf(&self) -> bool {
        self.pool_spec().wf()
    }

    /// A service with a pool of the default ceiling.
    pub fn new(policy: P, service: S) -> (r: Self)
        ensures
            r.policy_spec() == policy,
            r.service_spec() == service,
            r.pool_spec().is_fresh(DEFAULT_CEILING as nat),
            r.pool_spec().id_spec() == 0,
    {
        Self::with_ceiling(policy, service, 0, DEFAULT_CEILING)
    }

    /// A service with a pool of identity `pool_id` and `ceiling` units.
    pub fn with_ceiling(policy: P, service: S, pool_id: u64, ceiling: usize) -> (r: Self)
        ensures
            r.policy_spec() == policy,
            r.service_spec() == service,
            r.pool_spec().is_fresh(ceiling as nat),
            r.pool_spec().id_spec() == pool_id,
    {
        QualityOfService { policy, service, pool: Pool::with_id(pool_id, ceiling) }
    }

    pub fn pool(&self) -> (r: &Pool)
        ensures
            *r == self.pool_spec(),
    {
        &self.pool
    }

    /// The pool's half of the readiness check: reserve a unit for the next
    /// call, or report that the caller has to wait.
    pub fn poll_permit(&mut self) -> (r: Result<(), Exhausted>)
        requires
            old(self).wf(),
        ensures
            final(self).wf(),
            final(self).policy_spec() == old(self).policy_spec(),
            final(self).service_spec() == old(self).service_spec(),
            r is Ok <==> (old(self).pool_spec().reserved_spec() || old(self).pool_spec().available_spec() > 0),
            final(self).pool_spec().reserved_spec() == r is Ok,
            final(self).pool_spec().id_spec() == old(self).pool_spec().id_spec(),
            final(self).pool_spec().generation_spec() == old(self).pool_spec().generation_spec(),
            final(self).pool_spec().capacity_spec() == old(self).pool_spec().capacity_spec(),
            final(self).pool_spec().in_flight_spec() == old(self).pool_spec().in_flight_spec(),
            old(self).pool_spec().reserved_spec() ==> final(self).pool_spec().available_spec()
                == old(self).pool_spec().available_spec(),
            !old(self).pool_spec().reserved_spec() && r is Ok ==> final(self).pool_spec().available_spec()
                + 1 == old(self).pool_spec().available_spec(),
            r is Err ==> final(self).pool_spec() == old(self).pool_spec(),
    {
        self.pool.try_acquire()
    }

    /// Dispatch: hands the reserved unit, a copy of the policy and the
    /// current generation to the future of the call `inner`. Without a
    /// reservation it is refused and nothing changes.
    pub fn dispatch<F>(&mut self, inner: F) -> (r: Result<ResponseFuture<F, P>, ProtocolViolation>) where
        P: Clone,
        requires
            old(self).wf(),
        ensures
            final(self).wf(),
            final(self).policy_spec() == old(self).policy_spec(),
            final(self).service_spec() == old(self).service_spec(),
            r is Ok <==> old(self).pool_spec().reserved_spec(),
            r is Err ==> final(self).pool_spec() == old(self).pool_spec(),
            r matches Ok(fut) ==> {
                &&& fut.inner_spec() == inner
                &&& cloned(old(self).policy_spec(), fut.policy_spec())
                &&& fut.ticket_spec().pool_spec() == old(self).pool_spec().id_spec()
                &&& final(self).pool_spec().id_spec() == old(self).pool_spec().id_spec()
                &&& fut.ticket_spec().generation_spec() == old(self).pool_spec().generation_spec()
                &&& final(self).pool_spec().in_flight_spec() == old(self).pool_spec().in_flight_spec() + 1
                &&& final(self).pool_spec().available_spec() == old(self).pool_spec().available_spec()
                &&& final(self).pool_spec().capacity_spec() == old(self).pool_spec().capacity_spec()
                &&& final(self).pool_spec().generation_spec() == old(self).pool_spec().generation_spec()
                &&& !final(self).pool_spec().reserved_spec()
            },
    {
        match self.pool.dispatch() {
            Ok(ticket) => Ok(ResponseFuture { inner, policy: self.policy.clone(), ticket }),
            Err(e) => Err(e),
        }
    }

    /// Settles a completed call: its policy classifies `result`, and the
    /// verdict credits the unit back or shrinks the pool. `result` itself is
    /// left for the caller untouched.
    pub fn settle<F, T, E>(&mut self, fut: ResponseFuture<F, P>, result: &Result<T, E>) -> (r: (
        Classification,
        Outcome,
    )) where P: Policy<T, E>
        requires
            old(self).wf(),
            old(self).pool_spec().generation_spec() < u64::MAX,
            fut.policy_spec().judges(result),
        ensures
            final(self).wf(),
            final(self).policy_spec() == old(self).policy_spec(),
            final(self).service_spec() == old(self).service_spec(),
            fut.policy_spec().verdict(result, r.0),
            old(self).pool_spec().resolved(&fut.ticket_spec(), r.0, r.1, &final(self).pool_spec()),
    {
        let c = fut.policy.classify(result);
        let ResponseFuture { inner: _, policy: _, ticket } = fut;
        let outcome = self.pool.resolve(ticket, c);
        (c, outcome)
    }

    /// Gives back the unit of a call whose future was dropped before it
    /// completed; a retired generation's unit changes nothing.
    pub fn abandon<F>(&mut self, fut: ResponseFuture<F, P>) -> (r: Outcome)
        requires
            old(self).wf(),
        ensures
            final(self).wf(),
            final(self).policy_spec() == old(self).policy_spec(),
            final(self).service_spec() == old(self).service_spec(),
            old(self).pool_spec().resolved(&fut.ticket_spec(), Classification::Success, r, &final(self).pool_spec()),
    {
        let ResponseFuture { inner: _, policy: _, ticket } = fut;
        self.pool.credit(ticket)
    }
}

/// The future of one admitted call: the downstream call in progress, the
/// policy that will judge it, and the lease of the generation it was
/// admitted under.
pub struct ResponseFuture<F, P> {
    /// The downstream call; polling it is the caller's.
    pub inner: F,
    policy: P,
    ticket: Ticket,
}

impl<F, P> ResponseFuture<F, P> {
    pub closed spec fn inner_spec(&self) -> F {
        self.inner
    }

    pub closed spec fn policy_spec(&self) -> P {
        self.policy
    }

    pub closed spec fn ticket_spec(&self) -> Ticket {
        self.ticket
    }

    pub fn generation(&self) -> (r: u64)
        ensures
            r == self.ticket_spec().generation_spec(),
    {
        self.ticket.generation()
    }
}

} // verus!
