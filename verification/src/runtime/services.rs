//! What a runtime hands to handlers: scheduling, buffers, and a way to be observed.
use std::sync::Arc;

use vstd::prelude::*;

verus! {

/// Everything that makes a system observable, behind one interface.
pub trait ObservabilityFacade<M, L, O, H> {
    /// Where measurements go.
    fn metrics(&self) -> Arc<M>;

    /// Where log records go.
    fn logger(&self) -> Arc<L>;

    /// Where operational events go.
    fn ops_bus(&self) -> Arc<O>;

    /// The health checks.
    fn health_checks(&self) -> Arc<H>;
}

/// A facade made of its four parts.
#[derive(Debug)]
pub struct DefaultObservabilityFacade<M, L, O, H> {
    logger: Arc<L>,
    metrics: Arc<M>,
    ops_bus: Arc<O>,
    health_checks: Arc<H>,
}

impl<M, L, O, H> DefaultObservabilityFacade<M, L, O, H> {
    pub closed spec fn parts(&self) -> (L, M, O, H) {
        (*self.logger, *self.metrics, *self.ops_bus, *self.health_checks)
    }

    /// A facade made of the given parts.
    pub fn new(
        logger: Arc<L>,
        metrics: Arc<M>,
        ops_bus: Arc<O>,
        health_checks: Arc<H>,
    ) -> (facade: DefaultObservabilityFacade<M, L, O, H>)
        ensures
            facade.parts() == (*logger, *metrics, *ops_bus, *health_checks),
    {
        DefaultObservabilityFacade { logger, metrics, ops_bus, health_checks }
    }
}

impl<M, L, O, H> ObservabilityFacade<M, L, O, H> for DefaultObservabilityFacade<M, L, O, H> {
    fn metrics(&self) -> (metrics: Arc<M>)
        ensures
            *metrics == self.parts().1,
    {
        self.metrics.clone()
    }

    fn logger(&self) -> (logger: Arc<L>)
        ensures
            *logger == self.parts().0,
    {
        self.logger.clone()
    }

    fn ops_bus(&self) -> (ops_bus: Arc<O>)
        ensures
            *ops_bus == self.parts().2,
    {
        self.ops_bus.clone()
    }

    fn health_checks(&self) -> (health_checks: Arc<H>)
        ensures
            *health_checks == self.parts().3,
    {
        self.health_checks.clone()
    }
}

/// The parts of a facade, each on its own.
#[derive(Debug)]
pub struct LegacyObservabilityHandles<M, L, O, H> {
    pub metrics: Arc<M>,
    pub logger: Arc<L>,
    pub ops_bus: Arc<O>,
    pub health_checks: Arc<H>,
}

impl<M, L, O, H> LegacyObservabilityHandles<M, L, O, H> {
    /// A facade made of these parts.
    pub fn into_facade(self) -> (facade: DefaultObservabilityFacade<M, L, O, H>)
        ensures
            facade.parts() == (
                *self.logger,
                *self.metrics,
                *self.ops_bus,
                *self.health_checks,
            ),
    {
        DefaultObservabilityFacade::new(
            self.logger,
            self.metrics,
            self.ops_bus,
            self.health_checks,
        )
    }
}

/// What a runtime hands to handlers. Membership and discovery are only there in a cluster.
#[derive(Debug)]
pub struct CoreServices<R, B, M, L, C, D, O, H> {
    pub runtime: Arc<R>,
    pub buffer_pool: Arc<B>,
    pub metrics: Arc<M>,
    pub logger: Arc<L>,
    pub membership: Option<Arc<C>>,
    pub discovery: Option<Arc<D>>,
    pub ops_bus: Arc<O>,
    pub health_checks: Arc<H>,
}

impl<R, B, M, L, C, D, O, H> CoreServices<R, B, M, L, C, D, O, H> {
    /// Services on a single machine, observable through the given facade: each part of it is the
    /// one that the facade hands out.
    pub fn with_observability_facade<F: ObservabilityFacade<M, L, O, H>>(
        runtime: Arc<R>,
        buffer_pool: Arc<B>,
        observability: F,
    ) -> (services: CoreServices<R, B, M, L, C, D, O, H>)
        ensures
            services.runtime == runtime,
            services.buffer_pool == buffer_pool,
            services.membership is None,
            services.discovery is None,
            call_ensures(F::metrics, (&observability,), services.metrics),
            call_ensures(F::logger, (&observability,), services.logger),
            call_ensures(F::ops_bus, (&observability,), services.ops_bus),
            call_ensures(F::health_checks, (&observability,), services.health_checks),
    {
        CoreServices {
            runtime,
            buffer_pool,
            metrics: observability.metrics(),
            logger: observability.logger(),
            membership: None,
            discovery: None,
            ops_bus: observability.ops_bus(),
            health_checks: observability.health_checks(),
        }
    }

    /// Services on a single machine, observable through the given parts.
    pub fn with_legacy_observability_handles(
        runtime: Arc<R>,
        buffer_pool: Arc<B>,
        handles: LegacyObservabilityHandles<M, L, O, H>,
    ) -> (services: CoreServices<R, B, M, L, C, D, O, H>)
        ensures
            services.runtime == runtime,
            services.buffer_pool == buffer_pool,
            services.membership is None,
            services.discovery is None,
            *services.metrics == *handles.metrics,
            *services.logger == *handles.logger,
            *services.ops_bus == *handles.ops_bus,
            *services.health_checks == *handles.health_checks,
    {
        let facade = handles.into_facade();
        CoreServices::with_observability_facade(runtime, buffer_pool, facade)
    }

    /// The runtime.
    pub fn runtime(&self) -> (runtime: &R)
        ensures
            *runtime == *self.runtime,
    {
        &*self.runtime
    }

    /// The runtime, as a source of time.
    pub fn time_driver(&self) -> (driver: &R)
        ensures
            *driver == *self.runtime,
    {
        &*self.runtime
    }

    /// A facade on the parts that make the system observable.
    pub fn observability_facade(&self) -> (facade: DefaultObservabilityFacade<M, L, O, H>)
        ensures
            facade.parts() == (
                *self.logger,
                *self.metrics,
                *self.ops_bus,
                *self.health_checks,
            ),
    {
        DefaultObservabilityFacade::new(
            self.logger.clone(),
            self.metrics.clone(),
            self.ops_bus.clone(),
            self.health_checks.clone(),
        )
    }
}

impl<R, B, M, L, C, D, O, H> Clone for CoreServices<R, B, M, L, C, D, O, H> {
    /// A copy shares everything with what it was made from.
    fn clone(&self) -> (copy: CoreServices<R, B, M, L, C, D, O, H>)
        ensures
            copy == *self,
    {
        CoreServices {
            runtime: self.runtime.clone(),
            buffer_pool: self.buffer_pool.clone(),
            metrics: self.metrics.clone(),
            logger: self.logger.clone(),
            membership: match &self.membership {
                Some(membership) => Some(membership.clone()),
                None => None,
            },
            discovery: match &self.discovery {
                Some(discovery) => Some(discovery.clone()),
                None => None,
            },
            ops_bus: self.ops_bus.clone(),
            health_checks: self.health_checks.clone(),
        }
    }
}

} // verus!
