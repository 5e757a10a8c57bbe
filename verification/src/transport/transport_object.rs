//! Listeners that run on their own once they are open, and the form in which callers that do not
//! know their type use them.
use std::sync::Arc;

use vstd::prelude::*;

use crate::error::CoreError;
use crate::transport::addr::TransportSocketAddr;

verus! {

/// A listener that runs on its own. Each call stands for one that the host has awaited.
pub trait ServerTransport {
    /// What calls are made with.
    type Ctx;
    /// How a shutdown is to be carried out.
    type Plan;

    /// Where the listener listens.
    fn local_addr(&self, ctx: &Self::Ctx) -> TransportSocketAddr;

    /// Shuts the listener down.
    fn shutdown(&self, ctx: &Self::Ctx, plan: Self::Plan) -> Result<(), CoreError>;
}

/// A listener as callers see it that do not know its type.
pub trait DynServerTransport {
    /// What calls are made with.
    type Ctx;
    /// How a shutdown is to be carried out.
    type Plan;

    /// Where the listener listens.
    fn local_addr_dyn(&self, ctx: &Self::Ctx) -> TransportSocketAddr;

    /// Shuts the listener down.
    fn shutdown_dyn(&self, ctx: &Self::Ctx, plan: Self::Plan) -> Result<(), CoreError>;
}

/// Offers a listener to callers that do not know its type.
#[derive(Debug)]
pub struct ServerTransportObject<T: ServerTransport> {
    inner: Arc<T>,
}

impl<T: ServerTransport> ServerTransportObject<T> {
    pub closed spec fn wraps(&self) -> T {
        *self.inner
    }

    /// Wraps a listener.
    pub fn new(inner: T) -> (object: ServerTransportObject<T>)
        ensures
            object.wraps() == inner,
    {
        ServerTransportObject { inner: Arc::new(inner) }
    }

    /// The wrapped listener.
    pub fn into_inner(self) -> (inner: Arc<T>)
        ensures
            *inner == self.wraps(),
    {
        self.inner
    }
}

impl<T: ServerTransport> DynServerTransport for ServerTransportObject<T> {
    type Ctx = T::Ctx;

    type Plan = T::Plan;

    fn local_addr_dyn(&self, ctx: &T::Ctx) -> (addr: TransportSocketAddr)
        ensures
            call_ensures(T::local_addr, (&self.wraps(), ctx), addr),
    {
        self.inner.local_addr(ctx)
    }

    fn shutdown_dyn(&self, ctx: &T::Ctx, plan: T::Plan) -> (r: Result<(), CoreError>)
        ensures
            call_ensures(T::shutdown, (&self.wraps(), ctx, plan), r),
    {
        self.inner.shutdown(ctx, plan)
    }
}

} // verus!
