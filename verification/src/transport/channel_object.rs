//! Listeners that accept channels, the factories that open them, and the form in which callers
//! that do not know their types use them.
use std::sync::Arc;

use vstd::prelude::*;

use crate::error::CoreError;
use crate::router::context::ConnectionIntent;
use crate::transport::addr::TransportSocketAddr;

verus! {

/// A listener that accepts channels. Each call stands for one that the host has awaited.
pub trait ServerChannel {
    /// What an accept is called with.
    type AcceptCtx;
    /// What a shutdown is called with.
    type ShutdownCtx;
    /// How a shutdown is to be carried out.
    type Plan;
    /// What is accepted.
    type Connection;

    /// The name of the protocol.
    fn scheme(&self) -> &'static str;

    /// Where the listener listens.
    fn local_addr(&self) -> Result<TransportSocketAddr, CoreError>;

    /// Accepts a connection.
    fn accept(&self, ctx: &Self::AcceptCtx) -> Result<
        (Self::Connection, TransportSocketAddr),
        CoreError,
    >;

    /// Shuts the listener down.
    fn shutdown(&self, ctx: &Self::ShutdownCtx, plan: Self::Plan) -> Result<(), CoreError>;
}

/// A listener as callers see it that do not know its type.
pub trait DynServerChannel {
    /// What an accept is called with.
    type AcceptCtx;
    /// What a shutdown is called with.
    type ShutdownCtx;
    /// How a shutdown is to be carried out.
    type Plan;
    /// What is accepted.
    type Connection;

    /// The name of the protocol.
    fn scheme_dyn(&self) -> &'static str;

    /// Where the listener listens.
    fn local_addr_dyn(&self, ctx: &Self::ShutdownCtx) -> Result<TransportSocketAddr, CoreError>;

    /// Accepts a connection.
    fn accept_dyn(&self, ctx: &Self::AcceptCtx) -> Result<
        (Box<Self::Connection>, TransportSocketAddr),
        CoreError,
    >;

    /// Shuts the listener down.
    fn shutdown_dyn(&self, ctx: &Self::ShutdownCtx, plan: Self::Plan) -> Result<(), CoreError>;
}

/// Offers a listener to callers that do not know its type.
#[derive(Debug)]
pub struct ServerChannelObject<T: ServerChannel> {
    inner: Arc<T>,
}

impl<T: ServerChannel> ServerChannelObject<T> {
    pub closed spec fn wraps(&self) -> T {
        *self.inner
    }

    /// Wraps a listener.
    pub fn new(inner: T) -> (object: ServerChannelObject<T>)
        ensures
            object.wraps() == inner,
    {
        ServerChannelObject { inner: Arc::new(inner) }
    }

    /// The wrapped listener.
    pub fn into_inner(self) -> (inner: Arc<T>)
        ensures
            *inner == self.wraps(),
    {
        self.inner
    }
}

impl<T: ServerChannel> DynServerChannel for ServerChannelObject<T> {
    type AcceptCtx = T::AcceptCtx;

    type ShutdownCtx = T::ShutdownCtx;

    type Plan = T::Plan;

    type Connection = T::Connection;

    fn scheme_dyn(&self) -> (scheme: &'static str)
        ensures
            call_ensures(T::scheme, (&self.wraps(),), scheme),
    {
        self.inner.scheme()
    }

    fn local_addr_dyn(&self, _ctx: &T::ShutdownCtx) -> (r: Result<TransportSocketAddr, CoreError>)
        ensures
            call_ensures(T::local_addr, (&self.wraps(),), r),
    {
        self.inner.local_addr()
    }

    fn accept_dyn(&self, ctx: &T::AcceptCtx) -> (r: Result<
        (Box<T::Connection>, TransportSocketAddr),
        CoreError,
    >)
        ensures
            exists|accepted: Result<(T::Connection, TransportSocketAddr), CoreError>| #[trigger]
                call_ensures(T::accept, (&self.wraps(), ctx), accepted) && match accepted {
                    Ok((connection, addr)) => r is Ok && *r->Ok_0.0 == connection && r->Ok_0.1
                        == addr,
                    Err(error) => r is Err && r->Err_0 == error,
                },
    {
        let accepted = self.inner.accept(ctx);
        proof {
            assert(call_ensures(T::accept, (&self.wraps(), ctx), accepted));
        }
        match accepted {
            Ok((connection, addr)) => Ok((Box::new(connection), addr)),
            Err(error) => Err(error),
        }
    }

    fn shutdown_dyn(&self, ctx: &T::ShutdownCtx, plan: T::Plan) -> (r: Result<(), CoreError>)
        ensures
            call_ensures(T::shutdown, (&self.wraps(), ctx, plan), r),
    {
        self.inner.shutdown(ctx, plan)
    }
}

/// Opens listeners and connections of one protocol.
pub trait TransportFactory {
    /// What calls are made with.
    type Ctx;
    /// How a listener is to be opened.
    type Config;
    /// What pipelines of accepted channels are built with.
    type Pipelines;
    /// Where endpoints are looked up.
    type Discovery;
    /// What a connection is.
    type Channel;
    /// What a listener is.
    type Server: ServerChannel;

    /// The name of the protocol.
    fn scheme(&self, ctx: &Self::Ctx) -> &'static str;

    /// Opens a listener.
    fn bind(
        &self,
        ctx: &Self::Ctx,
        config: Self::Config,
        pipelines: Arc<Self::Pipelines>,
    ) -> Result<Self::Server, CoreError>;

    /// Opens a connection.
    fn connect(
        &self,
        ctx: &Self::Ctx,
        intent: ConnectionIntent,
        discovery: Option<Arc<Self::Discovery>>,
    ) -> Result<Self::Channel, CoreError>;
}

/// A factory as callers see it that do not know its type.
pub trait DynTransportFactory {
    /// What calls are made with.
    type Ctx;
    /// How a listener is to be opened.
    type Config;
    /// What pipelines of accepted channels are built with.
    type Pipelines;
    /// Where endpoints are looked up.
    type Discovery;
    /// What a connection is.
    type Channel;
    /// What a listener is.
    type Server: ServerChannel;

    /// The name of the protocol.
    fn scheme_dyn(&self, ctx: &Self::Ctx) -> &'static str;

    /// Opens a listener.
    fn bind_dyn(
        &self,
        ctx: &Self::Ctx,
        config: Self::Config,
        pipelines: Arc<Self::Pipelines>,
    ) -> Result<Box<ServerChannelObject<Self::Server>>, CoreError>;

    /// Opens a connection.
    fn connect_dyn(
        &self,
        ctx: &Self::Ctx,
        intent: ConnectionIntent,
        discovery: Option<Arc<Self::Discovery>>,
    ) -> Result<Box<Self::Channel>, CoreError>;
}

/// Offers a factory to callers that do not know its type.
#[derive(Debug)]
pub struct TransportFactoryObject<F: TransportFactory> {
    inner: Arc<F>,
}

impl<F: TransportFactory> TransportFactoryObject<F> {
    pub closed spec fn wraps(&self) -> F {
        *self.inner
    }

    /// Wraps a factory.
    pub fn new(inner: F) -> (object: TransportFactoryObject<F>)
        ensures
            object.wraps() == inner,
    {
        TransportFactoryObject { inner: Arc::new(inner) }
    }

    /// The wrapped factory.
    pub fn into_inner(self) -> (inner: Arc<F>)
        ensures
            *inner == self.wraps(),
    {
        self.inner
    }
}

impl<F: TransportFactory> DynTransportFactory for TransportFactoryObject<F> {
    type Ctx = F::Ctx;

    type Config = F::Config;

    type Pipelines = F::Pipelines;

    type Discovery = F::Discovery;

    type Channel = F::Channel;

    type Server = F::Server;

    fn scheme_dyn(&self, ctx: &F::Ctx) -> (scheme: &'static str)
        ensures
            call_ensures(F::scheme, (&self.wraps(), ctx), scheme),
    {
        self.inner.scheme(ctx)
    }

    fn bind_dyn(
        &self,
        ctx: &F::Ctx,
        config: F::Config,
        pipelines: Arc<F::Pipelines>,
    ) -> (r: Result<Box<ServerChannelObject<F::Server>>, CoreError>)
        ensures
            exists|bound: Result<F::Server, CoreError>| #[trigger]
                call_ensures(F::bind, (&self.wraps(), ctx, config, pipelines), bound)
                    && match bound {
                    Ok(server) => r is Ok && r->Ok_0.wraps() == server,
                    Err(error) => r is Err && r->Err_0 == error,
                },
    {
        let bound = self.inner.bind(ctx, config, pipelines);
        proof {
            assert(call_ensures(F::bind, (&self.wraps(), ctx, config, pipelines), bound));
        }
        match bound {
            Ok(server) => Ok(Box::new(ServerChannelObject::new(server))),
            Err(error) => Err(error),
        }
    }

    fn connect_dyn(
        &self,
        ctx: &F::Ctx,
        intent: ConnectionIntent,
        discovery: Option<Arc<F::Discovery>>,
    ) -> (r: Result<Box<F::Channel>, CoreError>)
        ensures
            exists|connected: Result<F::Channel, CoreError>| #[trigger]
                call_ensures(F::connect, (&self.wraps(), ctx, intent, discovery), connected)
                    && match connected {
                    Ok(channel) => r is Ok && *r->Ok_0 == channel,
                    Err(error) => r is Err && r->Err_0 == error,
                },
    {
        let connected = self.inner.connect(ctx, intent, discovery);
        proof {
            assert(call_ensures(F::connect, (&self.wraps(), ctx, intent, discovery), connected));
        }
        match connected {
            Ok(channel) => Ok(Box::new(channel)),
            Err(error) => Err(error),
        }
    }
}

} // verus!
