//! What listeners and factories behind an object do with each call.
use std::sync::Arc;

use vstd::prelude::*;

use crate::codec::{Codec, DecodeOutcome, Decoder, Encoder};
use crate::error::CoreError;
use crate::router::context::ConnectionIntent;
use crate::transport::addr::TransportSocketAddr;
use crate::transport::channel_object::{
    DynServerChannel, DynTransportFactory, ServerChannel, ServerChannelObject, TransportFactory,
    TransportFactoryObject,
};
use crate::transport::transport_object::{
    DynServerTransport, ServerTransport, ServerTransportObject,
};

verus! {

/// A listener behind an object answers as the listener does.
pub proof fn law_an_object_answers_as_its_listener<T: ServerTransport>(
    object: &ServerTransportObject<T>,
    ctx: &T::Ctx,
    plan: T::Plan,
    addr: TransportSocketAddr,
    ended: Result<(), CoreError>,
)
    ensures
        call_ensures(
            <ServerTransportObject<T> as DynServerTransport>::local_addr_dyn,
            (object, ctx),
            addr,
        ) ==> call_ensures(T::local_addr, (&object.wraps(), ctx), addr),
        call_ensures(
            <ServerTransportObject<T> as DynServerTransport>::shutdown_dyn,
            (object, ctx, plan),
            ended,
        ) ==> call_ensures(T::shutdown, (&object.wraps(), ctx, plan), ended),
{
}

/// A listener of channels behind an object answers as the listener does; a connection that was
/// accepted comes with the address that it came with.
pub proof fn law_an_object_accepts_as_its_listener<T: ServerChannel>(
    object: &ServerChannelObject<T>,
    accept_ctx: &T::AcceptCtx,
    ctx: &T::ShutdownCtx,
    plan: T::Plan,
    scheme: &'static str,
    addr: Result<TransportSocketAddr, CoreError>,
    accepted: Result<(Box<T::Connection>, TransportSocketAddr), CoreError>,
    ended: Result<(), CoreError>,
)
    ensures
        call_ensures(<ServerChannelObject<T> as DynServerChannel>::scheme_dyn, (object,), scheme)
            ==> call_ensures(T::scheme, (&object.wraps(),), scheme),
        call_ensures(
            <ServerChannelObject<T> as DynServerChannel>::local_addr_dyn,
            (object, ctx),
            addr,
        ) ==> call_ensures(T::local_addr, (&object.wraps(),), addr),
        call_ensures(
            <ServerChannelObject<T> as DynServerChannel>::shutdown_dyn,
            (object, ctx, plan),
            ended,
        ) ==> call_ensures(T::shutdown, (&object.wraps(), ctx, plan), ended),
        call_ensures(
            <ServerChannelObject<T> as DynServerChannel>::accept_dyn,
            (object, accept_ctx),
            accepted,
        ) ==> exists|got: Result<(T::Connection, TransportSocketAddr), CoreError>| #[trigger]
            call_ensures(T::accept, (&object.wraps(), accept_ctx), got) && (got is Ok
                ==> accepted is Ok && *accepted->Ok_0.0 == got->Ok_0.0 && accepted->Ok_0.1
                == got->Ok_0.1) && (got is Err ==> accepted is Err && accepted->Err_0
                == got->Err_0),
{
    if call_ensures(
        <ServerChannelObject<T> as DynServerChannel>::accept_dyn,
        (object, accept_ctx),
        accepted,
    ) {
        let got = choose|got: Result<(T::Connection, TransportSocketAddr), CoreError>| #[trigger]
            call_ensures(T::accept, (&object.wraps(), accept_ctx), got) && match got {
                Ok((connection, addr)) => accepted is Ok && *accepted->Ok_0.0 == connection
                    && accepted->Ok_0.1 == addr,
                Err(error) => accepted is Err && accepted->Err_0 == error,
            };
        assert(call_ensures(T::accept, (&object.wraps(), accept_ctx), got));
    }
}

/// A factory behind an object opens what the factory opens.
pub proof fn law_an_object_opens_as_its_factory<F: TransportFactory>(
    object: &TransportFactoryObject<F>,
    ctx: &F::Ctx,
    config: F::Config,
    pipelines: Arc<F::Pipelines>,
    intent: ConnectionIntent,
    discovery: Option<Arc<F::Discovery>>,
    scheme: &'static str,
    bound: Result<Box<ServerChannelObject<F::Server>>, CoreError>,
    connected: Result<Box<F::Channel>, CoreError>,
)
    ensures
        call_ensures(
            <TransportFactoryObject<F> as DynTransportFactory>::scheme_dyn,
            (object, ctx),
            scheme,
        ) ==> call_ensures(F::scheme, (&object.wraps(), ctx), scheme),
        call_ensures(
            <TransportFactoryObject<F> as DynTransportFactory>::bind_dyn,
            (object, ctx, config, pipelines),
            bound,
        ) ==> exists|got: Result<F::Server, CoreError>| #[trigger]
            call_ensures(F::bind, (&object.wraps(), ctx, config, pipelines), got) && (got is Ok
                ==> bound is Ok && bound->Ok_0.wraps() == got->Ok_0) && (got is Err ==> bound is Err
                && bound->Err_0 == got->Err_0),
        call_ensures(
            <TransportFactoryObject<F> as DynTransportFactory>::connect_dyn,
            (object, ctx, intent, discovery),
            connected,
        ) ==> exists|got: Result<F::Channel, CoreError>| #[trigger]
            call_ensures(F::connect, (&object.wraps(), ctx, intent, discovery), got) && (got is Ok
                ==> connected is Ok && *connected->Ok_0 == got->Ok_0) && (got is Err
                ==> connected is Err && connected->Err_0 == got->Err_0),
{
    if call_ensures(
        <TransportFactoryObject<F> as DynTransportFactory>::bind_dyn,
        (object, ctx, config, pipelines),
        bound,
    ) {
        let got = choose|got: Result<F::Server, CoreError>| #[trigger]
            call_ensures(F::bind, (&object.wraps(), ctx, config, pipelines), got) && match got {
                Ok(server) => bound is Ok && bound->Ok_0.wraps() == server,
                Err(error) => bound is Err && bound->Err_0 == error,
            };
        assert(call_ensures(F::bind, (&object.wraps(), ctx, config, pipelines), got));
    }
    if call_ensures(
        <TransportFactoryObject<F> as DynTransportFactory>::connect_dyn,
        (object, ctx, intent, discovery),
        connected,
    ) {
        let got = choose|got: Result<F::Channel, CoreError>| #[trigger]
            call_ensures(F::connect, (&object.wraps(), ctx, intent, discovery), got) && match got {
                Ok(channel) => connected is Ok && *connected->Ok_0 == channel,
                Err(error) => connected is Err && connected->Err_0 == error,
            };
        assert(call_ensures(F::connect, (&object.wraps(), ctx, intent, discovery), got));
    }
}

/// A codec writes and reads as a codec where only one direction is asked for.
pub proof fn law_a_codec_serves_both_directions<T: Codec>(
    codec: &T,
    item: &T::Outgoing,
    source: T::Source,
    limits: T::CallLimits,
    written: (Result<T::Payload, CoreError>, T::CallLimits),
    read: (Result<DecodeOutcome<T::Incoming>, CoreError>, T::Source, T::CallLimits),
)
    ensures
        call_ensures(<T as Encoder>::encode_item, (codec, item, limits), written)
            ==> call_ensures(T::encode, (codec, item, limits), written),
        call_ensures(<T as Decoder>::decode_item, (codec, source, limits), read)
            ==> call_ensures(T::decode, (codec, source, limits), read),
{
}

} // verus!
