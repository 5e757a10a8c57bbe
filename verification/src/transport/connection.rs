//! Connections and endpoints of transports, as implementations provide them.
use vstd::prelude::*;

use crate::transport::addr::TransportSocketAddr;
use crate::transport::tcp::ShutdownDirection;

verus! {

/// A connection of a transport that carries bytes in order. What limits a call, the buffers that
/// are read into and written from, and what is measured to judge the load, is up to the
/// implementation.
pub trait TransportConnection: Send + Sync + 'static {
    /// Why an operation failed.
    type Error;
    /// What limits a call.
    type CallCtx<'ctx>: ?Sized;
    /// What a look at the load is limited by.
    type ReadyCtx<'ctx>: ?Sized;
    /// What bytes are read into.
    type ReadBuf: ?Sized;
    /// What bytes are written from.
    type WriteBuf: ?Sized;
    /// What is measured of the load.
    type Metrics;
    /// What the load comes to.
    type Decision;
    /// Gives how many bytes were read.
    type ReadFuture<'ctx> where Self: 'ctx, Self::CallCtx<'ctx>: 'ctx;
    /// Gives how many bytes were written.
    type WriteFuture<'ctx> where Self: 'ctx, Self::CallCtx<'ctx>: 'ctx;
    /// Gives whether what was written has left.
    type FlushFuture<'ctx> where Self: 'ctx, Self::CallCtx<'ctx>: 'ctx;
    /// Gives whether the connection was closed.
    type ShutdownFuture<'ctx> where Self: 'ctx, Self::CallCtx<'ctx>: 'ctx;

    /// What the connection is called in logs and traces.
    fn id(&self) -> &str;

    /// Where the other side is, where that is known.
    fn peer_addr(&self) -> Option<TransportSocketAddr>;

    /// Where this side is, where that is known.
    fn local_addr(&self) -> Option<TransportSocketAddr>;

    /// Reads bytes.
    fn read<'ctx>(
        &'ctx self,
        ctx: &'ctx Self::CallCtx<'ctx>,
        buf: &'ctx mut Self::ReadBuf,
    ) -> Self::ReadFuture<'ctx>;

    /// Writes bytes.
    fn write<'ctx>(
        &'ctx self,
        ctx: &'ctx Self::CallCtx<'ctx>,
        buf: &'ctx mut Self::WriteBuf,
    ) -> Self::WriteFuture<'ctx>;

    /// Sends what was written on its way.
    fn flush<'ctx>(&'ctx self, ctx: &'ctx Self::CallCtx<'ctx>) -> Self::FlushFuture<'ctx>;

    /// Closes one direction, or both.
    fn shutdown<'ctx>(
        &'ctx self,
        ctx: &'ctx Self::CallCtx<'ctx>,
        direction: ShutdownDirection,
    ) -> Self::ShutdownFuture<'ctx>;

    /// Judges the load by what was measured.
    fn classify_backpressure(
        &self,
        ctx: &Self::ReadyCtx<'_>,
        metrics: &Self::Metrics,
    ) -> Self::Decision;
}

/// An endpoint of a transport without connections: it receives and sends single datagrams. What
/// limits a call, and what comes along with a datagram, is up to the implementation.
pub trait DatagramEndpoint: Send + Sync + 'static {
    /// Why an operation failed.
    type Error;
    /// What limits a call.
    type CallCtx<'ctx>: ?Sized;
    /// What comes along with a datagram that was received, such as where it came from.
    type InboundMeta;
    /// What goes along with a datagram that is sent, such as where it goes.
    type OutboundMeta: ?Sized;
    /// Gives the length of the datagram that was received, and what came along with it.
    type RecvFuture<'ctx> where Self: 'ctx, Self::CallCtx<'ctx>: 'ctx;
    /// Gives how many bytes were sent.
    type SendFuture<'ctx> where Self: 'ctx, Self::CallCtx<'ctx>: 'ctx;

    /// Where the endpoint is bound.
    fn local_addr(&self) -> Result<TransportSocketAddr, Self::Error>;

    /// Receives one datagram.
    fn recv<'ctx>(
        &'ctx self,
        ctx: &'ctx Self::CallCtx<'ctx>,
        buf: &'ctx mut [u8],
    ) -> Self::RecvFuture<'ctx>;

    /// Sends one datagram.
    fn send<'ctx>(
        &'ctx self,
        ctx: &'ctx Self::CallCtx<'ctx>,
        payload: &'ctx [u8],
        meta: &'ctx Self::OutboundMeta,
    ) -> Self::SendFuture<'ctx>;
}

} // verus!
