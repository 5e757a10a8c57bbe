//! Services: what takes requests, and what wraps something that does.
use vstd::prelude::*;

verus! {

/// Whether a service can take another request.
#[derive(Debug, PartialEq, Eq)]
pub enum Readiness<E> {
    Ready,
    /// Not now; whoever asked is woken when that changes.
    Pending,
    Failed(E),
}

/// Takes requests, one at a time, each under the context of its call. Whoever calls has asked
/// whether the service is ready before.
pub trait Service<Request, Context> {
    /// What a request that was taken gives.
    type Response;
    /// Why a request was not taken.
    type Error;
    /// What a call hands back: the response or the error, now or later.
    type Future;

    /// Looks whether the service can take another request.
    fn poll_ready(&mut self, ctx: &Context) -> Readiness<Self::Error>;

    /// Takes a request.
    fn call(&mut self, ctx: Context, request: Request) -> Self::Future;
}

/// Wraps a service in another that takes the same requests and gives the same responses and
/// errors.
pub trait Layer<S: Service<Request, Context>, Request, Context> {
    /// The service that stands around.
    type Service: Service<Request, Context, Response = S::Response, Error = S::Error>;

    /// Wraps the given service.
    fn layer(&self, inner: S) -> Self::Service;
}

} // verus!
