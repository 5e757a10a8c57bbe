//! A server that keeps the listener it runs on.
use std::sync::Arc;

use vstd::prelude::*;

use crate::error::CoreError;

verus! {

/// A server: what it hands to handlers, how it listens, and the listener once it runs.
#[derive(Debug)]
pub struct EmberServer<S, C, F, L> {
    services: S,
    config: C,
    transport_factory: Arc<F>,
    listener: Option<L>,
}

impl<S, C, F, L> EmberServer<S, C, F, L> {
    pub closed spec fn provides(&self) -> S {
        self.services
    }

    pub closed spec fn listens_as(&self) -> C {
        self.config
    }

    pub closed spec fn listens_through(&self) -> F {
        *self.transport_factory
    }

    pub closed spec fn listens_on(&self) -> Option<L> {
        self.listener
    }

    /// A server that does not listen yet.
    pub fn new(
        services: S,
        config: C,
        transport_factory: Arc<F>,
    ) -> (server: EmberServer<S, C, F, L>)
        ensures
            server.provides() == services,
            server.listens_as() == config,
            server.listens_through() == *transport_factory,
            server.listens_on() is None,
    {
        EmberServer { services, config, transport_factory, listener: None }
    }

    /// How the server is to listen: what the host opens the listener with.
    pub fn listen_request(&self) -> (request: (&C, &Arc<F>))
        ensures
            *request.0 == self.listens_as(),
            **request.1 == self.listens_through(),
    {
        (&self.config, &self.transport_factory)
    }

    /// Runs on the listener that the host has opened; where it could not, nothing changes.
    pub fn run(&mut self, opened: Result<L, CoreError>) -> (r: Result<(), CoreError>)
        ensures
            match opened {
                Ok(listener) => r is Ok && final(self).listens_on() == Some(listener),
                Err(error) => r == Err::<(), CoreError>(error) && final(self).listens_on() == old(
                    self).listens_on(),
            },
            final(self).provides() == old(self).provides(),
            final(self).listens_as() == old(self).listens_as(),
            final(self).listens_through() == old(self).listens_through(),
    {
        match opened {
            Ok(listener) => {
                self.listener = Some(listener);
                Ok(())
            },
            Err(error) => Err(error),
        }
    }

    /// What the server hands to handlers.
    pub fn services(&self) -> (services: &S)
        ensures
            *services == self.provides(),
    {
        &self.services
    }
}

} // verus!
