//! Controllers of pipelines and the factories that build them: one interface for callers that
//! know the type of the controller, one for callers that do not, and adapters both ways.
use std::sync::Arc;

use vstd::prelude::*;

use crate::error::CoreError;
use crate::pipeline::message::PipelineMessage;

verus! {

/// Names a handler that the host keeps.
pub type HandlerRef = u64;

/// Names an event that the host keeps.
pub type UserEventRef = u64;

/// Runs a pipeline: handlers are registered with it, and events are emitted into it.
pub trait Controller {
    /// Names a registered handler.
    type HandleId;
    /// What a piece of middleware is.
    type Middleware;
    /// What middleware is installed with.
    type Services;
    /// The list of registered handlers.
    type Registry;

    /// Registers a handler for inbound events.
    fn register_inbound_handler(&self, label: &str, handler: HandlerRef);

    /// Registers a handler for inbound events that lives as long as the program.
    fn register_inbound_handler_static(&self, label: &str, handler: HandlerRef);

    /// Registers a handler for outbound events.
    fn register_outbound_handler(&self, label: &str, handler: HandlerRef);

    /// Registers a handler for outbound events that lives as long as the program.
    fn register_outbound_handler_static(&self, label: &str, handler: HandlerRef);

    /// Installs a piece of middleware.
    fn install_middleware(
        &self,
        middleware: &Self::Middleware,
        services: &Self::Services,
    ) -> Result<(), CoreError>;

    /// The channel became active.
    fn emit_channel_activated(&self);

    /// A message arrived.
    fn emit_read(&self, message: PipelineMessage);

    /// No more messages wait for now.
    fn emit_read_completed(&self);

    /// The channel became writable, or ceased to be.
    fn emit_writability_changed(&self, is_writable: bool);

    /// Something happened that the application defined.
    fn emit_user_event(&self, event: UserEventRef);

    /// Something failed.
    fn emit_exception(&self, error: CoreError);

    /// The channel became inactive.
    fn emit_channel_deactivated(&self);

    /// The registered handlers.
    fn registry(&self) -> &Self::Registry;

    /// Registers a handler right after another.
    fn add_handler_after(
        &self,
        anchor: Self::HandleId,
        label: &str,
        handler: HandlerRef,
    ) -> Self::HandleId;

    /// Takes a handler out; tells whether it was there.
    fn remove_handler(&self, handle: Self::HandleId) -> bool;

    /// Puts a handler in the place of another; tells whether that was there.
    fn replace_handler(&self, handle: Self::HandleId, handler: HandlerRef) -> bool;

    /// How often the handlers were changed.
    fn epoch(&self) -> u64;
}

/// A shared controller, which is itself one: every call goes to the shared one unchanged.
#[derive(Debug)]
pub struct ControllerHandle<C: Controller> {
    inner: Arc<C>,
}

impl<C: Controller> ControllerHandle<C> {
    pub closed spec fn controls(&self) -> C {
        *self.inner
    }

    /// A handle on a controller that is shared already.
    pub fn new(inner: Arc<C>) -> (handle: ControllerHandle<C>)
        ensures
            handle.controls() == *inner,
    {
        ControllerHandle { inner }
    }

    /// A handle on a controller that is shared from now on.
    pub fn from_controller(controller: C) -> (handle: ControllerHandle<C>)
        ensures
            handle.controls() == controller,
    {
        ControllerHandle { inner: Arc::new(controller) }
    }

    /// The controller itself.
    pub fn as_dyn(&self) -> (controller: &C)
        ensures
            *controller == self.controls(),
    {
        &*self.inner
    }
}

impl<C: Controller> Clone for ControllerHandle<C> {
    /// Another handle on the same controller.
    fn clone(&self) -> (copy: ControllerHandle<C>)
        ensures
            copy.controls() == self.controls(),
    {
        ControllerHandle { inner: self.inner.clone() }
    }
}

impl<C: Controller> Controller for ControllerHandle<C> {
    type HandleId = C::HandleId;

    type Middleware = C::Middleware;

    type Services = C::Services;

    type Registry = C::Registry;

    fn register_inbound_handler(&self, label: &str, handler: HandlerRef)
        ensures
            call_ensures(C::register_inbound_handler, (&self.controls(), label, handler), ()),
    {
        self.inner.register_inbound_handler(label, handler)
    }

    fn register_inbound_handler_static(&self, label: &str, handler: HandlerRef)
        ensures
            call_ensures(
                C::register_inbound_handler_static,
                (&self.controls(), label, handler),
                (),
            ),
    {
        self.inner.register_inbound_handler_static(label, handler)
    }

    fn register_outbound_handler(&self, label: &str, handler: HandlerRef)
        ensures
            call_ensures(C::register_outbound_handler, (&self.controls(), label, handler), ()),
    {
        self.inner.register_outbound_handler(label, handler)
    }

    fn register_outbound_handler_static(&self, label: &str, handler: HandlerRef)
        ensures
            call_ensures(
                C::register_outbound_handler_static,
                (&self.controls(), label, handler),
                (),
            ),
    {
        self.inner.register_outbound_handler_static(label, handler)
    }

    fn install_middleware(
        &self,
        middleware: &C::Middleware,
        services: &C::Services,
    ) -> (r: Result<(), CoreError>)
        ensures
            call_ensures(C::install_middleware, (&self.controls(), middleware, services), r),
    {
        self.inner.install_middleware(middleware, services)
    }

    fn emit_channel_activated(&self)
        ensures
            call_ensures(C::emit_channel_activated, (&self.controls(),), ()),
    {
        self.inner.emit_channel_activated()
    }

    fn emit_read(&self, message: PipelineMessage)
        ensures
            call_ensures(C::emit_read, (&self.controls(), message), ()),
    {
        self.inner.emit_read(message)
    }

    fn emit_read_completed(&self)
        ensures
            call_ensures(C::emit_read_completed, (&self.controls(),), ()),
    {
        self.inner.emit_read_completed()
    }

    fn emit_writability_changed(&self, is_writable: bool)
        ensures
            call_ensures(C::emit_writability_changed, (&self.controls(), is_writable), ()),
    {
        self.inner.emit_writability_changed(is_writable)
    }

    fn emit_user_event(&self, event: UserEventRef)
        ensures
            call_ensures(C::emit_user_event, (&self.controls(), event), ()),
    {
        self.inner.emit_user_event(event)
    }

    fn emit_exception(&self, error: CoreError)
        ensures
            call_ensures(C::emit_exception, (&self.controls(), error), ()),
    {
        self.inner.emit_exception(error)
    }

    fn emit_channel_deactivated(&self)
        ensures
            call_ensures(C::emit_channel_deactivated, (&self.controls(),), ()),
    {
        self.inner.emit_channel_deactivated()
    }

    fn registry(&self) -> (registry: &C::Registry)
        ensures
            call_ensures(C::registry, (&self.controls(),), registry),
    {
        self.inner.registry()
    }

    fn add_handler_after(
        &self,
        anchor: C::HandleId,
        label: &str,
        handler: HandlerRef,
    ) -> (handle: C::HandleId)
        ensures
            call_ensures(C::add_handler_after, (&self.controls(), anchor, label, handler), handle),
    {
        self.inner.add_handler_after(anchor, label, handler)
    }

    fn remove_handler(&self, handle: C::HandleId) -> (removed: bool)
        ensures
            call_ensures(C::remove_handler, (&self.controls(), handle), removed),
    {
        self.inner.remove_handler(handle)
    }

    fn replace_handler(&self, handle: C::HandleId, handler: HandlerRef) -> (replaced: bool)
        ensures
            call_ensures(C::replace_handler, (&self.controls(), handle, handler), replaced),
    {
        self.inner.replace_handler(handle, handler)
    }

    fn epoch(&self) -> (epoch: u64)
        ensures
            call_ensures(C::epoch, (&self.controls(),), epoch),
    {
        self.inner.epoch()
    }
}

/// Builds controllers of a type that the caller knows.
pub trait ControllerFactory {
    /// What is built.
    type Controller: Controller;
    /// What it is built from.
    type CoreServices;

    /// Builds a controller.
    fn build(&self, core_services: &Self::CoreServices) -> Result<Self::Controller, CoreError>;
}

/// Builds controllers behind a handle.
pub trait DynControllerFactory {
    /// What stands behind the handle.
    type Controller: Controller;
    /// What it is built from.
    type CoreServices;

    /// Builds a controller and hands out a handle on it.
    fn build_dyn(
        &self,
        core_services: &Self::CoreServices,
    ) -> Result<ControllerHandle<Self::Controller>, CoreError>;
}

/// Offers a factory to callers that want a handle.
#[derive(Debug)]
pub struct ControllerFactoryObject<F: ControllerFactory> {
    inner: F,
}

impl<F: ControllerFactory> ControllerFactoryObject<F> {
    pub closed spec fn wraps(&self) -> F {
        self.inner
    }

    /// Wraps a factory.
    pub fn new(inner: F) -> (object: ControllerFactoryObject<F>)
        ensures
            object.wraps() == inner,
    {
        ControllerFactoryObject { inner }
    }

    /// The wrapped factory.
    pub fn into_inner(self) -> (inner: F)
        ensures
            inner == self.wraps(),
    {
        self.inner
    }
}

impl<F: ControllerFactory> DynControllerFactory for ControllerFactoryObject<F> {
    type Controller = F::Controller;

    type CoreServices = F::CoreServices;

    fn build_dyn(
        &self,
        core_services: &F::CoreServices,
    ) -> (r: Result<ControllerHandle<F::Controller>, CoreError>)
        ensures
            exists|built: Result<F::Controller, CoreError>| #[trigger]
                call_ensures(F::build, (&self.wraps(), core_services), built) && match built {
                    Ok(controller) => r is Ok && r->Ok_0.controls() == controller,
                    Err(error) => r == Err::<ControllerHandle<F::Controller>, CoreError>(error),
                },
    {
        let built = self.inner.build(core_services);
        proof {
            assert(call_ensures(F::build, (&self.wraps(), core_services), built));
        }
        match built {
            Ok(controller) => Ok(ControllerHandle::from_controller(controller)),
            Err(error) => Err(error),
        }
    }
}

/// Offers a factory of handles to callers that want a controller: the handle is one.
#[derive(Debug)]
pub struct DynControllerFactoryAdapter<D: DynControllerFactory> {
    inner: Arc<D>,
}

impl<D: DynControllerFactory> DynControllerFactoryAdapter<D> {
    pub closed spec fn wraps(&self) -> D {
        *self.inner
    }

    /// Wraps a factory of handles.
    pub fn new(inner: Arc<D>) -> (adapter: DynControllerFactoryAdapter<D>)
        ensures
            adapter.wraps() == *inner,
    {
        DynControllerFactoryAdapter { inner }
    }
}

impl<D: DynControllerFactory> ControllerFactory for DynControllerFactoryAdapter<D> {
    type Controller = ControllerHandle<D::Controller>;

    type CoreServices = D::CoreServices;

    fn build(
        &self,
        core_services: &D::CoreServices,
    ) -> (r: Result<ControllerHandle<D::Controller>, CoreError>)
        ensures
            call_ensures(D::build_dyn, (&self.wraps(), core_services), r),
    {
        self.inner.build_dyn(core_services)
    }
}

} // verus!
