//! What a handle on a controller does with each call, and what the adapters of factories build.
use std::sync::Arc;

use vstd::prelude::*;

use crate::error::CoreError;
use crate::pipeline::factory::{
    Controller, ControllerFactory, ControllerFactoryObject, ControllerHandle, DynControllerFactory,
    DynControllerFactoryAdapter, HandlerRef, UserEventRef,
};
use crate::pipeline::message::PipelineMessage;

verus! {

/// A handle registers handlers with its controller, each on the side and for the time that was
/// asked for.
pub proof fn law_a_handle_registers_on_the_same_side<C: Controller>(
    handle: &ControllerHandle<C>,
    label: &str,
    handler: HandlerRef,
)
    ensures
        call_ensures(
            <ControllerHandle<C> as Controller>::register_inbound_handler,
            (handle, label, handler),
            (),
        ) ==> call_ensures(C::register_inbound_handler, (&handle.controls(), label, handler), ()),
        call_ensures(
            <ControllerHandle<C> as Controller>::register_inbound_handler_static,
            (handle, label, handler),
            (),
        ) ==> call_ensures(
            C::register_inbound_handler_static,
            (&handle.controls(), label, handler),
            (),
        ),
        call_ensures(
            <ControllerHandle<C> as Controller>::register_outbound_handler,
            (handle, label, handler),
            (),
        ) ==> call_ensures(C::register_outbound_handler, (&handle.controls(), label, handler), ()),
        call_ensures(
            <ControllerHandle<C> as Controller>::register_outbound_handler_static,
            (handle, label, handler),
            (),
        ) ==> call_ensures(
            C::register_outbound_handler_static,
            (&handle.controls(), label, handler),
            (),
        ),
{
}

/// A handle emits each event into its controller, as it came.
pub proof fn law_a_handle_emits_the_same_event<C: Controller>(
    handle: &ControllerHandle<C>,
    message: PipelineMessage,
    is_writable: bool,
    event: UserEventRef,
    error: CoreError,
)
    ensures
        call_ensures(<ControllerHandle<C> as Controller>::emit_channel_activated, (handle,), ())
            ==> call_ensures(C::emit_channel_activated, (&handle.controls(),), ()),
        call_ensures(<ControllerHandle<C> as Controller>::emit_read, (handle, message), ())
            ==> call_ensures(C::emit_read, (&handle.controls(), message), ()),
        call_ensures(<ControllerHandle<C> as Controller>::emit_read_completed, (handle,), ())
            ==> call_ensures(C::emit_read_completed, (&handle.controls(),), ()),
        call_ensures(
            <ControllerHandle<C> as Controller>::emit_writability_changed,
            (handle, is_writable),
            (),
        ) ==> call_ensures(C::emit_writability_changed, (&handle.controls(), is_writable), ()),
        call_ensures(<ControllerHandle<C> as Controller>::emit_user_event, (handle, event), ())
            ==> call_ensures(C::emit_user_event, (&handle.controls(), event), ()),
        call_ensures(<ControllerHandle<C> as Controller>::emit_exception, (handle, error), ())
            ==> call_ensures(C::emit_exception, (&handle.controls(), error), ()),
        call_ensures(<ControllerHandle<C> as Controller>::emit_channel_deactivated, (handle,), ())
            ==> call_ensures(C::emit_channel_deactivated, (&handle.controls(),), ()),
{
}

/// A handle changes the handlers of its controller as it was asked to, and hands back what the
/// controller said.
pub proof fn law_a_handle_changes_the_same_handlers<C: Controller>(
    handle: &ControllerHandle<C>,
    anchor: C::HandleId,
    label: &str,
    handler: HandlerRef,
    added: C::HandleId,
    answer: bool,
    epoch: u64,
    middleware: &C::Middleware,
    services: &C::Services,
    installed: Result<(), CoreError>,
)
    ensures
        call_ensures(
            <ControllerHandle<C> as Controller>::add_handler_after,
            (handle, anchor, label, handler),
            added,
        ) ==> call_ensures(
            C::add_handler_after,
            (&handle.controls(), anchor, label, handler),
            added,
        ),
        call_ensures(<ControllerHandle<C> as Controller>::remove_handler, (handle, anchor), answer)
            ==> call_ensures(C::remove_handler, (&handle.controls(), anchor), answer),
        call_ensures(
            <ControllerHandle<C> as Controller>::replace_handler,
            (handle, anchor, handler),
            answer,
        ) ==> call_ensures(C::replace_handler, (&handle.controls(), anchor, handler), answer),
        call_ensures(<ControllerHandle<C> as Controller>::epoch, (handle,), epoch)
            ==> call_ensures(C::epoch, (&handle.controls(),), epoch),
        call_ensures(
            <ControllerHandle<C> as Controller>::install_middleware,
            (handle, middleware, services),
            installed,
        ) ==> call_ensures(
            C::install_middleware,
            (&handle.controls(), middleware, services),
            installed,
        ),
{
}

/// All handles on a controller are handles on that controller.
pub proof fn law_handles_share_their_controller<C: Controller>(
    shared: Arc<C>,
    handle: ControllerHandle<C>,
    copy: ControllerHandle<C>,
    controller: &C,
)
    requires
        call_ensures(ControllerHandle::<C>::new, (shared,), handle),
        call_ensures(<ControllerHandle<C> as Clone>::clone, (&handle,), copy),
        call_ensures(ControllerHandle::<C>::as_dyn, (&copy,), controller),
    ensures
        handle.controls() == *shared,
        copy.controls() == *shared,
        *controller == *shared,
{
}

/// What a wrapped factory builds is what its factory built, behind a handle; a failure is passed
/// on. The other way round, a handle is passed on as it is.
pub proof fn law_wrapped_factories_build_the_same<F: ControllerFactory, D: DynControllerFactory>(
    object: &ControllerFactoryObject<F>,
    services: &F::CoreServices,
    r: Result<ControllerHandle<F::Controller>, CoreError>,
    adapter: &DynControllerFactoryAdapter<D>,
    others: &D::CoreServices,
    made: Result<ControllerHandle<D::Controller>, CoreError>,
)
    requires
        call_ensures(
            <ControllerFactoryObject<F> as DynControllerFactory>::build_dyn,
            (object, services),
            r,
        ),
        call_ensures(
            <DynControllerFactoryAdapter<D> as ControllerFactory>::build,
            (adapter, others),
            made,
        ),
    ensures
        exists|built: Result<F::Controller, CoreError>| #[trigger]
            call_ensures(F::build, (&object.wraps(), services), built) && (built is Ok ==> r is Ok
                && r->Ok_0.controls() == built->Ok_0) && (built is Err ==> r is Err && r->Err_0
                == built->Err_0),
        call_ensures(D::build_dyn, (&adapter.wraps(), others), made),
{
    let built = choose|built: Result<F::Controller, CoreError>| #[trigger]
        call_ensures(F::build, (&object.wraps(), services), built) && match built {
            Ok(controller) => r is Ok && r->Ok_0.controls() == controller,
            Err(error) => r == Err::<ControllerHandle<F::Controller>, CoreError>(error),
        };
    assert(call_ensures(F::build, (&object.wraps(), services), built));
}

} // verus!
