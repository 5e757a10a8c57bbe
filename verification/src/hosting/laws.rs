//! How a server sets up its connections, and what its handlers do with a message.
use vstd::prelude::*;

use crate::error::CoreError;
use crate::hosting::examples::{
    example_handshake, handler_views, resolve_initializer, AppRouterHandler, Capability, CapabilityBitmap,
    ChainSide, ChainStep, CodecHandler, ExamplesServer, HandlerAction, HandlerKind,
    HandshakeOutcome, InitializerSelectorContext, MyInitializer, ResolvedInitializer,
    ServiceAdapterHandler, WriteSignal,
};
use crate::hosting::ember::EmberServer;
use crate::hosting::host::{Host, HostSummary, MiddlewareRegistry, ServiceEntry};
use crate::observability::LogLevel;
use crate::pipeline::descriptor::{InitializerDescriptor, InitializerView};
use crate::pipeline::message::PipelineMessage;
use crate::router::context::TraceRef;
use crate::router::decision::ServiceId;

verus! {

/// A handshake of the example is of version 1.0.0, agreed on what was given, and gave up nothing.
pub proof fn law_a_handshake_agrees_on_what_is_given(
    capabilities: &[Capability],
    outcome: HandshakeOutcome,
    capability: Capability,
)
    requires
        call_ensures(example_handshake, (capabilities,), outcome),
    ensures
        outcome.version.0 == 1 && outcome.version.1 == 0 && outcome.version.2 == 0,
        outcome.capabilities@.contains(capability) <==> exists|i: int|
            0 <= i < capabilities@.len() && #[trigger] capabilities@[i] == capability,
        !outcome.downgraded.0@.contains(capability),
        !outcome.downgraded.1@.contains(capability),
{
    assert(capabilities@.to_set().contains(capability) <==> capabilities@.contains(capability));
}

/// Whether a descriptor says three texts.
pub open spec fn shows(
    descriptor: InitializerView,
    name: Seq<char>,
    category: Seq<char>,
    summary: Seq<char>,
) -> bool {
    descriptor.name == name && descriptor.category == category && descriptor.summary == summary
}

/// An initializer shows up under its label, as one that routes or as one that only decodes.
pub proof fn law_an_initializer_tells_whether_it_routes(
    label: String,
    enable_router: bool,
    service: ServiceId,
    made: MyInitializer,
)
    requires
        call_ensures(MyInitializer::new, (label, enable_router, service), made),
    ensures
        made.routes() == enable_router,
        made.serves() == service,
        enable_router ==> shows(
            made.described_as(),
            label@,
            "routing"@,
            "全功能链路：编解码 + 应用路由 + Service 适配"@,
        ),
        !enable_router ==> shows(
            made.described_as(),
            label@,
            "codec"@,
            "精简链路：仅包含编解码与 Service 适配"@,
        ),
{
}

/// Whether a step installs a codec on one side.
pub open spec fn installs_codec(step: ChainStep, side: ChainSide, label: &'static str) -> bool {
    &&& step.side == side
    &&& step.label == label
    &&& step.kind is Codec
    &&& shows(
        step.descriptor@,
        "spark.examples.codec"@,
        "codec"@,
        "负责协议层编解码并桥接 Pipeline 消息格式"@,
    )
}

/// A chain begins with the codec on both sides and ends with the way to the service; between them
/// stands the router, exactly where the initializer routes.
pub proof fn law_a_chain_is_built_in_order(
    initializer: &MyInitializer,
    r: Result<Vec<ChainStep>, CoreError>,
)
    requires
        call_ensures(MyInitializer::configure, (initializer,), r),
    ensures
        r is Ok,
        r->Ok_0@.len() == if initializer.routes() {
            4int
        } else {
            3int
        },
        installs_codec(r->Ok_0@[0], ChainSide::Inbound, "codec.inbound"),
        installs_codec(r->Ok_0@[1], ChainSide::Outbound, "codec.outbound"),
        initializer.routes() ==> {
            let step = r->Ok_0@[2];
            &&& step.side is Inbound
            &&& step.label == "router.l2"
            &&& step.kind is AppRouter
            &&& shows(
                step.descriptor@,
                "spark.examples.router"@,
                "routing"@,
                "根据帧头元数据选择业务路由"@,
            )
        },
        ({
            let step = r->Ok_0@.last();
            &&& step.side is Inbound
            &&& step.label == "service.adapter"
            &&& step.kind == HandlerKind::ServiceAdapter(initializer.serves())
            &&& shows(
                step.descriptor@,
                "spark.examples.service_adapter"@,
                "service"@,
                "将 Pipeline 消息交给业务 Service，并在完成后继续写出响应"@,
            )
        }),
{
    let steps = r->Ok_0@;
    let views = steps.map_values(|step: ChainStep| step@);
    assert(views.len() == steps.len());
    assert(views[0] == steps[0]@);
    assert(views[1] == steps[1]@);
    assert(views[2] == steps[2]@);
    assert(views[views.len() - 1] == steps[steps.len() - 1]@);
}

/// A label stands for what is registered under it, and otherwise for an initializer that is made
/// for the service and named after what it does.
pub proof fn law_a_label_stands_for_what_is_registered(
    registry: &MiddlewareRegistry,
    label: &str,
    service: ServiceId,
    enable_router: bool,
    resolved: ResolvedInitializer,
)
    requires
        call_ensures(resolve_initializer, (registry, label, service, enable_router), resolved),
    ensures
        registry@.dom().contains(label@) ==> resolved is Registered && resolved->Registered_0
            == registry@[label@],
        !registry@.dom().contains(label@) ==> {
            &&& resolved is Made
            &&& resolved->Made_0.serves() == service
            &&& resolved->Made_0.routes() == enable_router
            &&& enable_router ==> resolved->Made_0.described_as().name
                == "spark.examples.pipeline."@ + "full"@
            &&& !enable_router ==> resolved->Made_0.described_as().name
                == "spark.examples.pipeline."@ + "minimal"@
        },
{
}

/// A connection is set up by the full initializer where its handshake agreed on multiplexing, and
/// by the minimal one otherwise, whatever else was agreed on.
pub proof fn law_multiplexing_decides(
    context: &InitializerSelectorContext,
    outcome: &HandshakeOutcome,
    selected: &ResolvedInitializer,
)
    requires
        call_ensures(InitializerSelectorContext::select, (context, outcome), selected),
    ensures
        outcome.capabilities@.contains(Capability::Multiplexing) ==> *selected == context.full(),
        !outcome.capabilities@.contains(Capability::Multiplexing) ==> *selected
            == context.minimal(),
{
}

/// The two initializers of a host: the full one routes and the minimal one does not, where they are
/// made, and both serve the same service.
pub proof fn law_the_full_initializer_routes(
    host: &Host,
    full: &str,
    minimal: &str,
    service: ServiceId,
    context: InitializerSelectorContext,
)
    requires
        call_ensures(InitializerSelectorContext::new, (host, full, minimal, service), context),
    ensures
        host.registered_middleware()@.dom().contains(full@) ==> context.full()
            == ResolvedInitializer::Registered(host.registered_middleware()@[full@]),
        !host.registered_middleware()@.dom().contains(full@) ==> context.full() is Made
            && context.full()->Made_0.routes() && context.full()->Made_0.serves() == service,
        host.registered_middleware()@.dom().contains(minimal@) ==> context.minimal()
            == ResolvedInitializer::Registered(host.registered_middleware()@[minimal@]),
        !host.registered_middleware()@.dom().contains(minimal@) ==> context.minimal() is Made
            && !context.minimal()->Made_0.routes() && context.minimal()->Made_0.serves()
            == service,
{
}

/// A server runs on the listener that was opened, set up by its own labels; where none was, the
/// failure is passed on and the server is as before.
pub proof fn law_a_server_runs_on_its_listener<S, C, F, L>(
    server: &mut ExamplesServer<S, C, F, L>,
    opened: Result<L, CoreError>,
    service: ServiceId,
    r: Result<(), CoreError>,
)
    requires
        call_ensures(ExamplesServer::<S, C, F, L>::run, (server, opened, service), r),
    ensures
        opened is Err ==> r is Err && r->Err_0 == opened->Err_0 && final(server).listens_on()
            == old(server).listens_on(),
        opened is Ok ==> {
            let contacts = old(server).hosted_by().registered_middleware()@;
            let running = final(server).listens_on()->0;
            &&& r is Ok
            &&& final(server).listens_on() is Some
            &&& running.listener == opened->Ok_0
            &&& contacts.dom().contains(old(server).labels().0) ==> running.selectors.full()
                == ResolvedInitializer::Registered(contacts[old(server).labels().0])
            &&& !contacts.dom().contains(old(server).labels().0) ==> running.selectors.full()
                is Made && running.selectors.full()->Made_0.routes()
                && running.selectors.full()->Made_0.serves() == service
            &&& contacts.dom().contains(old(server).labels().1) ==> running.selectors.minimal()
                == ResolvedInitializer::Registered(contacts[old(server).labels().1])
            &&& !contacts.dom().contains(old(server).labels().1) ==> running.selectors.minimal()
                is Made && !running.selectors.minimal()->Made_0.routes()
                && running.selectors.minimal()->Made_0.serves() == service
        },
        final(server).hosted_by() == old(server).hosted_by(),
        final(server).labels() == old(server).labels(),
        final(server).provides() == old(server).provides(),
        final(server).listens_as() == old(server).listens_as(),
        final(server).listens_through() == old(server).listens_through(),
{
}

/// Whether a record has a level and a text, and neither error nor fields, under a trace.
pub open spec fn notes(
    action: HandlerAction,
    level: LogLevel,
    text: Seq<char>,
    trace: TraceRef,
) -> bool {
    &&& action is Log
    &&& action->Log_0.level == level
    &&& action->Log_0.message@ == text
    &&& action->Log_0.error is None
    &&& action->Log_0.trace == trace
}

/// Whether a record tells of an error, with a text and under a trace.
pub open spec fn notes_error(
    action: HandlerAction,
    text: Seq<char>,
    error: CoreError,
    trace: TraceRef,
) -> bool {
    &&& action is Log
    &&& action->Log_0.level == LogLevel::Error
    &&& action->Log_0.message@ == text
    &&& action->Log_0.error is Some
    &&& action->Log_0.error->0@ == error@
    &&& action->Log_0.trace == trace
}

/// A codec passes every message on as it came, alone.
pub proof fn law_the_codec_passes_messages_on(
    handler: &CodecHandler,
    message: PipelineMessage,
    actions: Vec<HandlerAction>,
    written: Result<WriteSignal, CoreError>,
)
    requires
        call_ensures(CodecHandler::on_read, (handler, message), actions),
        call_ensures(CodecHandler::on_write, (handler, &message), written),
    ensures
        actions@.len() == 1,
        actions@[0] is ForwardRead,
        actions@[0]->ForwardRead_0 == message,
        written is Ok,
        message is User ==> written->Ok_0 is AcceptedAndFlushed,
        message is Buffer ==> written->Ok_0 is Accepted,
{
    let views = handler_views(actions@);
    assert(views.len() == actions@.len());
    let view = views[0];
}

/// A codec that fails tells of the error and has the channel closed, in that order.
pub proof fn law_a_failed_codec_closes_the_channel(
    handler: &CodecHandler,
    error: CoreError,
    trace: &TraceRef,
    actions: Vec<HandlerAction>,
)
    requires
        call_ensures(CodecHandler::on_exception_caught, (handler, error, trace), actions),
    ensures
        actions@.len() == 2,
        notes_error(actions@[0], "codec handler encountered error"@, error, *trace),
        actions@[1] is CloseGraceful,
        actions@[1]->code == "spark.examples.codec.error",
        actions@[1]->message == "codec error",
{
    let views = handler_views(actions@);
    assert(views.len() == actions@.len());
    let (first, second) = (views[0], views[1]);
}

/// The router of the example notes every message, warns of one that has no kind, and passes it on
/// last, as it came.
pub proof fn law_the_example_router_passes_messages_on(
    handler: &AppRouterHandler,
    message: PipelineMessage,
    trace: &TraceRef,
    actions: Vec<HandlerAction>,
)
    requires
        call_ensures(AppRouterHandler::on_read, (handler, message, trace), actions),
    ensures
        actions@.len() == if message is Buffer {
            3int
        } else {
            2int
        },
        notes(actions@[0], LogLevel::Debug, "app-router inspected inbound metadata"@, *trace),
        message is Buffer ==> notes(
            actions@[1],
            LogLevel::Warn,
            "app-router received message without user metadata"@,
            *trace,
        ),
        actions@.last() is ForwardRead,
        actions@.last()->ForwardRead_0 == message,
{
    let views = handler_views(actions@);
    assert(views.len() == actions@.len());
    let (first, second, last) = (views[0], views[1], views[views.len() - 1]);
}

/// The way to the service notes every message and passes it on, as it came.
pub proof fn law_the_adapter_passes_messages_on(
    handler: &ServiceAdapterHandler,
    message: PipelineMessage,
    trace: &TraceRef,
    actions: Vec<HandlerAction>,
)
    requires
        call_ensures(ServiceAdapterHandler::on_read, (handler, message, trace), actions),
    ensures
        actions@.len() == 2,
        notes(
            actions@[0],
            LogLevel::Info,
            "service adapter received request; forwarding to next handler"@,
            *trace,
        ),
        actions@[1] is ForwardRead,
        actions@[1]->ForwardRead_0 == message,
{
    let views = handler_views(actions@);
    assert(views.len() == actions@.len());
    let (first, second) = (views[0], views[1]);
}

/// Handlers note their failures and the changes of their channel, one record each.
pub proof fn law_handlers_note_what_happens(
    codec: &CodecHandler,
    router: &AppRouterHandler,
    adapter: &ServiceAdapterHandler,
    error: CoreError,
    trace: &TraceRef,
    active: Vec<HandlerAction>,
    inactive: Vec<HandlerAction>,
    router_failed: Vec<HandlerAction>,
    adapter_failed: Vec<HandlerAction>,
    adapter_inactive: Vec<HandlerAction>,
)
    requires
        call_ensures(CodecHandler::on_channel_active, (codec, trace), active),
        call_ensures(CodecHandler::on_channel_inactive, (codec, trace), inactive),
        call_ensures(AppRouterHandler::on_exception_caught, (router, error, trace), router_failed),
        call_ensures(
            ServiceAdapterHandler::on_exception_caught,
            (adapter, error, trace),
            adapter_failed,
        ),
        call_ensures(ServiceAdapterHandler::on_channel_inactive, (adapter, trace), adapter_inactive),
    ensures
        active@.len() == 1 && notes(
            active@[0],
            LogLevel::Info,
            "codec handler activated"@,
            *trace,
        ),
        inactive@.len() == 1 && notes(
            inactive@[0],
            LogLevel::Debug,
            "codec handler channel inactive"@,
            *trace,
        ),
        router_failed@.len() == 1 && notes_error(
            router_failed@[0],
            "app-router handler failed"@,
            error,
            *trace,
        ),
        adapter_failed@.len() == 1 && notes_error(
            adapter_failed@[0],
            "service adapter observed pipeline error"@,
            error,
            *trace,
        ),
        adapter_inactive@.len() == 1 && notes(
            adapter_inactive@[0],
            LogLevel::Debug,
            "service adapter shutting down"@,
            *trace,
        ),
{
    let (a, b, c, d, e) = (
        handler_views(active@),
        handler_views(inactive@),
        handler_views(router_failed@),
        handler_views(adapter_failed@),
        handler_views(adapter_inactive@),
    );
    assert(a.len() == active@.len() && b.len() == inactive@.len() && c.len()
        == router_failed@.len() && d.len() == adapter_failed@.len() && e.len()
        == adapter_inactive@.len());
    let (p, q, r, s, t) = (a[0], b[0], c[0], d[0], e[0]);
}

/// A codec shows up on each side under its own name with that of the side, in its own category.
pub proof fn law_the_codec_shows_its_side(
    handler: &CodecHandler,
    inbound: InitializerDescriptor,
    outbound: InitializerDescriptor,
)
    requires
        call_ensures(CodecHandler::describe_inbound, (handler,), inbound),
        call_ensures(CodecHandler::describe_outbound, (handler,), outbound),
    ensures
        shows(
            inbound@,
            handler.described_as().name + "."@ + "inbound"@,
            handler.described_as().category,
            "inbound"@ + " stage of the teaching codec handler"@,
        ),
        shows(
            outbound@,
            handler.described_as().name + "."@ + "outbound"@,
            handler.described_as().category,
            "outbound"@ + " stage of the teaching codec handler"@,
        ),
{
}

/// A capability is in a set exactly once it was added, and a set is within another exactly where
/// all that it holds is.
pub proof fn law_capabilities_are_a_set(
    set: &mut CapabilityBitmap,
    capability: Capability,
    other: Capability,
    contains: bool,
    a: &CapabilityBitmap,
    b: &CapabilityBitmap,
    within: bool,
)
    requires
        call_ensures(CapabilityBitmap::insert, (set, capability), ()),
        call_ensures(CapabilityBitmap::contains, (&*final(set), other), contains),
        call_ensures(CapabilityBitmap::is_subset_of, (a, b), within),
    ensures
        contains <==> other == capability || old(set)@.contains(other),
        within <==> forall|c: Capability| a@.contains(c) ==> b@.contains(c),
{
}

/// A host shows its profile, and how many services and initializers are registered.
pub proof fn law_a_host_shows_what_is_registered(host: &Host, summary: HostSummary)
    requires
        call_ensures(Host::summary, (host,), summary),
    ensures
        summary.profile@ == host.handle().profile@,
        summary.service_count == host.registered_services().keys().len(),
        summary.middleware_count == host.registered_middleware().keys().len(),
{
}

/// The service behind a server is had as the host has registered it under the name that the server
/// was given.
pub proof fn law_a_service_is_had_by_its_name<S, C, F, L>(
    server: &ExamplesServer<S, C, F, L>,
    entry: Option<ServiceEntry>,
)
    requires
        call_ensures(ExamplesServer::<S, C, F, L>::service_entry, (server,), entry),
    ensures
        entry is Some <==> server.hosted_by().registered_services()@.dom().contains(
            server.labels().2,
        ),
        entry is Some ==> entry->0 == server.hosted_by().registered_services()@[
            server.labels().2
        ],
{
}

/// A plain server runs on the listener that was opened; where none was, the failure is passed on
/// and it listens as before.
pub proof fn law_a_plain_server_runs_on_its_listener<S, C, F, L>(
    server: &mut EmberServer<S, C, F, L>,
    opened: Result<L, CoreError>,
    r: Result<(), CoreError>,
)
    requires
        call_ensures(EmberServer::<S, C, F, L>::run, (server, opened), r),
    ensures
        opened is Ok ==> r is Ok && final(server).listens_on() == Some(opened->Ok_0),
        opened is Err ==> r is Err && r->Err_0 == opened->Err_0 && final(server).listens_on()
            == old(server).listens_on(),
        final(server).provides() == old(server).provides(),
        final(server).listens_as() == old(server).listens_as(),
        final(server).listens_through() == old(server).listens_through(),
{
}

} // verus!
