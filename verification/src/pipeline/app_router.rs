//! The application router: the last inbound handler, which looks a request over, asks a router
//! where it goes, and has the service run.
use std::sync::Arc;

use vstd::prelude::*;

use crate::error::{plain_error, CoreError, ErrorCode, ErrorView, FrameworkCode};
use crate::observability::{
    error_record, plain_record, FieldValue, FieldView, LogLevel, LogRecord, LogView,
};
use crate::pipeline::descriptor::InitializerDescriptor;
use crate::pipeline::extensions::{load_router_context, ChannelExtensions, MaterialView};
use crate::pipeline::message::PipelineMessage;
use crate::pipeline::router_handler::{
    actions_view, belongs_to, lemma_actions_push, single, ActionView, RouterAction,
};
use crate::router::context::{
    connection_view, ConnectionIntent, RoutingContext, RoutingIntent, RoutingSnapshot, TraceRef,
};
use crate::router::decision::{
    refusal_error, refusal_to_error, DynRouter, RouteDecision, RouteRejection,
};
use crate::router::metadata::{MetadataView, RouteMetadata};
use crate::text::{join, joined, texts};

verus! {

/// The material of one routing decision.
#[derive(Debug)]
pub struct RoutingContextParts {
    pub intent: RoutingIntent,
    pub connection: Option<ConnectionIntent>,
    pub dynamic_metadata: RouteMetadata,
}

impl View for RoutingContextParts {
    type V = MaterialView;

    open spec fn view(&self) -> MaterialView {
        MaterialView {
            intent: self.intent@,
            connection: connection_view(self.connection),
            dynamic_metadata: self.dynamic_metadata@,
        }
    }
}

impl RoutingContextParts {
    /// Material made of the given parts.
    pub fn new(
        intent: RoutingIntent,
        connection: Option<ConnectionIntent>,
        dynamic_metadata: RouteMetadata,
    ) -> (parts: RoutingContextParts)
        ensures
            parts.intent == intent,
            parts.connection == connection,
            parts.dynamic_metadata == dynamic_metadata,
    {
        RoutingContextParts { intent, connection, dynamic_metadata }
    }
}

/// Finds the material of a routing decision for a message.
pub trait RoutingContextBuilder {
    /// The material for the message, or why there is none.
    fn build(
        &self,
        extensions: &ChannelExtensions,
        message: &PipelineMessage,
        snapshot: RoutingSnapshot<'_>,
    ) -> Result<RoutingContextParts, CoreError>;
}

/// Finds the material where earlier handlers left it: on the channel.
#[derive(Clone, Copy, Debug, PartialEq, Eq)]
pub struct ExtensionsRoutingContextBuilder;

impl RoutingContextBuilder for ExtensionsRoutingContextBuilder {
    fn build(
        &self,
        extensions: &ChannelExtensions,
        _message: &PipelineMessage,
        _snapshot: RoutingSnapshot<'_>,
    ) -> (r: Result<RoutingContextParts, CoreError>)
        ensures
            r is Ok <==> extensions@ is Some,
            r is Ok ==> r->Ok_0@ == extensions@->0,
            r is Err ==> r->Err_0@ == plain_error(
                ErrorCode::Framework(FrameworkCode::AppRoutingFailed),
                "router context missing on channel"@,
            ),
    {
        match load_router_context(extensions) {
            Some(state) => {
                let snapshot = state.snapshot();
                Ok(
                    RoutingContextParts::new(
                        snapshot.intent,
                        snapshot.connection,
                        snapshot.dynamic_metadata,
                    ),
                )
            },
            None => Err(
                CoreError::new(
                    ErrorCode::Framework(FrameworkCode::AppRoutingFailed),
                    "router context missing on channel".to_owned(),
                ),
            ),
        }
    }
}

/// What is logged about a message that lacks a kind or came without attributes; nothing about
/// one that has both.
pub open spec fn inspection(
    kind: Option<Seq<char>>,
    attributes: Map<Seq<char>, MetadataView>,
    trace: TraceRef,
) -> Seq<ActionView> {
    let present = attributes != Map::<Seq<char>, MetadataView>::empty();
    if kind is None || !present {
        let record = LogView {
            fields: seq![
                ("router.metadata_present", FieldView::Flag(present)),
                (
                    "router.message_kind",
                    FieldView::Text(
                        if kind is Some {
                            kind->0
                        } else {
                            "<unknown>"@
                        },
                    ),
                ),
            ],
            ..plain_record(
                LogLevel::Debug,
                "application-router inspected inbound message metadata"@,
                trace,
            )
        };
        seq![ActionView::Log(record)]
    } else {
        Seq::empty()
    }
}

/// Looks a message over before it is routed.
pub fn inspect_message(
    message: &PipelineMessage,
    attributes: &RouteMetadata,
    trace: &TraceRef,
) -> (actions: Vec<RouterAction>)
    ensures
        actions_view(actions@) == inspection(message.kind(), attributes@, *trace),
{
    let kind = message.user_kind();
    let metadata_empty: bool = attributes.is_empty();
    if kind.is_none() || metadata_empty {
        let shown = match kind {
            Some(kind) => kind.to_owned(),
            None => "<unknown>".to_owned(),
        };
        let record = LogRecord::plain(
            LogLevel::Debug,
            "application-router inspected inbound message metadata".to_owned(),
            trace,
        );
        let record = record.with_field(
            "router.metadata_present",
            FieldValue::Flag(!metadata_empty),
        );
        let record = record.with_field("router.message_kind", FieldValue::Text(shown));
        proof {
            assert(record@.fields =~= seq![
                ("router.metadata_present", FieldView::Flag(!metadata_empty)),
                ("router.message_kind", FieldView::Text(shown@)),
            ]);
        }
        single(RouterAction::Log(record))
    } else {
        let actions: Vec<RouterAction> = Vec::new();
        proof {
            assert(actions_view(actions@) =~= Seq::<ActionView>::empty());
        }
        actions
    }
}

/// What is logged about the warnings of a decision: one record that holds them all, or nothing.
pub open spec fn warnings_record(warnings: Seq<Seq<char>>, trace: TraceRef) -> Seq<ActionView> {
    if warnings.len() == 0 {
        Seq::empty()
    } else {
        let record = LogView {
            fields: seq![("router.warnings", FieldView::Text(joined(warnings, "; "@)))],
            ..plain_record(
                LogLevel::Warn,
                "application-router received decision warnings"@,
                trace,
            )
        };
        seq![ActionView::Log(record)]
    }
}

/// What follows from the answer of the router: a refusal is logged as an error; otherwise the
/// warnings are logged and the request goes to the service. All of it belongs to the given trace.
pub open spec fn decision_actions(
    routed: Result<RouteDecision, RouteRejection>,
    request: PipelineMessage,
    trace: TraceRef,
) -> Seq<ActionView> {
    match routed {
        Ok(decision) => warnings_record(texts(decision.warnings@), trace).push(
            ActionView::Dispatch { service: decision.service, request, trace },
        ),
        Err(rejection) => seq![
            ActionView::Log(
                error_record(
                    "application-router failed to resolve route"@,
                    refusal_error(rejection.error),
                    trace,
                ),
            ),
        ],
    }
}

/// Hands the request of a decision to its service.
fn handle_decision(
    logged: Vec<RouterAction>,
    decision: RouteDecision,
    request: PipelineMessage,
    trace: &TraceRef,
) -> (actions: Vec<RouterAction>)
    ensures
        actions_view(actions@) == actions_view(logged@).push(
            ActionView::Dispatch { service: decision.service, request, trace: *trace },
        ),
{
    let mut actions = logged;
    let dispatch = RouterAction::Dispatch { service: decision.service, request, trace: *trace };
    proof {
        lemma_actions_push(actions@, dispatch);
    }
    actions.push(dispatch);
    actions
}

/// What follows from the answer of the router.
pub fn settle_decision(
    routed: Result<RouteDecision, RouteRejection>,
    request: PipelineMessage,
    trace: &TraceRef,
) -> (actions: Vec<RouterAction>)
    ensures
        actions_view(actions@) == decision_actions(routed, request, *trace),
{
    match routed {
        Ok(decision) => {
            let mut logged: Vec<RouterAction> = Vec::new();
            proof {
                assert(actions_view(logged@) =~= Seq::<ActionView>::empty());
            }
            if decision.warnings.len() > 0 {
                let text = join(&decision.warnings, "; ");
                let record = LogRecord::plain(
                    LogLevel::Warn,
                    "application-router received decision warnings".to_owned(),
                    trace,
                );
                let record = record.with_field("router.warnings", FieldValue::Text(text));
                proof {
                    assert(record@.fields =~= seq![("router.warnings", FieldView::Text(text@))]);
                }
                logged = single(RouterAction::Log(record));
            }
            handle_decision(logged, decision, request, trace)
        },
        Err(rejection) => single(
            RouterAction::Log(
                LogRecord::about(
                    "application-router failed to resolve route".to_owned(),
                    refusal_to_error(rejection.error),
                    trace,
                ),
            ),
        ),
    }
}

/// Appends one list of actions to another.
fn followed_by(
    first: Vec<RouterAction>,
    second: Vec<RouterAction>,
) -> (actions: Vec<RouterAction>)
    ensures
        actions_view(actions@) == actions_view(first@) + actions_view(second@),
{
    let mut actions = first;
    let mut rest = second;
    actions.append(&mut rest);
    proof {
        assert(actions_view(actions@) =~= actions_view(first@) + actions_view(second@));
    }
    actions
}

/// What follows where no material for a decision was found.
pub open spec fn build_failure(error: ErrorView, trace: TraceRef) -> Seq<ActionView> {
    seq![
        ActionView::Log(
            error_record("application-router failed to build routing context"@, error, trace),
        ),
    ]
}

/// Whatever follows from a request belongs to the trace of its call.
pub proof fn law_application_routing_keeps_the_trace(
    kind: Option<Seq<char>>,
    attributes: Map<Seq<char>, MetadataView>,
    routed: Result<RouteDecision, RouteRejection>,
    request: PipelineMessage,
    error: ErrorView,
    trace: TraceRef,
)
    ensures
        forall|i: int|
            0 <= i < inspection(kind, attributes, trace).len() ==> belongs_to(
                #[trigger] inspection(kind, attributes, trace)[i],
                trace,
            ),
        forall|i: int|
            0 <= i < decision_actions(routed, request, trace).len() ==> belongs_to(
                #[trigger] decision_actions(routed, request, trace)[i],
                trace,
            ),
        forall|i: int|
            0 <= i < build_failure(error, trace).len() ==> belongs_to(
                #[trigger] build_failure(error, trace)[i],
                trace,
            ),
        service_failure(error, trace).trace == trace,
{
}

/// The last handler of an inbound pipeline. It routes a request and passes nothing on.
#[derive(Debug)]
pub struct ApplicationRouter<R: DynRouter, B: RoutingContextBuilder> {
    router: Arc<R>,
    context_builder: Arc<B>,
    descriptor: InitializerDescriptor,
}

/// Which way through a pipeline a handler takes part in.
#[derive(Clone, Copy, Debug, PartialEq, Eq, Structural)]
pub enum HandlerDirection {
    Inbound,
    Outbound,
    Bidirectional,
}

impl<R: DynRouter, B: RoutingContextBuilder> ApplicationRouter<R, B> {
    pub closed spec fn asks(&self) -> R {
        *self.router
    }

    pub closed spec fn builds_with(&self) -> B {
        *self.context_builder
    }

    pub closed spec fn described_as(&self) -> InitializerDescriptor {
        self.descriptor
    }

    /// A handler that asks the given router with the material that the builder finds.
    pub fn new(
        router: Arc<R>,
        context_builder: Arc<B>,
        descriptor: InitializerDescriptor,
    ) -> (handler: ApplicationRouter<R, B>)
        ensures
            handler.asks() == *router,
            handler.builds_with() == *context_builder,
            handler.described_as() == descriptor,
    {
        ApplicationRouter { router, context_builder, descriptor }
    }

    /// The handler, ready to be shared between channels.
    pub fn into_handler(self) -> (handler: Arc<ApplicationRouter<R, B>>)
        ensures
            *handler == self,
    {
        Arc::new(self)
    }

    /// Another handler for inbound traffic that asks the same router and builder.
    pub fn clone_inbound(&self) -> (handler: Option<Arc<ApplicationRouter<R, B>>>)
        ensures
            handler is Some,
            handler->0.asks() == self.asks(),
            handler->0.builds_with() == self.builds_with(),
            handler->0.described_as()@ == self.described_as()@,
    {
        Some(Arc::new(self.clone()))
    }

    /// The handler only takes part in inbound traffic.
    pub fn direction(&self) -> (direction: HandlerDirection)
        ensures
            direction is Inbound,
    {
        HandlerDirection::Inbound
    }

    /// How the handler shows up in a pipeline.
    pub fn descriptor(&self) -> (descriptor: InitializerDescriptor)
        ensures
            descriptor@ == self.described_as()@,
    {
        self.descriptor.clone()
    }

    /// How the handler shows up as an inbound handler.
    pub fn describe(&self) -> (descriptor: InitializerDescriptor)
        ensures
            descriptor@ == self.described_as()@,
    {
        self.descriptor.clone()
    }

    /// Routes one request. The builder is asked once, about this message and what the router
    /// knows. Where it finds no material that is all, and it is logged. Otherwise the message is
    /// looked over, and the router is asked once with exactly that material. All that follows
    /// belongs to the trace of the call.
    pub fn on_read(
        &self,
        extensions: &ChannelExtensions,
        trace: &TraceRef,
        message: PipelineMessage,
    ) -> (actions: Vec<RouterAction>)
        ensures
            exists|
                snapshot: RoutingSnapshot<'_>,
                built: Result<RoutingContextParts, CoreError>,
            |
                #![trigger call_ensures(
                    B::build,
                    (&self.builds_with(), extensions, &message, snapshot),
                    built,
                )]
                {
                    &&& call_ensures(R::snapshot, (&self.asks(),), snapshot)
                    &&& call_ensures(
                        B::build,
                        (&self.builds_with(), extensions, &message, snapshot),
                        built,
                    )
                    &&& built is Err ==> actions_view(actions@) == build_failure(built->Err_0@, *trace)
                    &&& built is Ok ==> self.routes_with(
                        snapshot,
                        trace,
                        built->Ok_0,
                        message,
                        actions_view(actions@),
                    )
                },
    {
        let snapshot = self.router.snapshot();
        let built = self.context_builder.build(extensions, &message, snapshot);
        proof {
            assert(call_ensures(
                B::build,
                (&self.builds_with(), extensions, &message, snapshot),
                built,
            ));
        }
        let parts = match built {
            Ok(parts) => parts,
            Err(error) => {
                return single(
                    RouterAction::Log(
                        LogRecord::about(
                            "application-router failed to build routing context".to_owned(),
                            error,
                            trace,
                        ),
                    ),
                );
            },
        };
        let inspected = inspect_message(&message, &parts.dynamic_metadata, trace);
        let context = RoutingContext::new(
            &message,
            &parts.intent,
            parts.connection.as_ref(),
            Some(trace),
            &parts.dynamic_metadata,
            snapshot,
        );
        let ghost asked_with = context;
        let routed = self.router.route_dyn(context);
        proof {
            assert(call_ensures(R::route_dyn, (&self.asks(), asked_with), routed));
        }
        let settled = settle_decision(routed, message, trace);
        let actions = followed_by(inspected, settled);
        proof {
            assert(self.routes_with(snapshot, trace, parts, message, actions_view(actions@)));
        }
        actions
    }

    /// The router was asked once with the given material, and the actions are what follows from
    /// looking the message over and from its answer.
    pub open spec fn routes_with(
        &self,
        snapshot: RoutingSnapshot<'_>,
        trace: &TraceRef,
        parts: RoutingContextParts,
        message: PipelineMessage,
        actions: Seq<ActionView>,
    ) -> bool {
        exists|
            context: RoutingContext<'_, PipelineMessage>,
            routed: Result<RouteDecision, RouteRejection>,
        |
            #![trigger call_ensures(R::route_dyn, (&self.asks(), context), routed)]
            {
                &&& call_ensures(R::route_dyn, (&self.asks(), context), routed)
                &&& *context.asked() == message
                &&& *context.wanted() == parts.intent
                &&& context.connected() is Some <==> parts.connection is Some
                &&& context.connected() is Some ==> *context.connected()->0 == parts.connection->0
                &&& context.traced() == Some(trace)
                &&& *context.labelled() == parts.dynamic_metadata
                &&& context.looked_at() == snapshot
                &&& actions == inspection(message.kind(), parts.dynamic_metadata@, *trace)
                    + decision_actions(routed, message, *trace)
            }
    }
}

impl<R: DynRouter, B: RoutingContextBuilder> Clone for ApplicationRouter<R, B> {
    /// A copy asks the same router and builder.
    fn clone(&self) -> (copy: ApplicationRouter<R, B>)
        ensures
            copy.asks() == self.asks(),
            copy.builds_with() == self.builds_with(),
            copy.described_as()@ == self.described_as()@,
    {
        ApplicationRouter {
            router: self.router.clone(),
            context_builder: self.context_builder.clone(),
            descriptor: self.descriptor.clone(),
        }
    }
}

/// What a task that runs a service does next.
#[derive(Debug)]
pub enum ServiceTaskStep {
    /// Write the response to the channel.
    Write(PipelineMessage),
    /// Log the failure.
    Log(LogRecord),
    /// Nothing is left to do.
    Done,
}

/// The text of the record about a service that failed.
pub open spec fn service_failure(error: ErrorView, trace: TraceRef) -> LogView {
    error_record("application-router encountered error while invoking service"@, error, trace)
}

fn log_service_failure(error: CoreError, trace: &TraceRef) -> (record: LogRecord)
    ensures
        record@ == service_failure(error@, *trace),
{
    LogRecord::about(
        "application-router encountered error while invoking service".to_owned(),
        error,
        trace,
    )
}

/// What to do with the answer of the service: a response is written back, a failure is logged.
pub fn after_service_call(
    result: Result<PipelineMessage, CoreError>,
    trace: &TraceRef,
) -> (step: ServiceTaskStep)
    ensures
        match result {
            Ok(response) => step == ServiceTaskStep::Write(response),
            Err(error) => step is Log && step->Log_0@ == service_failure(error@, *trace),
        },
{
    match result {
        Ok(response) => ServiceTaskStep::Write(response),
        Err(error) => ServiceTaskStep::Log(log_service_failure(error, trace)),
    }
}

/// What to do after the response was written: a failed write is logged with its cause.
pub fn after_write(result: Result<(), CoreError>, trace: &TraceRef) -> (step: ServiceTaskStep)
    ensures
        match result {
            Ok(_) => step is Done,
            Err(error) => step is Log && step->Log_0@ == service_failure(
                (ErrorView {
                    cause: Some(Box::new(error@)),
                    ..plain_error(
                        ErrorCode::Framework(FrameworkCode::AppRoutingFailed),
                        "failed to write response"@,
                    )
                }),
                *trace,
            ),
        },
{
    match result {
        Ok(_) => ServiceTaskStep::Done,
        Err(error) => {
            let failed = CoreError::new(
                ErrorCode::Framework(FrameworkCode::AppRoutingFailed),
                "failed to write response".to_owned(),
            ).with_cause(error);
            ServiceTaskStep::Log(log_service_failure(failed, trace))
        },
    }
}

} // verus!
