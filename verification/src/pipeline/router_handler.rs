//! The handler at the end of an inbound pipeline that asks a router and hands the request to the
//! service it names.
use std::sync::Arc;

use vstd::prelude::*;

use crate::error::CoreError;
use crate::observability::{plain_record, LogLevel, LogRecord, LogView};
use crate::pipeline::extensions::{load_router_context, ChannelExtensions};
use crate::pipeline::message::PipelineMessage;
use crate::router::context::{RoutingContext, TraceRef};
use crate::router::decision::{DynRouter, RouteDecision, RouteRejection, ServiceId};
use crate::text::texts;

verus! {

/// What the host is asked to do, in order.
#[derive(Debug)]
pub enum RouterAction {
    /// Write a log record.
    Log(LogRecord),
    /// Run the service on the request in a task of its own, under the given trace.
    Dispatch { service: ServiceId, request: PipelineMessage, trace: TraceRef },
}

/// What an action says, for the contracts.
pub enum ActionView {
    Log(LogView),
    Dispatch { service: ServiceId, request: PipelineMessage, trace: TraceRef },
}

/// What an action says.
pub open spec fn action_view(action: RouterAction) -> ActionView {
    match action {
        RouterAction::Log(record) => ActionView::Log(record@),
        RouterAction::Dispatch { service, request, trace } => ActionView::Dispatch {
            service,
            request,
            trace,
        },
    }
}

/// What a list of actions says.
pub open spec fn actions_view(actions: Seq<RouterAction>) -> Seq<ActionView> {
    actions.map_values(|action: RouterAction| action_view(action))
}

pub proof fn lemma_actions_push(actions: Seq<RouterAction>, action: RouterAction)
    ensures
        actions_view(actions.push(action)) == actions_view(actions).push(action_view(action)),
{
    assert(actions_view(actions.push(action)) =~= actions_view(actions).push(action_view(action)));
}

/// One warning of a router, as it is logged.
pub open spec fn warning_actions(warnings: Seq<Seq<char>>, trace: TraceRef) -> Seq<ActionView> {
    warnings.map_values(
        |warning: Seq<char>| ActionView::Log(plain_record(LogLevel::Warn, warning, trace)),
    )
}

/// What follows from the answer of the router: a refusal is logged; otherwise each warning is
/// logged and the request goes to the service. All of it belongs to the given trace.
pub open spec fn routed_actions(
    routed: Result<RouteDecision, RouteRejection>,
    request: PipelineMessage,
    trace: TraceRef,
) -> Seq<ActionView> {
    match routed {
        Err(rejection) => seq![
            ActionView::Log(
                plain_record(
                    LogLevel::Error,
                    "router rejected request: "@ + rejection.shown@,
                    trace,
                ),
            ),
        ],
        Ok(decision) => warning_actions(texts(decision.warnings@), trace).push(
            ActionView::Dispatch { service: decision.service, request, trace },
        ),
    }
}

/// Whether an action belongs to a trace: a record that carries it, or a task that runs under it.
pub open spec fn belongs_to(action: ActionView, trace: TraceRef) -> bool {
    match action {
        ActionView::Log(record) => record.trace == trace,
        ActionView::Dispatch { trace: under, .. } => under == trace,
    }
}

/// Whatever follows from a request belongs to the trace of its call.
pub proof fn law_routing_keeps_the_trace(
    routed: Result<RouteDecision, RouteRejection>,
    request: PipelineMessage,
    trace: TraceRef,
)
    ensures
        forall|i: int|
            0 <= i < routed_actions(routed, request, trace).len() ==> belongs_to(
                #[trigger] routed_actions(routed, request, trace)[i],
                trace,
            ),
        forall|i: int|
            0 <= i < missing_context_actions(trace).len() ==> belongs_to(
                #[trigger] missing_context_actions(trace)[i],
                trace,
            ),
{
}

/// What follows where no material for a decision was left on the channel.
pub open spec fn missing_context_actions(trace: TraceRef) -> Seq<ActionView> {
    seq![
        ActionView::Log(plain_record(LogLevel::Error, "router context missing on channel"@, trace)),
    ]
}

/// Logs the warnings of a decision, one record each.
fn describe_router_decision(
    warnings: &Vec<String>,
    trace: &TraceRef,
) -> (actions: Vec<RouterAction>)
    ensures
        actions_view(actions@) == warning_actions(texts(warnings@), *trace),
{
    let mut actions: Vec<RouterAction> = Vec::new();
    let mut i: usize = 0;
    while i < warnings.len()
        invariant
            i <= warnings@.len(),
            actions_view(actions@) == warning_actions(texts(warnings@).take(i as int), *trace),
        decreases warnings.len() - i,
    {
        let record = LogRecord::plain(LogLevel::Warn, warnings[i].clone(), trace);
        let action = RouterAction::Log(record);
        proof {
            lemma_actions_push(actions@, action);
            let all = texts(warnings@);
            assert(all.take(i + 1) == all.take(i as int).push(all[i as int]));
            assert(warning_actions(all.take(i + 1), *trace) =~= warning_actions(
                all.take(i as int),
                *trace,
            ).push(action_view(action)));
        }
        actions.push(action);
        i = i + 1;
    }
    proof {
        assert(texts(warnings@).take(i as int) == texts(warnings@));
    }
    actions
}

/// What follows from the answer of the router.
pub fn settle_routing(
    routed: Result<RouteDecision, RouteRejection>,
    request: PipelineMessage,
    trace: &TraceRef,
) -> (actions: Vec<RouterAction>)
    ensures
        actions_view(actions@) == routed_actions(routed, request, *trace),
{
    match routed {
        Err(rejection) => {
            let mut message = "router rejected request: ".to_owned();
            message.append(rejection.shown.as_str());
            single(RouterAction::Log(LogRecord::plain(LogLevel::Error, message, trace)))
        },
        Ok(decision) => {
            let mut actions = describe_router_decision(&decision.warnings, trace);
            let dispatch = RouterAction::Dispatch {
                service: decision.service,
                request,
                trace: *trace,
            };
            proof {
                lemma_actions_push(actions@, dispatch);
            }
            actions.push(dispatch);
            actions
        },
    }
}

/// A list of one action.
pub fn single(action: RouterAction) -> (actions: Vec<RouterAction>)
    ensures
        actions_view(actions@) == seq![action_view(action)],
{
    let mut actions: Vec<RouterAction> = Vec::new();
    actions.push(action);
    proof {
        assert(actions_view(actions@) =~= seq![action_view(action)]);
    }
    actions
}

/// Ends an inbound pipeline: the request is routed and handed to a service, and never passed on.
#[derive(Debug)]
pub struct RouterHandler<R: DynRouter> {
    router: Arc<R>,
}

impl<R: DynRouter> RouterHandler<R> {
    pub closed spec fn asks(&self) -> R {
        *self.router
    }

    /// A handler that asks the given router.
    pub fn new(router: Arc<R>) -> (handler: RouterHandler<R>)
        ensures
            handler.asks() == *router,
    {
        RouterHandler { router }
    }

    /// The name under which the handler shows up in a pipeline.
    pub fn describe(&self) -> (name: &'static str)
        ensures
            name == "router-handler",
    {
        "router-handler"
    }

    /// Routes one request. Without material on the channel the router is not asked at all. The
    /// router is asked once, about this very request and with the material from the channel. All
    /// that follows belongs to the trace of the call.
    pub fn on_read(
        &self,
        extensions: &ChannelExtensions,
        trace: &TraceRef,
        message: PipelineMessage,
    ) -> (actions: Vec<RouterAction>)
        ensures
            extensions@ is None ==> actions_view(actions@) == missing_context_actions(*trace),
            extensions@ is Some ==> exists|
                context: RoutingContext<'_, PipelineMessage>,
                routed: Result<RouteDecision, RouteRejection>,
            |
                #![trigger call_ensures(R::route_dyn, (&self.asks(), context), routed)]
                {
                    &&& call_ensures(R::route_dyn, (&self.asks(), context), routed)
                    &&& call_ensures(R::snapshot, (&self.asks(),), context.looked_at())
                    &&& *context.asked() == message
                    &&& context.wanted()@ == extensions@->0.intent
                    &&& context.connected() is Some <==> extensions@->0.connection is Some
                    &&& context.connected() is Some ==> context.connected()->0@
                        == extensions@->0.connection->0
                    &&& context.traced() == Some(trace)
                    &&& context.labelled()@ == extensions@->0.dynamic_metadata
                    &&& actions_view(actions@) == routed_actions(routed, message, *trace)
                },
    {
        let state = match load_router_context(extensions) {
            Some(state) => state,
            None => {
                return single(
                    RouterAction::Log(
                        LogRecord::plain(
                            LogLevel::Error,
                            "router context missing on channel".to_owned(),
                            trace,
                        ),
                    ),
                );
            },
        };
        let snapshot = state.snapshot();
        let routing_snapshot = self.router.snapshot();
        let context = RoutingContext::new(
            &message,
            &snapshot.intent,
            snapshot.connection.as_ref(),
            Some(trace),
            &snapshot.dynamic_metadata,
            routing_snapshot,
        );
        let ghost asked_with = context;
        let routed = self.router.route_dyn(context);
        proof {
            assert(call_ensures(R::route_dyn, (&self.asks(), asked_with), routed));
        }
        settle_routing(routed, message, trace)
    }
}

/// What a task that runs a service does next.
#[derive(Debug)]
pub enum ServiceStep {
    /// Write the response to the channel, and flush it where that worked.
    WriteAndFlush(PipelineMessage),
    /// Nothing: the failure is left to the metrics of the service.
    Drop,
}

/// What to do with the answer of the service: a response is written back, a failure is dropped.
pub fn after_service_call(result: Result<PipelineMessage, CoreError>) -> (step: ServiceStep)
    ensures
        result is Ok <==> step is WriteAndFlush,
        result is Ok ==> step->WriteAndFlush_0 == result->Ok_0,
{
    match result {
        Ok(response) => ServiceStep::WriteAndFlush(response),
        Err(_) => ServiceStep::Drop,
    }
}

/// Whether the channel is flushed after a write.
pub fn flush_after_write(written: &Result<(), CoreError>) -> (flush: bool)
    ensures
        flush <==> written is Ok,
{
    matches!(written, Ok(_))
}

} // verus!
