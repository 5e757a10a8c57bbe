//! What becomes of a request in a pipeline, stated on what the router answers and on what the host
//! is asked to do.
use vstd::prelude::*;

use crate::error::{CoreError, ErrorCode, FrameworkCode};
use crate::observability::{field_view, LogLevel, LogRecord};
use crate::pipeline::app_router::{
    after_service_call, after_write, inspect_message, settle_decision, ApplicationRouter,
    ExtensionsRoutingContextBuilder, HandlerDirection, RoutingContextBuilder, RoutingContextParts, ServiceTaskStep,
};
use crate::pipeline::extensions::ChannelExtensions;
use crate::pipeline::message::PipelineMessage;
use crate::pipeline::router_handler::{
    action_view, actions_view, flush_after_write, settle_routing, RouterAction, RouterHandler,
    ServiceStep,
};
use crate::router::context::{RoutingContext, RoutingSnapshot, TraceRef};
use crate::router::decision::{refusal_to_error, DynRouter, RouteDecision, RouteRejection};
use crate::router::metadata::{MetadataView, RouteMetadata};
use crate::text::{joined, texts};

verus! {

/// Whether the only dispatch of some actions is the last one, and has the given parts.
pub open spec fn dispatched_last(
    actions: Seq<RouterAction>,
    decision: RouteDecision,
    request: PipelineMessage,
    trace: TraceRef,
) -> bool {
    &&& actions.len() > 0
    &&& actions.last() is Dispatch
    &&& actions.last()->service == decision.service
    &&& actions.last()->request == request
    &&& actions.last()->trace == trace
    &&& forall|i: int| 0 <= i < actions.len() - 1 ==> (#[trigger] actions[i]) is Log
}

/// Whether no action is a dispatch.
pub open spec fn none_dispatched(actions: Seq<RouterAction>) -> bool {
    forall|i: int| 0 <= i < actions.len() ==> (#[trigger] actions[i]) is Log
}

/// Whether an action writes a record of the given level and text under a trace, with neither error
/// nor fields.
pub open spec fn logs_plainly(
    action: RouterAction,
    level: LogLevel,
    text: Seq<char>,
    trace: TraceRef,
) -> bool {
    &&& action is Log
    &&& action->Log_0.level == level
    &&& action->Log_0.message@ == text
    &&& action->Log_0.error is None
    &&& action->Log_0.fields@.len() == 0
    &&& action->Log_0.trace == trace
}

/// Whether a record tells of an error with the given text, under a trace.
pub open spec fn tells_of(
    record: LogRecord,
    text: Seq<char>,
    trace: TraceRef,
) -> bool {
    &&& record.level == LogLevel::Error
    &&& record.message@ == text
    &&& record.error is Some
    &&& record.fields@.len() == 0
    &&& record.trace == trace
}

proof fn lemma_seen(actions: Seq<RouterAction>, i: int)
    requires
        0 <= i < actions.len(),
    ensures
        actions_view(actions).len() == actions.len(),
        actions_view(actions)[i] == action_view(actions[i]),
{
}

proof fn lemma_fields(record: LogRecord)
    ensures
        record@.fields.len() == record.fields@.len(),
        forall|i: int|
            0 <= i < record.fields@.len() ==> (#[trigger] record@.fields[i]) == (
                record.fields@[i].key,
                field_view(record.fields@[i].value),
            ),
{
}

/// Whatever form a request has, a decision has it dispatched exactly once, as the last thing, to
/// the service of the decision; each warning is logged before, in order. After a refusal nothing is
/// dispatched, and the refusal is logged.
pub proof fn law_a_routed_request_is_dispatched_once(
    routed: Result<RouteDecision, RouteRejection>,
    request: PipelineMessage,
    trace: &TraceRef,
    actions: Vec<RouterAction>,
)
    requires
        call_ensures(settle_routing, (routed, request, trace), actions),
    ensures
        routed is Ok ==> dispatched_last(actions@, routed->Ok_0, request, *trace),
        routed is Ok ==> actions@.len() == routed->Ok_0.warnings@.len() + 1,
        routed is Ok ==> forall|i: int|
            0 <= i < routed->Ok_0.warnings@.len() ==> logs_plainly(
                #[trigger] actions@[i],
                LogLevel::Warn,
                routed->Ok_0.warnings@[i]@,
                *trace,
            ),
        routed is Err ==> none_dispatched(actions@),
        routed is Err ==> actions@.len() == 1 && logs_plainly(
            actions@[0],
            LogLevel::Error,
            "router rejected request: "@ + routed->Err_0.shown@,
            *trace,
        ),
{
    let views = actions_view(actions@);
    assert(views.len() == actions@.len());
    assert forall|i: int| 0 <= i < actions@.len() implies views[i] == action_view(
        #[trigger] actions@[i],
    ) by {
        lemma_seen(actions@, i);
    }
    assert forall|i: int| 0 <= i < actions@.len() && (#[trigger] actions@[i]) is Log implies
        actions@[i]->Log_0@.fields.len() == actions@[i]->Log_0.fields@.len() by {
        lemma_fields(actions@[i]->Log_0);
    }
    match routed {
        Ok(decision) => {
            let n = decision.warnings@.len();
            assert(texts(decision.warnings@).len() == n);
            assert(views.len() == n + 1);
            assert(views[n as int] == action_view(actions@[n as int]));
            assert forall|i: int| 0 <= i < n implies logs_plainly(
                #[trigger] actions@[i],
                LogLevel::Warn,
                decision.warnings@[i]@,
                *trace,
            ) by {
                assert(views[i] == action_view(actions@[i]));
                assert(texts(decision.warnings@)[i] == decision.warnings@[i]@);
            }
        },
        Err(rejection) => {
            assert(views.len() == 1);
            assert(views[0] == action_view(actions@[0]));
        },
    }
}

/// Without material on the channel a request is dropped with one error record. With material the
/// router is asked about this very request, with that material and under the trace of the call, and
/// its answer decides: a decision has the request dispatched once and last, a refusal never.
pub proof fn law_a_request_goes_where_the_router_says<R: DynRouter>(
    handler: &RouterHandler<R>,
    extensions: &ChannelExtensions,
    trace: &TraceRef,
    message: PipelineMessage,
    actions: Vec<RouterAction>,
)
    requires
        call_ensures(
            RouterHandler::<R>::on_read,
            (handler, extensions, trace, message),
            actions,
        ),
    ensures
        extensions@ is None ==> actions@.len() == 1 && logs_plainly(
            actions@[0],
            LogLevel::Error,
            "router context missing on channel"@,
            *trace,
        ),
        extensions@ is Some ==> exists|
            context: RoutingContext<'_, PipelineMessage>,
            routed: Result<RouteDecision, RouteRejection>,
        |
            #![trigger call_ensures(R::route_dyn, (&handler.asks(), context), routed)]
            {
                &&& call_ensures(R::route_dyn, (&handler.asks(), context), routed)
                &&& *context.asked() == message
                &&& context.wanted()@ == extensions@->0.intent
                &&& context.connected() is Some <==> extensions@->0.connection is Some
                &&& context.connected() is Some ==> context.connected()->0@
                    == extensions@->0.connection->0
                &&& context.traced() == Some(trace)
                &&& context.labelled()@ == extensions@->0.dynamic_metadata
                &&& call_ensures(R::snapshot, (&handler.asks(),), context.looked_at())
                &&& routed is Ok ==> dispatched_last(actions@, routed->Ok_0, message, *trace)
                    && actions@.len() == routed->Ok_0.warnings@.len() + 1
                &&& routed is Err ==> none_dispatched(actions@) && actions@.len() == 1
                    && logs_plainly(
                    actions@[0],
                    LogLevel::Error,
                    "router rejected request: "@ + routed->Err_0.shown@,
                    *trace,
                )
            },
{
    let views = actions_view(actions@);
    assert(views.len() == actions@.len());
    assert forall|i: int| 0 <= i < actions@.len() implies views[i] == action_view(
        #[trigger] actions@[i],
    ) by {
        lemma_seen(actions@, i);
    }
    assert forall|i: int| 0 <= i < actions@.len() && (#[trigger] actions@[i]) is Log implies
        actions@[i]->Log_0@.fields.len() == actions@[i]->Log_0.fields@.len() by {
        lemma_fields(actions@[i]->Log_0);
    }
    if extensions@ is None {
        assert(views.len() == 1);
        assert(views[0] == action_view(actions@[0]));
    } else {
        let (context, routed) = choose|
            context: RoutingContext<'_, PipelineMessage>,
            routed: Result<RouteDecision, RouteRejection>,
        |
            #![trigger call_ensures(R::route_dyn, (&handler.asks(), context), routed)]
            {
                &&& call_ensures(R::route_dyn, (&handler.asks(), context), routed)
                &&& call_ensures(R::snapshot, (&handler.asks(),), context.looked_at())
                &&& *context.asked() == message
                &&& context.wanted()@ == extensions@->0.intent
                &&& context.connected() is Some <==> extensions@->0.connection is Some
                &&& context.connected() is Some ==> context.connected()->0@
                    == extensions@->0.connection->0
                &&& context.traced() == Some(trace)
                &&& context.labelled()@ == extensions@->0.dynamic_metadata
                &&& views == crate::pipeline::router_handler::routed_actions(
                    routed,
                    message,
                    *trace,
                )
            };
        lemma_routed(actions@, routed, message, *trace);
        assert(call_ensures(R::route_dyn, (&handler.asks(), context), routed));
    }
}

proof fn lemma_routed(
    actions: Seq<RouterAction>,
    routed: Result<RouteDecision, RouteRejection>,
    request: PipelineMessage,
    trace: TraceRef,
)
    requires
        actions_view(actions) == crate::pipeline::router_handler::routed_actions(
            routed,
            request,
            trace,
        ),
    ensures
        routed is Ok ==> dispatched_last(actions, routed->Ok_0, request, trace),
        routed is Ok ==> actions.len() == routed->Ok_0.warnings@.len() + 1,
        routed is Err ==> none_dispatched(actions) && actions.len() == 1 && logs_plainly(
            actions[0],
            LogLevel::Error,
            "router rejected request: "@ + routed->Err_0.shown@,
            trace,
        ),
{
    let views = actions_view(actions);
    assert(views.len() == actions.len());
    assert forall|i: int| 0 <= i < actions.len() implies views[i] == action_view(
        #[trigger] actions[i],
    ) by {
        lemma_seen(actions, i);
    }
    if routed is Ok {
        let n = routed->Ok_0.warnings@.len();
        assert(texts(routed->Ok_0.warnings@).len() == n);
        assert(views.len() == n + 1);
        assert(views[n as int] == action_view(actions[n as int]));
        assert forall|i: int| 0 <= i < n implies (#[trigger] actions[i]) is Log by {
            assert(views[i] == action_view(actions[i]));
        }
    } else {
        assert(views.len() == 1);
        assert(views[0] == action_view(actions[0]));
        lemma_fields(actions[0]->Log_0);
    }
}

/// A response of a service is written back and, where that worked, flushed; a failure is dropped.
pub proof fn law_a_response_is_written_and_flushed(
    result: Result<PipelineMessage, CoreError>,
    step: ServiceStep,
    written: &Result<(), CoreError>,
    flush: bool,
)
    requires
        call_ensures(
            crate::pipeline::router_handler::after_service_call,
            (result,),
            step,
        ),
        call_ensures(flush_after_write, (written,), flush),
    ensures
        result is Ok ==> step is WriteAndFlush && step->WriteAndFlush_0 == result->Ok_0,
        result is Err ==> step is Drop,
        *written is Ok ==> flush,
        *written is Err ==> !flush,
{
}

/// Whatever form a request has, a decision of the application router has it dispatched exactly
/// once, as the last thing, to the service of the decision; its warnings are logged before, in one
/// record that holds them all. After a refusal nothing is dispatched, and the refusal is logged.
pub proof fn law_a_decided_request_is_dispatched_once(
    routed: Result<RouteDecision, RouteRejection>,
    request: PipelineMessage,
    trace: &TraceRef,
    actions: Vec<RouterAction>,
)
    requires
        call_ensures(settle_decision, (routed, request, trace), actions),
    ensures
        routed is Ok ==> dispatched_last(actions@, routed->Ok_0, request, *trace),
        routed is Ok && routed->Ok_0.warnings@.len() == 0 ==> actions@.len() == 1,
        routed is Ok && routed->Ok_0.warnings@.len() > 0 ==> actions@.len() == 2 && {
            let record = actions@[0]->Log_0;
            &&& record.level == LogLevel::Warn
            &&& record.message@ == "application-router received decision warnings"@
            &&& record.error is None
            &&& record.trace == *trace
            &&& record.fields@.len() == 1
            &&& record.fields@[0].key == "router.warnings"
            &&& record.fields@[0].value is Text
            &&& record.fields@[0].value->Text_0@ == joined(
                texts(routed->Ok_0.warnings@),
                "; "@,
            )
        },
        routed is Err ==> none_dispatched(actions@),
        routed is Err ==> actions@.len() == 1 && tells_of(
            actions@[0]->Log_0,
            "application-router failed to resolve route"@,
            *trace,
        ),
{
    lemma_decided(actions@, routed, request, *trace);
    let views = actions_view(actions@);
    if routed is Ok && routed->Ok_0.warnings@.len() > 0 {
        assert(texts(routed->Ok_0.warnings@).len() == routed->Ok_0.warnings@.len());
        lemma_seen(actions@, 0);
        let record = actions@[0]->Log_0;
        lemma_fields(record);
        assert(record@.fields[0] == (
            record.fields@[0].key,
            field_view(record.fields@[0].value),
        ));
    }
    if routed is Err {
        lemma_seen(actions@, 0);
        lemma_fields(actions@[0]->Log_0);
    }
}

proof fn lemma_decided(
    actions: Seq<RouterAction>,
    routed: Result<RouteDecision, RouteRejection>,
    request: PipelineMessage,
    trace: TraceRef,
)
    requires
        actions_view(actions) == crate::pipeline::app_router::decision_actions(
            routed,
            request,
            trace,
        ),
    ensures
        routed is Ok ==> dispatched_last(actions, routed->Ok_0, request, trace),
        routed is Ok ==> actions.len() == if routed->Ok_0.warnings@.len() == 0 {
            1int
        } else {
            2int
        },
        routed is Err ==> none_dispatched(actions) && actions.len() == 1,
{
    let views = actions_view(actions);
    assert(views.len() == actions.len());
    assert forall|i: int| 0 <= i < actions.len() implies views[i] == action_view(
        #[trigger] actions[i],
    ) by {
        lemma_seen(actions, i);
    }
    if routed is Ok {
        assert(texts(routed->Ok_0.warnings@).len() == routed->Ok_0.warnings@.len());
        assert(views[views.len() - 1] == action_view(actions[actions.len() - 1]));
        if actions.len() > 1 {
            assert(views[0] == action_view(actions[0]));
        }
    } else {
        assert(views.len() == 1);
        assert(views[0] == action_view(actions[0]));
    }
}

/// A message that lacks a kind, or came without attributes, is told of in one record that says
/// which of the two it is; of any other nothing is said.
pub proof fn law_a_message_is_looked_over(
    message: &PipelineMessage,
    attributes: &RouteMetadata,
    trace: &TraceRef,
    actions: Vec<RouterAction>,
)
    requires
        call_ensures(inspect_message, (message, attributes, trace), actions),
    ensures
        none_dispatched(actions@),
        message is User && attributes@ != Map::<Seq<char>, MetadataView>::empty()
            ==> actions@.len() == 0,
        message is Buffer || attributes@ == Map::<Seq<char>, MetadataView>::empty()
            ==> actions@.len() == 1 && {
            let record = actions@[0]->Log_0;
            &&& record.level == LogLevel::Debug
            &&& record.message@ == "application-router inspected inbound message metadata"@
            &&& record.error is None
            &&& record.trace == *trace
            &&& record.fields@.len() == 2
            &&& record.fields@[0].key == "router.metadata_present"
            &&& record.fields@[0].value is Flag
            &&& record.fields@[0].value->Flag_0 <==> attributes@ != Map::<
                Seq<char>,
                MetadataView,
            >::empty()
            &&& record.fields@[1].key == "router.message_kind"
            &&& record.fields@[1].value is Text
            &&& message is Buffer ==> record.fields@[1].value->Text_0@ == "<unknown>"@
            &&& message is User ==> record.fields@[1].value->Text_0@ == message->User_0.kind@
        },
{
    let views = actions_view(actions@);
    assert(views.len() == actions@.len());
    if actions@.len() > 0 {
        lemma_seen(actions@, 0);
        let record = actions@[0]->Log_0;
        lemma_fields(record);
        assert(record@.fields[0] == (
            record.fields@[0].key,
            field_view(record.fields@[0].value),
        ));
        assert(record@.fields[1] == (
            record.fields@[1].key,
            field_view(record.fields@[1].value),
        ));
    }
}

/// The application router asks its builder about this message, and its router with what the
/// builder found. Without material nothing is dispatched and the cause is logged. Otherwise the
/// answer of the router decides: a decision has this very message dispatched once and last, a
/// refusal never.
pub proof fn law_a_message_goes_where_the_router_says<R: DynRouter, B: RoutingContextBuilder>(
    handler: &ApplicationRouter<R, B>,
    extensions: &ChannelExtensions,
    trace: &TraceRef,
    message: PipelineMessage,
    actions: Vec<RouterAction>,
)
    requires
        call_ensures(
            ApplicationRouter::<R, B>::on_read,
            (handler, extensions, trace, message),
            actions,
        ),
    ensures
        exists|
            snapshot: RoutingSnapshot<'_>,
            built: Result<RoutingContextParts, CoreError>,
        |
            #![trigger call_ensures(
                B::build,
                (&handler.builds_with(), extensions, &message, snapshot),
                built,
            )]
            {
                &&& call_ensures(
                    B::build,
                    (&handler.builds_with(), extensions, &message, snapshot),
                    built,
                )
                &&& built is Err ==> actions@.len() == 1 && actions@[0] is Log && tells_of(
                    actions@[0]->Log_0,
                    "application-router failed to build routing context"@,
                    *trace,
                ) && actions@[0]->Log_0.error->0@ == built->Err_0@
                &&& built is Ok ==> decided_by_the_router(
                    handler,
                    snapshot,
                    trace,
                    built->Ok_0,
                    message,
                    actions@,
                )
            },
{
    let views = actions_view(actions@);
    let (snapshot, built) = choose|
        snapshot: RoutingSnapshot<'_>,
        built: Result<RoutingContextParts, CoreError>,
    |
        #![trigger call_ensures(
            B::build,
            (&handler.builds_with(), extensions, &message, snapshot),
            built,
        )]
        {
            &&& call_ensures(R::snapshot, (&handler.asks(),), snapshot)
            &&& call_ensures(
                B::build,
                (&handler.builds_with(), extensions, &message, snapshot),
                built,
            )
            &&& built is Err ==> views == crate::pipeline::app_router::build_failure(
                built->Err_0@,
                *trace,
            )
            &&& built is Ok ==> handler.routes_with(
                snapshot,
                trace,
                built->Ok_0,
                message,
                views,
            )
        };
    if built is Err {
        assert(views.len() == 1);
        lemma_seen(actions@, 0);
        lemma_fields(actions@[0]->Log_0);
    } else {
        let parts = built->Ok_0;
        let (context, routed) = choose|
            context: RoutingContext<'_, PipelineMessage>,
            routed: Result<RouteDecision, RouteRejection>,
        |
            #![trigger call_ensures(R::route_dyn, (&handler.asks(), context), routed)]
            {
                &&& call_ensures(R::route_dyn, (&handler.asks(), context), routed)
                &&& *context.asked() == message
                &&& *context.wanted() == parts.intent
                &&& context.connected() is Some <==> parts.connection is Some
                &&& context.connected() is Some ==> *context.connected()->0 == parts.connection->0
                &&& context.traced() == Some(trace)
                &&& *context.labelled() == parts.dynamic_metadata
                &&& context.looked_at() == snapshot
                &&& views == crate::pipeline::app_router::inspection(
                    message.kind(),
                    parts.dynamic_metadata@,
                    *trace,
                ) + crate::pipeline::app_router::decision_actions(routed, message, *trace)
            };
        let looked = crate::pipeline::app_router::inspection(
            message.kind(),
            parts.dynamic_metadata@,
            *trace,
        );
        let tail = actions@.skip(looked.len() as int);
        assert(actions_view(tail) =~= views.skip(looked.len() as int));
        assert(views.skip(looked.len() as int)
            =~= crate::pipeline::app_router::decision_actions(routed, message, *trace));
        lemma_decided(tail, routed, message, *trace);
        assert forall|i: int| 0 <= i < looked.len() implies (#[trigger] actions@[i]) is Log by {
            lemma_seen(actions@, i);
        }
        assert forall|i: int| looked.len() <= i < actions@.len() implies (
        #[trigger] actions@[i]) == tail[i - looked.len()] by {}
        assert(looked.len() == records_about(message, parts));
        if looked.len() == 1 {
            lemma_seen(actions@, 0);
            assert(views[0] == looked[0]);
        }
        assert(tail.last() == actions@.last());
        assert(call_ensures(R::route_dyn, (&handler.asks(), context), routed));
    }
}

/// Whether the router was asked about a message with the given material, under the given trace,
/// and its answer decided what is dispatched.
pub open spec fn decided_by_the_router<R: DynRouter, B: RoutingContextBuilder>(
    handler: &ApplicationRouter<R, B>,
    snapshot: RoutingSnapshot<'_>,
    trace: &TraceRef,
    parts: RoutingContextParts,
    message: PipelineMessage,
    actions: Seq<RouterAction>,
) -> bool {
    exists|
        context: RoutingContext<'_, PipelineMessage>,
        routed: Result<RouteDecision, RouteRejection>,
    |
        #![trigger call_ensures(R::route_dyn, (&handler.asks(), context), routed)]
        {
            &&& call_ensures(R::route_dyn, (&handler.asks(), context), routed)
            &&& *context.asked() == message
            &&& *context.wanted() == parts.intent
            &&& context.connected() is Some <==> parts.connection is Some
            &&& context.connected() is Some ==> *context.connected()->0 == parts.connection->0
            &&& context.traced() == Some(trace)
            &&& *context.labelled() == parts.dynamic_metadata
            &&& context.looked_at() == snapshot
            &&& routed is Ok ==> dispatched_last(actions, routed->Ok_0, message, *trace)
            &&& routed is Err ==> none_dispatched(actions)
            &&& actions.len() == records_about(message, parts) + if routed is Ok
                && routed->Ok_0.warnings@.len() > 0 {
                2int
            } else {
                1int
            }
            &&& records_about(message, parts) == 1 ==> actions[0] is Log
                && actions[0]->Log_0.level == LogLevel::Debug && actions[0]->Log_0.message@
                == "application-router inspected inbound message metadata"@
        }
}

/// How many records a message is told of in before it is routed: one where it lacks a kind or came
/// without attributes.
pub open spec fn records_about(message: PipelineMessage, parts: RoutingContextParts) -> int {
    if message is Buffer || parts.dynamic_metadata@ == Map::<Seq<char>, MetadataView>::empty() {
        1
    } else {
        0
    }
}

/// A response of a service is written back. A service that fails, or a response that cannot be
/// written, is told of in one error record under the trace of the call, with the cause.
pub proof fn law_a_failed_service_is_told_of(
    result: Result<PipelineMessage, CoreError>,
    written: Result<(), CoreError>,
    trace: &TraceRef,
    step: ServiceTaskStep,
    end: ServiceTaskStep,
)
    requires
        call_ensures(after_service_call, (result, trace), step),
        call_ensures(after_write, (written, trace), end),
    ensures
        result is Ok ==> step is Write && step->Write_0 == result->Ok_0,
        result is Err ==> step is Log && tells_of(
            step->Log_0,
            "application-router encountered error while invoking service"@,
            *trace,
        ) && step->Log_0.error->0@ == result->Err_0@,
        written is Ok ==> end is Done,
        written is Err ==> end is Log && tells_of(
            end->Log_0,
            "application-router encountered error while invoking service"@,
            *trace,
        ) && {
            let error = end->Log_0.error->0@;
            &&& error.code == ErrorCode::Framework(FrameworkCode::AppRoutingFailed)
            &&& error.message == "failed to write response"@
            &&& error.category is None
            &&& error.cause is Some
            &&& *error.cause->0 == written->Err_0@
        },
{
    if result is Err {
        lemma_fields(step->Log_0);
    }
    if written is Err {
        lemma_fields(end->Log_0);
    }
}

/// The builder of the example finds exactly the material that was left on the channel, and says so
/// where none was.
pub proof fn law_the_builder_finds_what_was_left(
    builder: &ExtensionsRoutingContextBuilder,
    extensions: &ChannelExtensions,
    message: &PipelineMessage,
    snapshot: RoutingSnapshot<'_>,
    r: Result<RoutingContextParts, CoreError>,
)
    requires
        call_ensures(
            <ExtensionsRoutingContextBuilder as RoutingContextBuilder>::build,
            (builder, extensions, message, snapshot),
            r,
        ),
    ensures
        extensions@ is Some ==> {
            &&& r is Ok
            &&& r->Ok_0.intent@ == extensions@->0.intent
            &&& r->Ok_0.connection is Some <==> extensions@->0.connection is Some
            &&& r->Ok_0.connection is Some ==> r->Ok_0.connection->0@ == extensions@->0.connection->0
            &&& r->Ok_0.dynamic_metadata@ == extensions@->0.dynamic_metadata
        },
        extensions@ is None ==> {
            &&& r is Err
            &&& r->Err_0@.code == ErrorCode::Framework(FrameworkCode::AppRoutingFailed)
            &&& r->Err_0@.message == "router context missing on channel"@
            &&& r->Err_0@.category is None
            &&& r->Err_0@.cause is None
        },
{
    if extensions@ is Some {
        let seen = r->Ok_0@;
        assert(seen.connection == extensions@->0.connection);
    }
}

/// A copy of the application router asks the same router and the same builder, and takes part in
/// inbound traffic only.
pub proof fn law_a_copy_asks_the_same_router<R: DynRouter, B: RoutingContextBuilder>(
    handler: &ApplicationRouter<R, B>,
    copy: Option<std::sync::Arc<ApplicationRouter<R, B>>>,
    direction: HandlerDirection,
)
    requires
        call_ensures(ApplicationRouter::<R, B>::clone_inbound, (handler,), copy),
        call_ensures(ApplicationRouter::<R, B>::direction, (handler,), direction),
    ensures
        copy is Some,
        copy->0.asks() == handler.asks(),
        copy->0.builds_with() == handler.builds_with(),
        copy->0.described_as()@ == handler.described_as()@,
        direction is Inbound,
{
}

/// A refusal of the router is told with the error that a caller would see.
pub proof fn law_a_refusal_is_told_as_a_caller_sees_it(
    routed: Result<RouteDecision, RouteRejection>,
    request: PipelineMessage,
    trace: &TraceRef,
    actions: Vec<RouterAction>,
    seen: CoreError,
)
    requires
        routed is Err,
        call_ensures(settle_decision, (routed, request, trace), actions),
        call_ensures(refusal_to_error, (routed->Err_0.error,), seen),
    ensures
        actions@.len() == 1,
        actions@[0] is Log,
        actions@[0]->Log_0.error is Some,
        actions@[0]->Log_0.error->0@ == seen@,
{
    lemma_decided(actions@, routed, request, *trace);
    lemma_seen(actions@, 0);
}

} // verus!
