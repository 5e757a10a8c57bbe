//! What tracing carries over, opens and installs, stated on what goes in and what comes out.
use vstd::prelude::*;

use opentelemetry_sdk::Resource;

use crate::otel::context::{
    carry_back, entry_views, parse_header, read_trace_state, trace_context_from_otel,
    trace_context_to_otel, OtelSpanParts, TraceContext, TraceStateEntry, TraceStateRules,
};
use crate::otel::install::{
    after_install_handler_tracer, after_keep_state, after_set_subscriber, begin_install, install,
    Error, InstallStep, TracingState,
};
use crate::otel::resource::{resource_attributes, resource_from_attrs, OwnedResourceAttrs, ResourceAttr};
use crate::otel::span::{
    direction_tag, otel_span_kind, plan_span, start_span, HandlerSpan, HandlerSpanParams,
    InMemorySpanExporter, SpanAttribute, SpanKind, SpanPlan,
};
use crate::pipeline::app_router::HandlerDirection;

verus! {

/// A header is read member by member: what stands before a comma, and then the rest.
pub proof fn law_a_header_is_read_member_by_member(
    member: &str,
    rest: &str,
    whole: &str,
    first: Vec<TraceStateEntry>,
    others: Vec<TraceStateEntry>,
    all: Vec<TraceStateEntry>,
)
    requires
        !member@.contains(','),
        whole@ == member@ + seq![','] + rest@,
        call_ensures(parse_header, (member,), first),
        call_ensures(parse_header, (rest,), others),
        call_ensures(parse_header, (whole,), all),
    ensures
        entry_views(all@) == entry_views(first@) + entry_views(others@),
{
    crate::otel::context::lemma_first_position(member@, ',', rest@);
    let text = member@.push(',') + rest@;
    assert(text =~= whole@);
    assert(text.take(member@.len() as int) =~= member@);
    assert(text.skip(member@.len() as int + 1) =~= rest@);
}

/// A member is the entry of what stands before its first `=` and what stands behind it; one without
/// an `=` is none.
pub proof fn law_a_member_is_split_at_the_first_sign(
    key: Seq<char>,
    value: Seq<char>,
    member: &str,
    entries: Vec<TraceStateEntry>,
)
    requires
        !key.contains('='),
        !member@.contains(','),
        call_ensures(parse_header, (member,), entries),
    ensures
        member@ == key + seq!['='] + value ==> entry_views(entries@) == seq![(key, value)],
        member@ == key ==> entries@.len() == 0,
{
    crate::otel::context::lemma_first_position(member@, ',', Seq::empty());
    crate::otel::context::lemma_first_position(key, '=', value);
    let text = key.push('=') + value;
    assert(text =~= key + seq!['='] + value);
    assert(text.take(key.len() as int) =~= key);
    assert(text.skip(key.len() as int + 1) =~= value);
    assert(entry_views(entries@).len() == entries@.len());
}

/// A trace context goes out as that of a remote parent with the same identifiers and flags, and
/// comes back with those of the span context and the entries that were taken. A refusal of the
/// entries is told either way.
pub proof fn law_identifiers_are_carried_over(
    parent: &TraceContext,
    out: Result<OtelSpanParts, Error>,
    ctx: &OtelSpanParts,
    taken: Result<Vec<TraceStateEntry>, String>,
    back: Result<TraceContext, Error>,
)
    requires
        call_ensures(trace_context_to_otel, (parent,), out),
        call_ensures(trace_context_from_otel, (ctx, taken), back),
    ensures
        out is Ok ==> out->Ok_0.trace_id == parent.trace_id && out->Ok_0.span_id == parent.span_id
            && out->Ok_0.trace_flags == parent.trace_flags && out->Ok_0.is_remote,
        out is Err ==> out->Err_0 is TraceStateConversion,
        taken is Ok ==> {
            &&& back is Ok
            &&& back->Ok_0.trace_id == ctx.trace_id
            &&& back->Ok_0.span_id == ctx.span_id
            &&& back->Ok_0.trace_flags == ctx.trace_flags
            &&& entry_views(back->Ok_0.trace_state@) == entry_views(taken->Ok_0@)
        },
        taken is Err ==> back is Err && back->Err_0 is TraceStateConversion
            && back->Err_0->TraceStateConversion_0@ == "otel TraceState -> spark 失败: "@
            + taken->Err_0@,
{
    if taken is Ok {
        let seen = back->Ok_0@;
        assert(seen.trace_state == entry_views(back->Ok_0.trace_state@));
    }
}

/// A child has the trace, the flags and the entries of its parent, and a span of its own.
pub proof fn law_a_child_stays_in_the_trace(
    parent: &TraceContext,
    span_id: [u8; 8],
    child: TraceContext,
)
    requires
        call_ensures(TraceContext::child_context, (parent, span_id), child),
    ensures
        child.trace_id == parent.trace_id,
        child.span_id == span_id,
        child.trace_flags == parent.trace_flags,
        entry_views(child.trace_state@) == entry_views(parent.trace_state@),
{
    let seen = child@;
    assert(seen.trace_state == entry_views(child.trace_state@));
    assert(parent@.trace_state == entry_views(parent.trace_state@));
}

/// Whether an attribute has a key and a value.
pub open spec fn tells(attribute: SpanAttribute, key: &'static str, value: Seq<char>) -> bool {
    attribute.key == key && attribute.value@ == value
}

/// The span of a handler is named after its direction and the handler, has the part that goes with
/// the direction, and tells of the direction, the label and the three texts of the handler.
pub proof fn law_a_span_names_its_handler(params: &HandlerSpanParams, plan: SpanPlan)
    requires
        call_ensures(plan_span, (params,), plan),
    ensures
        params.direction is Inbound ==> {
            &&& plan.kind is Server
            &&& plan.name@ == "spark.pipeline."@ + "inbound"@ + "."@ + params.descriptor@.name
            &&& tells(plan.attributes@[0], "spark.pipeline.direction", "inbound"@)
        },
        params.direction is Outbound ==> {
            &&& plan.kind is Client
            &&& plan.name@ == "spark.pipeline."@ + "outbound"@ + "."@ + params.descriptor@.name
            &&& tells(plan.attributes@[0], "spark.pipeline.direction", "outbound"@)
        },
        params.direction is Bidirectional ==> {
            &&& plan.kind is Internal
            &&& plan.name@ == "spark.pipeline."@ + "unspecified"@ + "."@ + params.descriptor@.name
            &&& tells(plan.attributes@[0], "spark.pipeline.direction", "unspecified"@)
        },
        plan.attributes@.len() == 5,
        tells(plan.attributes@[1], "spark.pipeline.label", params.label@),
        tells(plan.attributes@[2], "spark.pipeline.component", params.descriptor@.name),
        tells(plan.attributes@[3], "spark.pipeline.category", params.descriptor@.category),
        tells(plan.attributes@[4], "spark.pipeline.summary", params.descriptor@.summary),
{
    let views = crate::otel::span::attribute_views(plan.attributes@);
    assert(views.len() == plan.attributes@.len());
    assert(views.len() == 5);
    assert(views[0] == (plan.attributes@[0].key, plan.attributes@[0].value@));
    assert(views[1] == (plan.attributes@[1].key, plan.attributes@[1].value@));
    assert(views[2] == (plan.attributes@[2].key, plan.attributes@[2].value@));
    assert(views[3] == (plan.attributes@[3].key, plan.attributes@[3].value@));
    assert(views[4] == (plan.attributes@[4].key, plan.attributes@[4].value@));
}

/// Each direction has a name and a part.
pub proof fn law_each_direction_has_its_part(
    direction: HandlerDirection,
    tag: &'static str,
    kind: SpanKind,
)
    requires
        call_ensures(direction_tag, (direction,), tag),
        call_ensures(otel_span_kind, (direction,), kind),
    ensures
        direction is Inbound ==> tag@ == "inbound"@ && kind is Server,
        direction is Outbound ==> tag@ == "outbound"@ && kind is Client,
        direction is Bidirectional ==> tag@ == "unspecified"@ && kind is Internal,
{
}

/// A span that was opened outside is recorded as it is; otherwise the handler gets a child of the
/// parent that nobody records.
pub proof fn law_a_span_is_recorded_or_a_child(
    started: Result<TraceContext, Error>,
    parent: &TraceContext,
    fresh: [u8; 8],
    span: HandlerSpan,
)
    requires
        call_ensures(start_span, (started, parent, fresh), span),
    ensures
        span.recorded <==> started is Ok,
        started is Ok ==> span.trace_context == started->Ok_0,
        started is Err ==> {
            &&& span.trace_context.trace_id == parent.trace_id
            &&& span.trace_context.span_id == fresh
            &&& span.trace_context.trace_flags == parent.trace_flags
            &&& entry_views(span.trace_context.trace_state@) == entry_views(parent.trace_state@)
        },
{
    if started is Err {
        let seen = span.trace_context@;
        assert(seen.trace_state == entry_views(span.trace_context.trace_state@));
        assert(parent@.trace_state == entry_views(parent.trace_state@));
    }
}

/// Spans are collected in order, and forgotten all at once.
pub proof fn law_spans_are_collected_in_order<S>(
    exporter: &mut InMemorySpanExporter<S>,
    closed: &mut InMemorySpanExporter<S>,
    batch: Vec<S>,
)
    requires
        call_ensures(InMemorySpanExporter::<S>::export, (exporter, batch), ()),
        call_ensures(InMemorySpanExporter::<S>::shutdown, (closed,), ()) || call_ensures(
            InMemorySpanExporter::<S>::reset,
            (closed,),
            (),
        ),
    ensures
        final(exporter)@ == old(exporter)@ + batch@,
        final(closed)@.len() == 0,
{
}

/// An installation is refused as a repetition where one was kept, for the subscriber where one is
/// set, as the subscriber says where it cannot be made global, and for the handler tracer where
/// another was handed over; otherwise it succeeds. What was reached before stays set.
pub proof fn law_an_installation_is_refused_for_one_reason(
    state: &mut TracingState,
    subscriber: Result<(), String>,
    r: Result<(), Error>,
)
    requires
        call_ensures(install, (state, subscriber), r),
    ensures
        old(state).installed ==> r is Err && r->Err_0 is AlreadyInstalled && *final(state) == *old(state),
        !old(state).installed && old(state).subscriber_set ==> r is Err && r->Err_0
            is SubscriberAlreadySet && *final(state) == *old(state),
        !old(state).installed && !old(state).subscriber_set ==> {
            &&& final(state).subscriber_set
            &&& subscriber is Err ==> {
                &&& r is Err && r->Err_0 is SetGlobalSubscriber
                &&& r->Err_0->SetGlobalSubscriber_0 == subscriber->Err_0
                &&& final(state).handler_tracer_set == old(state).handler_tracer_set
                &&& !final(state).installed
            }
            &&& subscriber is Ok && old(state).handler_tracer_set ==> {
                &&& r is Err && r->Err_0 is HandlerTracerInstalled
                &&& final(state).handler_tracer_set
                &&& !final(state).installed
            }
            &&& subscriber is Ok && !old(state).handler_tracer_set ==> {
                &&& r is Ok
                &&& final(state).handler_tracer_set
                &&& final(state).installed
            }
        },
{
}

/// The steps of an installation follow each other, and each failure ends it with its own error.
pub proof fn law_steps_follow_each_other(
    state: &TracingState,
    begun: InstallStep,
    outcome: Result<(), String>,
    set: InstallStep,
    taken: bool,
    handed: InstallStep,
    kept: bool,
    ended: InstallStep,
)
    requires
        call_ensures(begin_install, (state,), begun),
        call_ensures(after_set_subscriber, (outcome,), set),
        call_ensures(after_install_handler_tracer, (taken,), handed),
        call_ensures(after_keep_state, (kept,), ended),
    ensures
        state.installed ==> begun is Failed && begun->Failed_0 is AlreadyInstalled,
        !state.installed && state.subscriber_set ==> begun is Failed && begun->Failed_0
            is SubscriberAlreadySet,
        !state.installed && !state.subscriber_set ==> begun is SetSubscriber,
        outcome is Ok ==> set is InstallHandlerTracer,
        outcome is Err ==> set is Failed && set->Failed_0 is SetGlobalSubscriber
            && set->Failed_0->SetGlobalSubscriber_0 == outcome->Err_0,
        taken ==> handed is KeepState,
        !taken ==> handed is Failed && handed->Failed_0 is HandlerTracerInstalled,
        kept ==> ended is Finished,
        !kept ==> ended is Failed && ended->Failed_0 is AlreadyInstalled,
{
}

/// Each error has a text of its own, with the reason where it has one.
pub proof fn law_each_error_has_its_text(error: &Error, text: String)
    requires
        call_ensures(Error::to_text, (error,), text),
    ensures
        *error is AlreadyInstalled ==> text@ == "spark-otel 已完成安装，禁止重复调用 install"@,
        *error is SubscriberAlreadySet ==> text@
            == "全局 tracing Subscriber 已存在，spark-otel 无法覆盖"@,
        *error is HandlerTracerInstalled ==> text@ == "spark-core 已注册其他 HandlerSpanTracer"@,
        *error is TraceStateConversion ==> text@ == "TraceState 互转失败: "@
            + error->TraceStateConversion_0@,
        *error is SetGlobalSubscriber ==> text@ == "设置 tracing 全局 Subscriber 失败: "@
            + error->SetGlobalSubscriber_0@,
{
}

/// A resource reports every attribute that it was given, with the last value of its key, and
/// nothing else.
pub proof fn law_a_resource_reports_its_attributes(
    attrs: &[ResourceAttr],
    resource: Resource,
    i: int,
)
    requires
        call_ensures(resource_from_attrs, (attrs,), resource),
        0 <= i < attrs@.len(),
        forall|j: int| i < j < attrs@.len() ==> (#[trigger] attrs@[j]).key@ != attrs@[i].key@,
    ensures
        resource_attributes(resource).dom().contains(attrs@[i].key@),
        resource_attributes(resource)[attrs@[i].key@] == attrs@[i].value@,
{
    let views = crate::otel::resource::attr_views(attrs@);
    crate::otel::resource::law_every_attribute_is_reported(views);
    assert(views[i] == (attrs@[i].key@, attrs@[i].value@));
    assert forall|j: int| i < j < views.len() implies views[j].0 != views[i].0 by {
        assert(views[j].0 == attrs@[j].key@);
    }
}

/// A span context is carried back with its own identifiers and flags and the entries of its state,
/// where the pipeline takes them; otherwise what the pipeline says is told.
pub proof fn law_a_span_context_is_carried_back<C: TraceStateRules>(
    ctx: &OtelSpanParts,
    rules: &C,
    r: Result<TraceContext, Error>,
    read: Vec<TraceStateEntry>,
)
    requires
        call_ensures(carry_back::<C>, (ctx, rules), r),
        call_ensures(read_trace_state, (&ctx.trace_state,), read),
    ensures
        exists|entries: Vec<TraceStateEntry>, checked: Result<(), String>|
            #![trigger call_ensures(C::check, (rules, &entries), checked)]
            {
                &&& call_ensures(C::check, (rules, &entries), checked)
                &&& entry_views(entries@) == entry_views(read@)
                &&& checked is Ok ==> {
                    &&& r is Ok
                    &&& r->Ok_0.trace_id == ctx.trace_id
                    &&& r->Ok_0.span_id == ctx.span_id
                    &&& r->Ok_0.trace_flags == ctx.trace_flags
                    &&& entry_views(r->Ok_0.trace_state@) == entry_views(read@)
                }
                &&& checked is Err ==> r is Err && r->Err_0 is TraceStateConversion
                    && r->Err_0->TraceStateConversion_0@ == "otel TraceState -> spark 失败: "@
                    + checked->Err_0@
            },
{
    let (entries, checked) = choose|
        entries: Vec<TraceStateEntry>,
        checked: Result<(), String>,
    |
        #![trigger call_ensures(C::check, (rules, &entries), checked)]
        {
            &&& call_ensures(C::check, (rules, &entries), checked)
            &&& entry_views(entries@) == crate::otel::context::entries_of(
                crate::otel::context::header_of(
                    crate::otel::context::state_entries(ctx.trace_state),
                ),
            )
            &&& crate::otel::context::carried_back(*ctx, entry_views(entries@), checked, r)
        };
    assert(call_ensures(C::check, (rules, &entries), checked));
    if checked is Ok {
        let seen = r->Ok_0@;
        assert(seen.trace_state == entry_views(r->Ok_0.trace_state@));
    }
}

/// Attributes of a resource are kept in the order in which they were added.
pub proof fn law_attributes_are_kept_in_order(
    attrs: &mut OwnedResourceAttrs,
    key: &str,
    value: &str,
    i: int,
)
    requires
        call_ensures(OwnedResourceAttrs::push_owned, (attrs, key, value), ()),
    ensures
        final(attrs)@.len() == old(attrs)@.len() + 1,
        final(attrs)@.last().0 == key@ && final(attrs)@.last().1 == value@,
        0 <= i < old(attrs)@.len() ==> final(attrs)@[i] == old(attrs)@[i],
{
}

} // verus!
