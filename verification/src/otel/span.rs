//! The spans around handlers: how they are named and described, and where they are collected.
use vstd::prelude::*;

use crate::otel::context::{TraceContext, TraceContextView};
use crate::otel::install::Error;
use crate::pipeline::app_router::HandlerDirection;
use crate::pipeline::descriptor::{InitializerDescriptor, InitializerView};

verus! {

/// The keys of the attributes of a handler's span.
pub const ATTR_DIRECTION: &'static str = "spark.pipeline.direction";

pub const ATTR_LABEL: &'static str = "spark.pipeline.label";

pub const ATTR_COMPONENT: &'static str = "spark.pipeline.component";

pub const ATTR_CATEGORY: &'static str = "spark.pipeline.category";

pub const ATTR_SUMMARY: &'static str = "spark.pipeline.summary";

/// What part a span has in a conversation.
#[derive(Clone, Copy, Debug, PartialEq, Eq, Structural)]
pub enum SpanKind {
    Server,
    Client,
    Internal,
}

/// What a direction is called.
pub open spec fn direction_name(direction: HandlerDirection) -> &'static str {
    match direction {
        HandlerDirection::Inbound => "inbound",
        HandlerDirection::Outbound => "outbound",
        HandlerDirection::Bidirectional => "unspecified",
    }
}

/// What a direction is called.
pub fn direction_tag(direction: HandlerDirection) -> (tag: &'static str)
    ensures
        tag@ == direction_name(direction)@,
{
    match direction {
        HandlerDirection::Inbound => "inbound",
        HandlerDirection::Outbound => "outbound",
        HandlerDirection::Bidirectional => "unspecified",
    }
}

/// What part a handler of the given direction has.
pub open spec fn kind_of(direction: HandlerDirection) -> SpanKind {
    match direction {
        HandlerDirection::Inbound => SpanKind::Server,
        HandlerDirection::Outbound => SpanKind::Client,
        HandlerDirection::Bidirectional => SpanKind::Internal,
    }
}

/// What part a handler of the given direction has.
pub fn otel_span_kind(direction: HandlerDirection) -> (kind: SpanKind)
    ensures
        kind == kind_of(direction),
{
    match direction {
        HandlerDirection::Inbound => SpanKind::Server,
        HandlerDirection::Outbound => SpanKind::Client,
        HandlerDirection::Bidirectional => SpanKind::Internal,
    }
}

/// The handler that a span is opened for.
#[derive(Debug)]
pub struct HandlerSpanParams {
    pub direction: HandlerDirection,
    pub label: String,
    pub descriptor: InitializerDescriptor,
}

/// One attribute of a span.
#[derive(Debug, PartialEq, Eq)]
pub struct SpanAttribute {
    pub key: &'static str,
    pub value: String,
}

/// How a span is opened.
#[derive(Debug)]
pub struct SpanPlan {
    pub name: String,
    pub kind: SpanKind,
    pub attributes: Vec<SpanAttribute>,
}

/// The attributes of a span: which handler it is opened for.
pub open spec fn span_attributes(
    direction: HandlerDirection,
    label: Seq<char>,
    descriptor: InitializerView,
) -> Seq<(&'static str, Seq<char>)> {
    seq![
        (ATTR_DIRECTION, direction_name(direction)@),
        (ATTR_LABEL, label),
        (ATTR_COMPONENT, descriptor.name),
        (ATTR_CATEGORY, descriptor.category),
        (ATTR_SUMMARY, descriptor.summary),
    ]
}

/// The keys and values of some attributes.
pub open spec fn attribute_views(attributes: Seq<SpanAttribute>) -> Seq<
    (&'static str, Seq<char>),
> {
    attributes.map_values(|attribute: SpanAttribute| (attribute.key, attribute.value@))
}

/// How the span of a handler is opened.
pub fn plan_span(params: &HandlerSpanParams) -> (plan: SpanPlan)
    ensures
        plan.name@ == "spark.pipeline."@ + direction_name(params.direction)@ + "."@
            + params.descriptor@.name,
        plan.kind == kind_of(params.direction),
        attribute_views(plan.attributes@) == span_attributes(
            params.direction,
            params.label@,
            params.descriptor@,
        ),
{
    let tag = direction_tag(params.direction);
    let mut name = "spark.pipeline.".to_owned();
    name.append(tag);
    name.append(".");
    name.append(params.descriptor.name());
    let mut attributes: Vec<SpanAttribute> = Vec::new();
    attributes.push(SpanAttribute { key: ATTR_DIRECTION, value: tag.to_owned() });
    attributes.push(SpanAttribute { key: ATTR_LABEL, value: params.label.clone() });
    attributes.push(
        SpanAttribute { key: ATTR_COMPONENT, value: params.descriptor.name().to_owned() },
    );
    attributes.push(
        SpanAttribute { key: ATTR_CATEGORY, value: params.descriptor.category().to_owned() },
    );
    attributes.push(
        SpanAttribute { key: ATTR_SUMMARY, value: params.descriptor.summary().to_owned() },
    );
    proof {
        assert(attribute_views(attributes@) =~= span_attributes(
            params.direction,
            params.label@,
            params.descriptor@,
        ));
    }
    SpanPlan { name, kind: otel_span_kind(params.direction), attributes }
}

/// The span around a handler: where the handler stands in the trace, and whether the span is
/// recorded outside.
#[derive(Debug)]
pub struct HandlerSpan {
    pub trace_context: TraceContext,
    pub recorded: bool,
}

/// The span of a handler where none could be opened outside: a child of the parent in the same
/// trace, which nobody records.
pub fn fallback_span(parent: &TraceContext, span_id: [u8; 8]) -> (span: HandlerSpan)
    ensures
        span.trace_context@ == (TraceContextView { span_id, ..parent@ }),
        !span.recorded,
{
    HandlerSpan { trace_context: parent.child_context(span_id), recorded: false }
}

/// The span of a handler: the one that was opened outside, or else the one to fall back on.
pub fn start_span(
    started: Result<TraceContext, Error>,
    parent: &TraceContext,
    fresh_span_id: [u8; 8],
) -> (span: HandlerSpan)
    ensures
        match started {
            Ok(derived) => span == (HandlerSpan { trace_context: derived, recorded: true }),
            Err(_) => span.trace_context@ == (TraceContextView {
                span_id: fresh_span_id,
                ..parent@
            }) && !span.recorded,
        },
{
    match started {
        Ok(trace_context) => HandlerSpan { trace_context, recorded: true },
        Err(_) => fallback_span(parent, fresh_span_id),
    }
}

/// Collects finished spans in memory.
#[derive(Debug)]
pub struct InMemorySpanExporter<S> {
    spans: Vec<S>,
}

impl<S> View for InMemorySpanExporter<S> {
    type V = Seq<S>;

    closed spec fn view(&self) -> Seq<S> {
        self.spans@
    }
}

impl<S> InMemorySpanExporter<S> {
    /// An exporter that holds nothing.
    pub fn new() -> (exporter: InMemorySpanExporter<S>)
        ensures
            exporter@ == Seq::<S>::empty(),
    {
        InMemorySpanExporter { spans: Vec::new() }
    }

    /// The spans that were collected, in order.
    pub fn get_finished_spans(&self) -> (spans: &Vec<S>)
        ensures
            spans@ == self@,
    {
        &self.spans
    }

    /// Forgets the spans that were collected.
    pub fn reset(&mut self)
        ensures
            final(self)@ == Seq::<S>::empty(),
    {
        self.spans.clear();
    }

    /// Collects a batch of finished spans, behind those that are there.
    pub fn export(&mut self, batch: Vec<S>)
        ensures
            final(self)@ == old(self)@ + batch@,
    {
        let mut batch = batch;
        self.spans.append(&mut batch);
    }

    /// Closes the exporter: nothing stays behind.
    pub fn shutdown(&mut self)
        ensures
            final(self)@ == Seq::<S>::empty(),
    {
        self.reset();
    }
}

} // verus!
