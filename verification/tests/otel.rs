use std::collections::HashMap;

use opentelemetry::Value;
use spark::otel::context::{
    carry_back, parse_header, read_trace_state, trace_context_from_otel, trace_context_to_otel,
    TraceContext, TraceStateEntry, TraceStateRules,
};
use spark::otel::install::{
    after_install_handler_tracer, after_keep_state, after_set_subscriber, begin_install, install,
    Error, InstallStep, TracingState,
};
use spark::otel::resource::{resource_from_attrs, OwnedResourceAttrs};
use spark::otel::span::{
    direction_tag, fallback_span, otel_span_kind, plan_span, start_span, HandlerSpanParams,
    InMemorySpanExporter, SpanKind, ATTR_CATEGORY, ATTR_COMPONENT, ATTR_DIRECTION, ATTR_LABEL,
    ATTR_SUMMARY,
};
use spark::pipeline::app_router::HandlerDirection;
use spark::pipeline::descriptor::InitializerDescriptor;

fn entry(key: &str, value: &str) -> TraceStateEntry {
    TraceStateEntry { key: key.to_string(), value: value.to_string() }
}

fn context(entries: Vec<TraceStateEntry>) -> TraceContext {
    TraceContext {
        trace_id: [7; 16],
        span_id: [3; 8],
        trace_flags: 1,
        trace_state: entries,
    }
}

#[test]
fn resource_mapping_preserves_all_attributes() {
    let mut owned = OwnedResourceAttrs::new();
    owned.push_owned("service.name", "demo");
    owned.push_owned("deployment.environment", "staging");

    let resource = resource_from_attrs(owned.as_slice());
    let mut map = HashMap::new();
    for (key, value) in resource.iter() {
        let text = match value {
            Value::String(s) => s.to_string(),
            Value::Bool(flag) => flag.to_string(),
            Value::F64(number) => number.to_string(),
            Value::I64(number) => number.to_string(),
            Value::Array(array) => format!("{:?}", array),
        };
        map.insert(key.as_str().to_string(), text);
    }

    assert_eq!(map.get("service.name").unwrap(), "demo");
    assert_eq!(map.get("deployment.environment").unwrap(), "staging");
}

#[test]
fn the_last_value_of_a_repeated_key_is_reported() {
    let mut owned = OwnedResourceAttrs::new();
    owned.push_owned("service.name", "first");
    owned.push_owned("service.version", "1");
    owned.push_owned("service.name", "second");
    let resource = resource_from_attrs(owned.as_slice());
    assert_eq!(resource.len(), 2);
    assert_eq!(
        resource.get("service.name".into()),
        Some(Value::String("second".into()))
    );
    assert!(resource.schema_url().is_none());
}

#[test]
fn a_trace_context_comes_back_as_it_was() {
    let parent = context(vec![entry("vendor", "a:b"), entry("t1@sys", ""), entry("x-1_/*", "ü")]);
    let parts = trace_context_to_otel(&parent).expect("accepted");
    assert_eq!(parts.trace_id, [7; 16]);
    assert_eq!(parts.span_id, [3; 8]);
    assert_eq!(parts.trace_flags, 1);
    assert!(parts.is_remote);
    assert_eq!(parts.trace_state.header(), "vendor=a:b,t1@sys=,x-1_/*=ü");

    let entries = read_trace_state(&parts.trace_state);
    let back = trace_context_from_otel(&parts, Ok(entries)).expect("taken");
    assert_eq!(back.trace_id, parent.trace_id);
    assert_eq!(back.span_id, parent.span_id);
    assert_eq!(back.trace_flags, parent.trace_flags);
    assert_eq!(back.trace_state, parent.trace_state);
}

#[test]
fn an_empty_trace_state_comes_back_empty() {
    let parts = trace_context_to_otel(&context(Vec::new())).expect("accepted");
    assert_eq!(parts.trace_state.header(), "");
    assert!(read_trace_state(&parts.trace_state).is_empty());
}

#[test]
fn the_first_bad_entry_is_told() {
    let parent = context(vec![entry("ok", "1"), entry("Bad", "2"), entry("worse=", "3")]);
    let error = trace_context_to_otel(&parent).expect_err("refused");
    assert_eq!(
        error.to_text(),
        "TraceState 互转失败: 构造 otel TraceState 失败: Bad is not a valid key in TraceState, \
see https://www.w3.org/TR/trace-context/#key for more details"
    );
    let parent = context(vec![entry("ok", "1,2")]);
    let error = trace_context_to_otel(&parent).expect_err("refused");
    assert_eq!(
        error,
        Error::TraceStateConversion(
            "构造 otel TraceState 失败: 1,2 is not a valid value in TraceState, \
see https://www.w3.org/TR/trace-context/#value for more details"
                .to_string()
        )
    );
}

#[test]
fn keys_are_taken_by_the_rules_of_trace_states() {
    let long = "k".repeat(256);
    let taken = ["", "a", "0", "a@b", "tenant1@system", &long];
    for key in taken {
        assert!(trace_context_to_otel(&context(vec![entry(key, "v")])).is_ok(), "{key}");
    }
    let too_long = "k".repeat(257);
    let vendor_too_long = format!("a@b{}", "c".repeat(14));
    let refused = ["A", "_a", "@a", "a@", "a@@b", "a@_b", "a b", "é", &too_long, &vendor_too_long];
    for key in refused {
        let accepted = trace_context_to_otel(&context(vec![entry(key, "v")])).is_ok();
        assert_eq!(accepted, key == "a@", "{key}");
    }
    let bytes = "é".repeat(128);
    assert!(trace_context_to_otel(&context(vec![entry("k", &bytes)])).is_ok());
    let bytes = "é".repeat(129);
    assert!(trace_context_to_otel(&context(vec![entry("k", &bytes)])).is_err());
    assert!(trace_context_to_otel(&context(vec![entry("k", "a=b")])).is_err());
}

#[test]
fn a_header_is_read_member_by_member() {
    assert_eq!(
        parse_header("a=1,b,c=2=3,,=,"),
        vec![entry("a", "1"), entry("c", "2=3"), entry("", "")]
    );
    assert!(parse_header("").is_empty());
}

#[test]
fn entries_that_the_pipeline_refuses_are_an_error() {
    let parts = trace_context_to_otel(&context(Vec::new())).expect("accepted");
    let error = trace_context_from_otel(&parts, Err("too many".to_string())).expect_err("refused");
    assert_eq!(
        error,
        Error::TraceStateConversion("otel TraceState -> spark 失败: too many".to_string())
    );
}

#[test]
fn installation_goes_step_by_step() {
    let state = |installed, subscriber_set| TracingState {
        installed,
        subscriber_set,
        handler_tracer_set: installed,
    };
    assert_eq!(begin_install(&state(false, false)), InstallStep::SetSubscriber);
    assert_eq!(
        begin_install(&state(true, true)),
        InstallStep::Failed(Error::AlreadyInstalled)
    );
    assert_eq!(
        begin_install(&state(false, true)),
        InstallStep::Failed(Error::SubscriberAlreadySet)
    );
    assert_eq!(after_set_subscriber(Ok(())), InstallStep::InstallHandlerTracer);
    assert_eq!(
        after_set_subscriber(Err("taken".to_string())),
        InstallStep::Failed(Error::SetGlobalSubscriber("taken".to_string()))
    );
    assert_eq!(after_install_handler_tracer(true), InstallStep::KeepState);
    assert_eq!(
        after_install_handler_tracer(false),
        InstallStep::Failed(Error::HandlerTracerInstalled)
    );
    assert_eq!(after_keep_state(true), InstallStep::Finished);
    assert_eq!(after_keep_state(false), InstallStep::Failed(Error::AlreadyInstalled));
}

#[test]
fn tracing_is_installed_once() {
    let fresh =
        TracingState { subscriber_set: false, handler_tracer_set: false, installed: false };
    let mut state = fresh;
    assert_eq!(install(&mut state, Ok(())), Ok(()));
    let installed =
        TracingState { subscriber_set: true, handler_tracer_set: true, installed: true };
    assert_eq!(state, installed);
    for _ in 0..3 {
        assert_eq!(install(&mut state, Ok(())), Err(Error::AlreadyInstalled));
        assert_eq!(state, installed);
    }

    let foreign = TracingState { subscriber_set: true, ..fresh };
    let mut state = foreign;
    assert_eq!(install(&mut state, Ok(())), Err(Error::SubscriberAlreadySet));
    assert_eq!(state, foreign);

    let mut state = TracingState { handler_tracer_set: true, ..fresh };
    assert_eq!(install(&mut state, Ok(())), Err(Error::HandlerTracerInstalled));
    assert!(state.subscriber_set && !state.installed);

    let mut state = fresh;
    assert_eq!(
        install(&mut state, Err("raced".to_string())),
        Err(Error::SetGlobalSubscriber("raced".to_string()))
    );
    assert_eq!(install(&mut state, Ok(())), Err(Error::SubscriberAlreadySet));
}

struct AtMost(usize);

impl TraceStateRules for AtMost {
    fn check(&self, entries: &Vec<TraceStateEntry>) -> Result<(), String> {
        if entries.len() <= self.0 {
            Ok(())
        } else {
            Err(format!("{} entries", entries.len()))
        }
    }
}

#[test]
fn a_span_context_is_carried_back_as_the_pipeline_takes_it() {
    let parent = context(vec![entry("a", "1"), entry("b", "2")]);
    let parts = trace_context_to_otel(&parent).expect("accepted");
    let back = carry_back(&parts, &AtMost(2)).expect("taken");
    assert_eq!(back.trace_id, parent.trace_id);
    assert_eq!(back.span_id, parent.span_id);
    assert_eq!(back.trace_flags, parent.trace_flags);
    assert_eq!(back.trace_state, parent.trace_state);
    assert_eq!(
        carry_back(&parts, &AtMost(1)).expect_err("too many"),
        Error::TraceStateConversion("otel TraceState -> spark 失败: 2 entries".to_string())
    );
}

#[test]
fn errors_read_as_documented() {
    assert_eq!(
        Error::AlreadyInstalled.to_text(),
        "spark-otel 已完成安装，禁止重复调用 install"
    );
    assert_eq!(
        Error::SubscriberAlreadySet.to_text(),
        "全局 tracing Subscriber 已存在，spark-otel 无法覆盖"
    );
    assert_eq!(
        Error::HandlerTracerInstalled.to_text(),
        "spark-core 已注册其他 HandlerSpanTracer"
    );
    assert_eq!(
        Error::SetGlobalSubscriber("x".to_string()).to_text(),
        "设置 tracing 全局 Subscriber 失败: x"
    );
}

#[test]
fn a_span_tells_which_handler_it_is_for() {
    let params = HandlerSpanParams {
        direction: HandlerDirection::Inbound,
        label: "router.l2".to_string(),
        descriptor: InitializerDescriptor::new(
            "demo".to_string(),
            "routing".to_string(),
            "picks a route".to_string(),
        ),
    };
    let plan = plan_span(&params);
    assert_eq!(plan.name, "spark.pipeline.inbound.demo");
    assert_eq!(plan.kind, SpanKind::Server);
    let attributes: Vec<(&str, &str)> =
        plan.attributes.iter().map(|a| (a.key, a.value.as_str())).collect();
    assert_eq!(
        attributes,
        vec![
            (ATTR_DIRECTION, "inbound"),
            (ATTR_LABEL, "router.l2"),
            (ATTR_COMPONENT, "demo"),
            (ATTR_CATEGORY, "routing"),
            (ATTR_SUMMARY, "picks a route"),
        ]
    );
    assert_eq!(direction_tag(HandlerDirection::Outbound), "outbound");
    assert_eq!(otel_span_kind(HandlerDirection::Outbound), SpanKind::Client);
    assert_eq!(direction_tag(HandlerDirection::Bidirectional), "unspecified");
    assert_eq!(otel_span_kind(HandlerDirection::Bidirectional), SpanKind::Internal);
}

#[test]
fn a_failed_span_falls_back_to_a_child_in_the_same_trace() {
    let parent = context(vec![entry("k", "v")]);
    let span = fallback_span(&parent, [9; 8]);
    assert_eq!(span.trace_context.trace_id, parent.trace_id);
    assert_eq!(span.trace_context.span_id, [9; 8]);
    assert_eq!(span.trace_context.trace_flags, parent.trace_flags);
    assert_eq!(span.trace_context.trace_state, parent.trace_state);
    assert!(!span.recorded);

    let span = start_span(Err(Error::AlreadyInstalled), &parent, [8; 8]);
    assert_eq!(span.trace_context.span_id, [8; 8]);
    assert!(!span.recorded);
    let span = start_span(Ok(context(Vec::new())), &parent, [8; 8]);
    assert_eq!(span.trace_context.span_id, [3; 8]);
    assert!(span.recorded);
}

#[test]
fn exported_spans_are_kept_in_order_until_reset() {
    let mut exporter = InMemorySpanExporter::new();
    exporter.export(vec![1, 2]);
    exporter.export(vec![3]);
    assert_eq!(exporter.get_finished_spans(), &vec![1, 2, 3]);
    exporter.reset();
    assert!(exporter.get_finished_spans().is_empty());
    exporter.export(vec![4]);
    exporter.shutdown();
    assert!(exporter.get_finished_spans().is_empty());
}
