use std::sync::{Arc, Mutex};

use spark::buffer::readable::OwnedReadableBuffer;
use spark::codec::{Codec, DecodeOutcome, Decoder, Encoder};
use spark::error::{CoreError, ErrorCode, FrameworkCode};
use spark::observability::{FieldValue, LogLevel, LogRecord};
use spark::pipeline::app_router::{
    self, ApplicationRouter, ExtensionsRoutingContextBuilder, HandlerDirection, ServiceTaskStep,
};
use spark::pipeline::descriptor::InitializerDescriptor;
use spark::pipeline::extensions::{
    load_router_context, store_router_context, ChannelExtensions, RouterContextState,
};
use spark::pipeline::message::{PipelineMessage, UserMessage};
use spark::pipeline::router_handler::{
    after_service_call, flush_after_write, RouterAction, RouterHandler, ServiceStep,
};
use spark::router::catalog::{RouteCatalog, RouteDescriptor};
use spark::router::context::{
    ConnectionIntent, QualityOfService, RoutingContext, RoutingIntent, RoutingSnapshot,
    SecurityMode, TraceRef,
};
use spark::router::decision::{
    refusal_to_error, DynRouter, RouteDecision, RouteError, RouteRejection,
};
use spark::router::metadata::{MetadataKey, MetadataValue, RouteMetadata};
use spark::router::route::{RouteId, RouteKind, RoutePattern};

struct FixedRouter {
    catalog: RouteCatalog,
    asked: Mutex<Vec<String>>,
    refuse: bool,
    warnings: Vec<String>,
}

impl FixedRouter {
    fn new(refuse: bool, warnings: &[&str]) -> Self {
        Self {
            catalog: RouteCatalog::new(),
            asked: Mutex::new(Vec::new()),
            refuse,
            warnings: warnings.iter().map(|w| w.to_string()).collect(),
        }
    }
}

impl DynRouter for FixedRouter {
    fn snapshot(&self) -> RoutingSnapshot<'_> {
        RoutingSnapshot::new(&self.catalog, 7)
    }

    fn route_dyn(
        &self,
        context: RoutingContext<'_, PipelineMessage>,
    ) -> Result<RouteDecision, RouteRejection> {
        self.asked.lock().expect("poisoned").push(format!(
            "{:?} {:?} {} {:?}",
            context.request().user_kind(),
            context.intent().expected_qos(),
            context.snapshot().revision(),
            context.trace().map(|t| t.span_id)
        ));
        if self.refuse {
            return Err(RouteRejection {
                error: RouteError::NotFound { pattern: "a/b".to_string() },
                shown: "NotFound".to_string(),
            });
        }
        Ok(RouteDecision { service: 11, warnings: self.warnings.clone() })
    }
}

fn trace() -> TraceRef {
    TraceRef { trace_id: 1, span_id: 2, flags: 1 }
}

fn user(kind: &str) -> PipelineMessage {
    PipelineMessage::User(UserMessage { kind: kind.to_string(), number: 1 })
}

fn raw() -> PipelineMessage {
    PipelineMessage::Buffer(OwnedReadableBuffer::new(vec![1]))
}

fn intent() -> RoutingIntent {
    RoutingIntent::new(RoutePattern::new(RouteKind::Rpc, vec!["a".to_string(), "b".to_string()]))
        .with_expected_qos(QualityOfService::Streaming)
        .with_security_preference(SecurityMode::EnforcedTls)
}

fn channel(attributes: &[(&str, &str)]) -> ChannelExtensions {
    let mut state = RouterContextState::new(intent()).with_connection(ConnectionIntent {
        endpoint: "svc".to_string(),
        qos: None,
        security: None,
    });
    for (key, value) in attributes {
        state
            .dynamic_metadata_mut()
            .insert(MetadataKey::new(key.to_string()), MetadataValue::Text(value.to_string()));
    }
    let mut extensions = ChannelExtensions::new();
    store_router_context(&mut extensions, state);
    extensions
}

fn record(action: &RouterAction) -> &LogRecord {
    match action {
        RouterAction::Log(record) => {
            assert_eq!(record.trace, trace());
            record
        }
        other => panic!("not a record: {other:?}"),
    }
}

fn dispatched(action: &RouterAction) -> u64 {
    match action {
        RouterAction::Dispatch { service, trace: under, .. } => {
            assert_eq!(*under, trace());
            *service
        }
        other => panic!("not a dispatch: {other:?}"),
    }
}

#[test]
fn a_request_without_material_is_not_routed() {
    let router = Arc::new(FixedRouter::new(false, &[]));
    let handler = RouterHandler::new(router.clone());
    assert_eq!(handler.describe(), "router-handler");
    let actions = handler.on_read(&ChannelExtensions::new(), &trace(), user("k"));
    assert_eq!(actions.len(), 1);
    assert!(matches!(record(&actions[0]).level, LogLevel::Error));
    assert_eq!(record(&actions[0]).message, "router context missing on channel");
    assert!(router.asked.lock().expect("poisoned").is_empty());
}

#[test]
fn a_routed_request_goes_to_its_service_after_the_warnings() {
    let router = Arc::new(FixedRouter::new(false, &["slow", "old"]));
    let handler = RouterHandler::new(router.clone());
    let actions = handler.on_read(&channel(&[]), &trace(), user("k"));
    assert_eq!(actions.len(), 3);
    assert_eq!(record(&actions[0]).message, "slow");
    assert_eq!(record(&actions[1]).message, "old");
    assert!(matches!(record(&actions[1]).level, LogLevel::Warn));
    assert_eq!(dispatched(&actions[2]), 11);
    assert_eq!(
        router.asked.lock().expect("poisoned").as_slice(),
        ["Some(\"k\") Some(Streaming) 7 Some(2)".to_string()]
    );
}

#[test]
fn a_refused_request_is_logged() {
    let handler = RouterHandler::new(Arc::new(FixedRouter::new(true, &[])));
    let actions = handler.on_read(&channel(&[]), &trace(), user("k"));
    assert_eq!(actions.len(), 1);
    assert_eq!(record(&actions[0]).message, "router rejected request: NotFound");
}

#[test]
fn responses_are_written_and_failures_dropped() {
    assert!(matches!(after_service_call(Ok(user("r"))), ServiceStep::WriteAndFlush(_)));
    let error = CoreError::new(ErrorCode::Named("x"), "y".to_string());
    assert!(matches!(after_service_call(Err(error)), ServiceStep::Drop));
    assert!(flush_after_write(&Ok(())));
    let error = CoreError::new(ErrorCode::Named("x"), "y".to_string());
    assert!(!flush_after_write(&Err(error)));
}

fn application_router(
    refuse: bool,
    warnings: &[&str],
) -> ApplicationRouter<FixedRouter, ExtensionsRoutingContextBuilder> {
    ApplicationRouter::new(
        Arc::new(FixedRouter::new(refuse, warnings)),
        Arc::new(ExtensionsRoutingContextBuilder),
        InitializerDescriptor::new("app".to_string(), "routing".to_string(), "s".to_string()),
    )
}

#[test]
fn a_message_without_kind_or_attributes_is_noted() {
    let handler = application_router(false, &["a", "b"]);
    let actions = handler.on_read(&channel(&[]), &trace(), raw());
    assert_eq!(actions.len(), 3);
    let noted = record(&actions[0]);
    assert_eq!(noted.message, "application-router inspected inbound message metadata");
    assert!(matches!(noted.fields[0].value, FieldValue::Flag(false)));
    assert!(matches!(&noted.fields[1].value, FieldValue::Text(t) if t == "<unknown>"));
    let warned = record(&actions[1]);
    assert_eq!(warned.message, "application-router received decision warnings");
    assert!(matches!(&warned.fields[0].value, FieldValue::Text(t) if t == "a; b"));
    assert_eq!(dispatched(&actions[2]), 11);

    let actions = handler.on_read(&channel(&[("tenant", "x")]), &trace(), user("k"));
    assert_eq!(actions.len(), 2);
    let actions = handler.on_read(&channel(&[("tenant", "x")]), &trace(), raw());
    assert!(matches!(record(&actions[0]).fields[0].value, FieldValue::Flag(true)));
}

#[test]
fn an_application_router_logs_what_went_wrong() {
    let handler = application_router(true, &[]);
    let actions = handler.on_read(&channel(&[("tenant", "x")]), &trace(), user("k"));
    assert_eq!(actions.len(), 1);
    let refused = record(&actions[0]);
    assert_eq!(refused.message, "application-router failed to resolve route");
    let error = refused.error.as_ref().expect("error");
    assert_eq!(error.message, "route pattern `a/b` not found");

    let actions = handler.on_read(&ChannelExtensions::new(), &trace(), user("k"));
    assert_eq!(actions.len(), 1);
    let missing = record(&actions[0]);
    assert_eq!(missing.message, "application-router failed to build routing context");
    let error = missing.error.as_ref().expect("error");
    assert_eq!(error.code, ErrorCode::Framework(FrameworkCode::AppRoutingFailed));

    assert_eq!(handler.direction(), HandlerDirection::Inbound);
    assert_eq!(handler.descriptor().name(), "app");
    let shared = handler.clone_inbound().expect("shared");
    assert_eq!(shared.describe().category(), "routing");
    assert_eq!(handler.into_handler().describe().summary(), "s");
}

#[test]
fn a_service_task_writes_or_logs() {
    let under = TraceRef { trace_id: 9, span_id: 8, flags: 0 };
    assert!(matches!(
        app_router::after_service_call(Ok(user("r")), &under),
        ServiceTaskStep::Write(_)
    ));
    let error = CoreError::new(ErrorCode::Named("x"), "y".to_string());
    assert!(matches!(
        app_router::after_service_call(Err(error), &under),
        ServiceTaskStep::Log(record) if record.trace == under
    ));
    assert!(matches!(app_router::after_write(Ok(()), &under), ServiceTaskStep::Done));
    let error = CoreError::new(ErrorCode::Named("x"), "y".to_string());
    match app_router::after_write(Err(error), &under) {
        ServiceTaskStep::Log(record) => {
            assert_eq!(record.trace, under);
            let error = record.error.expect("error");
            assert_eq!(error.message, "failed to write response");
            assert_eq!(error.cause.expect("cause").message, "y");
        }
        other => panic!("not a record: {other:?}"),
    }
}

#[test]
fn every_refusal_has_an_error() {
    let inner = || CoreError::new(ErrorCode::Named("x"), "inner".to_string());
    let error = refusal_to_error(RouteError::PolicyDenied { reason: "quota".to_string() });
    assert_eq!(error.message, "route rejected by policy: quota");
    let error = refusal_to_error(RouteError::ServiceUnavailable {
        id: "a/b".to_string(),
        source: inner(),
    });
    assert_eq!(error.message, "service bound to route `a/b` is unavailable");
    assert_eq!(error.cause.expect("cause").message, "inner");
    assert_eq!(refusal_to_error(RouteError::Internal(inner())).message, "inner");
    let error = refusal_to_error(RouteError::Other { shown: "odd".to_string() });
    assert_eq!(error.message, "unexpected route error: odd");
    assert_eq!(error.code, ErrorCode::Framework(FrameworkCode::AppRoutingFailed));
}

#[test]
fn material_is_kept_on_the_channel() {
    let extensions = channel(&[("b", "2"), ("a", "1")]);
    let state = load_router_context(&extensions).expect("stored");
    assert_eq!(state.connection().expect("connection").endpoint, "svc");
    assert_eq!(*state.intent().route_kind(), RouteKind::Rpc);
    let walk: Vec<&str> = state.dynamic_metadata().iter().iter().map(|(k, _)| *k).collect();
    assert_eq!(walk, vec!["a", "b"]);
    let snapshot = state.snapshot();
    assert!(matches!(
        snapshot.dynamic_metadata.get(&MetadataKey::new("b".to_string())),
        Some(MetadataValue::Text(t)) if t == "2"
    ));
    assert!(load_router_context(&ChannelExtensions::new()).is_none());
}

#[test]
fn attributes_are_read_back() {
    let mut metadata = RouteMetadata::new();
    assert!(metadata.is_empty());
    let key = MetadataKey::new("weights".to_string());
    assert_eq!(key.as_str(), "weights");
    metadata.insert(
        key.clone(),
        MetadataValue::List(vec![MetadataValue::Integer(3), MetadataValue::Boolean(true)]),
    );
    let copy = metadata.clone();
    assert!(matches!(
        copy.get(&key),
        Some(MetadataValue::List(items)) if items.len() == 2
    ));
    metadata.insert(key.clone(), MetadataValue::Integer(4));
    assert!(matches!(metadata.get(&key), Some(MetadataValue::Integer(4))));
    assert!(metadata.get(&MetadataKey::new("other".to_string())).is_none());
}

#[test]
fn a_catalog_lists_descriptors_in_order() {
    let pattern = |s: &str| RoutePattern::new(RouteKind::Control, vec![s.to_string()]);
    let mut catalog = RouteCatalog::default();
    catalog.push(RouteDescriptor::new(pattern("a")));
    catalog.push(
        RouteDescriptor::new(pattern("b"))
            .with_id(RouteId::new(RouteKind::Control, vec!["b".to_string()]))
            .with_summary("second".to_string()),
    );
    let listed = catalog.iter();
    assert_eq!(listed.len(), 2);
    assert!(listed[0].id().is_none());
    assert!(listed[0].metadata().is_empty());
    assert!(listed[1].id().is_some());
    assert_eq!(listed[1].summary().map(String::as_str), Some("second"));
    assert_eq!(*listed[1].pattern().kind(), RouteKind::Control);
}

struct Bytes;

impl Codec for Bytes {
    type Incoming = u8;
    type Outgoing = u8;
    type Source = Vec<u8>;
    type Payload = Vec<u8>;
    type CallLimits = usize;
    type Descriptor = &'static str;

    fn descriptor(&self) -> &&'static str {
        &"bytes"
    }

    fn encode(&self, item: &u8, limits: usize) -> (Result<Vec<u8>, CoreError>, usize) {
        (Ok(vec![*item]), limits - 1)
    }

    fn decode(
        &self,
        mut source: Vec<u8>,
        limits: usize,
    ) -> (Result<DecodeOutcome<u8>, CoreError>, Vec<u8>, usize) {
        let outcome = match source.pop() {
            Some(item) => DecodeOutcome::Complete(item),
            None => DecodeOutcome::Incomplete,
        };
        (Ok(outcome), source, limits - 1)
    }
}

#[test]
fn a_codec_serves_each_direction_alone() {
    assert_eq!(*Bytes.encoder_descriptor(), "bytes");
    assert_eq!(*Bytes.decoder_descriptor(), "bytes");
    assert_eq!(Bytes.encode_item(&9, 4), (Ok(vec![9]), 3));
    assert_eq!(
        Bytes.decode_item(vec![1, 2], 4),
        (Ok(DecodeOutcome::Complete(2)), vec![1], 3)
    );
    assert_eq!(
        Bytes.decode_item(Vec::new(), 4),
        (Ok(DecodeOutcome::Incomplete), Vec::new(), 3)
    );
}

#[test]
fn keys_are_equal_and_ordered_as_their_names() {
    let key = |name: &str| MetadataKey::new(name.to_string());
    let names = ["", "a", "a.b", "ab", "b", "traffic.weight", "é", "路由", "\u{10000}"];
    for (i, left) in names.iter().enumerate() {
        assert_eq!(key(left).as_str(), *left);
        for (j, right) in names.iter().enumerate() {
            assert_eq!(key(left) == key(right), left == right);
            assert_eq!(key(left).partial_cmp(&key(right)), Some(i.cmp(&j)));
            assert_eq!(key(left).cmp(&key(right)), left.cmp(right));
            assert_eq!(key(left) < key(right), left < right);
        }
    }
}
