use std::sync::Arc;

use spark::buffer::readable::OwnedReadableBuffer;
use spark::error::{CoreError, ErrorCode};
use spark::hosting::ember::EmberServer;
use spark::hosting::examples::{
    example_handshake, resolve_initializer, resolve_service_instance, AppRouterHandler, Capability,
    CapabilityBitmap, ChainSide, CodecHandler, ExamplesServer, HandlerAction, HandlerKind,
    InitializerSelectorContext, MyInitializer, ResolvedInitializer, ServiceAdapterHandler,
    WriteSignal,
};
use spark::hosting::host::{
    BuildReport, ConfigurationHandle, Host, HostSummary, MiddlewareRegistry, ServiceEntry,
    ServiceRegistry,
};
use spark::observability::LogLevel;
use spark::pipeline::descriptor::InitializerDescriptor;
use spark::pipeline::message::{PipelineMessage, UserMessage};
use spark::runtime::configuration::ResolvedConfiguration;
use spark::router::context::TraceRef;

fn host() -> Host {
    let mut services = ServiceRegistry::new();
    services.insert("echo".to_string(), ServiceEntry::Instance(5));
    services.insert("made".to_string(), ServiceEntry::Factory(6));
    let mut middleware = MiddlewareRegistry::new();
    middleware.insert("full".to_string(), 100);
    Host::new(
        ConfigurationHandle { profile: "dev".to_string() },
        ResolvedConfiguration::new(),
        BuildReport { sources: vec!["file".to_string()] },
        services,
        middleware,
    )
}

fn error() -> CoreError {
    CoreError::new(ErrorCode::Named("x"), "y".to_string())
}

fn descriptor(name: &str) -> InitializerDescriptor {
    InitializerDescriptor::new(name.to_string(), "codec".to_string(), "s".to_string())
}

const TRACE: TraceRef = TraceRef { trace_id: 4, span_id: 5, flags: 1 };

fn messages(actions: &[HandlerAction]) -> Vec<String> {
    actions
        .iter()
        .map(|action| match action {
            HandlerAction::Log(record) => {
                assert_eq!(record.trace, TRACE);
                format!("{:?}: {}", record.level, record.message)
            }
            HandlerAction::ForwardRead(_) => "forward".to_string(),
            HandlerAction::CloseGraceful { code, message } => format!("{code} {message}"),
        })
        .collect()
}

#[test]
fn a_host_shows_what_is_registered() {
    let mut host = host();
    assert_eq!(
        host.summary(),
        HostSummary { profile: "dev".to_string(), service_count: 2, middleware_count: 1 }
    );
    host.configuration_handle().profile = "prod".to_string();
    assert_eq!(host.summary().profile, "prod");
    assert!(host.initial_configuration().get("a").is_none());
    assert_eq!(host.configuration_report().sources, vec!["file".to_string()]);
    assert_eq!(host.services().get("echo"), Some(&ServiceEntry::Instance(5)));
    assert_eq!(host.middleware().get("full"), Some(&100));
}

#[test]
fn a_server_keeps_its_listener_once_it_runs() {
    let mut server: EmberServer<&str, u16, &str, u8> =
        EmberServer::new("services", 80, Arc::new("tcp"));
    assert_eq!(server.listen_request(), (&80, &Arc::new("tcp")));
    assert!(server.run(Err(error())).is_err());
    assert!(server.run(Ok(3)).is_ok());
    assert_eq!(*server.services(), "services");
    assert!(format!("{:?}", server).contains("Some(3)"));
}

#[test]
fn a_handshake_agrees_on_exactly_what_was_given() {
    let outcome = example_handshake(&[Capability::Multiplexing, Capability::Multiplexing]);
    assert_eq!(outcome.version, (1, 0, 0));
    assert!(outcome.capabilities.contains(Capability::Multiplexing));
    assert!(!outcome.capabilities.contains(Capability::Other(3)));
    assert!(outcome.downgraded.0.is_subset_of(&CapabilityBitmap::empty()));
    let mut larger = CapabilityBitmap::empty();
    larger.insert(Capability::Other(3));
    assert!(!outcome.capabilities.is_subset_of(&larger));
    larger.insert(Capability::Multiplexing);
    assert!(outcome.capabilities.is_subset_of(&larger));
}

#[test]
fn multiplexing_picks_the_full_chain() {
    let host = host();
    let selectors = InitializerSelectorContext::new(&host, "full", "minimal", 5);
    let outcome = example_handshake(&[Capability::Other(1), Capability::Multiplexing]);
    assert!(matches!(selectors.select(&outcome), ResolvedInitializer::Registered(100)));
    let outcome = example_handshake(&[Capability::Other(1)]);
    match selectors.select(&outcome) {
        ResolvedInitializer::Made(made) => {
            assert_eq!(made.descriptor().name(), "spark.examples.pipeline.minimal");
            assert_eq!(made.descriptor().category(), "codec");
            assert_eq!(made.configure().expect("steps").len(), 3);
        }
        other => panic!("not made: {other:?}"),
    }
}

#[test]
fn an_unknown_label_gets_an_initializer_of_its_own() {
    let registry = MiddlewareRegistry::new();
    match resolve_initializer(&registry, "full", 5, true) {
        ResolvedInitializer::Made(made) => {
            assert_eq!(made.descriptor().name(), "spark.examples.pipeline.full");
            assert_eq!(made.descriptor().category(), "routing");
            assert_eq!(
                made.descriptor().summary(),
                "全功能链路：编解码 + 应用路由 + Service 适配"
            );
        }
        other => panic!("not made: {other:?}"),
    }
}

#[test]
fn a_chain_is_built_in_order() {
    let initializer = MyInitializer::new("demo".to_string(), true, 5);
    let steps = initializer.configure().expect("steps");
    let labels: Vec<&str> = steps.iter().map(|step| step.label).collect();
    assert_eq!(labels, vec!["codec.inbound", "codec.outbound", "router.l2", "service.adapter"]);
    assert_eq!(steps[1].side, ChainSide::Outbound);
    assert_eq!(steps[2].kind, HandlerKind::AppRouter);
    assert_eq!(steps[2].descriptor.name(), "spark.examples.router");
    assert_eq!(steps[3].kind, HandlerKind::ServiceAdapter(5));
    assert_eq!(steps[3].descriptor.category(), "service");
    let initializer = MyInitializer::new("demo".to_string(), false, 5);
    let labels: Vec<&str> =
        initializer.configure().expect("steps").iter().map(|step| step.label).collect();
    assert_eq!(labels, vec!["codec.inbound", "codec.outbound", "service.adapter"]);
}

#[test]
fn a_service_is_there_or_made() {
    let host = host();
    assert_eq!(
        resolve_service_instance(host.services(), "echo"),
        Some(ServiceEntry::Instance(5))
    );
    assert_eq!(resolve_service_instance(host.services(), "made"), Some(ServiceEntry::Factory(6)));
    assert_eq!(resolve_service_instance(host.services(), "absent"), None);
}

#[test]
fn the_codec_passes_messages_on() {
    let codec = CodecHandler::new(descriptor("demo"));
    assert_eq!(codec.describe_inbound().name(), "demo.inbound");
    assert_eq!(
        codec.describe_outbound().summary(),
        "outbound stage of the teaching codec handler"
    );
    assert_eq!(codec.describe_outbound().category(), "codec");
    assert_eq!(messages(&codec.on_channel_active(&TRACE)), vec!["Info: codec handler activated"]);
    let user = || PipelineMessage::User(UserMessage { kind: "k".to_string(), number: 1 });
    let raw = || PipelineMessage::Buffer(OwnedReadableBuffer::new(vec![1]));
    assert_eq!(messages(&codec.on_read(raw())), vec!["forward"]);
    assert_eq!(
        messages(&codec.on_exception_caught(error(), &TRACE)),
        vec![
            "Error: codec handler encountered error",
            "spark.examples.codec.error codec error",
        ]
    );
    assert_eq!(
        messages(&codec.on_channel_inactive(&TRACE)),
        vec!["Debug: codec handler channel inactive"]
    );
    assert_eq!(codec.on_write(&user()), Ok(WriteSignal::AcceptedAndFlushed));
    assert_eq!(codec.on_write(&raw()), Ok(WriteSignal::Accepted));
}

#[test]
fn the_router_warns_of_messages_without_a_kind() {
    let router = AppRouterHandler::new(descriptor("router"));
    assert_eq!(router.describe().name(), "router");
    let user = PipelineMessage::User(UserMessage { kind: "k".to_string(), number: 1 });
    assert_eq!(
        messages(&router.on_read(user, &TRACE)),
        vec!["Debug: app-router inspected inbound metadata", "forward"]
    );
    let raw = PipelineMessage::Buffer(OwnedReadableBuffer::new(vec![1]));
    assert_eq!(
        messages(&router.on_read(raw, &TRACE)),
        vec![
            "Debug: app-router inspected inbound metadata",
            "Warn: app-router received message without user metadata",
            "forward",
        ]
    );
    let actions = router.on_exception_caught(error(), &TRACE);
    assert_eq!(messages(&actions), vec!["Error: app-router handler failed"]);
}

#[test]
fn the_service_adapter_notes_requests() {
    let adapter = ServiceAdapterHandler::new(descriptor("adapter"), 5);
    assert_eq!(adapter.describe().name(), "adapter");
    let raw = PipelineMessage::Buffer(OwnedReadableBuffer::new(vec![1]));
    assert_eq!(
        messages(&adapter.on_read(raw, &TRACE)),
        vec![
            "Info: service adapter received request; forwarding to next handler",
            "forward",
        ]
    );
    assert_eq!(
        messages(&adapter.on_exception_caught(error(), &TRACE)),
        vec!["Error: service adapter observed pipeline error"]
    );
    let actions = adapter.on_channel_inactive(&TRACE);
    assert!(matches!(
        &actions[0],
        HandlerAction::Log(record) if matches!(record.level, LogLevel::Debug)
    ));
    assert_eq!(messages(&actions), vec!["Debug: service adapter shutting down"]);
}

#[test]
fn an_example_server_runs_with_the_initializers_of_its_host() {
    let mut server: ExamplesServer<&str, u16, &str, u8> = ExamplesServer::new(
        "services",
        80,
        Arc::new("tcp"),
        host(),
        "full".to_string(),
        "minimal".to_string(),
        "made".to_string(),
    );
    assert_eq!(server.listen_request(), (&80, &Arc::new("tcp")));
    assert_eq!(server.service_name(), "made");
    assert_eq!(server.service_entry(), Some(ServiceEntry::Factory(6)));
    assert!(server.run(Err(error()), 9).is_err());
    assert!(server.run(Ok(1), 9).is_ok());
    assert_eq!(*server.services(), "services");
    let shown = format!("{:?}", server);
    assert!(shown.contains("Registered(100)"));
    assert!(shown.contains("spark.examples.pipeline.minimal"));
}
