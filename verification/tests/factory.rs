use std::sync::{Arc, Mutex};

use spark::buffer::readable::OwnedReadableBuffer;
use spark::error::{CoreError, ErrorCode};
use spark::pipeline::factory::{
    Controller, ControllerFactory, ControllerFactoryObject, ControllerHandle,
    DynControllerFactory, DynControllerFactoryAdapter, HandlerRef, UserEventRef,
};
use spark::pipeline::message::PipelineMessage;
use spark::router::context::ConnectionIntent;
use spark::transport::addr::TransportSocketAddr;
use spark::transport::channel_object::{
    DynServerChannel, DynTransportFactory, ServerChannel, TransportFactory, TransportFactoryObject,
};

#[derive(Debug)]
struct Recorder {
    calls: Mutex<Vec<String>>,
    registry: &'static str,
}

impl Recorder {
    fn new() -> Self {
        Self { calls: Mutex::new(Vec::new()), registry: "registry" }
    }

    fn note(&self, call: String) {
        self.calls.lock().expect("poisoned").push(call);
    }
}

impl Controller for Recorder {
    type HandleId = u32;
    type Middleware = &'static str;
    type Services = u8;
    type Registry = &'static str;

    fn register_inbound_handler(&self, label: &str, handler: HandlerRef) {
        self.note(format!("in {label} {handler}"));
    }

    fn register_inbound_handler_static(&self, label: &str, handler: HandlerRef) {
        self.note(format!("in-static {label} {handler}"));
    }

    fn register_outbound_handler(&self, label: &str, handler: HandlerRef) {
        self.note(format!("out {label} {handler}"));
    }

    fn register_outbound_handler_static(&self, label: &str, handler: HandlerRef) {
        self.note(format!("out-static {label} {handler}"));
    }

    fn install_middleware(&self, middleware: &&'static str, services: &u8) -> Result<(), CoreError> {
        self.note(format!("install {middleware} {services}"));
        Err(CoreError::new(ErrorCode::Named("test.refused"), "no".to_string()))
    }

    fn emit_channel_activated(&self) {
        self.note("activated".to_string());
    }

    fn emit_read(&self, message: PipelineMessage) {
        self.note(format!("read {}", message.user_kind().is_some()));
    }

    fn emit_read_completed(&self) {
        self.note("read completed".to_string());
    }

    fn emit_writability_changed(&self, is_writable: bool) {
        self.note(format!("writable {is_writable}"));
    }

    fn emit_user_event(&self, event: UserEventRef) {
        self.note(format!("event {event}"));
    }

    fn emit_exception(&self, error: CoreError) {
        self.note(format!("exception {}", error.message));
    }

    fn emit_channel_deactivated(&self) {
        self.note("deactivated".to_string());
    }

    fn registry(&self) -> &&'static str {
        &self.registry
    }

    fn add_handler_after(&self, anchor: u32, label: &str, handler: HandlerRef) -> u32 {
        self.note(format!("add {anchor} {label} {handler}"));
        anchor + 1
    }

    fn remove_handler(&self, handle: u32) -> bool {
        handle == 1
    }

    fn replace_handler(&self, handle: u32, handler: HandlerRef) -> bool {
        u64::from(handle) == handler
    }

    fn epoch(&self) -> u64 {
        9
    }
}

#[test]
fn a_handle_does_what_its_controller_does() {
    let recorder = Arc::new(Recorder::new());
    let handle = ControllerHandle::new(recorder.clone()).clone();
    handle.register_inbound_handler("a", 1);
    handle.register_inbound_handler_static("b", 2);
    handle.register_outbound_handler("c", 3);
    handle.register_outbound_handler_static("d", 4);
    assert!(handle.install_middleware(&"m", &5).is_err());
    handle.emit_channel_activated();
    handle.emit_read(PipelineMessage::Buffer(OwnedReadableBuffer::new(Vec::new())));
    handle.emit_read_completed();
    handle.emit_writability_changed(true);
    handle.emit_user_event(6);
    handle.emit_exception(CoreError::new(ErrorCode::Named("x"), "bad".to_string()));
    handle.emit_channel_deactivated();
    assert_eq!(*handle.registry(), "registry");
    assert_eq!(handle.add_handler_after(7, "e", 8), 8);
    assert!(handle.remove_handler(1));
    assert!(!handle.remove_handler(2));
    assert!(handle.replace_handler(3, 3));
    assert_eq!(handle.epoch(), 9);
    assert_eq!(handle.as_dyn().epoch(), 9);
    assert_eq!(
        recorder.calls.lock().expect("poisoned").as_slice(),
        [
            "in a 1",
            "in-static b 2",
            "out c 3",
            "out-static d 4",
            "install m 5",
            "activated",
            "read false",
            "read completed",
            "writable true",
            "event 6",
            "exception bad",
            "deactivated",
            "add 7 e 8",
        ]
    );
}

struct Building;

impl ControllerFactory for Building {
    type Controller = Recorder;
    type CoreServices = bool;

    fn build(&self, core_services: &bool) -> Result<Recorder, CoreError> {
        if *core_services {
            Ok(Recorder::new())
        } else {
            Err(CoreError::new(ErrorCode::Named("test.no_services"), "none".to_string()))
        }
    }
}

#[test]
fn an_erased_factory_builds_what_the_factory_builds() {
    let object = ControllerFactoryObject::new(Building);
    assert_eq!(object.build_dyn(&true).expect("built").epoch(), 9);
    let error = object.build_dyn(&false).expect_err("refused");
    assert_eq!(error.code, ErrorCode::Named("test.no_services"));
    let adapter = DynControllerFactoryAdapter::new(Arc::new(object));
    assert_eq!(adapter.build(&true).expect("built").epoch(), 9);
    assert!(adapter.build(&false).is_err());
    assert!(ControllerFactoryObject::new(Building).into_inner().build(&true).is_ok());
}

#[derive(Debug)]
struct Server(u16);

impl ServerChannel for Server {
    type AcceptCtx = ();
    type ShutdownCtx = ();
    type Plan = ();
    type Connection = ();

    fn scheme(&self) -> &'static str {
        "loop"
    }

    fn local_addr(&self) -> Result<TransportSocketAddr, CoreError> {
        Ok(TransportSocketAddr::V4 { addr: [127, 0, 0, 1], port: self.0 })
    }

    fn accept(&self, _ctx: &()) -> Result<((), TransportSocketAddr), CoreError> {
        Err(CoreError::new(ErrorCode::Named("test.closed"), "closed".to_string()))
    }

    fn shutdown(&self, _ctx: &(), _plan: ()) -> Result<(), CoreError> {
        Ok(())
    }
}

struct Loopback;

impl TransportFactory for Loopback {
    type Ctx = u8;
    type Config = u16;
    type Pipelines = ();
    type Discovery = &'static str;
    type Channel = String;
    type Server = Server;

    fn scheme(&self, _ctx: &u8) -> &'static str {
        "loop"
    }

    fn bind(&self, _ctx: &u8, config: u16, _pipelines: Arc<()>) -> Result<Server, CoreError> {
        if config == 0 {
            Err(CoreError::new(ErrorCode::Named("test.port"), "no port".to_string()))
        } else {
            Ok(Server(config))
        }
    }

    fn connect(
        &self,
        _ctx: &u8,
        intent: ConnectionIntent,
        discovery: Option<Arc<&'static str>>,
    ) -> Result<String, CoreError> {
        match discovery {
            Some(found) => Ok(format!("{}@{}", intent.endpoint, found)),
            None => Err(CoreError::new(ErrorCode::Named("test.lost"), "lost".to_string())),
        }
    }
}

#[test]
fn an_erased_transport_binds_and_connects() {
    let object = TransportFactoryObject::new(Loopback);
    assert_eq!(object.scheme_dyn(&0), "loop");
    let server = object.bind_dyn(&0, 7, Arc::new(())).expect("bound");
    assert_eq!(server.local_addr_dyn(&()).expect("address").to_text(), "127.0.0.1:7");
    assert!(server.accept_dyn(&()).is_err());
    assert!(object.bind_dyn(&0, 0, Arc::new(())).is_err());
    let intent = || ConnectionIntent { endpoint: "svc".to_string(), qos: None, security: None };
    let channel = object.connect_dyn(&0, intent(), Some(Arc::new("east"))).expect("connected");
    assert_eq!(*channel, "svc@east");
    assert!(object.connect_dyn(&0, intent(), None).is_err());
    assert_eq!(object.into_inner().scheme(&0), "loop");
}
