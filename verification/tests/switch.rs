use std::sync::{Arc, Mutex};

use spark::buffer::readable::OwnedReadableBuffer;
use spark::error::{CoreError, ErrorCode, FrameworkCode};
use spark::pipeline::message::{PipelineMessage, UserMessage};
use spark::router::decision::ServiceId;
use spark::service::{Layer, Readiness, Service};
use spark::switch::negotiation::{
    build_a_leg_answer_sdp, build_audio_state, build_b_leg_offer_sdp, filter_session_for_b_leg,
    AudioAcceptPlan, AudioAnswer, AudioNegotiationState, RtpMap, TelephoneEvent,
};
use spark::switch::proxy::{
    after_connect, after_register, build_trying_response, call_flow_offer, ensure_invite_request,
    extract_call_id, extract_offer_sdp, map_invite_parse_error, run_call_flow,
    AlegPlaceholderService, ClientFactory, ProxyContext, ProxyService, ProxyServiceFactory,
    RequestParser, SessionStore, SipPayload, SwitchError,
};
use spark::switch::sdp::{
    format_sdp, parse_payload_from_attribute, parse_payload_number, Attribute, Connection,
    MediaDesc, Origin, PayloadSelection, SessionDesc, Timing,
};
use spark::switch::session::{CallSession, LocationStore};
use spark::switch::sip::{
    collect_headers, find_call_id, write_trying, Header, HeaderSelector, Method, RequestLine,
    SipMessage, StartLine,
};

struct RecordingClientFactory {
    targets: Mutex<Vec<String>>,
}

impl RecordingClientFactory {
    fn new() -> Self {
        Self { targets: Mutex::new(Vec::new()) }
    }

    fn targets(&self) -> Vec<String> {
        self.targets.lock().expect("poisoned").clone()
    }
}

impl ClientFactory for RecordingClientFactory {
    fn connect(&self, target: &str) -> Result<ServiceId, CoreError> {
        self.targets.lock().expect("poisoned").push(target.to_owned());
        Ok(77)
    }
}

struct FailingClientFactory;

impl ClientFactory for FailingClientFactory {
    fn connect(&self, _target: &str) -> Result<ServiceId, CoreError> {
        Err(CoreError::new(ErrorCode::Named("test.unreachable"), "nobody there".to_string()))
    }
}

const INVITE: &str = "INVITE sip:bob@example.com SIP/2.0";

/// Knows one request by its text.
struct FixedParser;

impl RequestParser for FixedParser {
    fn parse_request(&self, text: &str) -> Result<SipMessage, String> {
        if text == INVITE {
            Ok(build_invite_request())
        } else {
            Err(format!("no request: {text}"))
        }
    }
}

struct Sessions {
    created: Mutex<Vec<CallSession>>,
    full: bool,
}

impl Sessions {
    fn new() -> Self {
        Self { created: Mutex::new(Vec::new()), full: false }
    }
}

impl SessionStore for Sessions {
    fn create_session(&self, session: CallSession) -> Result<(), CoreError> {
        if self.full {
            return Err(CoreError::new(ErrorCode::Named("test.full"), "no room".to_string()));
        }
        self.created.lock().expect("poisoned").push(session);
        Ok(())
    }
}

fn sample_offer_sdp() -> &'static str {
    "v=0\r\n\
o=- 0 0 IN IP4 203.0.113.1\r\n\
s=-\r\n\
c=IN IP4 203.0.113.1\r\n\
t=0 0\r\n\
m=audio 49170 RTP/AVP 0 8 101\r\n\
a=rtpmap:0 PCMU/8000\r\n\
a=rtpmap:8 PCMA/8000\r\n\
a=rtpmap:101 telephone-event/8000\r\n\
a=fmtp:101 0-15\r\n"
}

fn attribute(key: &str, value: &str) -> Attribute {
    Attribute { key: key.to_string(), value: Some(value.to_string()) }
}

fn sample_offer() -> SessionDesc {
    SessionDesc {
        version: "0".to_string(),
        origin: Origin {
            username: "-".to_string(),
            session_id: "0".to_string(),
            session_version: "0".to_string(),
            net_type: "IN".to_string(),
            addr_type: "IP4".to_string(),
            address: "203.0.113.1".to_string(),
        },
        session_name: "-".to_string(),
        connection: Some(Connection {
            net_type: "IN".to_string(),
            addr_type: "IP4".to_string(),
            address: "203.0.113.1".to_string(),
        }),
        timing: Timing { start: "0".to_string(), stop: "0".to_string() },
        attributes: Vec::new(),
        media: vec![MediaDesc {
            media: "audio".to_string(),
            port: "49170".to_string(),
            proto: "RTP/AVP".to_string(),
            formats: vec!["0".to_string(), "8".to_string(), "101".to_string()],
            connection: None,
            attributes: vec![
                attribute("rtpmap", "0 PCMU/8000"),
                attribute("rtpmap", "8 PCMA/8000"),
                attribute("rtpmap", "101 telephone-event/8000"),
                attribute("fmtp", "101 0-15"),
            ],
        }],
    }
}

fn sample_answer() -> AudioAnswer {
    AudioAnswer::Accepted(AudioAcceptPlan {
        payload_type: 0,
        rtpmap: RtpMap { encoding: "PCMU".to_string(), clock_rate: 8000, encoding_params: None },
        telephone_event: Some(TelephoneEvent {
            payload_type: 101,
            clock_rate: 8000,
            events: "0-15".to_string(),
        }),
    })
}

fn build_invite_request() -> SipMessage {
    SipMessage {
        start_line: StartLine::Request(RequestLine {
            method: Method::Invite,
            uri: "sip:bob@example.com".to_string(),
            aor: "sip:bob@example.com".to_string(),
        }),
        headers: vec![
            Header::Via("SIP/2.0/UDP client.invalid;branch=z9hG4bK776asdhds".to_string()),
            Header::From("\"Alice\" <sip:alice@example.com>;tag=1928301774".to_string()),
            Header::To("<sip:bob@example.com>".to_string()),
            Header::CallId("a84b4c76e66710".to_string()),
            Header::CSeq("314159 INVITE".to_string()),
            Header::Extension {
                name: "Contact".to_string(),
                value: "<sip:alice@client.invalid>".to_string(),
            },
        ],
        body: sample_offer_sdp().as_bytes().to_vec(),
    }
}

fn registered_store() -> Arc<LocationStore> {
    let mut store = LocationStore::new();
    store.register("sip:bob@example.com".to_string(), "sip:bob@client.invalid".to_string());
    Arc::new(store)
}

fn extract_text(message: PipelineMessage) -> String {
    match message {
        PipelineMessage::Buffer(buf) => {
            let bytes = buf.try_into_vec().expect("buffer conversion");
            String::from_utf8(bytes).expect("utf-8")
        }
        _ => panic!("unexpected message variant"),
    }
}

#[test]
fn proxy_creates_session_and_responds_trying() {
    let session_manager = Arc::new(Sessions::new());
    let service = ProxyService::new(registered_store(), Arc::clone(&session_manager));
    let factory = RecordingClientFactory::new();
    let bytes = PipelineMessage::Buffer(OwnedReadableBuffer::new(INVITE.as_bytes().to_vec()));
    let accepted =
        service.handle_message(&FixedParser, Some(&factory), bytes).expect("call success");
    assert_eq!(accepted.call_id, "a84b4c76e66710");

    let text = extract_text(accepted.response);
    assert!(text.starts_with("SIP/2.0 100"));
    assert!(text.contains("Call-ID: a84b4c76e66710"));

    let created = session_manager.created.lock().expect("poisoned");
    let session =
        created.iter().find(|s| s.call_id == "a84b4c76e66710").expect("session registered");
    assert!(session.b_leg.is_some());
    assert_eq!(session.offer_sdp.as_deref(), Some(sample_offer_sdp()));

    assert_eq!(factory.targets(), vec!["sip:bob@client.invalid".to_string()]);
}

#[test]
fn proxy_rejects_without_client_factory() {
    let session_manager = Arc::new(Sessions::new());
    let service = ProxyService::new(registered_store(), session_manager);
    let err = service
        .handle_request::<RecordingClientFactory>(None, Ok(build_invite_request()))
        .expect_err("missing factory");
    assert_eq!(err.code, ErrorCode::Named("switch.proxy.client_factory_unavailable"));
}

#[test]
fn call_flow_negotiates_audio_and_stores_plan() {
    let mut session = CallSession::new("nego-call".to_string());
    session.offer_sdp = Some(sample_offer_sdp().to_owned());

    let offer = call_flow_offer(Some(&session), "nego-call").expect("offer");
    assert_eq!(offer, sample_offer_sdp());
    let session = run_call_flow(
        Some(session),
        "nego-call",
        Ok((sample_offer(), Some(sample_answer()))),
    )
    .expect("call flow success");

    match session.audio.as_ref().expect("negotiated") {
        AudioNegotiationState::Accepted(profile) => {
            assert_eq!(profile.payload_type, 0);
            assert_eq!(profile.encoding_name, "PCMU");
            assert_eq!(profile.clock_rate, 8000);
            assert_eq!(profile.encoding_params, None);
            let events = profile.telephone_event.as_ref().map(|dtmf| dtmf.events.as_str());
            assert_eq!(events, Some("0-15"));
        }
        other => panic!("unexpected negotiation state: {other:?}"),
    }

    let expected = "v=0\r\n\
o=- 0 0 IN IP4 203.0.113.1\r\n\
s=-\r\n\
c=IN IP4 203.0.113.1\r\n\
t=0 0\r\n\
m=audio 49170 RTP/AVP 0 101\r\n\
a=rtpmap:0 PCMU/8000\r\n\
a=rtpmap:101 telephone-event/8000\r\n\
a=fmtp:101 0-15\r\n";
    assert_eq!(session.b_leg_offer_sdp.as_deref(), Some(expected));
    assert_eq!(session.b_leg_answer_sdp.as_deref(), Some(expected));
}

#[test]
fn the_provisional_response_repeats_the_headers_of_the_call() {
    let message = build_invite_request();
    let expected = "SIP/2.0 100 Trying\r\n\
Via: SIP/2.0/UDP client.invalid;branch=z9hG4bK776asdhds\r\n\
From: \"Alice\" <sip:alice@example.com>;tag=1928301774\r\n\
To: <sip:bob@example.com>\r\n\
Call-ID: a84b4c76e66710\r\n\
CSeq: 314159 INVITE\r\n";
    let text = write_trying(&message);
    assert!(text.starts_with(expected), "{text}");
    assert!(text.ends_with("\r\n\r\n"));
    assert!(!text.contains("Contact"));
    assert_eq!(extract_text(build_trying_response(&message).expect("response")), text);
    assert_eq!(find_call_id(&message).map(String::as_str), Some("a84b4c76e66710"));
    let mut vias = Vec::new();
    collect_headers(&message, HeaderSelector::Via, &mut vias);
    assert_eq!(vias.len(), 1);
    assert_eq!(Method::Invite.as_str(), "INVITE");
    assert_eq!(Method::Other("BYE".to_string()).as_str(), "BYE");
}

#[test]
fn a_target_that_nobody_registered_is_refused() {
    let service = ProxyService::new(Arc::new(LocationStore::new()), Arc::new(Sessions::new()));
    let factory = RecordingClientFactory::new();
    let err = service
        .handle_request(Some(&factory), Ok(build_invite_request()))
        .expect_err("unknown target");
    assert_eq!(err.code, ErrorCode::Named("switch.proxy.routing_failure"));
    assert!(factory.targets().is_empty());
}

#[test]
fn failures_on_the_way_are_passed_on() {
    let store = registered_store();
    let sessions = Arc::new(Sessions::new());
    let service = ProxyService::new(store.clone(), sessions.clone());
    let err = service
        .handle_request(Some(&FailingClientFactory), Ok(build_invite_request()))
        .expect_err("unreachable");
    assert_eq!(err.code, ErrorCode::Named("test.unreachable"));
    assert!(sessions.created.lock().expect("poisoned").is_empty());

    let full = Arc::new(Sessions { created: Mutex::new(Vec::new()), full: true });
    let service = ProxyServiceFactory::new(store, full).create().expect("service");
    let err = service
        .handle_request(Some(&RecordingClientFactory::new()), Ok(build_invite_request()))
        .expect_err("full");
    assert_eq!(err.code, ErrorCode::Named("test.full"));
}

#[test]
fn the_second_leg_goes_to_the_latest_contact() {
    let mut store = LocationStore::new();
    store.register("sip:bob@example.com".to_string(), "sip:bob@old.invalid".to_string());
    store.register("sip:bob@example.com".to_string(), "sip:bob@new.invalid".to_string());
    assert_eq!(store.lookup("sip:bob@example.com").map(String::as_str), Some("sip:bob@new.invalid"));
    assert!(store.lookup("sip:eve@example.com").is_none());
    let service = ProxyService::new(Arc::new(store), Arc::new(Sessions::new()));
    let factory = RecordingClientFactory::new();
    let line = RequestLine {
        method: Method::Invite,
        uri: "sip:bob@example.com".to_string(),
        aor: "sip:bob@example.com".to_string(),
    };
    assert_eq!(service.route_b_leg(&line, Some(&factory)), Ok(77));
    assert_eq!(factory.targets(), vec!["sip:bob@new.invalid".to_string()]);
    assert!(service.route_b_leg::<RecordingClientFactory>(&line, None).is_err());
}

#[test]
fn messages_that_are_no_invitation_are_refused() {
    let mut message = build_invite_request();
    message.start_line = StartLine::Response;
    let err = ensure_invite_request(&message).expect_err("a response");
    assert_eq!(err.code, ErrorCode::Named("switch.proxy.invalid_message"));
    message.start_line = StartLine::Request(RequestLine {
        method: Method::Other("OPTIONS".to_string()),
        uri: "sip:bob@example.com".to_string(),
        aor: "sip:bob@example.com".to_string(),
    });
    assert!(ensure_invite_request(&message).is_err());

    let mut message = build_invite_request();
    message.headers.remove(3);
    assert!(extract_call_id(&message).is_err());
    message.body = Vec::new();
    let err = extract_offer_sdp(&message).expect_err("no offer");
    assert_eq!(err.message, "INVITE 缺少 SDP Offer 正文，无法进入媒体协商");
    message.body = vec![0xff, 0xfe];
    let err = extract_offer_sdp(&message).expect_err("not UTF-8");
    assert_eq!(
        err.message,
        "INVITE SDP 必须为 UTF-8：invalid utf-8 sequence of 1 bytes from index 0"
    );
    let err = map_invite_parse_error("bad line");
    assert_eq!(err.code, ErrorCode::Framework(FrameworkCode::AppInvalidArgument));
    assert_eq!(err.message, "无法解析 INVITE 报文：bad line");
}

#[test]
fn a_payload_is_text_in_a_buffer() {
    let message =
        PipelineMessage::Buffer(OwnedReadableBuffer::new("路由".as_bytes().to_vec()));
    let payload = SipPayload::from_pipeline_message(message).expect("buffer");
    assert_eq!(payload.as_text().expect("text"), "路由");
    let message = PipelineMessage::Buffer(OwnedReadableBuffer::new(vec![0x41, 0xc3]));
    let payload = SipPayload::from_pipeline_message(message).expect("buffer");
    let err = payload.as_text().expect_err("cut short");
    assert_eq!(
        err.message,
        "SIP 报文必须为 UTF-8：incomplete utf-8 byte sequence from index 1"
    );
    let message = PipelineMessage::User(UserMessage { kind: "k".to_string(), number: 1 });
    assert!(SipPayload::from_pipeline_message(message).is_err());
}

#[test]
fn a_first_leg_carries_no_requests_yet() {
    let mut leg = AlegPlaceholderService;
    assert_eq!(leg.poll_ready(&()), Readiness::Ready);
    let message = PipelineMessage::Buffer(OwnedReadableBuffer::new(Vec::new()));
    let err = leg.call((), message).expect_err("no media yet");
    assert_eq!(err.code, ErrorCode::Named("switch.proxy.unimplemented"));
}

#[test]
fn a_message_is_read_before_the_parser_sees_it() {
    let sessions = Arc::new(Sessions::new());
    let service = ProxyService::new(registered_store(), sessions.clone());
    let factory = RecordingClientFactory::new();
    let decoded = PipelineMessage::User(UserMessage { kind: "k".to_string(), number: 1 });
    let err = service
        .handle_message(&FixedParser, Some(&factory), decoded)
        .expect_err("decoded already");
    assert_eq!(err.code, ErrorCode::Named("switch.proxy.invalid_message"));
    let garbled = PipelineMessage::Buffer(OwnedReadableBuffer::new(vec![0xff]));
    let err = service
        .handle_message(&FixedParser, Some(&factory), garbled)
        .expect_err("no text");
    assert_eq!(
        err.message,
        "SIP 报文必须为 UTF-8：invalid utf-8 sequence of 1 bytes from index 0"
    );
    let other = PipelineMessage::Buffer(OwnedReadableBuffer::new(b"BYE".to_vec()));
    let err = service
        .handle_message(&FixedParser, Some(&factory), other)
        .expect_err("no invitation");
    assert_eq!(err.message, "无法解析 INVITE 报文：no request: BYE");
    assert!(factory.targets().is_empty());
    assert!(sessions.created.lock().expect("poisoned").is_empty());
}

#[test]
fn a_call_goes_on_step_by_step() {
    let service = ProxyService::new(registered_store(), Arc::new(Sessions::new()));
    let prepared = service.prepare_call(Ok(build_invite_request()), true).expect("prepared");
    assert_eq!(prepared.destination, "sip:bob@client.invalid");
    assert_eq!(prepared.session.call_id, "a84b4c76e66710");
    assert_eq!(prepared.session.b_leg, None);
    assert_eq!(prepared.session.offer_sdp.as_deref(), Some(sample_offer_sdp()));
    let unreachable = || CoreError::new(ErrorCode::Named("test.unreachable"), "no".to_string());
    assert!(after_connect(prepared, Err(unreachable())).is_err());

    let err = service.prepare_call(Ok(build_invite_request()), false).expect_err("no factory");
    assert_eq!(err.code, ErrorCode::Named("switch.proxy.client_factory_unavailable"));

    let prepared = service.prepare_call(Ok(build_invite_request()), true).expect("prepared");
    let call = after_connect(prepared, Ok(5)).expect("connected");
    assert_eq!(call.session.b_leg, Some(5));
    assert_eq!(call.session.offer_sdp.as_deref(), Some(sample_offer_sdp()));
    let refused = after_register("a".to_string(), &call.invite, Err(unreachable()));
    assert_eq!(refused.expect_err("not stored").code, ErrorCode::Named("test.unreachable"));
    let accepted =
        after_register("a84b4c76e66710".to_string(), &call.invite, Ok(())).expect("stored");
    assert_eq!(accepted.call_id, "a84b4c76e66710");
    assert!(extract_text(accepted.response).starts_with("SIP/2.0 100"));
}

/// Counts the requests that pass.
struct Counting<S> {
    inner: S,
    calls: u32,
}

impl<S: Service<PipelineMessage, C>, C> Service<PipelineMessage, C> for Counting<S> {
    type Response = S::Response;
    type Error = S::Error;
    type Future = S::Future;

    fn poll_ready(&mut self, ctx: &C) -> Readiness<S::Error> {
        self.inner.poll_ready(ctx)
    }

    fn call(&mut self, ctx: C, request: PipelineMessage) -> S::Future {
        self.calls += 1;
        self.inner.call(ctx, request)
    }
}

struct CountingLayer;

impl<S: Service<PipelineMessage, C>, C> Layer<S, PipelineMessage, C> for CountingLayer {
    type Service = Counting<S>;

    fn layer(&self, inner: S) -> Counting<S> {
        Counting { inner, calls: 0 }
    }
}

#[test]
fn a_layer_stands_around_the_proxy() {
    type Context = ProxyContext<FixedParser, RecordingClientFactory>;
    let proxy = ProxyService::new(registered_store(), Arc::new(Sessions::new()));
    let mut service = Layer::<_, _, Context>::layer(&CountingLayer, proxy);
    let context = || ProxyContext {
        parser: FixedParser,
        client_factory: Some(RecordingClientFactory::new()),
    };
    let bytes = |text: &str| {
        PipelineMessage::Buffer(OwnedReadableBuffer::new(text.as_bytes().to_vec()))
    };
    assert!(matches!(service.poll_ready(&context()), Readiness::Ready));
    assert_eq!(service.call(context(), bytes(INVITE)).expect("taken").call_id, "a84b4c76e66710");
    assert!(service.call(context(), bytes("BYE")).is_err());
    let without = ProxyContext { parser: FixedParser, client_factory: None };
    let without: Context = without;
    assert!(service.call(without, bytes(INVITE)).is_err());
    assert_eq!(service.calls, 3);
}

#[test]
fn a_description_is_written_line_by_line() {
    assert_eq!(format_sdp(&sample_offer()), sample_offer_sdp());
}

#[test]
fn other_media_pass_untouched_and_cutting_twice_changes_nothing() {
    let mut offer = sample_offer();
    offer.media.push(MediaDesc {
        media: "video".to_string(),
        port: "51372".to_string(),
        proto: "RTP/AVP".to_string(),
        formats: vec!["31".to_string()],
        connection: None,
        attributes: vec![attribute("rtpmap", "31 H261/90000")],
    });
    let selection = PayloadSelection { audio: 8, dtmf: None };
    let once = filter_session_for_b_leg(&offer, &selection);
    assert_eq!(once.media[0].formats, vec!["8".to_string()]);
    assert_eq!(once.media[0].attributes.len(), 1);
    assert_eq!(once.media[1].formats, vec!["31".to_string()]);
    assert_eq!(once.media[1].attributes.len(), 1);
    let twice = filter_session_for_b_leg(&once, &selection);
    assert_eq!(format_sdp(&twice), format_sdp(&once));
    assert!(selection.allows(8));
    assert!(!selection.allows(0));
    assert!(!selection.is_dtmf(101));
}

#[test]
fn without_agreement_there_is_no_text() {
    for answer in [None, Some(AudioAnswer::Rejected)] {
        let state = build_audio_state(answer);
        assert!(build_b_leg_offer_sdp(&sample_offer(), &state).is_none());
        assert!(build_a_leg_answer_sdp(&sample_offer(), &state).is_none());
    }
    let mut silent = sample_offer();
    silent.media.clear();
    let state = build_audio_state(Some(sample_answer()));
    assert!(build_a_leg_answer_sdp(&silent, &state).is_none());
}

#[test]
fn payload_numbers_are_read_from_formats_and_attributes() {
    assert_eq!(parse_payload_number("101"), Some(101));
    assert_eq!(parse_payload_number("300"), None);
    assert_eq!(parse_payload_from_attribute(&attribute("rtpmap", "8 PCMA/8000")), Some(8));
    assert_eq!(parse_payload_from_attribute(&attribute("fmtp", "x 0-15")), None);
    let bare = Attribute { key: "rtpmap".to_string(), value: None };
    assert_eq!(parse_payload_from_attribute(&bare), None);
}

#[test]
fn a_call_flow_needs_a_call_and_an_offer() {
    assert_eq!(
        call_flow_offer(None, "x"),
        Err(SwitchError::SessionNotFound { call_id: "x".to_string() })
    );
    let session = CallSession::new("x".to_string());
    assert_eq!(
        call_flow_offer(Some(&session), "x"),
        Err(SwitchError::Internal {
            detail: "call flow missing SDP offer before negotiation for Call-ID `x`".to_string()
        })
    );
    assert_eq!(
        run_call_flow(Some(session), "x", Err("line 3".to_string())).expect_err("unreadable"),
        SwitchError::ServiceFailure {
            context: "proxy.call_flow.offer.parse".to_string(),
            detail: "failed to parse SDP offer: line 3".to_string(),
        }
    );
    assert_eq!(
        run_call_flow(None, "x", Ok((sample_offer(), None))).expect_err("gone"),
        SwitchError::SessionNotFound { call_id: "x".to_string() }
    );
}
