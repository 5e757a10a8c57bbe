//! The proxy between two call legs: it takes an invitation, connects the second leg, registers
//! the call, and negotiates media.
use std::sync::Arc;

use vstd::prelude::*;
use vstd::utf8::{decode_utf8, encode_utf8, valid_utf8};

use crate::buffer::readable::OwnedReadableBuffer;
use crate::error::{plain_error, CoreError, ErrorCode, ErrorView, FrameworkCode};
use crate::pipeline::message::PipelineMessage;
use crate::router::decision::ServiceId;
use crate::service::{Readiness, Service};
use crate::switch::negotiation::{
    a_leg_answer, b_leg_offer, build_a_leg_answer_sdp, build_audio_state, build_b_leg_offer_sdp,
    state_of, AudioAnswer,
};
use crate::switch::sdp::SessionDesc;
use crate::switch::session::{fresh_call, CallSession, CallView, LocationStore};
use crate::switch::sip::{
    call_id_of, find_call_id, header_views, trying_text, write_trying, Method, RequestLine,
    SipMessage, StartLine,
};

verus! {

/// The text of the error for bytes that are not UTF-8.
pub uninterp spec fn utf8_error_text(bytes: Seq<u8>) -> Seq<char>;

/// `core::str::from_utf8`, and the display form of its error: bytes that are valid UTF-8 are
/// decoded, and others are refused with a text that depends on the bytes alone.
#[verifier::external_body]
fn decode_text(bytes: &[u8]) -> (text: Result<String, String>)
    ensures
        text is Ok <==> valid_utf8(bytes@),
        text is Ok ==> text->Ok_0@ == decode_utf8(bytes@),
        text is Err ==> text->Err_0@ == utf8_error_text(bytes@),
{
    match core::str::from_utf8(bytes) {
        Ok(text) => Ok(text.to_owned()),
        Err(error) => Err(format!("{error}")),
    }
}

/// The code of an error about a message that the proxy cannot work with.
pub open spec fn invalid_message(message: Seq<char>) -> ErrorView {
    plain_error(ErrorCode::Named("switch.proxy.invalid_message"), message)
}

/// The code of an error about bytes or texts that cannot be read.
pub open spec fn invalid_argument(message: Seq<char>) -> ErrorView {
    plain_error(ErrorCode::Framework(FrameworkCode::AppInvalidArgument), message)
}

/// The error where no client factory is at hand.
pub open spec fn client_factory_unavailable() -> ErrorView {
    plain_error(
        ErrorCode::Named("switch.proxy.client_factory_unavailable"),
        "CallContext 未注入 ClientFactory，无法建立 B-leg"@,
    )
}

/// The error where the target is not registered.
pub open spec fn routing_failure() -> ErrorView {
    plain_error(
        ErrorCode::Named("switch.proxy.routing_failure"),
        "Registrar 未命中，且 DynRouter 功能尚未在 spark-core 中开放"@,
    )
}

fn invalid_message_error(message: &str) -> (error: CoreError)
    ensures
        error@ == invalid_message(message@),
{
    CoreError::new(ErrorCode::Named("switch.proxy.invalid_message"), message.to_owned())
}

fn invalid_argument_error(prefix: &str, detail: &str) -> (error: CoreError)
    ensures
        error@ == invalid_argument(prefix@ + detail@),
{
    let mut message = prefix.to_owned();
    message.append(detail);
    CoreError::new(ErrorCode::Framework(FrameworkCode::AppInvalidArgument), message)
}

fn no_client_factory() -> (error: CoreError)
    ensures
        error@ == client_factory_unavailable(),
{
    CoreError::new(
        ErrorCode::Named("switch.proxy.client_factory_unavailable"),
        "CallContext 未注入 ClientFactory，无法建立 B-leg".to_owned(),
    )
}

/// The bytes of a signalling message, taken off the pipeline.
#[derive(Debug)]
pub struct SipPayload {
    bytes: Vec<u8>,
}

impl View for SipPayload {
    type V = Seq<u8>;

    closed spec fn view(&self) -> Seq<u8> {
        self.bytes@
    }
}

impl SipPayload {
    /// Takes the bytes out of a pipeline message; one that was decoded already is refused.
    pub fn from_pipeline_message(message: PipelineMessage) -> (r: Result<SipPayload, CoreError>)
        ensures
            r is Ok <==> message is Buffer,
            r is Ok ==> r->Ok_0@ == message->Buffer_0@,
            r is Err ==> r->Err_0@ == invalid_message("Proxy 仅支持字节缓冲消息"@),
    {
        match message {
            PipelineMessage::Buffer(buffer) => match buffer.try_into_vec() {
                Ok(bytes) => Ok(SipPayload { bytes }),
                Err(error) => Err(error),
            },
            PipelineMessage::User(_) => Err(
                invalid_message_error("Proxy 仅支持字节缓冲消息"),
            ),
        }
    }

    /// The bytes as text, where they are UTF-8.
    pub fn as_text(&self) -> (r: Result<String, CoreError>)
        ensures
            r is Ok <==> valid_utf8(self@),
            r is Ok ==> r->Ok_0@ == decode_utf8(self@),
            r is Err ==> r->Err_0@ == invalid_argument(
                "SIP 报文必须为 UTF-8："@ + utf8_error_text(self@),
            ),
    {
        match decode_text(&self.bytes) {
            Ok(text) => Ok(text),
            Err(detail) => Err(invalid_argument_error("SIP 报文必须为 UTF-8：", detail.as_str())),
        }
    }
}

/// What is said of a request that is not an invitation; nothing of one that is.
pub open spec fn invite_objection(start_line: StartLine) -> Option<ErrorView> {
    match start_line {
        StartLine::Request(line) => match line.method {
            Method::Invite => None,
            Method::Other(name) => Some(
                invalid_message("Proxy 当前仅支持 INVITE，请求方法为 "@ + name@),
            ),
        },
        StartLine::Response => Some(invalid_message("Proxy 期望 SIP 请求而非响应"@)),
    }
}

/// The request line of an invitation; anything else is refused.
pub fn ensure_invite_request(message: &SipMessage) -> (r: Result<&RequestLine, CoreError>)
    ensures
        r is Ok <==> invite_objection(message.start_line) is None,
        r is Ok ==> message.start_line == StartLine::Request(*r->Ok_0),
        r is Err ==> Some(r->Err_0@) == invite_objection(message.start_line),
{
    match &message.start_line {
        StartLine::Request(line) => match &line.method {
            Method::Invite => Ok(line),
            Method::Other(name) => {
                let mut text = "Proxy 当前仅支持 INVITE，请求方法为 ".to_owned();
                text.append(name.as_str());
                Err(invalid_message_error(text.as_str()))
            },
        },
        StartLine::Response => Err(invalid_message_error("Proxy 期望 SIP 请求而非响应")),
    }
}

/// The call id of an invitation; one without is refused.
pub fn extract_call_id(message: &SipMessage) -> (r: Result<String, CoreError>)
    ensures
        r is Ok <==> call_id_of(header_views(message.headers@)) is Some,
        r is Ok ==> Some(r->Ok_0@) == call_id_of(header_views(message.headers@)),
        r is Err ==> r->Err_0@ == invalid_message("INVITE 缺少 Call-ID 头，无法创建会话"@),
{
    match find_call_id(message) {
        Some(call_id) => Ok(call_id.clone()),
        None => Err(invalid_message_error("INVITE 缺少 Call-ID 头，无法创建会话")),
    }
}

/// What is said of a body that is no offer; nothing of one that is.
pub open spec fn offer_objection(body: Seq<u8>) -> Option<ErrorView> {
    if body.len() == 0 {
        Some(invalid_message("INVITE 缺少 SDP Offer 正文，无法进入媒体协商"@))
    } else if !valid_utf8(body) {
        Some(invalid_argument("INVITE SDP 必须为 UTF-8："@ + utf8_error_text(body)))
    } else {
        None
    }
}

/// The offer in the body of an invitation; an empty body, or one that is not UTF-8, is refused.
pub fn extract_offer_sdp(message: &SipMessage) -> (r: Result<String, CoreError>)
    ensures
        r is Ok <==> offer_objection(message.body@) is None,
        r is Ok ==> r->Ok_0@ == decode_utf8(message.body@),
        r is Err ==> Some(r->Err_0@) == offer_objection(message.body@),
{
    if message.body.len() == 0 {
        return Err(
            invalid_message_error("INVITE 缺少 SDP Offer 正文，无法进入媒体协商"),
        );
    }
    match decode_text(&message.body) {
        Ok(text) => Ok(text),
        Err(detail) => Err(invalid_argument_error("INVITE SDP 必须为 UTF-8：", detail.as_str())),
    }
}

/// The error for a message that the parser could not make sense of.
pub fn map_invite_parse_error(detail: &str) -> (error: CoreError)
    ensures
        error@ == invalid_argument("无法解析 INVITE 报文："@ + detail@),
{
    invalid_argument_error("无法解析 INVITE 报文：", detail)
}

/// The provisional response to a request, ready to be sent.
pub fn build_trying_response(message: &SipMessage) -> (r: Result<PipelineMessage, CoreError>)
    ensures
        r is Ok,
        r->Ok_0 is Buffer,
        r->Ok_0->Buffer_0@ == encode_utf8(trying_text(header_views(message.headers@))),
{
    let text = write_trying(message);
    Ok(PipelineMessage::Buffer(OwnedReadableBuffer::new(text.as_str().as_bytes_vec())))
}

/// What the proxy takes from an invitation: the call, the offer, and where the target is.
#[verifier::ext_equal]
pub struct InviteView {
    pub call_id: Seq<char>,
    pub offer_sdp: Seq<char>,
    pub destination: Seq<char>,
}

/// What the proxy takes from the outcome of parsing a request, or why it refuses it. The reasons
/// are looked for in a fixed order.
pub open spec fn invite_of(
    parsed: Result<SipMessage, String>,
    contacts: Map<Seq<char>, Seq<char>>,
) -> Result<InviteView, ErrorView> {
    match parsed {
        Err(detail) => Err(invalid_argument("无法解析 INVITE 报文："@ + detail@)),
        Ok(message) => match invite_objection(message.start_line) {
            Some(objection) => Err(objection),
            None => match call_id_of(header_views(message.headers@)) {
                None => Err(invalid_message("INVITE 缺少 Call-ID 头，无法创建会话"@)),
                Some(call_id) => match offer_objection(message.body@) {
                    Some(objection) => Err(objection),
                    None => {
                        let aor = message.start_line->Request_0.aor@;
                        if contacts.dom().contains(aor) {
                            Ok(
                                InviteView {
                                    call_id,
                                    offer_sdp: decode_utf8(message.body@),
                                    destination: contacts[aor],
                                },
                            )
                        } else {
                            Err(routing_failure())
                        }
                    },
                },
            },
        },
    }
}

/// Makes sense of the text of a request, as the host provides it.
pub trait RequestParser {
    /// The request, or what is said against the text.
    fn parse_request(&self, text: &str) -> Result<SipMessage, String>;
}

/// Connects to an endpoint, as the host provides it.
pub trait ClientFactory {
    /// A service that reaches the target.
    fn connect(&self, target: &str) -> Result<ServiceId, CoreError>;
}

/// Keeps the calls of a switch, as the host provides it.
pub trait SessionStore {
    /// Registers a call.
    fn create_session(&self, session: CallSession) -> Result<(), CoreError>;
}

/// The call that an invitation gives rise to, once its second leg is connected.
pub open spec fn invited_call(invite: InviteView, b_leg: ServiceId) -> CallView {
    CallView {
        b_leg: Some(b_leg),
        offer_sdp: Some(invite.offer_sdp),
        ..fresh_call(invite.call_id)
    }
}

/// A call that an invitation gave rise to, before its second leg is connected: the call with the
/// offer, where its target is, and the invitation.
#[derive(Debug)]
pub struct PreparedCall {
    pub session: CallSession,
    pub destination: String,
    pub invite: SipMessage,
}

/// A call whose second leg is connected, ready to be registered.
#[derive(Debug)]
pub struct ConnectedCall {
    pub session: CallSession,
    pub invite: SipMessage,
}

/// A call that was taken: its id, under which the negotiation is to be started, and the response
/// to the invitation.
#[derive(Debug)]
pub struct AcceptedCall {
    pub call_id: String,
    pub response: PipelineMessage,
}

/// Whether a call is prepared as an invitation asks: the offer is kept, nothing is connected, and
/// the destination is where the target is registered.
pub open spec fn is_prepared(
    prepared: PreparedCall,
    invite: InviteView,
    message: SipMessage,
) -> bool {
    &&& prepared.session@ == CallView {
        offer_sdp: Some(invite.offer_sdp),
        ..fresh_call(invite.call_id)
    }
    &&& prepared.destination@ == invite.destination
    &&& prepared.invite == message
}

/// Whether a call was taken: its negotiation is the one that starts, and the response is the
/// provisional one to its invitation.
pub open spec fn is_accepted(
    accepted: AcceptedCall,
    call_id: Seq<char>,
    message: SipMessage,
) -> bool {
    &&& accepted.call_id@ == call_id
    &&& accepted.response is Buffer
    &&& accepted.response->Buffer_0@ == encode_utf8(trying_text(header_views(message.headers@)))
}

/// Goes on once the second leg was asked for. A call whose leg could not be connected fails as
/// that did, and there is nothing to register; otherwise the leg is part of the call.
pub fn after_connect(
    prepared: PreparedCall,
    connected: Result<ServiceId, CoreError>,
) -> (r: Result<ConnectedCall, CoreError>)
    ensures
        match connected {
            Err(error) => r == Err::<ConnectedCall, CoreError>(error),
            Ok(b_leg) => {
                &&& r is Ok
                &&& r->Ok_0.session@ == (CallView { b_leg: Some(b_leg), ..prepared.session@ })
                &&& r->Ok_0.invite == prepared.invite
            },
        },
{
    match connected {
        Err(error) => Err(error),
        Ok(b_leg) => {
            let mut session = prepared.session;
            session.b_leg = Some(b_leg);
            Ok(ConnectedCall { session, invite: prepared.invite })
        },
    }
}

/// Goes on once a call was handed to the store. One that was not registered fails as that did,
/// and no negotiation starts; otherwise the call is taken.
pub fn after_register(
    call_id: String,
    invite: &SipMessage,
    stored: Result<(), CoreError>,
) -> (r: Result<AcceptedCall, CoreError>)
    ensures
        match stored {
            Err(error) => r == Err::<AcceptedCall, CoreError>(error),
            Ok(_) => r is Ok && is_accepted(r->Ok_0, call_id@, *invite),
        },
{
    match stored {
        Err(error) => Err(error),
        Ok(_) => match build_trying_response(invite) {
            Ok(response) => Ok(AcceptedCall { call_id, response }),
            Err(error) => Err(error),
        },
    }
}

/// The factory that a call brought, where it brought one.
pub open spec fn factory_of<F>(client_factory: Option<&F>) -> Option<F> {
    match client_factory {
        Some(factory) => Some(*factory),
        None => None,
    }
}

/// Takes invitations.
#[derive(Debug)]
pub struct ProxyService<S: SessionStore> {
    location_store: Arc<LocationStore>,
    session_manager: Arc<S>,
}

impl<S: SessionStore> ProxyService<S> {
    pub closed spec fn contacts(&self) -> Map<Seq<char>, Seq<char>> {
        self.location_store@
    }

    pub closed spec fn calls(&self) -> S {
        *self.session_manager
    }

    /// A proxy that shares the given registry and calls.
    pub fn new(
        location_store: Arc<LocationStore>,
        session_manager: Arc<S>,
    ) -> (service: ProxyService<S>)
        ensures
            service.contacts() == location_store@,
            service.calls() == *session_manager,
    {
        ProxyService { location_store, session_manager }
    }

    /// Where the target of a request is registered, if it is.
    pub fn lookup_internal_destination(&self, line: &RequestLine) -> (contact: Option<&String>)
        ensures
            contact is Some <==> self.contacts().dom().contains(line.aor@),
            contact is Some ==> contact->0@ == self.contacts()[line.aor@],
    {
        self.location_store.lookup(line.aor.as_str())
    }

    /// A call to a target that is not registered cannot be placed yet.
    fn route_external_call(&self) -> (error: CoreError)
        ensures
            error@ == routing_failure(),
    {
        CoreError::new(
            ErrorCode::Named("switch.proxy.routing_failure"),
            "Registrar 未命中，且 DynRouter 功能尚未在 spark-core 中开放".to_owned(),
        )
    }

    /// The factory that connects the second leg, where the call brought one.
    fn require_client_factory<'f, F: ClientFactory>(
        &self,
        client_factory: Option<&'f F>,
    ) -> (r: Result<&'f F, CoreError>)
        ensures
            r is Ok <==> client_factory is Some,
            r is Ok ==> r->Ok_0 == client_factory->0,
            r is Err ==> r->Err_0@ == client_factory_unavailable(),
    {
        match client_factory {
            Some(factory) => Ok(factory),
            None => Err(no_client_factory()),
        }
    }

    /// Connects the second leg of a call to a registered target. A target that is not registered
    /// is refused before the factory is looked at.
    pub fn route_b_leg<F: ClientFactory>(
        &self,
        line: &RequestLine,
        client_factory: Option<&F>,
    ) -> (r: Result<ServiceId, CoreError>)
        ensures
            !self.contacts().dom().contains(line.aor@) ==> r is Err && r->Err_0@
                == routing_failure(),
            self.contacts().dom().contains(line.aor@) && client_factory is None ==> r is Err
                && r->Err_0@ == client_factory_unavailable(),
            self.contacts().dom().contains(line.aor@) && client_factory is Some ==> exists|
                target: &str,
                connected: Result<ServiceId, CoreError>,
            |
                #![trigger call_ensures(F::connect, (client_factory->0, target), connected)]
                call_ensures(F::connect, (client_factory->0, target), connected) && target@
                    == self.contacts()[line.aor@] && r == connected,
    {
        match self.lookup_internal_destination(line) {
            Some(contact) => {
                let factory = match self.require_client_factory(client_factory) {
                    Ok(factory) => factory,
                    Err(error) => {
                        return Err(error);
                    },
                };
                let target = contact.as_str();
                let connected = factory.connect(target);
                proof {
                    assert(call_ensures(F::connect, (client_factory->0, target), connected));
                }
                connected
            },
            None => Err(self.route_external_call()),
        }
    }

    /// Takes the outcome of parsing a request as far as it goes before anything is connected.
    /// What is wrong with the request is looked for first, in a fixed order, and then whether a
    /// leg can be connected at all.
    pub fn prepare_call(
        &self,
        parsed: Result<SipMessage, String>,
        can_connect: bool,
    ) -> (r: Result<PreparedCall, CoreError>)
        ensures
            match invite_of(parsed, self.contacts()) {
                Err(refusal) => r is Err && r->Err_0@ == refusal,
                Ok(invite) => if can_connect {
                    r is Ok && is_prepared(r->Ok_0, invite, parsed->Ok_0)
                } else {
                    r is Err && r->Err_0@ == client_factory_unavailable()
                },
            },
    {
        let message = match parsed {
            Ok(message) => message,
            Err(detail) => {
                return Err(map_invite_parse_error(detail.as_str()));
            },
        };
        let line = match ensure_invite_request(&message) {
            Ok(line) => line,
            Err(error) => {
                return Err(error);
            },
        };
        let call_id = match extract_call_id(&message) {
            Ok(call_id) => call_id,
            Err(error) => {
                return Err(error);
            },
        };
        let offer_sdp = match extract_offer_sdp(&message) {
            Ok(offer_sdp) => offer_sdp,
            Err(error) => {
                return Err(error);
            },
        };
        let destination = match self.lookup_internal_destination(line) {
            Some(destination) => destination.clone(),
            None => {
                return Err(self.route_external_call());
            },
        };
        if !can_connect {
            return Err(no_client_factory());
        }
        let mut session = CallSession::new(call_id);
        session.offer_sdp = Some(offer_sdp);
        Ok(PreparedCall { session, destination, invite: message })
    }

    /// Takes a request, given the outcome of parsing it: the call is prepared, its second leg is
    /// connected, and only then is it registered.
    pub fn handle_request<F: ClientFactory>(
        &self,
        client_factory: Option<&F>,
        parsed: Result<SipMessage, String>,
    ) -> (r: Result<AcceptedCall, CoreError>)
        ensures
            self.answers(factory_of(client_factory), parsed, r),
    {
        let prepared = match self.prepare_call(parsed, client_factory.is_some()) {
            Ok(prepared) => prepared,
            Err(error) => {
                return Err(error);
            },
        };
        let factory = match self.require_client_factory(client_factory) {
            Ok(factory) => factory,
            Err(error) => {
                return Err(error);
            },
        };
        let target = prepared.destination.as_str();
        let connected = factory.connect(target);
        proof {
            assert(call_ensures(F::connect, (factory, target), connected));
        }
        let call = match after_connect(prepared, connected) {
            Ok(call) => call,
            Err(error) => {
                return Err(error);
            },
        };
        let call_id = call.session.call_id.clone();
        let ghost registered = call.session;
        let stored = self.session_manager.create_session(call.session);
        proof {
            assert(call_ensures(S::create_session, (&self.calls(), registered), stored));
        }
        after_register(call_id, &call.invite, stored)
    }

    /// Takes a message off the pipeline: one that was decoded already, or whose bytes are no
    /// text, is refused before the parser sees it.
    pub fn handle_message<P: RequestParser, F: ClientFactory>(
        &self,
        parser: &P,
        client_factory: Option<&F>,
        message: PipelineMessage,
    ) -> (r: Result<AcceptedCall, CoreError>)
        ensures
            self.answers_message(*parser, factory_of(client_factory), message, r),
    {
        let payload = match SipPayload::from_pipeline_message(message) {
            Ok(payload) => payload,
            Err(error) => {
                return Err(error);
            },
        };
        let owned = match payload.as_text() {
            Ok(text) => text,
            Err(error) => {
                return Err(error);
            },
        };
        let text = owned.as_str();
        let parsed = parser.parse_request(text);
        proof {
            assert(call_ensures(P::parse_request, (parser, text), parsed));
        }
        self.handle_request(client_factory, parsed)
    }

    /// Whether an outcome answers a message: one that was decoded already, or whose bytes are no
    /// text, is refused, and otherwise the parser was given the text.
    pub open spec fn answers_message<P: RequestParser, F: ClientFactory>(
        &self,
        parser: P,
        client_factory: Option<F>,
        message: PipelineMessage,
        r: Result<AcceptedCall, CoreError>,
    ) -> bool {
        match message {
            PipelineMessage::Buffer(buffer) => if valid_utf8(buffer@) {
                exists|text: &str, parsed: Result<SipMessage, String>|
                    #![trigger call_ensures(P::parse_request, (&parser, text), parsed)]
                    {
                        &&& call_ensures(P::parse_request, (&parser, text), parsed)
                        &&& text@ == decode_utf8(buffer@)
                        &&& self.answers(client_factory, parsed, r)
                    }
            } else {
                r is Err && r->Err_0@ == invalid_argument(
                    "SIP 报文必须为 UTF-8："@ + utf8_error_text(buffer@),
                )
            },
            _ => r is Err && r->Err_0@ == invalid_message("Proxy 仅支持字节缓冲消息"@),
        }
    }

    /// Whether an outcome answers a request, given the outcome of parsing it.
    pub open spec fn answers<F: ClientFactory>(
        &self,
        client_factory: Option<F>,
        parsed: Result<SipMessage, String>,
        r: Result<AcceptedCall, CoreError>,
    ) -> bool {
        match invite_of(parsed, self.contacts()) {
            Err(refusal) => r is Err && r->Err_0@ == refusal,
            Ok(invite) => match client_factory {
                None => r is Err && r->Err_0@ == client_factory_unavailable(),
                Some(factory) => self.connects_and_registers(&factory, invite, parsed->Ok_0, r),
            },
        }
    }

    /// The second leg was asked for at the destination; where that failed, so does the request.
    /// Otherwise the call was registered with that leg and with the offer; where that failed, so
    /// does the request. Otherwise the call is taken.
    pub open spec fn connects_and_registers<F: ClientFactory>(
        &self,
        factory: &F,
        invite: InviteView,
        message: SipMessage,
        r: Result<AcceptedCall, CoreError>,
    ) -> bool {
        exists|target: &str, connected: Result<ServiceId, CoreError>|
            #![trigger call_ensures(F::connect, (factory, target), connected)]
            {
                &&& call_ensures(F::connect, (factory, target), connected)
                &&& target@ == invite.destination
                &&& match connected {
                    Err(error) => r == Err::<AcceptedCall, CoreError>(error),
                    Ok(b_leg) => exists|session: CallSession, stored: Result<(), CoreError>|
                        #![trigger call_ensures(
                            S::create_session,
                            (&self.calls(), session),
                            stored,
                        )]
                        {
                            &&& call_ensures(S::create_session, (&self.calls(), session), stored)
                            &&& session@ == invited_call(invite, b_leg)
                            &&& match stored {
                                Err(error) => r == Err::<AcceptedCall, CoreError>(error),
                                Ok(_) => r is Ok && is_accepted(r->Ok_0, invite.call_id, message),
                            }
                        },
                }
            }
    }
}

/// Makes proxies that share a registry and calls.
#[derive(Debug)]
pub struct ProxyServiceFactory<S: SessionStore> {
    location_store: Arc<LocationStore>,
    session_manager: Arc<S>,
}

impl<S: SessionStore> ProxyServiceFactory<S> {
    pub closed spec fn contacts(&self) -> Map<Seq<char>, Seq<char>> {
        self.location_store@
    }

    pub closed spec fn calls(&self) -> S {
        *self.session_manager
    }

    /// A factory whose proxies share the given registry and calls.
    pub fn new(
        location_store: Arc<LocationStore>,
        session_manager: Arc<S>,
    ) -> (factory: ProxyServiceFactory<S>)
        ensures
            factory.contacts() == location_store@,
            factory.calls() == *session_manager,
    {
        ProxyServiceFactory { location_store, session_manager }
    }

    /// One more proxy.
    pub fn create(&self) -> (r: Result<ProxyService<S>, CoreError>)
        ensures
            r is Ok,
            r->Ok_0.contacts() == self.contacts(),
            r->Ok_0.calls() == self.calls(),
    {
        Ok(ProxyService::new(self.location_store.clone(), self.session_manager.clone()))
    }
}

/// What a call to the proxy comes with: the parser, and the factory of the second leg where there
/// is one.
#[derive(Debug)]
pub struct ProxyContext<P, F> {
    pub parser: P,
    pub client_factory: Option<F>,
}

impl<S: SessionStore, P: RequestParser, F: ClientFactory> Service<
    PipelineMessage,
    ProxyContext<P, F>,
> for ProxyService<S> {
    type Response = AcceptedCall;

    type Error = CoreError;

    type Future = Result<AcceptedCall, CoreError>;

    /// The proxy keeps nobody waiting.
    fn poll_ready(&mut self, ctx: &ProxyContext<P, F>) -> (readiness: Readiness<CoreError>)
        ensures
            readiness is Ready,
            *final(self) == *old(self),
    {
        Readiness::Ready
    }

    fn call(&mut self, ctx: ProxyContext<P, F>, request: PipelineMessage) -> (r: Result<
        AcceptedCall,
        CoreError,
    >)
        ensures
            *final(self) == *old(self),
            old(self).answers_message(ctx.parser, ctx.client_factory, request, r),
    {
        self.handle_message(&ctx.parser, ctx.client_factory.as_ref(), request)
    }
}

/// The error of a leg that cannot carry requests yet.
pub open spec fn a_leg_unimplemented() -> ErrorView {
    plain_error(
        ErrorCode::Named("switch.proxy.unimplemented"),
        "A-leg placeholder 无法处理媒体流，请等待 B2BUA 完整实现"@,
    )
}

/// Stands for the first leg of a call, which cannot carry requests yet.
#[derive(Clone, Copy, Debug)]
pub struct AlegPlaceholderService;

impl<C> Service<PipelineMessage, C> for AlegPlaceholderService {
    type Response = PipelineMessage;

    type Error = CoreError;

    type Future = Result<PipelineMessage, CoreError>;

    fn poll_ready(&mut self, ctx: &C) -> (readiness: Readiness<CoreError>)
        ensures
            readiness is Ready,
    {
        Readiness::Ready
    }

    /// Every request is refused.
    fn call(&mut self, ctx: C, request: PipelineMessage) -> (r: Result<PipelineMessage, CoreError>)
        ensures
            r is Err,
            r->Err_0@ == a_leg_unimplemented(),
    {
        Err(
            CoreError::new(
                ErrorCode::Named("switch.proxy.unimplemented"),
                "A-leg placeholder 无法处理媒体流，请等待 B2BUA 完整实现".to_owned(),
            ),
        )
    }
}

/// Why the negotiation of a call failed.
#[derive(Debug, PartialEq, Eq)]
pub enum SwitchError {
    SessionNotFound { call_id: String },
    Internal { detail: String },
    ServiceFailure { context: String, detail: String },
}

/// What a failed negotiation says, for the contracts.
pub enum SwitchErrorView {
    SessionNotFound { call_id: Seq<char> },
    Internal { detail: Seq<char> },
    ServiceFailure { context: Seq<char>, detail: Seq<char> },
}

impl View for SwitchError {
    type V = SwitchErrorView;

    open spec fn view(&self) -> SwitchErrorView {
        match self {
            SwitchError::SessionNotFound { call_id } => SwitchErrorView::SessionNotFound {
                call_id: call_id@,
            },
            SwitchError::Internal { detail } => SwitchErrorView::Internal { detail: detail@ },
            SwitchError::ServiceFailure { context, detail } => SwitchErrorView::ServiceFailure {
                context: context@,
                detail: detail@,
            },
        }
    }
}

/// The error for a call that is not registered.
pub open spec fn session_not_found(call_id: Seq<char>) -> SwitchErrorView {
    SwitchErrorView::SessionNotFound { call_id }
}

/// The error for a call without an offer.
pub open spec fn missing_offer(call_id: Seq<char>) -> SwitchErrorView {
    SwitchErrorView::Internal {
        detail: "call flow missing SDP offer before negotiation for Call-ID `"@ + call_id + "`"@,
    }
}

/// The error for an offer that the parser could not make sense of.
pub open spec fn unreadable_offer(detail: Seq<char>) -> SwitchErrorView {
    SwitchErrorView::ServiceFailure {
        context: "proxy.call_flow.offer.parse"@,
        detail: "failed to parse SDP offer: "@ + detail,
    }
}

/// The offer that the negotiation of a call begins with.
pub fn call_flow_offer(
    session: Option<&CallSession>,
    call_id: &str,
) -> (r: Result<String, SwitchError>)
    ensures
        match session {
            None => r is Err && r->Err_0@ == session_not_found(call_id@),
            Some(session) => match session@.offer_sdp {
                None => r is Err && r->Err_0@ == missing_offer(call_id@),
                Some(offer) => r is Ok && r->Ok_0@ == offer,
            },
        },
{
    match session {
        None => Err(SwitchError::SessionNotFound { call_id: call_id.to_owned() }),
        Some(session) => match &session.offer_sdp {
            Some(offer) => Ok(offer.clone()),
            None => {
                let mut detail =
                    "call flow missing SDP offer before negotiation for Call-ID `".to_owned();
                detail.append(call_id);
                detail.append("`");
                Err(SwitchError::Internal { detail })
            },
        },
    }
}

/// A call after the negotiation: the state, and the two texts where there are any.
pub open spec fn negotiated(
    call: CallView,
    offer: SessionDesc,
    answer: Option<AudioAnswer>,
) -> CallView {
    let state = state_of(answer);
    CallView {
        audio: Some(state),
        b_leg_offer_sdp: match b_leg_offer(offer@, state) {
            Some(text) => Some(text),
            None => call.b_leg_offer_sdp,
        },
        b_leg_answer_sdp: match a_leg_answer(offer@, state) {
            Some(text) => Some(text),
            None => call.b_leg_answer_sdp,
        },
        ..call
    }
}

/// Runs the negotiation of a call to its end, given the outcome of parsing its offer and the
/// answer to it. `session` is the call as the store knows it then.
pub fn run_call_flow(
    session: Option<CallSession>,
    call_id: &str,
    negotiation: Result<(SessionDesc, Option<AudioAnswer>), String>,
) -> (r: Result<CallSession, SwitchError>)
    ensures
        match negotiation {
            Err(detail) => r is Err && r->Err_0@ == unreadable_offer(detail@),
            Ok((offer, answer)) => match session {
                None => r is Err && r->Err_0@ == session_not_found(call_id@),
                Some(call) => r is Ok && r->Ok_0@ == negotiated(call@, offer, answer),
            },
        },
{
    let (offer, answer) = match negotiation {
        Ok(negotiation) => negotiation,
        Err(text) => {
            let mut detail = "failed to parse SDP offer: ".to_owned();
            detail.append(text.as_str());
            return Err(
                SwitchError::ServiceFailure {
                    context: "proxy.call_flow.offer.parse".to_owned(),
                    detail,
                },
            );
        },
    };
    let state = build_audio_state(answer);
    let offer_text = build_b_leg_offer_sdp(&offer, &state);
    let answer_text = build_a_leg_answer_sdp(&offer, &state);
    match session {
        None => Err(SwitchError::SessionNotFound { call_id: call_id.to_owned() }),
        Some(session) => {
            let mut session = session;
            session.audio = Some(state);
            if let Some(text) = offer_text {
                session.b_leg_offer_sdp = Some(text);
            }
            if let Some(text) = answer_text {
                session.b_leg_answer_sdp = Some(text);
            }
            Ok(session)
        },
    }
}

/// A negotiation touches nothing of a call but what it negotiated.
pub proof fn law_negotiation_keeps_the_call(
    call: CallView,
    offer: SessionDesc,
    answer: Option<AudioAnswer>,
)
    ensures
        negotiated(call, offer, answer).call_id == call.call_id,
        negotiated(call, offer, answer).b_leg == call.b_leg,
        negotiated(call, offer, answer).offer_sdp == call.offer_sdp,
{
}

/// A registered target is the one that is connected: what was registered last counts.
pub proof fn law_registered_contact_is_the_destination(
    message: SipMessage,
    contacts: Map<Seq<char>, Seq<char>>,
    contact: Seq<char>,
)
    requires
        message.start_line is Request,
        invite_objection(message.start_line) is None,
        call_id_of(header_views(message.headers@)) is Some,
        offer_objection(message.body@) is None,
    ensures
        ({
            let aor = message.start_line->Request_0.aor@;
            let invite = invite_of(
                Ok::<SipMessage, String>(message),
                contacts.insert(aor, contact),
            );
            invite is Ok && invite->Ok_0.destination == contact
        }),
{
}

} // verus!
