//! What becomes of an invitation, stated on the request, the registry and what the host answers.
use vstd::prelude::*;
use vstd::utf8::{decode_utf8, encode_utf8, valid_utf8};

use crate::error::{CoreError, ErrorCode, ErrorView, FrameworkCode};
use crate::pipeline::message::PipelineMessage;
use crate::router::decision::ServiceId;
use crate::service::Service;
use crate::switch::laws::{lemma_call_id, lemma_call_id_is};
use crate::switch::negotiation::{
    build_a_leg_answer_sdp, build_audio_state, build_b_leg_offer_sdp, AudioAnswer,
    AudioNegotiationState,
};
use crate::switch::proxy::{
    after_connect, after_register, build_trying_response, call_flow_offer, ensure_invite_request,
    extract_call_id, extract_offer_sdp, map_invite_parse_error, run_call_flow, utf8_error_text,
    AcceptedCall, AlegPlaceholderService, ClientFactory, ConnectedCall, PreparedCall,
    ProxyContext, ProxyService, ProxyServiceFactory, RequestParser, SessionStore, SipPayload, SwitchError,
};
use crate::switch::sdp::SessionDesc;
use crate::switch::session::CallSession;
use crate::switch::sip::{call_id_of, header_views, write_trying, Header, RequestLine, SipMessage};

verus! {

/// Whether the `k`-th header is the first one with a call id.
pub open spec fn is_first_call_id(headers: Seq<Header>, k: int) -> bool {
    &&& 0 <= k < headers.len()
    &&& headers[k] is CallId
    &&& forall|i: int| 0 <= i < k ==> !((#[trigger] headers[i]) is CallId)
}

/// Whether no header has a call id.
pub open spec fn without_call_id(headers: Seq<Header>) -> bool {
    forall|i: int| 0 <= i < headers.len() ==> !((#[trigger] headers[i]) is CallId)
}

/// Whether an error has a code and a text, and neither category nor cause.
pub open spec fn says(error: ErrorView, code: ErrorCode, text: Seq<char>) -> bool {
    &&& error.code == code
    &&& error.message == text
    &&& error.category is None
    &&& error.cause is None
}

proof fn lemma_headers(headers: Seq<Header>, k: int)
    ensures
        call_id_of(header_views(headers)) is None <==> without_call_id(headers),
        is_first_call_id(headers, k) ==> call_id_of(header_views(headers)) == Some(
            headers[k]->CallId_0@,
        ),
{
    let views = header_views(headers);
    lemma_call_id(views);
    assert forall|i: int| 0 <= i < headers.len() implies ((#[trigger] headers[i]) is CallId) == (
    views[i] is CallId) by {
        assert(views[i] == headers[i]@);
    }
    if call_id_of(views) is Some {
        let i = choose|i: int| 0 <= i < views.len() && (#[trigger] views[i]) is CallId;
        assert(headers[i] is CallId);
    } else {
        assert forall|i: int| 0 <= i < headers.len() implies !((#[trigger] headers[i]) is CallId) by {
            assert(!(views[i] is CallId));
        }
    }
    if is_first_call_id(headers, k) {
        assert forall|i: int| 0 <= i < k implies !((#[trigger] views[i]) is CallId) by {
            assert(!(headers[i] is CallId));
        }
        assert(views[k] is CallId && views[k]->CallId_0 == headers[k]->CallId_0@);
        lemma_call_id_is(views, k);
    }
}

/// Of a request, only an invitation has its line taken; a response and any other method are
/// refused, each with its own text.
pub proof fn law_only_invitations_are_taken(message: &SipMessage, r: Result<&RequestLine, CoreError>)
    requires
        call_ensures(ensure_invite_request, (message,), r),
    ensures
        message.start_line is Response ==> r is Err && says(
            r->Err_0@,
            ErrorCode::Named("switch.proxy.invalid_message"),
            "Proxy 期望 SIP 请求而非响应"@,
        ),
        message.start_line is Request && message.start_line->Request_0.method is Other ==> r is Err
            && says(
            r->Err_0@,
            ErrorCode::Named("switch.proxy.invalid_message"),
            "Proxy 当前仅支持 INVITE，请求方法为 "@ + message.start_line->Request_0.method->Other_0@,
        ),
        message.start_line is Request && message.start_line->Request_0.method is Invite ==> r is Ok
            && *r->Ok_0 == message.start_line->Request_0,
{
}

/// The call id of an invitation is that of its first such header, and one without is refused.
pub proof fn law_an_invitation_needs_a_call_id(
    message: &SipMessage,
    r: Result<String, CoreError>,
    k: int,
)
    requires
        call_ensures(extract_call_id, (message,), r),
    ensures
        is_first_call_id(message.headers@, k) ==> r is Ok && r->Ok_0@
            == message.headers@[k]->CallId_0@,
        without_call_id(message.headers@) ==> r is Err && says(
            r->Err_0@,
            ErrorCode::Named("switch.proxy.invalid_message"),
            "INVITE 缺少 Call-ID 头，无法创建会话"@,
        ),
{
    lemma_headers(message.headers@, k);
}

/// The offer of an invitation is its body, read as UTF-8. An empty body is refused, and so is one
/// that is not UTF-8, with another code.
pub proof fn law_an_invitation_needs_an_offer(message: &SipMessage, r: Result<String, CoreError>)
    requires
        call_ensures(extract_offer_sdp, (message,), r),
    ensures
        message.body@.len() == 0 ==> r is Err && says(
            r->Err_0@,
            ErrorCode::Named("switch.proxy.invalid_message"),
            "INVITE 缺少 SDP Offer 正文，无法进入媒体协商"@,
        ),
        message.body@.len() > 0 && !valid_utf8(message.body@) ==> r is Err && says(
            r->Err_0@,
            ErrorCode::Framework(FrameworkCode::AppInvalidArgument),
            "INVITE SDP 必须为 UTF-8："@ + utf8_error_text(message.body@),
        ),
        message.body@.len() > 0 && valid_utf8(message.body@) ==> r is Ok && r->Ok_0@ == decode_utf8(
            message.body@,
        ),
{
}

/// Raw bytes are taken off the pipeline as they are and read as UTF-8; a decoded message is
/// refused.
pub proof fn law_raw_bytes_are_taken(
    message: PipelineMessage,
    payload: Result<SipPayload, CoreError>,
    text: Result<String, CoreError>,
    detail: &str,
    error: CoreError,
)
    requires
        call_ensures(SipPayload::from_pipeline_message, (message,), payload),
        payload is Ok ==> call_ensures(SipPayload::as_text, (&payload->Ok_0,), text),
        call_ensures(map_invite_parse_error, (detail,), error),
    ensures
        message is User ==> payload is Err && says(
            payload->Err_0@,
            ErrorCode::Named("switch.proxy.invalid_message"),
            "Proxy 仅支持字节缓冲消息"@,
        ),
        message is Buffer ==> payload is Ok && payload->Ok_0@ == message->Buffer_0@,
        message is Buffer && valid_utf8(message->Buffer_0@) ==> text is Ok && text->Ok_0@
            == decode_utf8(message->Buffer_0@),
        message is Buffer && !valid_utf8(message->Buffer_0@) ==> text is Err && says(
            text->Err_0@,
            ErrorCode::Framework(FrameworkCode::AppInvalidArgument),
            "SIP 报文必须为 UTF-8："@ + utf8_error_text(message->Buffer_0@),
        ),
        says(
            error@,
            ErrorCode::Framework(FrameworkCode::AppInvalidArgument),
            "无法解析 INVITE 报文："@ + detail@,
        ),
{
}

/// What is wrong with an invitation is looked for in this order: that it cannot be parsed, that it
/// is none, that it has no call id, that it has no readable offer, that its target is not
/// registered, that nothing can connect a second leg. Each has its own answer. Where nothing is
/// wrong, the call has the id and the offer of the invitation and nothing else yet, and goes to
/// where the target is registered.
pub proof fn law_an_invitation_is_prepared_or_refused<S: SessionStore>(
    proxy: &ProxyService<S>,
    parsed: Result<SipMessage, String>,
    can_connect: bool,
    r: Result<PreparedCall, CoreError>,
    k: int,
)
    requires
        call_ensures(ProxyService::<S>::prepare_call, (proxy, parsed, can_connect), r),
    ensures
        parsed is Err ==> r is Err && says(
            r->Err_0@,
            ErrorCode::Framework(FrameworkCode::AppInvalidArgument),
            "无法解析 INVITE 报文："@ + parsed->Err_0@,
        ),
        parsed is Ok && parsed->Ok_0.start_line is Response ==> r is Err && says(
            r->Err_0@,
            ErrorCode::Named("switch.proxy.invalid_message"),
            "Proxy 期望 SIP 请求而非响应"@,
        ),
        parsed is Ok && parsed->Ok_0.start_line is Request
            && parsed->Ok_0.start_line->Request_0.method is Other ==> r is Err && says(
            r->Err_0@,
            ErrorCode::Named("switch.proxy.invalid_message"),
            "Proxy 当前仅支持 INVITE，请求方法为 "@
                + parsed->Ok_0.start_line->Request_0.method->Other_0@,
        ),
        parsed is Ok && is_invitation(parsed->Ok_0) && without_call_id(parsed->Ok_0.headers@)
            ==> r is Err && says(
            r->Err_0@,
            ErrorCode::Named("switch.proxy.invalid_message"),
            "INVITE 缺少 Call-ID 头，无法创建会话"@,
        ),
        parsed is Ok && is_invitation(parsed->Ok_0) && is_first_call_id(parsed->Ok_0.headers@, k)
            ==> {
            let message = parsed->Ok_0;
            let aor = message.start_line->Request_0.aor@;
            &&& message.body@.len() == 0 ==> r is Err && says(
                r->Err_0@,
                ErrorCode::Named("switch.proxy.invalid_message"),
                "INVITE 缺少 SDP Offer 正文，无法进入媒体协商"@,
            )
            &&& message.body@.len() > 0 && !valid_utf8(message.body@) ==> r is Err && says(
                r->Err_0@,
                ErrorCode::Framework(FrameworkCode::AppInvalidArgument),
                "INVITE SDP 必须为 UTF-8："@ + utf8_error_text(message.body@),
            )
            &&& message.body@.len() > 0 && valid_utf8(message.body@) ==> {
                &&& !proxy.contacts().dom().contains(aor) ==> r is Err && says(
                    r->Err_0@,
                    ErrorCode::Named("switch.proxy.routing_failure"),
                    "Registrar 未命中，且 DynRouter 功能尚未在 spark-core 中开放"@,
                )
                &&& proxy.contacts().dom().contains(aor) && !can_connect ==> r is Err && says(
                    r->Err_0@,
                    ErrorCode::Named("switch.proxy.client_factory_unavailable"),
                    "CallContext 未注入 ClientFactory，无法建立 B-leg"@,
                )
                &&& proxy.contacts().dom().contains(aor) && can_connect ==> r is Ok && {
                    let prepared = r->Ok_0;
                    &&& prepared.session@.call_id == message.headers@[k]->CallId_0@
                    &&& prepared.session@.offer_sdp == Some(decode_utf8(message.body@))
                    &&& prepared.session@.b_leg is None
                    &&& prepared.session@.audio is None
                    &&& prepared.session@.b_leg_offer_sdp is None
                    &&& prepared.session@.b_leg_answer_sdp is None
                    &&& prepared.destination@ == proxy.contacts()[aor]
                    &&& prepared.invite == message
                }
            }
        },
{
    if parsed is Ok {
        lemma_headers(parsed->Ok_0.headers@, k);
    }
}

/// Whether a message is an invitation.
pub open spec fn is_invitation(message: SipMessage) -> bool {
    message.start_line is Request && message.start_line->Request_0.method is Invite
}

/// A connected leg becomes part of the call, which stays as it was otherwise; a failure to connect
/// is passed on.
pub proof fn law_a_connected_leg_joins_the_call(
    prepared: PreparedCall,
    connected: Result<ServiceId, CoreError>,
    r: Result<ConnectedCall, CoreError>,
)
    requires
        call_ensures(after_connect, (prepared, connected), r),
    ensures
        connected is Err ==> r is Err && r->Err_0 == connected->Err_0,
        connected is Ok ==> {
            &&& r is Ok
            &&& r->Ok_0.session@.b_leg == Some(connected->Ok_0)
            &&& r->Ok_0.session@.call_id == prepared.session@.call_id
            &&& r->Ok_0.session@.offer_sdp == prepared.session@.offer_sdp
            &&& r->Ok_0.session@.audio == prepared.session@.audio
            &&& r->Ok_0.session@.b_leg_offer_sdp == prepared.session@.b_leg_offer_sdp
            &&& r->Ok_0.session@.b_leg_answer_sdp == prepared.session@.b_leg_answer_sdp
            &&& r->Ok_0.invite == prepared.invite
        },
{
}

/// A registered call is answered with the provisional response to its invitation; a failure to
/// register is passed on.
pub proof fn law_a_registered_call_is_answered(
    call_id: String,
    invite: &SipMessage,
    stored: Result<(), CoreError>,
    r: Result<AcceptedCall, CoreError>,
    text: String,
    response: Result<PipelineMessage, CoreError>,
)
    requires
        call_ensures(after_register, (call_id, invite, stored), r),
        call_ensures(write_trying, (invite,), text),
        call_ensures(build_trying_response, (invite,), response),
    ensures
        stored is Err ==> r is Err && r->Err_0 == stored->Err_0,
        stored is Ok ==> {
            &&& r is Ok
            &&& r->Ok_0.call_id@ == call_id@
            &&& r->Ok_0.response is Buffer
            &&& r->Ok_0.response->Buffer_0@ == encode_utf8(text@)
        },
        response is Ok && response->Ok_0 is Buffer && response->Ok_0->Buffer_0@ == encode_utf8(
            text@,
        ),
{
}

/// A request is answered as its preparation goes. Where that fails, so does the request, and for
/// the same reason. Otherwise the second leg is asked for at the destination; where that fails, so
/// does the request. Otherwise the call is registered with that leg, the id and the offer; where
/// that fails, so does the request. Otherwise the answer is the provisional response.
pub proof fn law_a_request_is_answered_step_by_step<S: SessionStore, F: ClientFactory>(
    proxy: &ProxyService<S>,
    client_factory: Option<&F>,
    parsed: Result<SipMessage, String>,
    r: Result<AcceptedCall, CoreError>,
    prepared: Result<PreparedCall, CoreError>,
    text: String,
)
    requires
        call_ensures(
            ProxyService::<S>::handle_request::<F>,
            (proxy, client_factory, parsed),
            r,
        ),
        call_ensures(
            ProxyService::<S>::prepare_call,
            (proxy, parsed, client_factory is Some),
            prepared,
        ),
        parsed is Ok ==> call_ensures(write_trying, (&parsed->Ok_0,), text),
    ensures
        prepared is Err ==> r is Err && r->Err_0@ == prepared->Err_0@,
        prepared is Ok ==> client_factory is Some && exists|
            target: &str,
            connected: Result<ServiceId, CoreError>,
        |
            #![trigger call_ensures(F::connect, (client_factory->0, target), connected)]
            {
                &&& call_ensures(F::connect, (client_factory->0, target), connected)
                &&& target@ == prepared->Ok_0.destination@
                &&& connected is Err ==> r == Err::<AcceptedCall, CoreError>(connected->Err_0)
                &&& connected is Ok ==> registered_and_answered(
                    proxy,
                    prepared->Ok_0,
                    connected->Ok_0,
                    text,
                    r,
                )
            },
{
    if prepared is Ok {
        let contacts = proxy.contacts();
        let invite = crate::switch::proxy::invite_of(parsed, contacts)->Ok_0;
        let factory = *client_factory->0;
        assert(proxy.connects_and_registers(&factory, invite, parsed->Ok_0, r));
        let (target, connected) = choose|
            target: &str,
            connected: Result<ServiceId, CoreError>,
        |
            #![trigger call_ensures(F::connect, (&factory, target), connected)]
            {
                &&& call_ensures(F::connect, (&factory, target), connected)
                &&& target@ == invite.destination
                &&& match connected {
                    Err(error) => r == Err::<AcceptedCall, CoreError>(error),
                    Ok(b_leg) => exists|session: CallSession, stored: Result<(), CoreError>|
                        #![trigger call_ensures(
                            S::create_session,
                            (&proxy.calls(), session),
                            stored,
                        )]
                        {
                            &&& call_ensures(S::create_session, (&proxy.calls(), session), stored)
                            &&& session@ == crate::switch::proxy::invited_call(invite, b_leg)
                            &&& match stored {
                                Err(error) => r == Err::<AcceptedCall, CoreError>(error),
                                Ok(_) => r is Ok && crate::switch::proxy::is_accepted(
                                    r->Ok_0,
                                    invite.call_id,
                                    parsed->Ok_0,
                                ),
                            }
                        },
                }
            };
        assert(call_ensures(F::connect, (client_factory->0, target), connected));
        if connected is Ok {
            let (session, stored) = choose|session: CallSession, stored: Result<(), CoreError>|
                #![trigger call_ensures(S::create_session, (&proxy.calls(), session), stored)]
                {
                    &&& call_ensures(S::create_session, (&proxy.calls(), session), stored)
                    &&& session@ == crate::switch::proxy::invited_call(invite, connected->Ok_0)
                    &&& match stored {
                        Err(error) => r == Err::<AcceptedCall, CoreError>(error),
                        Ok(_) => r is Ok && crate::switch::proxy::is_accepted(
                            r->Ok_0,
                            invite.call_id,
                            parsed->Ok_0,
                        ),
                    }
                };
            assert(call_ensures(S::create_session, (&proxy.calls(), session), stored));
        }
    }
}

/// Whether a call was handed to the store with its leg, and the outcome decided the answer.
pub open spec fn registered_and_answered<S: SessionStore>(
    proxy: &ProxyService<S>,
    prepared: PreparedCall,
    b_leg: ServiceId,
    text: String,
    r: Result<AcceptedCall, CoreError>,
) -> bool {
    exists|session: CallSession, stored: Result<(), CoreError>|
        #![trigger call_ensures(S::create_session, (&proxy.calls(), session), stored)]
        {
            &&& call_ensures(S::create_session, (&proxy.calls(), session), stored)
            &&& session@.call_id == prepared.session@.call_id
            &&& session@.offer_sdp == prepared.session@.offer_sdp
            &&& session@.b_leg == Some(b_leg)
            &&& session@.audio is None
            &&& session@.b_leg_offer_sdp is None
            &&& session@.b_leg_answer_sdp is None
            &&& stored is Err ==> r == Err::<AcceptedCall, CoreError>(stored->Err_0)
            &&& stored is Ok ==> {
                &&& r is Ok
                &&& r->Ok_0.call_id@ == prepared.session@.call_id
                &&& r->Ok_0.response is Buffer
                &&& r->Ok_0.response->Buffer_0@ == encode_utf8(text@)
            }
        }
}

/// A target that is not registered is refused before the factory is looked at, and one without a
/// factory before anything is connected; otherwise what the factory makes of the contact counts.
pub proof fn law_a_leg_goes_to_the_contact<S: SessionStore, F: ClientFactory>(
    proxy: &ProxyService<S>,
    line: &RequestLine,
    client_factory: Option<&F>,
    r: Result<ServiceId, CoreError>,
)
    requires
        call_ensures(ProxyService::<S>::route_b_leg::<F>, (proxy, line, client_factory), r),
    ensures
        !proxy.contacts().dom().contains(line.aor@) ==> r is Err && says(
            r->Err_0@,
            ErrorCode::Named("switch.proxy.routing_failure"),
            "Registrar 未命中，且 DynRouter 功能尚未在 spark-core 中开放"@,
        ),
        proxy.contacts().dom().contains(line.aor@) && client_factory is None ==> r is Err && says(
            r->Err_0@,
            ErrorCode::Named("switch.proxy.client_factory_unavailable"),
            "CallContext 未注入 ClientFactory，无法建立 B-leg"@,
        ),
        proxy.contacts().dom().contains(line.aor@) && client_factory is Some ==> exists|
            target: &str,
        |
            call_ensures(F::connect, (client_factory->0, target), r) && #[trigger] target@
                == proxy.contacts()[line.aor@],
{
    if proxy.contacts().dom().contains(line.aor@) && client_factory is Some {
        let (target, connected) = choose|
            target: &str,
            connected: Result<ServiceId, CoreError>,
        |
            #![trigger call_ensures(F::connect, (client_factory->0, target), connected)]
            call_ensures(F::connect, (client_factory->0, target), connected) && target@
                == proxy.contacts()[line.aor@] && r == connected;
        assert(target@ == proxy.contacts()[line.aor@]);
        assert(call_ensures(F::connect, (client_factory->0, target), r));
    }
}

/// A message that was decoded already, or whose bytes are no text, is refused; otherwise the parser
/// is given the text, and what it makes of it is answered.
pub proof fn law_a_message_is_parsed_and_answered<S: SessionStore, P: RequestParser, F: ClientFactory>(
    proxy: &ProxyService<S>,
    parser: &P,
    client_factory: Option<&F>,
    message: PipelineMessage,
    r: Result<AcceptedCall, CoreError>,
)
    requires
        call_ensures(
            ProxyService::<S>::handle_message::<P, F>,
            (proxy, parser, client_factory, message),
            r,
        ),
    ensures
        message is User ==> r is Err && says(
            r->Err_0@,
            ErrorCode::Named("switch.proxy.invalid_message"),
            "Proxy 仅支持字节缓冲消息"@,
        ),
        message is Buffer && !valid_utf8(message->Buffer_0@) ==> r is Err && says(
            r->Err_0@,
            ErrorCode::Framework(FrameworkCode::AppInvalidArgument),
            "SIP 报文必须为 UTF-8："@ + utf8_error_text(message->Buffer_0@),
        ),
        message is Buffer && valid_utf8(message->Buffer_0@) ==> exists|
            text: &str,
            parsed: Result<SipMessage, String>,
        |
            #![trigger call_ensures(P::parse_request, (parser, text), parsed)]
            {
                &&& call_ensures(P::parse_request, (parser, text), parsed)
                &&& text@ == decode_utf8(message->Buffer_0@)
                &&& parsed is Err ==> r is Err && says(
                    r->Err_0@,
                    ErrorCode::Framework(FrameworkCode::AppInvalidArgument),
                    "无法解析 INVITE 报文："@ + parsed->Err_0@,
                )
                &&& r is Ok ==> parsed is Ok && is_invitation(parsed->Ok_0)
                    && client_factory is Some
            },
{
    if message is Buffer && valid_utf8(message->Buffer_0@) {
        let made = *parser;
        let factory = crate::switch::proxy::factory_of(client_factory);
        let (text, parsed) = choose|text: &str, parsed: Result<SipMessage, String>|
            #![trigger call_ensures(P::parse_request, (&made, text), parsed)]
            {
                &&& call_ensures(P::parse_request, (&made, text), parsed)
                &&& text@ == decode_utf8(message->Buffer_0@)
                &&& proxy.answers(factory, parsed, r)
            };
        assert(call_ensures(P::parse_request, (parser, text), parsed));
    }
}

/// The negotiation of a call begins with the offer of the call. A call that is not registered and
/// one without an offer are told apart.
pub proof fn law_a_negotiation_begins_with_the_offer(
    session: Option<&CallSession>,
    call_id: &str,
    r: Result<String, SwitchError>,
)
    requires
        call_ensures(call_flow_offer, (session, call_id), r),
    ensures
        session is None ==> r is Err && r->Err_0 is SessionNotFound
            && r->Err_0->SessionNotFound_call_id@ == call_id@,
        session is Some && session->0.offer_sdp is None ==> r is Err && r->Err_0 is Internal
            && r->Err_0->Internal_detail@
            == "call flow missing SDP offer before negotiation for Call-ID `"@ + call_id@ + "`"@,
        session is Some && session->0.offer_sdp is Some ==> r is Ok && r->Ok_0@
            == session->0.offer_sdp->0@,
{
    if r is Err {
        let seen = r->Err_0@;
    }
}

/// The negotiation of a call keeps the call and adds what was agreed on: the state, and each of the
/// two texts where there is one. An offer that cannot be read, and a call that is gone, are told
/// apart, in that order.
pub proof fn law_a_negotiation_adds_what_was_agreed(
    session: Option<CallSession>,
    call_id: &str,
    negotiation: Result<(SessionDesc, Option<AudioAnswer>), String>,
    r: Result<CallSession, SwitchError>,
    state: AudioNegotiationState,
    offered: Option<String>,
    answered: Option<String>,
)
    requires
        call_ensures(run_call_flow, (session, call_id, negotiation), r),
        negotiation is Ok ==> call_ensures(build_audio_state, ((negotiation->Ok_0).1,), state),
        negotiation is Ok ==> call_ensures(
            build_b_leg_offer_sdp,
            (&(negotiation->Ok_0).0, &state),
            offered,
        ),
        negotiation is Ok ==> call_ensures(
            build_a_leg_answer_sdp,
            (&(negotiation->Ok_0).0, &state),
            answered,
        ),
    ensures
        negotiation is Err ==> r is Err && r->Err_0 is ServiceFailure
            && r->Err_0->ServiceFailure_context@ == "proxy.call_flow.offer.parse"@
            && r->Err_0->ServiceFailure_detail@ == "failed to parse SDP offer: "@
            + negotiation->Err_0@,
        negotiation is Ok && session is None ==> r is Err && r->Err_0 is SessionNotFound
            && r->Err_0->SessionNotFound_call_id@ == call_id@,
        negotiation is Ok && session is Some ==> r is Ok && {
            let before = session->0@;
            let after = r->Ok_0@;
            &&& after.call_id == before.call_id
            &&& after.b_leg == before.b_leg
            &&& after.offer_sdp == before.offer_sdp
            &&& after.audio == Some(state@)
            &&& offered is Some ==> after.b_leg_offer_sdp == Some(offered->0@)
            &&& offered is None ==> after.b_leg_offer_sdp == before.b_leg_offer_sdp
            &&& answered is Some ==> after.b_leg_answer_sdp == Some(answered->0@)
            &&& answered is None ==> after.b_leg_answer_sdp == before.b_leg_answer_sdp
        },
{
    if r is Err {
        let seen = r->Err_0@;
    }
}

/// A proxy takes requests through its service interface as it does otherwise, and is ready at any
/// time; the place of the first leg refuses every request.
pub proof fn law_the_service_answers_as_the_proxy<S: SessionStore, P: RequestParser, F: ClientFactory, C>(
    proxy: &mut ProxyService<S>,
    ctx: ProxyContext<P, F>,
    request: PipelineMessage,
    r: Result<AcceptedCall, CoreError>,
    leg: &mut AlegPlaceholderService,
    other: C,
    refused: Result<PipelineMessage, CoreError>,
)
    requires
        call_ensures(
            <ProxyService<S> as Service<PipelineMessage, ProxyContext<P, F>>>::call,
            (proxy, ctx, request),
            r,
        ),
        call_ensures(
            <AlegPlaceholderService as Service<PipelineMessage, C>>::call,
            (leg, other, request),
            refused,
        ),
    ensures
        *final(proxy) == *old(proxy),
        request is User ==> r is Err && says(
            r->Err_0@,
            ErrorCode::Named("switch.proxy.invalid_message"),
            "Proxy 仅支持字节缓冲消息"@,
        ),
        request is Buffer && !valid_utf8(request->Buffer_0@) ==> r is Err && says(
            r->Err_0@,
            ErrorCode::Framework(FrameworkCode::AppInvalidArgument),
            "SIP 报文必须为 UTF-8："@ + utf8_error_text(request->Buffer_0@),
        ),
        r is Ok ==> ctx.client_factory is Some,
        refused is Err && says(
            refused->Err_0@,
            ErrorCode::Named("switch.proxy.unimplemented"),
            "A-leg placeholder 无法处理媒体流，请等待 B2BUA 完整实现"@,
        ),
{
}

/// Every proxy of a factory shares its registry and its calls.
pub proof fn law_proxies_share_registry_and_calls<S: SessionStore>(
    factory: &ProxyServiceFactory<S>,
    r: Result<ProxyService<S>, CoreError>,
)
    requires
        call_ensures(ProxyServiceFactory::<S>::create, (factory,), r),
    ensures
        r is Ok,
        r->Ok_0.contacts() == factory.contacts(),
        r->Ok_0.calls() == factory.calls(),
{
}

} // verus!
