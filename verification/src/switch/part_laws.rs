//! What the parts of a call say, field by field, and what the small steps of writing them do.
use vstd::prelude::*;

use crate::scan::{law_only_digits_make_a_number, position_of};
use crate::switch::negotiation::{AudioNegotiationProfile, AudioNegotiationState, DtmfProfile};
use crate::switch::sdp::{
    join_sdp_lines, lines_text, origin_line,
    parse_payload_from_attribute, parse_payload_number, prefixed, timing_line, Attribute,
    Connection, MediaDesc, Origin, PayloadSelection, SessionDesc, Timing,
};
use crate::switch::session::{CallSession, LocationStore};
use crate::switch::sip::{
    collect_headers, header_views, Header, HeaderSelector, HeaderView, Method, SipMessage,
};
use crate::text::texts;

verus! {

/// Whether an optional text is seen as it is.
pub open spec fn seen_as(text: Option<String>, view: Option<Seq<char>>) -> bool {
    &&& text is Some <==> view is Some
    &&& text is Some ==> text->0@ == view->0
}

/// An attribute, a connection and the other lines are seen with all their parts.
pub proof fn law_lines_are_seen_with_all_parts(
    attribute: Attribute,
    connection: Connection,
    origin: Origin,
    timing: Timing,
)
    ensures
        attribute@.key == attribute.key@,
        seen_as(attribute.value, attribute@.value),
        connection@.net_type == connection.net_type@,
        connection@.addr_type == connection.addr_type@,
        connection@.address == connection.address@,
        origin@.username == origin.username@,
        origin@.session_id == origin.session_id@,
        origin@.session_version == origin.session_version@,
        origin@.net_type == origin.net_type@,
        origin@.addr_type == origin.addr_type@,
        origin@.address == origin.address@,
        timing@.start == timing.start@,
        timing@.stop == timing.stop@,
{
}

/// A media block is seen with all its parts, its formats and attributes in order.
pub proof fn law_a_block_is_seen_with_all_parts(media: MediaDesc, i: int)
    ensures
        media@.media == media.media@,
        media@.port == media.port@,
        media@.proto == media.proto@,
        media@.formats.len() == media.formats@.len(),
        0 <= i < media.formats@.len() ==> media@.formats[i] == media.formats@[i]@,
        media@.attributes.len() == media.attributes@.len(),
        0 <= i < media.attributes@.len() ==> media@.attributes[i] == media.attributes@[i]@,
        media@.connection is Some <==> media.connection is Some,
        media.connection is Some ==> media@.connection->0 == media.connection->0@,
{
}

/// A session is seen with all its parts, its attributes and blocks in order.
pub proof fn law_a_session_is_seen_with_all_parts(session: SessionDesc, i: int)
    ensures
        session@.version == session.version@,
        session@.origin == session.origin@,
        session@.session_name == session.session_name@,
        session@.timing == session.timing@,
        session@.connection is Some <==> session.connection is Some,
        session.connection is Some ==> session@.connection->0 == session.connection->0@,
        session@.attributes.len() == session.attributes@.len(),
        0 <= i < session.attributes@.len() ==> session@.attributes[i] == session.attributes@[i]@,
        session@.media.len() == session.media@.len(),
        0 <= i < session.media@.len() ==> session@.media[i] == session.media@[i]@,
{
}

/// A header is seen as the kind that it is, with its value; a list of headers is seen in order.
pub proof fn law_headers_are_seen_as_they_are(header: Header, headers: Seq<Header>, i: int)
    ensures
        header is Via <==> header@ is Via,
        header is From <==> header@ is From,
        header is To <==> header@ is To,
        header is CallId <==> header@ is CallId,
        header is CSeq <==> header@ is CSeq,
        header is Extension <==> header@ is Extension,
        header is Via ==> header@->Via_0 == header->Via_0@,
        header is From ==> header@->From_0 == header->From_0@,
        header is To ==> header@->To_0 == header->To_0@,
        header is CallId ==> header@->CallId_0 == header->CallId_0@,
        header is CSeq ==> header@->CSeq_0 == header->CSeq_0@,
        header is Extension ==> header@->name == header->name@ && header@->value == header->value@,
        header_views(headers).len() == headers.len(),
        0 <= i < headers.len() ==> header_views(headers)[i] == headers[i]@,
{
}

/// What was negotiated is seen with all its parts.
pub proof fn law_a_profile_is_seen_with_all_parts(
    profile: AudioNegotiationProfile,
    dtmf: DtmfProfile,
    state: AudioNegotiationState,
)
    ensures
        profile@.payload_type == profile.payload_type,
        profile@.encoding_name == profile.encoding_name@,
        profile@.clock_rate == profile.clock_rate,
        seen_as(profile.encoding_params, profile@.encoding_params),
        profile@.telephone_event is Some <==> profile.telephone_event is Some,
        profile.telephone_event is Some ==> profile@.telephone_event->0
            == profile.telephone_event->0@,
        dtmf@.payload_type == dtmf.payload_type,
        dtmf@.clock_rate == dtmf.clock_rate,
        dtmf@.events == dtmf.events@,
        state is NoAudio <==> state@ is NoAudio,
        state is Rejected <==> state@ is Rejected,
        state is Accepted <==> state@ is Accepted,
        state is Accepted ==> state@->Accepted_0 == state->Accepted_0@,
{
}

/// A call is seen with all its parts.
pub proof fn law_a_call_is_seen_with_all_parts(session: CallSession)
    ensures
        session@.call_id == session.call_id@,
        session@.b_leg == session.b_leg,
        seen_as(session.offer_sdp, session@.offer_sdp),
        seen_as(session.b_leg_offer_sdp, session@.b_leg_offer_sdp),
        seen_as(session.b_leg_answer_sdp, session@.b_leg_answer_sdp),
        session@.audio is Some <==> session.audio is Some,
        session.audio is Some ==> session@.audio->0 == session.audio->0@,
{
}

/// A new call has its id and nothing else.
pub proof fn law_a_new_call_has_only_its_id(call_id: String, session: CallSession)
    requires
        call_ensures(CallSession::new, (call_id,), session),
    ensures
        session.call_id@ == call_id@,
        session.b_leg is None,
        session.offer_sdp is None,
        session.audio is None,
        session.b_leg_offer_sdp is None,
        session.b_leg_answer_sdp is None,
{
    let seen = session@;
}

/// The contact that was registered last is the one that is found, and no other registration
/// changes.
pub proof fn law_the_last_contact_is_found(
    store: &mut LocationStore,
    aor: String,
    contact: String,
    asked: &str,
    found: Option<&String>,
)
    requires
        call_ensures(LocationStore::register, (store, aor, contact), ()),
        call_ensures(LocationStore::lookup, (&*final(store), asked), found),
    ensures
        asked@ == aor@ ==> found is Some && found->0@ == contact@,
        asked@ != aor@ ==> (found is Some <==> old(store)@.dom().contains(asked@)),
        asked@ != aor@ && found is Some ==> found->0@ == old(store)@[asked@],
{
}

/// The payload type of an attribute is that of its value; one without a value has none.
pub proof fn law_an_attribute_has_the_payload_of_its_value(
    attribute: &Attribute,
    payload: Option<u8>,
    value: &str,
    number: Option<u8>,
)
    requires
        call_ensures(parse_payload_from_attribute, (attribute,), payload),
        call_ensures(parse_payload_number, (value,), number),
    ensures
        attribute.value is None ==> payload is None,
        attribute.value is Some && attribute.value->0@ == value@ ==> payload == number,
{
}

/// A text that begins with anything but a digit, a plus sign, a blank or a colon-ended name has no
/// payload type, and neither has an empty one.
pub proof fn law_no_payload_without_a_number(value: &str, payload: Option<u8>)
    requires
        call_ensures(parse_payload_number, (value,), payload),
        !value@.contains(':'),
    ensures
        value@.len() == 0 ==> payload is None,
        value@.len() > 0 && !crate::scan::is_white(value@[0]) && !('0' <= value@[0] <= '9')
            && value@[0] != '+' ==> payload is None,
{
    crate::switch::laws::lemma_no_colon(value@);
    if value@.len() == 0 {
        law_only_digits_make_a_number(Seq::empty(), 0);
        assert(crate::scan::first_word(value@) =~= Seq::<char>::empty());
    } else if !crate::scan::is_white(value@[0]) && !('0' <= value@[0] <= '9') && value@[0] != '+' {
        let word = crate::scan::first_word(value@);
        assert(word.len() > 0 && word[0] == value@[0]);
        law_only_digits_make_a_number(word, 0);
    }
}

/// A payload type was agreed on exactly where it is that of the audio or that of key presses.
pub proof fn law_two_payloads_are_agreed_on(
    selection: &PayloadSelection,
    payload: u8,
    allowed: bool,
    dtmf: bool,
)
    requires
        call_ensures(PayloadSelection::allows, (selection, payload), allowed),
        call_ensures(PayloadSelection::is_dtmf, (selection, payload), dtmf),
    ensures
        dtmf <==> selection.dtmf is Some && selection.dtmf->0 == payload,
        allowed <==> payload == selection.audio || (selection.dtmf is Some && selection.dtmf->0
            == payload),
{
}

/// Collecting headers appends exactly those of the asked kind, all of them and in order.
pub proof fn law_headers_of_a_kind_are_collected(
    message: &SipMessage,
    selector: HeaderSelector,
    output: &mut Vec<Header>,
)
    requires
        call_ensures(collect_headers, (message, selector, output), ()),
    ensures
        header_views(final(output)@) == header_views(old(output)@) + header_views(
            message.headers@,
        ).filter(
            |h: HeaderView|
                match selector {
                    HeaderSelector::Via => h is Via,
                    HeaderSelector::From => h is From,
                    HeaderSelector::To => h is To,
                    HeaderSelector::CallId => h is CallId,
                    HeaderSelector::CSeq => h is CSeq,
                },
        ),
{
    let kind = |h: HeaderView|
        match selector {
            HeaderSelector::Via => h is Via,
            HeaderSelector::From => h is From,
            HeaderSelector::To => h is To,
            HeaderSelector::CallId => h is CallId,
            HeaderSelector::CSeq => h is CSeq,
        };
    crate::seqs::lemma_filter_agree(
        header_views(message.headers@),
        |h: HeaderView| crate::switch::sip::selects(selector, h),
        kind,
    );
}

/// A method is called by its name.
pub proof fn law_a_method_is_called_by_its_name(method: &Method, name: &str)
    requires
        call_ensures(Method::as_str, (method,), name),
    ensures
        *method is Invite ==> name@ == "INVITE"@,
        *method is Other ==> name@ == method->Other_0@,
{
}

/// The lines of origin and timing are written with their parts in order, and a prefix stands in
/// front.
pub proof fn law_single_lines_are_written_in_order(
    origin: &Origin,
    timing: &Timing,
    prefix: &str,
    text: &str,
    o: String,
    t: String,
    p: String,
)
    requires
        call_ensures(origin_line, (origin,), o),
        call_ensures(timing_line, (timing,), t),
        call_ensures(prefixed, (prefix, text), p),
    ensures
        o@ == "o="@ + origin.username@ + " "@ + origin.session_id@ + " "@
            + origin.session_version@ + " "@ + origin.net_type@ + " "@ + origin.addr_type@ + " "@
            + origin.address@,
        t@ == "t="@ + timing.start@ + " "@ + timing.stop@,
        p@ == prefix@ + text@,
{
}

/// No lines come to no text; otherwise lines come to a text that ends with a line end.
pub proof fn law_lines_come_to_a_text(lines: &Vec<String>, text: String)
    requires
        call_ensures(join_sdp_lines, (lines,), text),
    ensures
        lines@.len() == 0 ==> text@.len() == 0,
        lines@.len() > 0 ==> text@.len() >= 2 && text@[text@.len() - 2] == '\r'
            && text@[text@.len() - 1] == '\n',
        lines@.len() > 0 ==> text@ == lines_text(texts(lines@)),
{
    assert(texts(lines@).len() == lines@.len());
    if lines@.len() > 0 {
        crate::switch::laws::law_lines_end_once(texts(lines@));
    }
}

/// A character is found where it first stands.
pub proof fn law_a_character_is_found_where_it_first_stands(
    chars: &[char],
    c: char,
    position: usize,
)
    requires
        call_ensures(position_of, (chars, c), position),
    ensures
        position < chars@.len() ==> chars@[position as int] == c,
        position < chars@.len() || position == chars@.len(),
        forall|k: int| 0 <= k < position ==> chars@[k] != c,
{
}

} // verus!
