//! What the negotiation of a call and the signalling around it promise, stated on what goes in and
//! what comes out.
use vstd::prelude::*;

use crate::scan::{
    law_first_word, law_small_numbers_are_read_back, law_words_end_at_blanks, same_ignoring_case,
};
use crate::seqs::{lemma_filter_agree, lemma_filter_members, lemma_filter_twice};
use crate::switch::negotiation::{
    answer_lines, build_a_leg_answer_sdp, build_audio_state, build_b_leg_offer_sdp,
    filter_session_for_b_leg, first_audio, payload_selection, AudioAnswer, AudioNegotiationState,
};
use crate::switch::sdp::{
    all_media_lines, attribute_payload, attribute_views, blank_separated, crlf,
    filter_audio_attributes, filter_media_for_b_leg, format_sdp, lines_text, media_lines,
    parse_payload_number, payload_number, session_lines, Attribute, AttributeView, MediaDesc,
    MediaView, PayloadSelection, SessionDesc, SessionView,
};
use crate::switch::sip::{
    find_call_id, header_views, headers_text, selected, trying_headers, write_trying,
    HeaderSelector, HeaderView, SipMessage,
};
use crate::text::{decimal, joined};

verus! {

/// Whether an attribute describes a payload type.
pub open spec fn describes_payload(attribute: AttributeView) -> bool {
    same_ignoring_case(attribute.key, "rtpmap"@) || same_ignoring_case(attribute.key, "fmtp"@)
}

/// Of an audio block, every attribute that describes no payload type goes to the second leg, in
/// its place among them.
pub proof fn law_other_attributes_go_on(
    attributes: &Vec<Attribute>,
    selection: &PayloadSelection,
    kept: Vec<Attribute>,
)
    requires
        call_ensures(filter_audio_attributes, (attributes, selection), kept),
    ensures
        attribute_views(kept@).filter(|a: AttributeView| !describes_payload(a))
            == attribute_views(attributes@).filter(|a: AttributeView| !describes_payload(a)),
{
    let all = attribute_views(attributes@);
    let keep = |a: AttributeView| crate::switch::sdp::keeps_attribute(*selection, a);
    let other = |a: AttributeView| !describes_payload(a);
    lemma_filter_twice(all, keep, other);
    lemma_filter_agree(all, |a: AttributeView| keep(a) && other(a), other);
}

/// Of an audio block, the attributes that describe an agreed payload type, or none that can be
/// told, go to the second leg in their order; those that describe another one do not go.
pub proof fn law_agreed_attributes_go_on(
    attributes: &Vec<Attribute>,
    selection: &PayloadSelection,
    kept: Vec<Attribute>,
    payload: u8,
)
    requires
        call_ensures(filter_audio_attributes, (attributes, selection), kept),
    ensures
        payload == selection.audio || selection.dtmf == Some(payload) ==> attribute_views(
            kept@,
        ).filter(|a: AttributeView| describes_payload(a) && attribute_payload(a) == Some(payload))
            == attribute_views(attributes@).filter(
            |a: AttributeView| describes_payload(a) && attribute_payload(a) == Some(payload),
        ),
        payload != selection.audio && selection.dtmf != Some(payload) ==> forall|i: int|
            0 <= i < kept@.len() && describes_payload(#[trigger] kept@[i]@) ==> attribute_payload(
                kept@[i]@,
            ) != Some(payload),
        attribute_views(kept@).filter(
            |a: AttributeView| describes_payload(a) && attribute_payload(a) is None,
        ) == attribute_views(attributes@).filter(
            |a: AttributeView| describes_payload(a) && attribute_payload(a) is None,
        ),
        kept@.len() <= attributes@.len(),
{
    let all = attribute_views(attributes@);
    let keep = |a: AttributeView| crate::switch::sdp::keeps_attribute(*selection, a);
    let of_payload = |a: AttributeView|
        describes_payload(a) && attribute_payload(a) == Some(payload);
    let untold = |a: AttributeView| describes_payload(a) && attribute_payload(a) is None;
    if payload == selection.audio || selection.dtmf == Some(payload) {
        lemma_filter_twice(all, keep, of_payload);
        lemma_filter_agree(all, |a: AttributeView| keep(a) && of_payload(a), of_payload);
    } else {
        lemma_filter_members(all, keep);
        assert forall|i: int| 0 <= i < kept@.len() && describes_payload(
            #[trigger] kept@[i]@,
        ) implies attribute_payload(kept@[i]@) != Some(payload) by {
            assert(all.filter(keep)[i] == kept@[i]@);
        }
    }
    lemma_filter_twice(all, keep, untold);
    lemma_filter_agree(all, |a: AttributeView| keep(a) && untold(a), untold);
    all.lemma_filter_len(keep);
    assert(attribute_views(kept@).len() == kept@.len());
}

/// What goes to the second leg of an audio block is, in the order of the block, every attribute
/// but those that describe a payload type that was not agreed on.
pub proof fn law_attributes_keep_their_order(
    attributes: &Vec<Attribute>,
    selection: &PayloadSelection,
    kept: Vec<Attribute>,
)
    requires
        call_ensures(filter_audio_attributes, (attributes, selection), kept),
    ensures
        attribute_views(kept@) == attribute_views(attributes@).filter(
            |a: AttributeView|
                !(describes_payload(a) && attribute_payload(a) is Some && attribute_payload(a)
                    != Some(selection.audio) && attribute_payload(a) != selection.dtmf),
        ),
{
    let all = attribute_views(attributes@);
    lemma_filter_agree(
        all,
        |a: AttributeView| crate::switch::sdp::keeps_attribute(*selection, a),
        |a: AttributeView|
            !(describes_payload(a) && attribute_payload(a) is Some && attribute_payload(a) != Some(
                selection.audio,
            ) && attribute_payload(a) != selection.dtmf),
    );
}

/// A media block keeps its kind, port, protocol and connection. An audio block keeps its formats
/// in their order, but for the numbers of payload types that were not agreed on; its attributes
/// are cut down likewise. Any other block is sent as it is.
pub proof fn law_a_block_is_cut_down_to_the_agreement(
    media: &MediaDesc,
    selection: &PayloadSelection,
    filtered: MediaDesc,
)
    requires
        call_ensures(filter_media_for_b_leg, (media, selection), filtered),
    ensures
        filtered@.media == media@.media,
        filtered@.port == media@.port,
        filtered@.proto == media@.proto,
        filtered@.connection == media@.connection,
        same_ignoring_case(media@.media, "audio"@) ==> filtered@.formats == media@.formats.filter(
            |f: Seq<char>|
                payload_number(f) is None || payload_number(f) == Some(selection.audio)
                    || payload_number(f) == selection.dtmf,
        ),
        same_ignoring_case(media@.media, "audio"@) ==> filtered@.attributes
            == media@.attributes.filter(
            |a: AttributeView|
                !describes_payload(a) || attribute_payload(a) is None || attribute_payload(a)
                    == Some(selection.audio) || attribute_payload(a) == selection.dtmf,
        ),
        same_ignoring_case(media@.media, "audio"@) ==> filtered@.attributes.filter(
            |a: AttributeView| !describes_payload(a),
        ) == media@.attributes.filter(|a: AttributeView| !describes_payload(a)),
        !same_ignoring_case(media@.media, "audio"@) ==> filtered@.formats == media@.formats
            && filtered@.attributes == media@.attributes,
{
    if same_ignoring_case(media@.media, "audio"@) {
        let keep_format = |f: Seq<char>| crate::switch::sdp::keeps_format(*selection, f);
        lemma_filter_agree(
            media@.formats,
            keep_format,
            |f: Seq<char>|
                payload_number(f) is None || payload_number(f) == Some(selection.audio)
                    || payload_number(f) == selection.dtmf,
        );
        let keep = |a: AttributeView| crate::switch::sdp::keeps_attribute(*selection, a);
        lemma_filter_agree(
            media@.attributes,
            keep,
            |a: AttributeView|
                !describes_payload(a) || attribute_payload(a) is None || attribute_payload(a)
                    == Some(selection.audio) || attribute_payload(a) == selection.dtmf,
        );
        let other = |a: AttributeView| !describes_payload(a);
        lemma_filter_twice(media@.attributes, keep, other);
        lemma_filter_agree(media@.attributes, |a: AttributeView| keep(a) && other(a), other);
    }
}

/// An offer keeps everything but what its audio blocks lose: its lines, and all its blocks in
/// their order.
pub proof fn law_an_offer_keeps_the_rest(
    offer: &SessionDesc,
    selection: &PayloadSelection,
    filtered: SessionDesc,
    i: int,
)
    requires
        call_ensures(filter_session_for_b_leg, (offer, selection), filtered),
        0 <= i < offer@.media.len(),
    ensures
        filtered@.version == offer@.version,
        filtered@.origin == offer@.origin,
        filtered@.session_name == offer@.session_name,
        filtered@.connection == offer@.connection,
        filtered@.timing == offer@.timing,
        filtered@.attributes == offer@.attributes,
        filtered@.media.len() == offer@.media.len(),
        filtered@.media[i].media == offer@.media[i].media,
        filtered@.media[i].port == offer@.media[i].port,
        filtered@.media[i].proto == offer@.media[i].proto,
        filtered@.media[i].connection == offer@.media[i].connection,
        !same_ignoring_case(offer@.media[i].media, "audio"@) ==> filtered@.media[i]
            == offer@.media[i],
        filtered@.media[i].attributes.filter(|a: AttributeView| !describes_payload(a))
            == offer@.media[i].attributes.filter(|a: AttributeView| !describes_payload(a)),
        filtered@.media[i].formats.filter(|f: Seq<char>| payload_number(f) is None)
            == offer@.media[i].formats.filter(|f: Seq<char>| payload_number(f) is None),
        filtered@.media[i].formats.filter(
            |f: Seq<char>| payload_number(f) == Some(selection.audio),
        ) == offer@.media[i].formats.filter(
            |f: Seq<char>| payload_number(f) == Some(selection.audio),
        ),
{
    let block = offer@.media[i];
    let keep = |a: AttributeView| crate::switch::sdp::keeps_attribute(*selection, a);
    let other = |a: AttributeView| !describes_payload(a);
    lemma_filter_twice(block.attributes, keep, other);
    lemma_filter_agree(block.attributes, |a: AttributeView| keep(a) && other(a), other);
    let keep = |f: Seq<char>| crate::switch::sdp::keeps_format(*selection, f);
    let untold = |f: Seq<char>| payload_number(f) is None;
    lemma_filter_twice(block.formats, keep, untold);
    lemma_filter_agree(block.formats, |f: Seq<char>| keep(f) && untold(f), untold);
    let audio = |f: Seq<char>| payload_number(f) == Some(selection.audio);
    lemma_filter_twice(block.formats, keep, audio);
    lemma_filter_agree(block.formats, |f: Seq<char>| keep(f) && audio(f), audio);
}

/// The payload type of a format or of the value of an attribute is the number that it begins
/// with, or that follows its first colon.
pub proof fn law_a_payload_is_the_leading_number(
    n: nat,
    name: Seq<char>,
    rest: Seq<char>,
    value: &str,
    payload: Option<u8>,
)
    requires
        call_ensures(parse_payload_number, (value,), payload),
        !name.contains(':'),
        !rest.contains(':'),
        rest.len() == 0 || rest[0] == ' ',
    ensures
        value@ == decimal(n) + rest ==> payload == if n <= 255 {
            Some(n as u8)
        } else {
            None
        },
        value@ == name + seq![':'] + (decimal(n) + rest) ==> payload == if n <= 255 {
            Some(n as u8)
        } else {
            None
        },
{
    let written = decimal(n) + rest;
    lemma_digits(n);
    law_small_numbers_are_read_back(n);
    assert forall|i: int| 0 <= i < decimal(n).len() implies !crate::scan::is_white(
        #[trigger] decimal(n)[i],
    ) by {
        law_words_end_at_blanks(decimal(n)[i]);
    }
    law_words_end_at_blanks(' ');
    law_first_word(Seq::empty(), decimal(n), rest);
    assert(Seq::<char>::empty() + decimal(n) + rest =~= written);
    assert(!written.contains(':')) by {
        if written.contains(':') {
            let k = choose|k: int| 0 <= k < written.len() && written[k] == ':';
            if k < decimal(n).len() {
                assert(decimal(n)[k] == ':');
            } else {
                assert(rest[k - decimal(n).len()] == ':');
            }
        }
    }
    lemma_no_colon(written);
    lemma_first_colon(name, written);
    let whole = name + seq![':'] + written;
    assert(whole.skip(name.len() as int + 1) =~= written);
}

proof fn lemma_digits(n: nat)
    ensures
        decimal(n).len() > 0,
        forall|i: int| 0 <= i < decimal(n).len() ==> '0' <= #[trigger] decimal(n)[i] <= '9',
{
    crate::scan::lemma_decimal_is_read(n);
    assert forall|i: int| 0 <= i < decimal(n).len() implies '0' <= #[trigger] decimal(n)[i]
        <= '9' by {
        assert(crate::scan::is_digit(decimal(n)[i]));
    }
}

pub(crate) proof fn lemma_no_colon(text: Seq<char>)
    requires
        !text.contains(':'),
    ensures
        crate::scan::first_position(text, ':') == text.len(),
    decreases text.len(),
{
    if text.len() > 0 {
        assert(text.contains(text[0]));
        let rest = text.skip(1);
        assert(!rest.contains(':')) by {
            if rest.contains(':') {
                let k = choose|k: int| 0 <= k < rest.len() && rest[k] == ':';
                assert(text[k + 1] == ':');
            }
        }
        lemma_no_colon(rest);
    }
}

proof fn lemma_first_colon(name: Seq<char>, behind: Seq<char>)
    requires
        !name.contains(':'),
    ensures
        crate::scan::first_position(name + seq![':'] + behind, ':') == name.len(),
    decreases name.len(),
{
    let whole = name + seq![':'] + behind;
    if name.len() > 0 {
        assert(name.contains(name[0]));
        assert(whole[0] == name[0]);
        let rest = name.skip(1);
        assert(!rest.contains(':')) by {
            if rest.contains(':') {
                let k = choose|k: int| 0 <= k < rest.len() && rest[k] == ':';
                assert(name[k + 1] == ':');
            }
        }
        lemma_first_colon(rest, behind);
        assert(whole.skip(1) =~= rest + seq![':'] + behind);
    } else {
        assert(whole[0] == ':');
    }
}

/// What an answer agrees on is what the call keeps and negotiates with: the payload types, the
/// encoding and the clock rates of the answer.
pub proof fn law_an_agreement_is_kept(
    answer: Option<AudioAnswer>,
    state: AudioNegotiationState,
    selection: Option<PayloadSelection>,
)
    requires
        call_ensures(build_audio_state, (answer,), state),
        call_ensures(payload_selection, (&state,), selection),
    ensures
        answer is None <==> state@ is NoAudio,
        answer is Some && answer->0 is Rejected <==> state@ is Rejected,
        answer is Some && answer->0 is Accepted <==> state@ is Accepted,
        selection is Some <==> state@ is Accepted,
        state@ is Accepted ==> {
            let plan = answer->0->Accepted_0;
            let profile = state@->Accepted_0;
            &&& profile.payload_type == plan.payload_type
            &&& profile.encoding_name == plan.rtpmap.encoding@
            &&& profile.clock_rate == plan.rtpmap.clock_rate
            &&& profile.encoding_params is Some <==> plan.rtpmap.encoding_params is Some
            &&& plan.rtpmap.encoding_params is Some ==> profile.encoding_params->0
                == plan.rtpmap.encoding_params->0@
            &&& profile.telephone_event is Some <==> plan.telephone_event is Some
            &&& plan.telephone_event is Some ==> {
                &&& profile.telephone_event->0.payload_type == plan.telephone_event->0.payload_type
                &&& profile.telephone_event->0.clock_rate == plan.telephone_event->0.clock_rate
                &&& profile.telephone_event->0.events == plan.telephone_event->0.events@
            }
            &&& selection->0.audio == plan.payload_type
            &&& selection->0.dtmf is Some <==> plan.telephone_event is Some
            &&& plan.telephone_event is Some ==> selection->0.dtmf->0
                == plan.telephone_event->0.payload_type
        },
{
}

/// The second leg is offered what the offer comes to when it is cut down to the agreement, and is
/// offered something exactly where there is one.
pub proof fn law_the_second_leg_is_offered_the_agreement(
    offer: &SessionDesc,
    state: &AudioNegotiationState,
    text: Option<String>,
    selection: Option<PayloadSelection>,
    filtered: SessionDesc,
    written: String,
)
    requires
        call_ensures(build_b_leg_offer_sdp, (offer, state), text),
        call_ensures(payload_selection, (state,), selection),
        selection is Some ==> call_ensures(
            filter_session_for_b_leg,
            (offer, &selection->0),
            filtered,
        ),
        call_ensures(format_sdp, (&filtered,), written),
    ensures
        text is Some <==> state@ is Accepted,
        state@ is Accepted ==> text->0@ == written@,
{
}

/// The lines of a description stand in their fixed order, each with what it says.
pub proof fn law_a_description_is_written_line_by_line(session: &SessionDesc, text: String, i: int)
    requires
        call_ensures(format_sdp, (session,), text),
    ensures
        ({
            let s = session@;
            let lines = session_lines(s);
            let c = if s.connection is Some {
                1int
            } else {
                0int
            };
            &&& text@ == joined(lines, "\r\n"@) + "\r\n"@
            &&& lines.len() == 4 + c + s.attributes.len() + all_media_lines(s.media).len()
            &&& lines[0] == "v="@ + s.version
            &&& lines[1] == "o="@ + s.origin.username + " "@ + s.origin.session_id + " "@
                + s.origin.session_version + " "@ + s.origin.net_type + " "@ + s.origin.addr_type
                + " "@ + s.origin.address
            &&& lines[2] == "s="@ + s.session_name
            &&& s.connection is Some ==> lines[3] == "c="@ + s.connection->0.net_type + " "@
                + s.connection->0.addr_type + " "@ + s.connection->0.address
            &&& lines[3 + c] == "t="@ + s.timing.start + " "@ + s.timing.stop
            &&& 0 <= i < s.attributes.len() ==> lines[4 + c + i] == match s.attributes[i].value {
                Some(value) => "a="@ + s.attributes[i].key + ":"@ + value,
                None => "a="@ + s.attributes[i].key,
            }
            &&& 0 <= i < all_media_lines(s.media).len() ==> lines[4 + c + s.attributes.len() + i]
                == all_media_lines(s.media)[i]
        }),
{
}

/// The blocks of a description are written one after the other, each with its `m=` line, its
/// connection and its attributes.
pub proof fn law_blocks_are_written_one_after_the_other(
    first: MediaView,
    rest: Seq<MediaView>,
    i: int,
)
    ensures
        all_media_lines(seq![first] + rest) == media_lines(first) + all_media_lines(rest),
        all_media_lines(Seq::empty()).len() == 0,
        media_lines(first)[0] == "m="@ + first.media + " "@ + first.port + " "@ + first.proto
            + blank_separated(first.formats),
        first.connection is Some ==> media_lines(first)[1] == "c="@ + first.connection->0.net_type
            + " "@ + first.connection->0.addr_type + " "@ + first.connection->0.address,
        ({
            let c = if first.connection is Some {
                1int
            } else {
                0int
            };
            &&& media_lines(first).len() == 1 + c + first.attributes.len()
            &&& 0 <= i < first.attributes.len() ==> media_lines(first)[1 + c + i]
                == match first.attributes[i].value {
                Some(value) => "a="@ + first.attributes[i].key + ":"@ + value,
                None => "a="@ + first.attributes[i].key,
            }
        }),
    decreases rest.len(),
{
    let all = seq![first] + rest;
    if rest.len() > 0 {
        law_blocks_are_written_one_after_the_other(first, rest.drop_last(), i);
        assert(all.drop_last() =~= seq![first] + rest.drop_last());
        assert(all.last() == rest.last());
        assert(all_media_lines(all) =~= media_lines(first) + all_media_lines(rest));
    } else {
        assert(all.drop_last() =~= Seq::<MediaView>::empty());
        assert(all_media_lines(all.drop_last()) =~= Seq::<Seq<char>>::empty());
        assert(all_media_lines(rest) =~= Seq::<Seq<char>>::empty());
        assert(all_media_lines(all) =~= media_lines(first) + all_media_lines(rest));
    }
}

/// The formats of a block are written in their order, each with one blank before it.
pub proof fn law_formats_are_written_in_order(first: Seq<char>, rest: Seq<Seq<char>>)
    ensures
        blank_separated(seq![first] + rest) == " "@ + first + blank_separated(rest),
        blank_separated(Seq::empty()).len() == 0,
    decreases rest.len(),
{
    let all = seq![first] + rest;
    if rest.len() > 0 {
        law_formats_are_written_in_order(first, rest.drop_last());
        assert(all.drop_last() =~= seq![first] + rest.drop_last());
        assert(all.last() == rest.last());
        assert(blank_separated(all) =~= " "@ + first + blank_separated(rest));
    } else {
        assert(all.drop_last() =~= Seq::<Seq<char>>::empty());
        assert(blank_separated(all.drop_last()) =~= Seq::<char>::empty());
        assert(blank_separated(rest) =~= Seq::<char>::empty());
        assert(all.last() == first);
        assert(blank_separated(all) =~= " "@ + first + blank_separated(rest));
    }
}

/// The first leg is answered exactly where audio was agreed on and the offer has an audio block.
/// The answer is about the first such block: its port and protocol, its connection or else that
/// of the session, and the payload types, encoding and clock rates that were agreed on.
pub proof fn law_the_first_leg_is_answered_for_its_first_audio_block(
    offer: &SessionDesc,
    state: &AudioNegotiationState,
    text: Option<String>,
    k: int,
)
    requires
        call_ensures(build_a_leg_answer_sdp, (offer, state), text),
    ensures
        text is Some <==> state@ is Accepted && exists|i: int|
            0 <= i < offer@.media.len() && same_ignoring_case(
                (#[trigger] offer@.media[i]).media,
                "audio"@,
            ),
        text is Some && is_first_audio(offer@, k) ==> ({
            let s = offer@;
            let audio = s.media[k];
            let profile = state@->Accepted_0;
            let place = if audio.connection is Some {
                audio.connection
            } else {
                s.connection
            };
            let c = if place is Some {
                1int
            } else {
                0int
            };
            let lines = answer_lines(s, audio, profile);
            let dtmf = profile.telephone_event;
            &&& text->0@ == lines_text(lines)
            &&& lines.len() == 6 + c + if dtmf is Some {
                2int
            } else {
                0int
            }
            &&& lines[0] == "v="@ + s.version
            &&& lines[1] == "o="@ + s.origin.username + " "@ + s.origin.session_id + " "@
                + s.origin.session_version + " "@ + s.origin.net_type + " "@ + s.origin.addr_type
                + " "@ + s.origin.address
            &&& lines[2] == "s="@ + s.session_name
            &&& place is Some ==> lines[3] == "c="@ + place->0.net_type + " "@
                + place->0.addr_type + " "@ + place->0.address
            &&& lines[3 + c] == "t="@ + s.timing.start + " "@ + s.timing.stop
            &&& dtmf is None ==> lines[4 + c] == "m=audio "@ + audio.port + " "@ + audio.proto
                + " "@ + decimal(profile.payload_type as nat)
            &&& dtmf is Some ==> lines[4 + c] == "m=audio "@ + audio.port + " "@ + audio.proto
                + " "@ + decimal(profile.payload_type as nat) + " "@ + decimal(
                dtmf->0.payload_type as nat,
            )
            &&& profile.encoding_params is None ==> lines[5 + c] == "a=rtpmap:"@ + decimal(
                profile.payload_type as nat,
            ) + " "@ + profile.encoding_name + "/"@ + decimal(profile.clock_rate as nat)
            &&& profile.encoding_params is Some ==> lines[5 + c] == "a=rtpmap:"@ + decimal(
                profile.payload_type as nat,
            ) + " "@ + profile.encoding_name + "/"@ + decimal(profile.clock_rate as nat) + "/"@
                + profile.encoding_params->0
            &&& dtmf is Some ==> lines[6 + c] == "a=rtpmap:"@ + decimal(
                dtmf->0.payload_type as nat,
            ) + " telephone-event/"@ + decimal(dtmf->0.clock_rate as nat)
            &&& dtmf is Some ==> lines[7 + c] == "a=fmtp:"@ + decimal(dtmf->0.payload_type as nat)
                + " "@ + dtmf->0.events
        }),
{
    lemma_first_audio(offer@.media);
    if is_first_audio(offer@, k) {
        lemma_first_audio_is(offer@.media, k);
    }
}

/// Whether the `k`-th block of an offer is its first audio block.
pub open spec fn is_first_audio(offer: SessionView, k: int) -> bool {
    &&& 0 <= k < offer.media.len()
    &&& same_ignoring_case(offer.media[k].media, "audio"@)
    &&& forall|i: int|
        0 <= i < k ==> !same_ignoring_case((#[trigger] offer.media[i]).media, "audio"@)
}

proof fn lemma_first_audio(media: Seq<MediaView>)
    ensures
        first_audio(media) is Some <==> exists|i: int|
            0 <= i < media.len() && same_ignoring_case((#[trigger] media[i]).media, "audio"@),
    decreases media.len(),
{
    if media.len() > 0 && !same_ignoring_case(media[0].media, "audio"@) {
        let rest = media.skip(1);
        lemma_first_audio(rest);
        if first_audio(rest) is Some {
            let i = choose|i: int|
                0 <= i < rest.len() && same_ignoring_case((#[trigger] rest[i]).media, "audio"@);
            assert(media[i + 1] == rest[i]);
        }
        assert forall|i: int|
            0 <= i < media.len() && same_ignoring_case(
                (#[trigger] media[i]).media,
                "audio"@,
            ) implies first_audio(rest) is Some by {
            assert(rest[i - 1] == media[i]);
        }
    }
}

proof fn lemma_first_audio_is(media: Seq<MediaView>, k: int)
    requires
        0 <= k < media.len(),
        same_ignoring_case(media[k].media, "audio"@),
        forall|i: int| 0 <= i < k ==> !same_ignoring_case((#[trigger] media[i]).media, "audio"@),
    ensures
        first_audio(media) == Some(media[k]),
    decreases media.len(),
{
    if k > 0 {
        let rest = media.skip(1);
        assert(!same_ignoring_case(media[0].media, "audio"@));
        assert(rest[k - 1] == media[k]);
        assert forall|i: int| 0 <= i < k - 1 implies !same_ignoring_case(
            (#[trigger] rest[i]).media,
            "audio"@,
        ) by {
            assert(rest[i] == media[i + 1]);
        }
        lemma_first_audio_is(rest, k - 1);
    }
}

/// Some lines as one text end with one line end, whether or not the last line brings it.
pub proof fn law_lines_end_once(lines: Seq<Seq<char>>)
    requires
        lines.len() > 0,
    ensures
        lines_text(lines) == joined(lines, "\r\n"@) || lines_text(lines) == joined(lines, "\r\n"@)
            + "\r\n"@,
        lines_text(lines).len() >= 2,
        lines_text(lines)[lines_text(lines).len() - 2] == '\r',
        lines_text(lines)[lines_text(lines).len() - 1] == '\n',
        joined(lines, "\r\n"@).len() < 2 || joined(lines, "\r\n"@).last() != '\n' ==> lines_text(
            lines,
        ) == joined(lines, "\r\n"@) + "\r\n"@,
{
    reveal_strlit("\r\n");
    let text = joined(lines, "\r\n"@);
    assert(crlf() =~= seq!['\r', '\n']);
    if text.len() >= 2 {
        let tail = text.skip(text.len() - 2);
        assert(tail[0] == text[text.len() - 2] && tail[1] == text[text.len() - 1]);
    }
}

/// The provisional response carries exactly the `Via`, `From`, `To`, `Call-ID` and `CSeq` headers
/// of the request, all of each and in order, and says that it has no body.
pub proof fn law_the_response_carries_the_headers_of_the_request(headers: Seq<HeaderView>)
    ensures
        trying_headers(headers).filter(|h: HeaderView| h is Via) == headers.filter(
            |h: HeaderView| h is Via,
        ),
        trying_headers(headers).filter(|h: HeaderView| h is From) == headers.filter(
            |h: HeaderView| h is From,
        ),
        trying_headers(headers).filter(|h: HeaderView| h is To) == headers.filter(
            |h: HeaderView| h is To,
        ),
        trying_headers(headers).filter(|h: HeaderView| h is CallId) == headers.filter(
            |h: HeaderView| h is CallId,
        ),
        trying_headers(headers).filter(|h: HeaderView| h is CSeq) == headers.filter(
            |h: HeaderView| h is CSeq,
        ),
        trying_headers(headers).filter(|h: HeaderView| h is Extension) == seq![
            HeaderView::Extension { name: "Content-Length"@, value: "0"@ },
        ],
        trying_headers(headers).last() == (HeaderView::Extension {
            name: "Content-Length"@,
            value: "0"@,
        }),
{
    let via = |h: HeaderView| h is Via;
    let from = |h: HeaderView| h is From;
    let to = |h: HeaderView| h is To;
    let call = |h: HeaderView| h is CallId;
    let cseq = |h: HeaderView| h is CSeq;
    let extension = |h: HeaderView| h is Extension;
    lemma_response_filter(headers, via, HeaderSelector::Via);
    lemma_response_filter(headers, from, HeaderSelector::From);
    lemma_response_filter(headers, to, HeaderSelector::To);
    lemma_response_filter(headers, call, HeaderSelector::CallId);
    lemma_response_filter(headers, cseq, HeaderSelector::CSeq);
    lemma_response_parts(headers, extension);
    lemma_selected_other(headers, extension, HeaderSelector::Via);
    lemma_selected_other(headers, extension, HeaderSelector::From);
    lemma_selected_other(headers, extension, HeaderSelector::To);
    lemma_selected_other(headers, extension, HeaderSelector::CallId);
    lemma_selected_other(headers, extension, HeaderSelector::CSeq);
    let length = HeaderView::Extension { name: "Content-Length"@, value: "0"@ };
    lemma_filter_one(length, extension);
    assert(trying_headers(headers).filter(extension) =~= seq![length]);
}

proof fn lemma_filter_one(h: HeaderView, p: spec_fn(HeaderView) -> bool)
    ensures
        seq![h].filter(p) == if p(h) {
            seq![h]
        } else {
            Seq::empty()
        },
{
    reveal(Seq::filter);
    assert(seq![h].drop_last() =~= Seq::<HeaderView>::empty());
    assert(seq![h].drop_last().filter(p) =~= Seq::<HeaderView>::empty());
    assert(Seq::<HeaderView>::empty().push(h) =~= seq![h]);
}

proof fn lemma_response_parts(headers: Seq<HeaderView>, p: spec_fn(HeaderView) -> bool)
    ensures
        trying_headers(headers).filter(p) == selected(headers, HeaderSelector::Via).filter(p)
            + selected(headers, HeaderSelector::From).filter(p) + selected(
            headers,
            HeaderSelector::To,
        ).filter(p) + selected(headers, HeaderSelector::CallId).filter(p) + selected(
            headers,
            HeaderSelector::CSeq,
        ).filter(p) + seq![
            HeaderView::Extension { name: "Content-Length"@, value: "0"@ },
        ].filter(p),
{
    let a = selected(headers, HeaderSelector::Via);
    let b = selected(headers, HeaderSelector::From);
    let c = selected(headers, HeaderSelector::To);
    let d = selected(headers, HeaderSelector::CallId);
    let e = selected(headers, HeaderSelector::CSeq);
    let f = seq![HeaderView::Extension { name: "Content-Length"@, value: "0"@ }];
    assert(trying_headers(headers) =~= a + b + c + d + e + f);
    Seq::filter_distributes_over_add(a, b, p);
    Seq::filter_distributes_over_add(a + b, c, p);
    Seq::filter_distributes_over_add(a + b + c, d, p);
    Seq::filter_distributes_over_add(a + b + c + d, e, p);
    Seq::filter_distributes_over_add(a + b + c + d + e, f, p);
}

proof fn lemma_selected_other(
    headers: Seq<HeaderView>,
    p: spec_fn(HeaderView) -> bool,
    selector: HeaderSelector,
)
    requires
        forall|h: HeaderView| crate::switch::sip::selects(selector, h) ==> !#[trigger] p(h),
    ensures
        selected(headers, selector).filter(p) == Seq::<HeaderView>::empty(),
{
    let q = |h: HeaderView| crate::switch::sip::selects(selector, h);
    lemma_filter_twice(headers, q, p);
    let none = |h: HeaderView| q(h) && p(h);
    lemma_filter_members(headers, none);
    if headers.filter(none).len() > 0 {
        let h = headers.filter(none)[0];
        assert(none(h));
    }
    assert(headers.filter(none) =~= Seq::<HeaderView>::empty());
}

proof fn lemma_response_filter(
    headers: Seq<HeaderView>,
    p: spec_fn(HeaderView) -> bool,
    selector: HeaderSelector,
)
    requires
        forall|h: HeaderView| #[trigger] p(h) == crate::switch::sip::selects(selector, h),
    ensures
        trying_headers(headers).filter(p) == headers.filter(p),
{
    lemma_response_parts(headers, p);
    let q = |h: HeaderView| crate::switch::sip::selects(selector, h);
    lemma_filter_twice(headers, q, p);
    lemma_filter_agree(headers, |h: HeaderView| q(h) && p(h), p);
    if selector !is Via {
        lemma_selected_other(headers, p, HeaderSelector::Via);
    }
    if selector !is From {
        lemma_selected_other(headers, p, HeaderSelector::From);
    }
    if selector !is To {
        lemma_selected_other(headers, p, HeaderSelector::To);
    }
    if selector !is CallId {
        lemma_selected_other(headers, p, HeaderSelector::CallId);
    }
    if selector !is CSeq {
        lemma_selected_other(headers, p, HeaderSelector::CSeq);
    }
    let length = HeaderView::Extension { name: "Content-Length"@, value: "0"@ };
    lemma_filter_one(length, p);
    assert(!p(length));
    assert(trying_headers(headers).filter(p) =~= headers.filter(p));
}

/// The provisional response is its status line, its headers and an empty line. Its headers stand
/// in the order `Via`, `From`, `To`, `Call-ID`, `CSeq`, `Content-Length`.
pub proof fn law_the_response_is_written_in_order(message: &SipMessage, text: String, i: int, j: int)
    requires
        call_ensures(write_trying, (message,), text),
    ensures
        text@ == "SIP/2.0 100 Trying\r\n"@ + headers_text(
            trying_headers(header_views(message.headers@)),
        ) + "\r\n"@,
        0 <= i < j < trying_headers(header_views(message.headers@)).len() ==> place_of(
            trying_headers(header_views(message.headers@))[i],
        ) <= place_of(trying_headers(header_views(message.headers@))[j]),
{
    let headers = header_views(message.headers@);
    lemma_selected_members(headers, HeaderSelector::Via);
    lemma_selected_members(headers, HeaderSelector::From);
    lemma_selected_members(headers, HeaderSelector::To);
    lemma_selected_members(headers, HeaderSelector::CallId);
    lemma_selected_members(headers, HeaderSelector::CSeq);
}

/// Where a header stands in a response.
pub open spec fn place_of(header: HeaderView) -> int {
    match header {
        HeaderView::Via(_) => 0,
        HeaderView::From(_) => 1,
        HeaderView::To(_) => 2,
        HeaderView::CallId(_) => 3,
        HeaderView::CSeq(_) => 4,
        HeaderView::Extension { .. } => 5,
    }
}

proof fn lemma_selected_members(headers: Seq<HeaderView>, selector: HeaderSelector)
    ensures
        forall|i: int|
            0 <= i < selected(headers, selector).len() ==> crate::switch::sip::selects(
                selector,
                #[trigger] selected(headers, selector)[i],
            ),
{
    lemma_filter_members(
        headers,
        |header: HeaderView| crate::switch::sip::selects(selector, header),
    );
}

/// The provisional response to a request is its status line, some headers and an empty line. The
/// `Via` headers are exactly those of the request, all of them and in order, and so are the `From`,
/// `To`, `Call-ID` and `CSeq` headers; besides these there is only the length of the empty body.
pub proof fn law_the_response_answers_the_request(message: &SipMessage, text: String)
    requires
        call_ensures(write_trying, (message,), text),
    ensures
        exists|sent: Seq<HeaderView>|
            {
                let asked = header_views(message.headers@);
                &&& text@ == "SIP/2.0 100 Trying\r\n"@ + #[trigger] headers_text(sent) + "\r\n"@
                &&& sent.filter(|h: HeaderView| h is Via) == asked.filter(|h: HeaderView| h is Via)
                &&& sent.filter(|h: HeaderView| h is From) == asked.filter(
                    |h: HeaderView| h is From,
                )
                &&& sent.filter(|h: HeaderView| h is To) == asked.filter(|h: HeaderView| h is To)
                &&& sent.filter(|h: HeaderView| h is CallId) == asked.filter(
                    |h: HeaderView| h is CallId,
                )
                &&& sent.filter(|h: HeaderView| h is CSeq) == asked.filter(
                    |h: HeaderView| h is CSeq,
                )
                &&& sent.filter(|h: HeaderView| h is Extension) == seq![
                    HeaderView::Extension { name: "Content-Length"@, value: "0"@ },
                ]
            },
{
    let asked = header_views(message.headers@);
    law_the_response_carries_the_headers_of_the_request(asked);
    assert(text@ == "SIP/2.0 100 Trying\r\n"@ + headers_text(trying_headers(asked)) + "\r\n"@);
}

/// Headers are written one line each, in their order, with their name, a colon, a blank and their
/// value.
pub proof fn law_headers_are_written_line_by_line(first: HeaderView, rest: Seq<HeaderView>)
    ensures
        headers_text(seq![first] + rest) == (match first {
            HeaderView::Via(value) => "Via"@ + ": "@ + value,
            HeaderView::From(value) => "From"@ + ": "@ + value,
            HeaderView::To(value) => "To"@ + ": "@ + value,
            HeaderView::CallId(value) => "Call-ID"@ + ": "@ + value,
            HeaderView::CSeq(value) => "CSeq"@ + ": "@ + value,
            HeaderView::Extension { name, value } => name + ": "@ + value,
        }) + "\r\n"@ + headers_text(rest),
        headers_text(Seq::empty()).len() == 0,
    decreases rest.len(),
{
    let all = seq![first] + rest;
    if rest.len() > 0 {
        law_headers_are_written_line_by_line(first, rest.drop_last());
        assert(all.drop_last() =~= seq![first] + rest.drop_last());
        assert(all.last() == rest.last());
    } else {
        assert(all.drop_last() =~= Seq::<HeaderView>::empty());
        assert(headers_text(all.drop_last()) =~= Seq::<char>::empty());
        assert(headers_text(rest) =~= Seq::<char>::empty());
    }
    let line = (match first {
        HeaderView::Via(value) => "Via"@ + ": "@ + value,
        HeaderView::From(value) => "From"@ + ": "@ + value,
        HeaderView::To(value) => "To"@ + ": "@ + value,
        HeaderView::CallId(value) => "Call-ID"@ + ": "@ + value,
        HeaderView::CSeq(value) => "CSeq"@ + ": "@ + value,
        HeaderView::Extension { name, value } => name + ": "@ + value,
    }) + "\r\n"@;
    assert(headers_text(all) =~= line + headers_text(rest));
}

/// The call id of a message is the value of its first `Call-ID` header, and a message has one
/// exactly where it has such a header.
pub proof fn law_the_call_id_is_the_first(message: &SipMessage, call_id: Option<&String>, k: int)
    requires
        call_ensures(find_call_id, (message,), call_id),
    ensures
        call_id is Some <==> exists|i: int|
            0 <= i < message.headers@.len() && (#[trigger] message.headers@[i]) is CallId,
        0 <= k < message.headers@.len() && message.headers@[k] is CallId && (forall|i: int|
            0 <= i < k ==> !((#[trigger] message.headers@[i]) is CallId)) ==> call_id is Some
            && call_id->0@ == message.headers@[k]->CallId_0@,
{
    lemma_call_id(header_views(message.headers@));
    let views = header_views(message.headers@);
    assert forall|i: int| 0 <= i < message.headers@.len() implies ((#[trigger] message.headers@[i])
        is CallId) == (views[i] is CallId) by {
        assert(views[i] == message.headers@[i]@);
    }
    if crate::switch::sip::call_id_of(views) is Some {
        let i = choose|i: int| 0 <= i < views.len() && (#[trigger] views[i]) is CallId;
        assert(message.headers@[i] is CallId);
    }
    if exists|i: int| 0 <= i < message.headers@.len() && (#[trigger] message.headers@[i])
        is CallId {
        let i = choose|i: int|
            0 <= i < message.headers@.len() && (#[trigger] message.headers@[i]) is CallId;
        assert(views[i] is CallId);
    }
    if 0 <= k < message.headers@.len() && message.headers@[k] is CallId && (forall|i: int|
        0 <= i < k ==> !((#[trigger] message.headers@[i]) is CallId)) {
        assert forall|i: int| 0 <= i < k implies !((#[trigger] views[i]) is CallId) by {
            assert(!(message.headers@[i] is CallId));
        }
        assert(views[k] is CallId);
        lemma_call_id_is(views, k);
    }
}

pub(crate) proof fn lemma_call_id(headers: Seq<HeaderView>)
    ensures
        crate::switch::sip::call_id_of(headers) is Some <==> exists|i: int|
            0 <= i < headers.len() && (#[trigger] headers[i]) is CallId,
    decreases headers.len(),
{
    if headers.len() > 0 && !(headers[0] is CallId) {
        let rest = headers.skip(1);
        lemma_call_id(rest);
        if crate::switch::sip::call_id_of(rest) is Some {
            let i = choose|i: int| 0 <= i < rest.len() && (#[trigger] rest[i]) is CallId;
            assert(headers[i + 1] == rest[i]);
        }
        assert forall|i: int|
            0 <= i < headers.len() && (#[trigger] headers[i]) is CallId implies
            crate::switch::sip::call_id_of(rest) is Some by {
            assert(rest[i - 1] == headers[i]);
        }
    }
}

pub(crate) proof fn lemma_call_id_is(headers: Seq<HeaderView>, k: int)
    requires
        0 <= k < headers.len(),
        headers[k] is CallId,
        forall|i: int| 0 <= i < k ==> !((#[trigger] headers[i]) is CallId),
    ensures
        crate::switch::sip::call_id_of(headers) == Some(headers[k]->CallId_0),
    decreases headers.len(),
{
    if k > 0 {
        let rest = headers.skip(1);
        assert(!(headers[0] is CallId));
        assert(rest[k - 1] == headers[k]);
        assert forall|i: int| 0 <= i < k - 1 implies !((#[trigger] rest[i]) is CallId) by {
            assert(rest[i] == headers[i + 1]);
        }
        lemma_call_id_is(rest, k - 1);
    }
}

} // verus!
