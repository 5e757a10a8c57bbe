//! Media negotiation of a call: what was agreed on, the offer for the second call leg, and the
//! answer for the first.
use vstd::prelude::*;

use crate::scan::{eq_ignore_ascii_case, same_ignoring_case};
use crate::seqs::{lemma_filter_all, lemma_filter_members};
use crate::switch::sdp::{
    connection_lines, copy_attributes, copy_connection, crlf, filter_media_for_b_leg,
    filtered_media, format_sdp, join_sdp_lines, keeps_attribute, keeps_format, lines_text,
    media_views, origin_line, origin_text, prefixed, push_connection, push_line, session_lines,
    timing_line, timing_text, AttributeView, ConnectionLine, MediaDesc, MediaView,
    PayloadSelection, SessionDesc, SessionView, Timing,
};
use crate::text::{decimal, joined, push_decimal, texts};

verus! {

/// Key presses that travel beside the audio: payload type, clock rate, and which keys.
#[derive(Debug, PartialEq, Eq)]
pub struct DtmfProfile {
    pub payload_type: u8,
    pub clock_rate: u32,
    pub events: String,
}

/// The audio that was agreed on.
#[derive(Debug, PartialEq, Eq)]
pub struct AudioNegotiationProfile {
    pub payload_type: u8,
    pub encoding_name: String,
    pub clock_rate: u32,
    pub encoding_params: Option<String>,
    pub telephone_event: Option<DtmfProfile>,
}

/// Where the negotiation of audio stands.
#[derive(Debug, PartialEq, Eq)]
pub enum AudioNegotiationState {
    NoAudio,
    Rejected,
    Accepted(AudioNegotiationProfile),
}

/// What a description of key presses says, for the contracts.
#[verifier::ext_equal]
pub struct DtmfView {
    pub payload_type: u8,
    pub clock_rate: u32,
    pub events: Seq<char>,
}

/// What an agreement on audio says, for the contracts.
#[verifier::ext_equal]
pub struct ProfileView {
    pub payload_type: u8,
    pub encoding_name: Seq<char>,
    pub clock_rate: u32,
    pub encoding_params: Option<Seq<char>>,
    pub telephone_event: Option<DtmfView>,
}

/// What the state of a negotiation says, for the contracts.
pub enum StateView {
    NoAudio,
    Rejected,
    Accepted(ProfileView),
}

impl View for DtmfProfile {
    type V = DtmfView;

    open spec fn view(&self) -> DtmfView {
        DtmfView {
            payload_type: self.payload_type,
            clock_rate: self.clock_rate,
            events: self.events@,
        }
    }
}

impl View for AudioNegotiationProfile {
    type V = ProfileView;

    open spec fn view(&self) -> ProfileView {
        ProfileView {
            payload_type: self.payload_type,
            encoding_name: self.encoding_name@,
            clock_rate: self.clock_rate,
            encoding_params: match self.encoding_params {
                Some(params) => Some(params@),
                None => None,
            },
            telephone_event: match self.telephone_event {
                Some(event) => Some(event@),
                None => None,
            },
        }
    }
}

impl View for AudioNegotiationState {
    type V = StateView;

    open spec fn view(&self) -> StateView {
        match self {
            AudioNegotiationState::NoAudio => StateView::NoAudio,
            AudioNegotiationState::Rejected => StateView::Rejected,
            AudioNegotiationState::Accepted(profile) => StateView::Accepted(profile@),
        }
    }
}

/// How a payload type is mapped to an encoding.
#[derive(Debug, PartialEq, Eq)]
pub struct RtpMap {
    pub encoding: String,
    pub clock_rate: u32,
    pub encoding_params: Option<String>,
}

/// Key presses as an answer accepts them.
#[derive(Debug, PartialEq, Eq)]
pub struct TelephoneEvent {
    pub payload_type: u8,
    pub clock_rate: u32,
    pub events: String,
}

/// Audio as an answer accepts it.
#[derive(Debug, PartialEq, Eq)]
pub struct AudioAcceptPlan {
    pub payload_type: u8,
    pub rtpmap: RtpMap,
    pub telephone_event: Option<TelephoneEvent>,
}

/// What an answer says to the audio of an offer.
#[derive(Debug, PartialEq, Eq)]
pub enum AudioAnswer {
    Rejected,
    Accepted(AudioAcceptPlan),
}

/// What an accepted plan amounts to.
pub open spec fn profile_of(plan: AudioAcceptPlan) -> ProfileView {
    ProfileView {
        payload_type: plan.payload_type,
        encoding_name: plan.rtpmap.encoding@,
        clock_rate: plan.rtpmap.clock_rate,
        encoding_params: match plan.rtpmap.encoding_params {
            Some(params) => Some(params@),
            None => None,
        },
        telephone_event: match plan.telephone_event {
            Some(event) => Some(
                DtmfView {
                    payload_type: event.payload_type,
                    clock_rate: event.clock_rate,
                    events: event.events@,
                },
            ),
            None => None,
        },
    }
}

/// What the answer to an offer amounts to; an offer without audio has no answer.
pub open spec fn state_of(answer: Option<AudioAnswer>) -> StateView {
    match answer {
        None => StateView::NoAudio,
        Some(AudioAnswer::Rejected) => StateView::Rejected,
        Some(AudioAnswer::Accepted(plan)) => StateView::Accepted(profile_of(plan)),
    }
}

/// Turns the answer to an offer into the state that a call keeps.
pub fn build_audio_state(answer: Option<AudioAnswer>) -> (state: AudioNegotiationState)
    ensures
        state@ == state_of(answer),
{
    match answer {
        None => AudioNegotiationState::NoAudio,
        Some(AudioAnswer::Rejected) => AudioNegotiationState::Rejected,
        Some(AudioAnswer::Accepted(plan)) => AudioNegotiationState::Accepted(
            build_audio_profile(plan),
        ),
    }
}

fn build_audio_profile(plan: AudioAcceptPlan) -> (profile: AudioNegotiationProfile)
    ensures
        profile@ == profile_of(plan),
{
    let telephone_event = match plan.telephone_event {
        Some(event) => Some(build_dtmf_profile(event)),
        None => None,
    };
    AudioNegotiationProfile {
        payload_type: plan.payload_type,
        encoding_name: plan.rtpmap.encoding,
        clock_rate: plan.rtpmap.clock_rate,
        encoding_params: plan.rtpmap.encoding_params,
        telephone_event,
    }
}

fn build_dtmf_profile(event: TelephoneEvent) -> (profile: DtmfProfile)
    ensures
        profile@ == (DtmfView {
            payload_type: event.payload_type,
            clock_rate: event.clock_rate,
            events: event.events@,
        }),
{
    DtmfProfile {
        payload_type: event.payload_type,
        clock_rate: event.clock_rate,
        events: event.events,
    }
}

/// The payload types of an agreement; nothing where there is none.
pub open spec fn selection_of(state: StateView) -> Option<PayloadSelection> {
    match state {
        StateView::Accepted(profile) => Some(
            PayloadSelection {
                audio: profile.payload_type,
                dtmf: match profile.telephone_event {
                    Some(event) => Some(event.payload_type),
                    None => None,
                },
            },
        ),
        _ => None,
    }
}

/// The payload types of an agreement; nothing where there is none.
pub fn payload_selection(state: &AudioNegotiationState) -> (selection: Option<PayloadSelection>)
    ensures
        selection == selection_of(state@),
{
    match state {
        AudioNegotiationState::Accepted(profile) => Some(
            PayloadSelection {
                audio: profile.payload_type,
                dtmf: match &profile.telephone_event {
                    Some(event) => Some(event.payload_type),
                    None => None,
                },
            },
        ),
        _ => None,
    }
}

/// An offer as the second call leg is to see it.
pub open spec fn filtered_session(selection: PayloadSelection, offer: SessionView) -> SessionView {
    SessionView {
        media: offer.media.map_values(|media: MediaView| filtered_media(selection, media)),
        ..offer
    }
}

/// Cuts an offer down to what the second call leg is to see.
pub fn filter_session_for_b_leg(
    offer: &SessionDesc,
    selection: &PayloadSelection,
) -> (filtered: SessionDesc)
    ensures
        filtered@ == filtered_session(*selection, offer@),
{
    let ghost cut = |media: MediaView| filtered_media(*selection, media);
    let ghost all = media_views(offer.media@);
    let mut media: Vec<MediaDesc> = Vec::new();
    let mut i: usize = 0;
    proof {
        assert(media_views(media@) =~= all.take(0).map_values(cut));
    }
    while i < offer.media.len()
        invariant
            i <= offer.media@.len(),
            all == media_views(offer.media@),
            cut == (|media: MediaView| filtered_media(*selection, media)),
            media_views(media@) == all.take(i as int).map_values(cut),
        decreases offer.media.len() - i,
    {
        let ghost before = media@;
        media.push(filter_media_for_b_leg(&offer.media[i], selection));
        proof {
            assert(media_views(media@) =~= media_views(before).push(cut(all[i as int])));
            assert(all.take(i + 1).map_values(cut) =~= all.take(i as int).map_values(cut).push(
                cut(all[i as int]),
            ));
        }
        i = i + 1;
    }
    proof {
        assert(all.take(i as int) == all);
    }
    SessionDesc {
        version: offer.version.clone(),
        origin: offer.origin.clone(),
        session_name: offer.session_name.clone(),
        connection: copy_connection(&offer.connection),
        timing: Timing { start: offer.timing.start.clone(), stop: offer.timing.stop.clone() },
        attributes: copy_attributes(&offer.attributes),
        media,
    }
}

/// The text of the offer for the second call leg; nothing without an agreement.
pub open spec fn b_leg_offer(offer: SessionView, state: StateView) -> Option<Seq<char>> {
    match selection_of(state) {
        Some(selection) => Some(
            joined(session_lines(filtered_session(selection, offer)), crlf()) + crlf(),
        ),
        None => None,
    }
}

/// The text of the offer for the second call leg; nothing without an agreement.
pub fn build_b_leg_offer_sdp(
    offer: &SessionDesc,
    state: &AudioNegotiationState,
) -> (text: Option<String>)
    ensures
        text is Some <==> b_leg_offer(offer@, state@) is Some,
        text is Some ==> text->0@ == b_leg_offer(offer@, state@)->0,
{
    match payload_selection(state) {
        Some(selection) => Some(format_sdp(&filter_session_for_b_leg(offer, &selection))),
        None => None,
    }
}

/// The first audio block of an offer, where there is one.
pub open spec fn first_audio(media: Seq<MediaView>) -> Option<MediaView>
    decreases media.len(),
{
    if media.len() == 0 {
        None
    } else if same_ignoring_case(media[0].media, "audio"@) {
        Some(media[0])
    } else {
        first_audio(media.skip(1))
    }
}

/// The `m=` line of an answer.
pub open spec fn answer_media_text(audio: MediaView, profile: ProfileView) -> Seq<char> {
    let line = "m=audio "@ + audio.port + " "@ + audio.proto + " "@ + decimal(
        profile.payload_type as nat,
    );
    match profile.telephone_event {
        Some(event) => line + " "@ + decimal(event.payload_type as nat),
        None => line,
    }
}

/// The `a=rtpmap` line of the audio of an answer.
pub open spec fn answer_rtpmap_text(profile: ProfileView) -> Seq<char> {
    let line = "a=rtpmap:"@ + decimal(profile.payload_type as nat) + " "@ + profile.encoding_name
        + "/"@ + decimal(profile.clock_rate as nat);
    match profile.encoding_params {
        Some(params) => line + "/"@ + params,
        None => line,
    }
}

/// The lines of an answer that describe key presses.
pub open spec fn answer_dtmf_lines(event: Option<DtmfView>) -> Seq<Seq<char>> {
    match event {
        Some(event) => seq![
            "a=rtpmap:"@ + decimal(event.payload_type as nat) + " telephone-event/"@ + decimal(
                event.clock_rate as nat,
            ),
            "a=fmtp:"@ + decimal(event.payload_type as nat) + " "@ + event.events,
        ],
        None => Seq::empty(),
    }
}

/// Where media goes: the connection of the audio block, or else that of the session.
pub open spec fn answer_connection(offer: SessionView, audio: MediaView) -> Option<ConnectionLine> {
    match audio.connection {
        Some(connection) => Some(connection),
        None => offer.connection,
    }
}

/// The lines of an answer.
pub open spec fn answer_lines(
    offer: SessionView,
    audio: MediaView,
    profile: ProfileView,
) -> Seq<Seq<char>> {
    seq!["v="@ + offer.version, origin_text(offer.origin), "s="@ + offer.session_name]
        + connection_lines(answer_connection(offer, audio)) + seq![
        timing_text(offer.timing),
        answer_media_text(audio, profile),
        answer_rtpmap_text(profile),
    ] + answer_dtmf_lines(profile.telephone_event)
}

/// The text of the answer for the first call leg: one where audio was agreed on and the offer has
/// an audio block, and none otherwise.
pub open spec fn a_leg_answer(offer: SessionView, state: StateView) -> Option<Seq<char>> {
    match (state, first_audio(offer.media)) {
        (StateView::Accepted(profile), Some(audio)) => Some(
            lines_text(answer_lines(offer, audio, profile)),
        ),
        _ => None,
    }
}

fn find_audio(media: &Vec<MediaDesc>) -> (index: Option<usize>)
    ensures
        index is Some <==> first_audio(media_views(media@)) is Some,
        index is Some ==> index->0 < media@.len() && first_audio(media_views(media@)) == Some(
            media@[index->0 as int]@,
        ),
{
    let ghost all = media_views(media@);
    let mut i: usize = 0;
    proof {
        assert(all.skip(0) == all);
    }
    while i < media.len()
        invariant
            i <= media@.len(),
            all == media_views(media@),
            first_audio(all) == first_audio(all.skip(i as int)),
        decreases media.len() - i,
    {
        proof {
            assert(all.skip(i as int)[0] == media@[i as int]@);
            assert(all.skip(i as int).skip(1) == all.skip(i + 1));
        }
        if eq_ignore_ascii_case(media[i].media.as_str(), "audio") {
            return Some(i);
        }
        i = i + 1;
    }
    None
}

fn answer_media_line(
    audio: &MediaDesc,
    profile: &AudioNegotiationProfile,
) -> (line: String)
    ensures
        line@ == answer_media_text(audio@, profile@),
{
    let mut line = "m=audio ".to_owned();
    line.append(audio.port.as_str());
    line.append(" ");
    line.append(audio.proto.as_str());
    line.append(" ");
    push_decimal(&mut line, profile.payload_type as u64);
    if let Some(event) = &profile.telephone_event {
        line.append(" ");
        push_decimal(&mut line, event.payload_type as u64);
    }
    line
}

fn answer_rtpmap_line(profile: &AudioNegotiationProfile) -> (line: String)
    ensures
        line@ == answer_rtpmap_text(profile@),
{
    let mut line = "a=rtpmap:".to_owned();
    push_decimal(&mut line, profile.payload_type as u64);
    line.append(" ");
    line.append(profile.encoding_name.as_str());
    line.append("/");
    push_decimal(&mut line, profile.clock_rate as u64);
    if let Some(params) = &profile.encoding_params {
        line.append("/");
        line.append(params.as_str());
    }
    line
}

fn push_dtmf(lines: &mut Vec<String>, event: &DtmfProfile)
    ensures
        texts(final(lines)@) == texts(old(lines)@) + answer_dtmf_lines(Some(event@)),
{
    let ghost before = texts(lines@);
    let mut rtpmap = "a=rtpmap:".to_owned();
    push_decimal(&mut rtpmap, event.payload_type as u64);
    rtpmap.append(" telephone-event/");
    push_decimal(&mut rtpmap, event.clock_rate as u64);
    push_line(lines, rtpmap);
    let mut fmtp = "a=fmtp:".to_owned();
    push_decimal(&mut fmtp, event.payload_type as u64);
    fmtp.append(" ");
    fmtp.append(event.events.as_str());
    push_line(lines, fmtp);
    proof {
        assert(texts(lines@) =~= before + answer_dtmf_lines(Some(event@)));
    }
}

/// The text of the answer for the first call leg.
pub fn build_a_leg_answer_sdp(
    offer: &SessionDesc,
    state: &AudioNegotiationState,
) -> (text: Option<String>)
    ensures
        text is Some <==> a_leg_answer(offer@, state@) is Some,
        text is Some ==> text->0@ == a_leg_answer(offer@, state@)->0,
{
    let profile = match state {
        AudioNegotiationState::Accepted(profile) => profile,
        _ => {
            return None;
        },
    };
    let index: usize = match find_audio(&offer.media) {
        Some(index) => index,
        None => {
            return None;
        },
    };
    let audio = &offer.media[index];
    let mut lines: Vec<String> = Vec::new();
    let ghost start = texts(lines@);
    push_line(&mut lines, prefixed("v=", offer.version.as_str()));
    push_line(&mut lines, origin_line(&offer.origin));
    push_line(&mut lines, prefixed("s=", offer.session_name.as_str()));
    if audio.connection.is_some() {
        push_connection(&mut lines, &audio.connection);
    } else {
        push_connection(&mut lines, &offer.connection);
    }
    push_line(&mut lines, timing_line(&offer.timing));
    push_line(&mut lines, answer_media_line(audio, profile));
    push_line(&mut lines, answer_rtpmap_line(profile));
    if let Some(event) = &profile.telephone_event {
        push_dtmf(&mut lines, event);
    }
    proof {
        assert(start =~= Seq::<Seq<char>>::empty());
        assert(texts(lines@) =~= answer_lines(offer@, audio@, profile@));
    }
    Some(join_sdp_lines(&lines))
}

/// Cutting an offer down leaves nothing in its audio blocks that was not agreed on, as far as it
/// can be told, and takes nothing away that was.
pub proof fn law_only_agreed_payloads_remain(selection: PayloadSelection, media: MediaView)
    requires
        same_ignoring_case(media.media, "audio"@),
    ensures
        forall|i: int|
            0 <= i < filtered_media(selection, media).formats.len() ==> keeps_format(
                selection,
                #[trigger] filtered_media(selection, media).formats[i],
            ),
        forall|i: int|
            0 <= i < media.formats.len() && keeps_format(selection, media.formats[i])
                ==> #[trigger] filtered_media(selection, media).formats.contains(media.formats[i]),
        forall|i: int|
            0 <= i < filtered_media(selection, media).attributes.len() ==> keeps_attribute(
                selection,
                #[trigger] filtered_media(selection, media).attributes[i],
            ),
        forall|i: int|
            0 <= i < media.attributes.len() && keeps_attribute(selection, media.attributes[i])
                ==> #[trigger] filtered_media(selection, media).attributes.contains(
                media.attributes[i],
            ),
{
    let keep = |format: Seq<char>| keeps_format(selection, format);
    lemma_filter_members(media.formats, keep);
    assert forall|i: int| 0 <= i < media.formats.len() && keeps_format(
        selection,
        media.formats[i],
    ) implies #[trigger] filtered_media(selection, media).formats.contains(media.formats[i]) by {
        assert(keep(media.formats[i]));
        media.formats.lemma_filter_contains(keep, i);
    }
    let hold = |attribute: AttributeView| keeps_attribute(selection, attribute);
    lemma_filter_members(media.attributes, hold);
    assert forall|i: int| 0 <= i < media.attributes.len() && keeps_attribute(
        selection,
        media.attributes[i],
    ) implies #[trigger] filtered_media(selection, media).attributes.contains(
        media.attributes[i],
    ) by {
        assert(hold(media.attributes[i]));
        media.attributes.lemma_filter_contains(hold, i);
    }
}

/// Cutting an offer down a second time changes nothing.
pub proof fn law_cutting_down_is_idempotent(selection: PayloadSelection, offer: SessionView)
    ensures
        filtered_session(selection, filtered_session(selection, offer)) == filtered_session(
            selection,
            offer,
        ),
{
    let once = filtered_session(selection, offer);
    assert forall|i: int| 0 <= i < once.media.len() implies filtered_media(
        selection,
        #[trigger] once.media[i],
    ) == once.media[i] by {
        let media = once.media[i];
        assert(media == filtered_media(selection, offer.media[i]));
        if same_ignoring_case(media.media, "audio"@) {
            law_only_agreed_payloads_remain(selection, offer.media[i]);
            lemma_filter_all(media.formats, |format: Seq<char>| keeps_format(selection, format));
            lemma_filter_all(
                media.attributes,
                |attribute: AttributeView| keeps_attribute(selection, attribute),
            );
        }
    }
    assert(filtered_session(selection, once).media =~= once.media);
}

/// Blocks that are not audio pass through an offer untouched, and no block is lost.
pub proof fn law_other_media_pass_untouched(selection: PayloadSelection, offer: SessionView, i: int)
    requires
        0 <= i < offer.media.len(),
    ensures
        filtered_session(selection, offer).media.len() == offer.media.len(),
        !same_ignoring_case(offer.media[i].media, "audio"@) ==> filtered_session(
            selection,
            offer,
        ).media[i] == offer.media[i],
{
}

/// Only an agreement gives rise to an offer for the second leg or to an answer for the first.
pub proof fn law_no_agreement_no_text(offer: SessionView, state: StateView)
    requires
        !(state is Accepted),
    ensures
        b_leg_offer(offer, state) is None,
        a_leg_answer(offer, state) is None,
{
}

} // verus!
