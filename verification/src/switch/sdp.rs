//! Session descriptions: their structure, their text form, and what is cut out of an offer before
//! it goes to the second call leg.
use vstd::prelude::*;

use crate::scan::{
    eq_ignore_ascii_case, first_position, first_word, parse_small_number, position_of,
    same_ignoring_case, small_number, word_from,
};
use crate::seqs::lemma_filter_step;
use crate::text::{chars_of, copy_texts, join, joined, texts};

verus! {

/// The `o=` line: who made the description.
#[derive(Debug, PartialEq, Eq)]
pub struct Origin {
    pub username: String,
    pub session_id: String,
    pub session_version: String,
    pub net_type: String,
    pub addr_type: String,
    pub address: String,
}

/// A `c=` line: where media goes.
#[derive(Debug, PartialEq, Eq)]
pub struct Connection {
    pub net_type: String,
    pub addr_type: String,
    pub address: String,
}

/// The `t=` line: when the session takes place.
#[derive(Debug, PartialEq, Eq)]
pub struct Timing {
    pub start: String,
    pub stop: String,
}

/// An `a=` line: a name, with or without a value.
#[derive(Debug, PartialEq, Eq)]
pub struct Attribute {
    pub key: String,
    pub value: Option<String>,
}

/// One media block.
#[derive(Debug, PartialEq, Eq)]
pub struct MediaDesc {
    pub media: String,
    pub port: String,
    pub proto: String,
    pub formats: Vec<String>,
    pub connection: Option<Connection>,
    pub attributes: Vec<Attribute>,
}

/// A whole session description.
#[derive(Debug, PartialEq, Eq)]
pub struct SessionDesc {
    pub version: String,
    pub origin: Origin,
    pub session_name: String,
    pub connection: Option<Connection>,
    pub timing: Timing,
    pub attributes: Vec<Attribute>,
    pub media: Vec<MediaDesc>,
}

/// What an origin says, for the contracts.
#[verifier::ext_equal]
pub struct OriginView {
    pub username: Seq<char>,
    pub session_id: Seq<char>,
    pub session_version: Seq<char>,
    pub net_type: Seq<char>,
    pub addr_type: Seq<char>,
    pub address: Seq<char>,
}

/// What a connection says, for the contracts.
#[verifier::ext_equal]
pub struct ConnectionLine {
    pub net_type: Seq<char>,
    pub addr_type: Seq<char>,
    pub address: Seq<char>,
}

/// What a timing says, for the contracts.
#[verifier::ext_equal]
pub struct TimingView {
    pub start: Seq<char>,
    pub stop: Seq<char>,
}

/// What an attribute says, for the contracts.
#[verifier::ext_equal]
pub struct AttributeView {
    pub key: Seq<char>,
    pub value: Option<Seq<char>>,
}

/// What a media block says, for the contracts.
#[verifier::ext_equal]
pub struct MediaView {
    pub media: Seq<char>,
    pub port: Seq<char>,
    pub proto: Seq<char>,
    pub formats: Seq<Seq<char>>,
    pub connection: Option<ConnectionLine>,
    pub attributes: Seq<AttributeView>,
}

/// What a session description says, for the contracts.
#[verifier::ext_equal]
pub struct SessionView {
    pub version: Seq<char>,
    pub origin: OriginView,
    pub session_name: Seq<char>,
    pub connection: Option<ConnectionLine>,
    pub timing: TimingView,
    pub attributes: Seq<AttributeView>,
    pub media: Seq<MediaView>,
}

impl View for Origin {
    type V = OriginView;

    open spec fn view(&self) -> OriginView {
        OriginView {
            username: self.username@,
            session_id: self.session_id@,
            session_version: self.session_version@,
            net_type: self.net_type@,
            addr_type: self.addr_type@,
            address: self.address@,
        }
    }
}

impl View for Connection {
    type V = ConnectionLine;

    open spec fn view(&self) -> ConnectionLine {
        ConnectionLine {
            net_type: self.net_type@,
            addr_type: self.addr_type@,
            address: self.address@,
        }
    }
}

impl View for Timing {
    type V = TimingView;

    open spec fn view(&self) -> TimingView {
        TimingView { start: self.start@, stop: self.stop@ }
    }
}

impl View for Attribute {
    type V = AttributeView;

    open spec fn view(&self) -> AttributeView {
        AttributeView {
            key: self.key@,
            value: match self.value {
                Some(value) => Some(value@),
                None => None,
            },
        }
    }
}

/// What an optional connection says.
pub open spec fn connection_line(connection: Option<Connection>) -> Option<ConnectionLine> {
    match connection {
        Some(connection) => Some(connection@),
        None => None,
    }
}

/// What a list of attributes says.
pub open spec fn attribute_views(attributes: Seq<Attribute>) -> Seq<AttributeView> {
    attributes.map_values(|attribute: Attribute| attribute@)
}

/// What a list of media blocks says.
pub open spec fn media_views(media: Seq<MediaDesc>) -> Seq<MediaView> {
    media.map_values(|block: MediaDesc| block@)
}

impl View for MediaDesc {
    type V = MediaView;

    open spec fn view(&self) -> MediaView {
        MediaView {
            media: self.media@,
            port: self.port@,
            proto: self.proto@,
            formats: texts(self.formats@),
            connection: connection_line(self.connection),
            attributes: attribute_views(self.attributes@),
        }
    }
}

impl View for SessionDesc {
    type V = SessionView;

    open spec fn view(&self) -> SessionView {
        SessionView {
            version: self.version@,
            origin: self.origin@,
            session_name: self.session_name@,
            connection: connection_line(self.connection),
            timing: self.timing@,
            attributes: attribute_views(self.attributes@),
            media: media_views(self.media@),
        }
    }
}

impl Clone for Origin {
    /// A copy says the same.
    fn clone(&self) -> (copy: Origin)
        ensures
            copy@ == self@,
    {
        Origin {
            username: self.username.clone(),
            session_id: self.session_id.clone(),
            session_version: self.session_version.clone(),
            net_type: self.net_type.clone(),
            addr_type: self.addr_type.clone(),
            address: self.address.clone(),
        }
    }
}

impl Clone for Connection {
    /// A copy says the same.
    fn clone(&self) -> (copy: Connection)
        ensures
            copy@ == self@,
    {
        Connection {
            net_type: self.net_type.clone(),
            addr_type: self.addr_type.clone(),
            address: self.address.clone(),
        }
    }
}

impl Clone for Attribute {
    /// A copy says the same.
    fn clone(&self) -> (copy: Attribute)
        ensures
            copy@ == self@,
    {
        Attribute {
            key: self.key.clone(),
            value: match &self.value {
                Some(value) => Some(value.clone()),
                None => None,
            },
        }
    }
}

/// A copy of an optional connection.
pub fn copy_connection(connection: &Option<Connection>) -> (copy: Option<Connection>)
    ensures
        connection_line(copy) == connection_line(*connection),
{
    match connection {
        Some(connection) => Some(connection.clone()),
        None => None,
    }
}

/// The payload types that were agreed on: one for audio, and one for key presses where there is
/// one.
#[derive(Clone, Copy, Debug, PartialEq, Eq)]
pub struct PayloadSelection {
    pub audio: u8,
    pub dtmf: Option<u8>,
}

impl PayloadSelection {
    /// Whether a payload type was agreed on.
    pub open spec fn has(self, payload: u8) -> bool {
        payload == self.audio || self.dtmf == Some(payload)
    }

    /// Whether a payload type was agreed on.
    pub fn allows(&self, payload: u8) -> (allowed: bool)
        ensures
            allowed == self.has(payload),
    {
        payload == self.audio || self.is_dtmf(payload)
    }

    /// Whether a payload type is the one for key presses.
    pub fn is_dtmf(&self, payload: u8) -> (dtmf: bool)
        ensures
            dtmf <==> self.dtmf == Some(payload),
    {
        match self.dtmf {
            Some(dtmf) => dtmf == payload,
            None => false,
        }
    }
}

/// What follows the first colon of a text; the whole text where there is none.
pub open spec fn after_colon(value: Seq<char>) -> Seq<char> {
    if first_position(value, ':') < value.len() {
        value.skip(first_position(value, ':') as int + 1)
    } else {
        value
    }
}

/// The payload type that a format or the value of an attribute begins with.
pub open spec fn payload_number(value: Seq<char>) -> Option<u8> {
    small_number(first_word(after_colon(value)))
}

/// Reads the payload type that a format or the value of an attribute begins with.
pub fn parse_payload_number(value: &str) -> (payload: Option<u8>)
    ensures
        payload == payload_number(value@),
{
    let chars = chars_of(value);
    let colon: usize = position_of(&chars, ':');
    let start: usize = if colon < chars.len() {
        colon + 1
    } else {
        0
    };
    proof {
        assert(chars@.skip(0) == chars@);
    }
    let word = word_from(&chars, start);
    parse_small_number(&word)
}

/// The payload type that an attribute speaks of.
pub open spec fn attribute_payload(attribute: AttributeView) -> Option<u8> {
    match attribute.value {
        Some(value) => payload_number(value),
        None => None,
    }
}

/// Reads the payload type that an attribute speaks of.
pub fn parse_payload_from_attribute(attribute: &Attribute) -> (payload: Option<u8>)
    ensures
        payload == attribute_payload(attribute@),
{
    match &attribute.value {
        Some(value) => parse_payload_number(value.as_str()),
        None => None,
    }
}

/// Whether a payload type may stay: it was agreed on, or it cannot be told.
pub open spec fn may_stay(selection: PayloadSelection, payload: Option<u8>) -> bool {
    match payload {
        Some(payload) => selection.has(payload),
        None => true,
    }
}

/// Whether a format of an audio block stays in an offer.
pub open spec fn keeps_format(selection: PayloadSelection, format: Seq<char>) -> bool {
    may_stay(selection, payload_number(format))
}

/// Whether an attribute of an audio block stays in an offer: those that describe a payload type
/// go with it, all others stay.
pub open spec fn keeps_attribute(selection: PayloadSelection, attribute: AttributeView) -> bool {
    if same_ignoring_case(attribute.key, "rtpmap"@) || same_ignoring_case(
        attribute.key,
        "fmtp"@,
    ) {
        may_stay(selection, attribute_payload(attribute))
    } else {
        true
    }
}

/// A media block as the second call leg is to see it: of an audio block, only what was agreed on.
pub open spec fn filtered_media(selection: PayloadSelection, media: MediaView) -> MediaView {
    if same_ignoring_case(media.media, "audio"@) {
        MediaView {
            formats: media.formats.filter(|format: Seq<char>| keeps_format(selection, format)),
            attributes: media.attributes.filter(
                |attribute: AttributeView| keeps_attribute(selection, attribute),
            ),
            ..media
        }
    } else {
        media
    }
}

fn stays(selection: &PayloadSelection, payload: Option<u8>) -> (stay: bool)
    ensures
        stay == may_stay(*selection, payload),
{
    match payload {
        Some(payload) => selection.allows(payload),
        None => true,
    }
}

/// The attributes of an audio block that stay in an offer.
pub fn filter_audio_attributes(
    attributes: &Vec<Attribute>,
    selection: &PayloadSelection,
) -> (kept: Vec<Attribute>)
    ensures
        attribute_views(kept@) == attribute_views(attributes@).filter(
            |attribute: AttributeView| keeps_attribute(*selection, attribute),
        ),
{
    let ghost all = attribute_views(attributes@);
    let ghost keep = |attribute: AttributeView| keeps_attribute(*selection, attribute);
    let mut kept: Vec<Attribute> = Vec::new();
    let mut i: usize = 0;
    proof {
        reveal(Seq::filter);
        assert(attribute_views(kept@) =~= Seq::<AttributeView>::empty());
        assert(all.take(0) =~= Seq::<AttributeView>::empty());
    }
    while i < attributes.len()
        invariant
            i <= attributes@.len(),
            all == attribute_views(attributes@),
            keep == (|attribute: AttributeView| keeps_attribute(*selection, attribute)),
            attribute_views(kept@) == all.take(i as int).filter(keep),
        decreases attributes.len() - i,
    {
        let attribute = &attributes[i];
        proof {
            lemma_filter_step(all, i as int, keep);
        }
        let speaks: bool = eq_ignore_ascii_case(attribute.key.as_str(), "rtpmap")
            || eq_ignore_ascii_case(attribute.key.as_str(), "fmtp");
        if !speaks || stays(selection, parse_payload_from_attribute(attribute)) {
            let ghost before = kept@;
            kept.push(attribute.clone());
            proof {
                assert(attribute_views(kept@) =~= attribute_views(before).push(attribute@));
            }
        }
        i = i + 1;
    }
    proof {
        assert(all.take(i as int) == all);
    }
    kept
}

fn filter_formats(formats: &Vec<String>, selection: &PayloadSelection) -> (kept: Vec<String>)
    ensures
        texts(kept@) == texts(formats@).filter(
            |format: Seq<char>| keeps_format(*selection, format),
        ),
{
    let ghost all = texts(formats@);
    let ghost keep = |format: Seq<char>| keeps_format(*selection, format);
    let mut kept: Vec<String> = Vec::new();
    let mut i: usize = 0;
    proof {
        reveal(Seq::filter);
        assert(texts(kept@) =~= Seq::<Seq<char>>::empty());
        assert(all.take(0) =~= Seq::<Seq<char>>::empty());
    }
    while i < formats.len()
        invariant
            i <= formats@.len(),
            all == texts(formats@),
            keep == (|format: Seq<char>| keeps_format(*selection, format)),
            texts(kept@) == all.take(i as int).filter(keep),
        decreases formats.len() - i,
    {
        proof {
            lemma_filter_step(all, i as int, keep);
        }
        if stays(selection, parse_payload_number(formats[i].as_str())) {
            let ghost before = kept@;
            kept.push(formats[i].clone());
            proof {
                assert(texts(kept@) =~= texts(before).push(formats@[i as int]@));
            }
        }
        i = i + 1;
    }
    proof {
        assert(all.take(i as int) == all);
    }
    kept
}

/// A copy of some attributes.
pub fn copy_attributes(attributes: &Vec<Attribute>) -> (copy: Vec<Attribute>)
    ensures
        attribute_views(copy@) == attribute_views(attributes@),
{
    let mut copy: Vec<Attribute> = Vec::new();
    let mut i: usize = 0;
    while i < attributes.len()
        invariant
            i <= attributes@.len(),
            attribute_views(copy@) == attribute_views(attributes@).take(i as int),
        decreases attributes.len() - i,
    {
        let ghost before = copy@;
        copy.push(attributes[i].clone());
        i = i + 1;
        proof {
            assert(attribute_views(copy@) =~= attribute_views(before).push(
                attributes@[i - 1]@,
            ));
            assert(attribute_views(attributes@).take(i as int) =~= attribute_views(
                attributes@,
            ).take(i - 1).push(attributes@[i - 1]@));
        }
    }
    proof {
        assert(attribute_views(attributes@).take(i as int) == attribute_views(attributes@));
    }
    copy
}

/// Cuts a media block down to what the second call leg is to see.
pub fn filter_media_for_b_leg(
    media: &MediaDesc,
    selection: &PayloadSelection,
) -> (filtered: MediaDesc)
    ensures
        filtered@ == filtered_media(*selection, media@),
{
    let audio: bool = eq_ignore_ascii_case(media.media.as_str(), "audio");
    MediaDesc {
        media: media.media.clone(),
        port: media.port.clone(),
        proto: media.proto.clone(),
        formats: if audio {
            filter_formats(&media.formats, selection)
        } else {
            copy_texts(&media.formats)
        },
        connection: copy_connection(&media.connection),
        attributes: if audio {
            filter_audio_attributes(&media.attributes, selection)
        } else {
            copy_attributes(&media.attributes)
        },
    }
}

/// The end of a line.
pub open spec fn crlf() -> Seq<char> {
    "\r\n"@
}

/// Some lines as one text, with line ends between them and one at the end, unless the last line
/// brings its own.
pub open spec fn lines_text(lines: Seq<Seq<char>>) -> Seq<char> {
    let text = joined(lines, crlf());
    if lines.len() == 0 {
        Seq::empty()
    } else if text.len() >= 2 && text.skip(text.len() - 2) == crlf() {
        text
    } else {
        text + crlf()
    }
}

/// Puts some lines together to one text.
pub fn join_sdp_lines(lines: &Vec<String>) -> (text: String)
    ensures
        text@ == lines_text(texts(lines@)),
{
    if lines.len() == 0 {
        return String::new();
    }
    let mut text = join(lines, "\r\n");
    let chars = chars_of(text.as_str());
    let n: usize = chars.len();
    proof {
        reveal_strlit("\r\n");
        if n >= 2 {
            assert(text@.skip(n - 2) == seq![text@[n - 2], text@[n - 1]]);
            assert(crlf() == seq!['\r', '\n']);
            assert(text@.skip(n - 2)[0] == text@[n - 2] && text@.skip(n - 2)[1] == text@[n - 1]);
        }
    }
    let ended: bool = n >= 2 && chars[n - 2] == '\r' && chars[n - 1] == '\n';
    if !ended {
        text.append("\r\n");
    }
    text
}

/// The `o=` line.
pub open spec fn origin_text(o: OriginView) -> Seq<char> {
    "o="@ + o.username + " "@ + o.session_id + " "@ + o.session_version + " "@ + o.net_type + " "@
        + o.addr_type + " "@ + o.address
}

/// Writes the `o=` line.
pub fn origin_line(o: &Origin) -> (line: String)
    ensures
        line@ == origin_text(o@),
{
    let mut line = "o=".to_owned();
    line.append(o.username.as_str());
    line.append(" ");
    line.append(o.session_id.as_str());
    line.append(" ");
    line.append(o.session_version.as_str());
    line.append(" ");
    line.append(o.net_type.as_str());
    line.append(" ");
    line.append(o.addr_type.as_str());
    line.append(" ");
    line.append(o.address.as_str());
    line
}

/// A `c=` line.
pub open spec fn connection_text(c: ConnectionLine) -> Seq<char> {
    "c="@ + c.net_type + " "@ + c.addr_type + " "@ + c.address
}

fn connection_text_of(c: &Connection) -> (line: String)
    ensures
        line@ == connection_text(c@),
{
    let mut line = "c=".to_owned();
    line.append(c.net_type.as_str());
    line.append(" ");
    line.append(c.addr_type.as_str());
    line.append(" ");
    line.append(c.address.as_str());
    line
}

/// The lines of an optional connection.
pub open spec fn connection_lines(connection: Option<ConnectionLine>) -> Seq<Seq<char>> {
    match connection {
        Some(c) => seq![connection_text(c)],
        None => Seq::empty(),
    }
}

/// The `t=` line.
pub open spec fn timing_text(t: TimingView) -> Seq<char> {
    "t="@ + t.start + " "@ + t.stop
}

/// Writes the `t=` line.
pub fn timing_line(t: &Timing) -> (line: String)
    ensures
        line@ == timing_text(t@),
{
    let mut line = "t=".to_owned();
    line.append(t.start.as_str());
    line.append(" ");
    line.append(t.stop.as_str());
    line
}

/// A text with a prefix.
pub fn prefixed(prefix: &str, text: &str) -> (line: String)
    ensures
        line@ == prefix@ + text@,
{
    let mut line = prefix.to_owned();
    line.append(text);
    line
}

/// An `a=` line.
pub open spec fn attribute_text(a: AttributeView) -> Seq<char> {
    match a.value {
        Some(value) => "a="@ + a.key + ":"@ + value,
        None => "a="@ + a.key,
    }
}

fn attribute_line(a: &Attribute) -> (line: String)
    ensures
        line@ == attribute_text(a@),
{
    let mut line = prefixed("a=", a.key.as_str());
    if let Some(value) = &a.value {
        line.append(":");
        line.append(value.as_str());
    }
    line
}

/// The `a=` lines of some attributes.
pub open spec fn attribute_lines(attributes: Seq<AttributeView>) -> Seq<Seq<char>> {
    attributes.map_values(|a: AttributeView| attribute_text(a))
}

/// Each text with a blank before it.
pub open spec fn blank_separated(words: Seq<Seq<char>>) -> Seq<char>
    decreases words.len(),
{
    if words.len() == 0 {
        Seq::empty()
    } else {
        blank_separated(words.drop_last()) + " "@ + words.last()
    }
}

/// The `m=` line.
pub open spec fn media_text(m: MediaView) -> Seq<char> {
    "m="@ + m.media + " "@ + m.port + " "@ + m.proto + blank_separated(m.formats)
}

/// The lines of a media block.
pub open spec fn media_lines(m: MediaView) -> Seq<Seq<char>> {
    seq![media_text(m)] + connection_lines(m.connection) + attribute_lines(m.attributes)
}

/// The lines of some media blocks.
pub open spec fn all_media_lines(media: Seq<MediaView>) -> Seq<Seq<char>>
    decreases media.len(),
{
    if media.len() == 0 {
        Seq::empty()
    } else {
        all_media_lines(media.drop_last()) + media_lines(media.last())
    }
}

/// The lines of a whole description, in their fixed order.
pub open spec fn session_lines(s: SessionView) -> Seq<Seq<char>> {
    seq!["v="@ + s.version, origin_text(s.origin), "s="@ + s.session_name] + connection_lines(
        s.connection,
    ) + seq![timing_text(s.timing)] + attribute_lines(s.attributes) + all_media_lines(s.media)
}

/// Adds a line at the end.
pub fn push_line(lines: &mut Vec<String>, line: String)
    ensures
        texts(final(lines)@) == texts(old(lines)@).push(line@),
{
    let ghost before = lines@;
    lines.push(line);
    proof {
        assert(texts(lines@) =~= texts(before).push(line@));
    }
}

/// Adds the line of an optional connection.
pub fn push_connection(lines: &mut Vec<String>, connection: &Option<Connection>)
    ensures
        texts(final(lines)@) == texts(old(lines)@) + connection_lines(
            connection_line(*connection),
        ),
{
    let ghost before = texts(lines@);
    if let Some(connection) = connection {
        push_line(lines, connection_text_of(connection));
        proof {
            assert(before.push(connection_text(connection@)) =~= before + seq![
                connection_text(connection@),
            ]);
        }
    } else {
        proof {
            assert(before + Seq::<Seq<char>>::empty() =~= before);
        }
    }
}

fn push_attributes(lines: &mut Vec<String>, attributes: &Vec<Attribute>)
    ensures
        texts(final(lines)@) == texts(old(lines)@) + attribute_lines(
            attribute_views(attributes@),
        ),
{
    let ghost before = texts(lines@);
    let ghost all = attribute_lines(attribute_views(attributes@));
    let mut i: usize = 0;
    proof {
        assert(before + all.take(0) =~= before);
    }
    while i < attributes.len()
        invariant
            i <= attributes@.len(),
            all == attribute_lines(attribute_views(attributes@)),
            texts(lines@) == before + all.take(i as int),
        decreases attributes.len() - i,
    {
        push_line(lines, attribute_line(&attributes[i]));
        proof {
            assert(before + all.take(i + 1) =~= (before + all.take(i as int)).push(
                all[i as int],
            ));
        }
        i = i + 1;
    }
    proof {
        assert(all.take(i as int) == all);
    }
}

fn media_line(m: &MediaDesc) -> (line: String)
    ensures
        line@ == media_text(m@),
{
    let mut line = "m=".to_owned();
    line.append(m.media.as_str());
    line.append(" ");
    line.append(m.port.as_str());
    line.append(" ");
    line.append(m.proto.as_str());
    let ghost head = line@;
    let ghost all = texts(m.formats@);
    let mut i: usize = 0;
    proof {
        assert(head + blank_separated(all.take(0)) =~= head);
    }
    while i < m.formats.len()
        invariant
            i <= m.formats@.len(),
            all == texts(m.formats@),
            line@ == head + blank_separated(all.take(i as int)),
        decreases m.formats.len() - i,
    {
        proof {
            assert(all.take(i + 1).drop_last() == all.take(i as int));
            assert(head + blank_separated(all.take(i as int)) + " "@ + all[i as int] =~= head
                + blank_separated(all.take(i + 1)));
        }
        line.append(" ");
        line.append(m.formats[i].as_str());
        i = i + 1;
    }
    proof {
        assert(all.take(i as int) == all);
    }
    line
}

fn push_media(lines: &mut Vec<String>, media: &MediaDesc)
    ensures
        texts(final(lines)@) == texts(old(lines)@) + media_lines(media@),
{
    let ghost before = texts(lines@);
    push_line(lines, media_line(media));
    push_connection(lines, &media.connection);
    push_attributes(lines, &media.attributes);
    proof {
        assert(texts(lines@) =~= before + media_lines(media@));
    }
}

fn push_all_media(lines: &mut Vec<String>, media: &Vec<MediaDesc>)
    ensures
        texts(final(lines)@) == texts(old(lines)@) + all_media_lines(media_views(media@)),
{
    let ghost before = texts(lines@);
    let ghost all = media_views(media@);
    let mut i: usize = 0;
    proof {
        assert(before + all_media_lines(all.take(0)) =~= before);
    }
    while i < media.len()
        invariant
            i <= media@.len(),
            all == media_views(media@),
            texts(lines@) == before + all_media_lines(all.take(i as int)),
        decreases media.len() - i,
    {
        push_media(lines, &media[i]);
        proof {
            assert(all.take(i + 1).drop_last() == all.take(i as int));
            assert(before + all_media_lines(all.take(i as int)) + media_lines(all[i as int])
                =~= before + all_media_lines(all.take(i + 1)));
        }
        i = i + 1;
    }
    proof {
        assert(all.take(i as int) == all);
    }
}

/// Writes a session description out: every line ends with a line end.
pub fn format_sdp(session: &SessionDesc) -> (text: String)
    ensures
        text@ == joined(session_lines(session@), crlf()) + crlf(),
{
    let mut lines: Vec<String> = Vec::new();
    let ghost start = texts(lines@);
    push_line(&mut lines, prefixed("v=", session.version.as_str()));
    push_line(&mut lines, origin_line(&session.origin));
    push_line(&mut lines, prefixed("s=", session.session_name.as_str()));
    push_connection(&mut lines, &session.connection);
    push_line(&mut lines, timing_line(&session.timing));
    push_attributes(&mut lines, &session.attributes);
    push_all_media(&mut lines, &session.media);
    proof {
        assert(start =~= Seq::<Seq<char>>::empty());
        assert(texts(lines@) =~= session_lines(session@));
    }
    let mut text = join(&lines, "\r\n");
    text.append("\r\n");
    text
}

} // verus!
