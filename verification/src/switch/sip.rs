//! The parts of a signalling message that the proxy reads, and the provisional response that it
//! sends back.
use vstd::prelude::*;

use crate::seqs::lemma_filter_step;

verus! {

/// What a request asks for.
#[derive(Debug, PartialEq, Eq)]
pub enum Method {
    Invite,
    Other(String),
}

impl Method {
    /// The name of the method.
    pub open spec fn name(&self) -> Seq<char> {
        match self {
            Method::Invite => "INVITE"@,
            Method::Other(name) => name@,
        }
    }

    /// The name of the method.
    pub fn as_str(&self) -> (name: &str)
        ensures
            name@ == self.name(),
    {
        match self {
            Method::Invite => "INVITE",
            Method::Other(name) => name.as_str(),
        }
    }
}

/// The first line of a request: what is asked for, of whom, and the address of record that the
/// target stands for.
#[derive(Debug, PartialEq, Eq)]
pub struct RequestLine {
    pub method: Method,
    pub uri: String,
    pub aor: String,
}

/// The first line of a message.
#[derive(Debug, PartialEq, Eq)]
pub enum StartLine {
    Request(RequestLine),
    Response,
}

/// A header of a message, with its value as it stands.
#[derive(Debug, PartialEq, Eq)]
pub enum Header {
    Via(String),
    From(String),
    To(String),
    CallId(String),
    CSeq(String),
    Extension { name: String, value: String },
}

/// What a header says, for the contracts.
pub enum HeaderView {
    Via(Seq<char>),
    From(Seq<char>),
    To(Seq<char>),
    CallId(Seq<char>),
    CSeq(Seq<char>),
    Extension { name: Seq<char>, value: Seq<char> },
}

impl View for Header {
    type V = HeaderView;

    open spec fn view(&self) -> HeaderView {
        match self {
            Header::Via(value) => HeaderView::Via(value@),
            Header::From(value) => HeaderView::From(value@),
            Header::To(value) => HeaderView::To(value@),
            Header::CallId(value) => HeaderView::CallId(value@),
            Header::CSeq(value) => HeaderView::CSeq(value@),
            Header::Extension { name, value } => HeaderView::Extension {
                name: name@,
                value: value@,
            },
        }
    }
}

impl Clone for Header {
    /// A copy says the same.
    fn clone(&self) -> (copy: Header)
        ensures
            copy@ == self@,
    {
        match self {
            Header::Via(value) => Header::Via(value.clone()),
            Header::From(value) => Header::From(value.clone()),
            Header::To(value) => Header::To(value.clone()),
            Header::CallId(value) => Header::CallId(value.clone()),
            Header::CSeq(value) => Header::CSeq(value.clone()),
            Header::Extension { name, value } => Header::Extension {
                name: name.clone(),
                value: value.clone(),
            },
        }
    }
}

/// What a list of headers says.
pub open spec fn header_views(headers: Seq<Header>) -> Seq<HeaderView> {
    headers.map_values(|header: Header| header@)
}

/// A message after it was parsed.
#[derive(Debug, PartialEq, Eq)]
pub struct SipMessage {
    pub start_line: StartLine,
    pub headers: Vec<Header>,
    pub body: Vec<u8>,
}

/// Which headers of a request go into the response to it.
#[derive(Clone, Copy, Debug, PartialEq, Eq, Structural)]
pub enum HeaderSelector {
    Via,
    From,
    To,
    CallId,
    CSeq,
}

/// Whether a header is of the selected kind.
pub open spec fn selects(selector: HeaderSelector, header: HeaderView) -> bool {
    match selector {
        HeaderSelector::Via => header is Via,
        HeaderSelector::From => header is From,
        HeaderSelector::To => header is To,
        HeaderSelector::CallId => header is CallId,
        HeaderSelector::CSeq => header is CSeq,
    }
}

/// The headers of the selected kind, in order.
pub open spec fn selected(headers: Seq<HeaderView>, selector: HeaderSelector) -> Seq<HeaderView> {
    headers.filter(|header: HeaderView| selects(selector, header))
}

fn is_selected(selector: HeaderSelector, header: &Header) -> (is: bool)
    ensures
        is == selects(selector, header@),
{
    match selector {
        HeaderSelector::Via => matches!(header, Header::Via(_)),
        HeaderSelector::From => matches!(header, Header::From(_)),
        HeaderSelector::To => matches!(header, Header::To(_)),
        HeaderSelector::CallId => matches!(header, Header::CallId(_)),
        HeaderSelector::CSeq => matches!(header, Header::CSeq(_)),
    }
}

/// Appends the headers of the selected kind to a list.
pub fn collect_headers(message: &SipMessage, selector: HeaderSelector, output: &mut Vec<Header>)
    ensures
        header_views(final(output)@) == header_views(old(output)@) + selected(
            header_views(message.headers@),
            selector,
        ),
{
    let ghost all = header_views(message.headers@);
    let ghost keep = |header: HeaderView| selects(selector, header);
    let ghost before = header_views(output@);
    let mut i: usize = 0;
    proof {
        reveal(Seq::filter);
        assert(all.take(0) =~= Seq::<HeaderView>::empty());
        assert(before + all.take(0).filter(keep) =~= before);
    }
    while i < message.headers.len()
        invariant
            i <= message.headers@.len(),
            all == header_views(message.headers@),
            keep == (|header: HeaderView| selects(selector, header)),
            header_views(output@) == before + all.take(i as int).filter(keep),
        decreases message.headers.len() - i,
    {
        proof {
            lemma_filter_step(all, i as int, keep);
        }
        if is_selected(selector, &message.headers[i]) {
            let ghost so_far = output@;
            output.push(message.headers[i].clone());
            proof {
                assert(header_views(output@) =~= header_views(so_far).push(all[i as int]));
                assert(before + all.take(i as int).filter(keep).push(all[i as int]) =~= (before
                    + all.take(i as int).filter(keep)).push(all[i as int]));
            }
        }
        i = i + 1;
    }
    proof {
        assert(all.take(i as int) == all);
    }
}

/// The name of a header.
pub open spec fn header_name(header: HeaderView) -> Seq<char> {
    match header {
        HeaderView::Via(_) => "Via"@,
        HeaderView::From(_) => "From"@,
        HeaderView::To(_) => "To"@,
        HeaderView::CallId(_) => "Call-ID"@,
        HeaderView::CSeq(_) => "CSeq"@,
        HeaderView::Extension { name, .. } => name,
    }
}

/// The value of a header.
pub open spec fn header_value(header: HeaderView) -> Seq<char> {
    match header {
        HeaderView::Via(value) => value,
        HeaderView::From(value) => value,
        HeaderView::To(value) => value,
        HeaderView::CallId(value) => value,
        HeaderView::CSeq(value) => value,
        HeaderView::Extension { value, .. } => value,
    }
}

/// The text of some headers, one line each.
pub open spec fn headers_text(headers: Seq<HeaderView>) -> Seq<char>
    decreases headers.len(),
{
    if headers.len() == 0 {
        Seq::empty()
    } else {
        headers_text(headers.drop_last()) + header_name(headers.last()) + ": "@ + header_value(
            headers.last(),
        ) + "\r\n"@
    }
}

/// The headers of the provisional response to a request.
pub open spec fn trying_headers(headers: Seq<HeaderView>) -> Seq<HeaderView> {
    (selected(headers, HeaderSelector::Via) + selected(headers, HeaderSelector::From) + selected(
        headers,
        HeaderSelector::To,
    ) + selected(headers, HeaderSelector::CallId) + selected(headers, HeaderSelector::CSeq)).push(
        HeaderView::Extension { name: "Content-Length"@, value: "0"@ },
    )
}

/// The text of the provisional response to a request.
pub open spec fn trying_text(headers: Seq<HeaderView>) -> Seq<char> {
    "SIP/2.0 100 Trying\r\n"@ + headers_text(trying_headers(headers)) + "\r\n"@
}

fn push_header_name(text: &mut String, header: &Header)
    ensures
        final(text)@ == old(text)@ + header_name(header@),
{
    match header {
        Header::Via(_) => text.append("Via"),
        Header::From(_) => text.append("From"),
        Header::To(_) => text.append("To"),
        Header::CallId(_) => text.append("Call-ID"),
        Header::CSeq(_) => text.append("CSeq"),
        Header::Extension { name, .. } => text.append(name.as_str()),
    }
}

fn push_header_value(text: &mut String, header: &Header)
    ensures
        final(text)@ == old(text)@ + header_value(header@),
{
    match header {
        Header::Via(value) => text.append(value.as_str()),
        Header::From(value) => text.append(value.as_str()),
        Header::To(value) => text.append(value.as_str()),
        Header::CallId(value) => text.append(value.as_str()),
        Header::CSeq(value) => text.append(value.as_str()),
        Header::Extension { value, .. } => text.append(value.as_str()),
    }
}

fn push_headers(text: &mut String, headers: &Vec<Header>)
    ensures
        final(text)@ == old(text)@ + headers_text(header_views(headers@)),
{
    let ghost before = text@;
    let ghost all = header_views(headers@);
    let mut i: usize = 0;
    proof {
        assert(before + headers_text(all.take(0)) =~= before);
    }
    while i < headers.len()
        invariant
            i <= headers@.len(),
            all == header_views(headers@),
            text@ == before + headers_text(all.take(i as int)),
        decreases headers.len() - i,
    {
        let ghost so_far = text@;
        push_header_name(text, &headers[i]);
        text.append(": ");
        push_header_value(text, &headers[i]);
        text.append("\r\n");
        proof {
            assert(all.take(i + 1).drop_last() == all.take(i as int));
            assert(text@ =~= before + headers_text(all.take(i + 1)));
        }
        i = i + 1;
    }
    proof {
        assert(all.take(i as int) == all);
    }
}

/// Writes the provisional response to a request.
pub fn write_trying(message: &SipMessage) -> (text: String)
    ensures
        text@ == trying_text(header_views(message.headers@)),
{
    let mut headers: Vec<Header> = Vec::new();
    let ghost all = header_views(message.headers@);
    proof {
        assert(header_views(headers@) =~= Seq::<HeaderView>::empty());
    }
    collect_headers(message, HeaderSelector::Via, &mut headers);
    collect_headers(message, HeaderSelector::From, &mut headers);
    collect_headers(message, HeaderSelector::To, &mut headers);
    collect_headers(message, HeaderSelector::CallId, &mut headers);
    collect_headers(message, HeaderSelector::CSeq, &mut headers);
    let ghost collected = headers@;
    headers.push(
        Header::Extension { name: "Content-Length".to_owned(), value: "0".to_owned() },
    );
    proof {
        assert(header_views(collected) =~= selected(all, HeaderSelector::Via) + selected(
            all,
            HeaderSelector::From,
        ) + selected(all, HeaderSelector::To) + selected(all, HeaderSelector::CallId) + selected(
            all,
            HeaderSelector::CSeq,
        ));
        assert(header_views(headers@) =~= trying_headers(all));
    }
    let mut text = "SIP/2.0 100 Trying\r\n".to_owned();
    push_headers(&mut text, &headers);
    text.append("\r\n");
    text
}

/// The value of the first `Call-ID` header.
pub open spec fn call_id_of(headers: Seq<HeaderView>) -> Option<Seq<char>>
    decreases headers.len(),
{
    if headers.len() == 0 {
        None
    } else {
        match headers[0] {
            HeaderView::CallId(value) => Some(value),
            _ => call_id_of(headers.skip(1)),
        }
    }
}

/// Finds the value of the first `Call-ID` header.
pub fn find_call_id(message: &SipMessage) -> (call_id: Option<&String>)
    ensures
        call_id is Some <==> call_id_of(header_views(message.headers@)) is Some,
        call_id is Some ==> call_id->0@ == call_id_of(header_views(message.headers@))->0,
{
    let ghost all = header_views(message.headers@);
    let mut i: usize = 0;
    proof {
        assert(all.skip(0) == all);
    }
    while i < message.headers.len()
        invariant
            i <= message.headers@.len(),
            all == header_views(message.headers@),
            call_id_of(all) == call_id_of(all.skip(i as int)),
        decreases message.headers.len() - i,
    {
        proof {
            assert(all.skip(i as int)[0] == message.headers@[i as int]@);
            assert(all.skip(i as int).skip(1) == all.skip(i + 1));
        }
        if let Header::CallId(value) = &message.headers[i] {
            return Some(value);
        }
        i = i + 1;
    }
    None
}

/// The response to a request carries the call id of the request where it has one.
pub proof fn law_trying_answers_the_same_call(headers: Seq<HeaderView>)
    ensures
        call_id_of(headers) is Some ==> call_id_of(selected(headers, HeaderSelector::CallId))
            == call_id_of(headers),
    decreases headers.len(),
{
    if headers.len() > 0 {
        let keep = |header: HeaderView| selects(HeaderSelector::CallId, header);
        assert(headers =~= seq![headers[0]] + headers.skip(1));
        Seq::filter_distributes_over_add(seq![headers[0]], headers.skip(1), keep);
        law_trying_answers_the_same_call(headers.skip(1));
        reveal(Seq::filter);
        let one = seq![headers[0]];
        assert(one.drop_last() =~= Seq::<HeaderView>::empty());
        assert(one.drop_last().filter(keep) =~= Seq::<HeaderView>::empty());
        let first = one.filter(keep);
        if keep(headers[0]) {
            assert(first =~= one);
            assert((first + headers.skip(1).filter(keep))[0] == headers[0]);
        } else {
            assert(first =~= Seq::<HeaderView>::empty());
            assert(first + headers.skip(1).filter(keep) =~= headers.skip(1).filter(keep));
        }
    }
}

} // verus!
