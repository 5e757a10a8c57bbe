//! Trace contexts, and how they are carried over to OpenTelemetry and back.
use opentelemetry::trace::TraceState as OtelTraceState;
use vstd::prelude::*;
use vstd::slice::slice_subrange;
use vstd::utf8::encode_utf8;

use crate::otel::install::Error;
use crate::scan::{first_position, position_of};
use crate::text::{chars_of, text_of};

verus! {

/// One entry of a trace state.
#[derive(Debug, PartialEq, Eq)]
pub struct TraceStateEntry {
    pub key: String,
    pub value: String,
}

/// The keys and values of some entries.
pub open spec fn entry_views(entries: Seq<TraceStateEntry>) -> Seq<(Seq<char>, Seq<char>)> {
    entries.map_values(|entry: TraceStateEntry| (entry.key@, entry.value@))
}

/// Where a request stands in a trace.
#[derive(Debug)]
pub struct TraceContext {
    pub trace_id: [u8; 16],
    pub span_id: [u8; 8],
    pub trace_flags: u8,
    pub trace_state: Vec<TraceStateEntry>,
}

/// A trace context, for the contracts.
#[verifier::ext_equal]
pub struct TraceContextView {
    pub trace_id: [u8; 16],
    pub span_id: [u8; 8],
    pub trace_flags: u8,
    pub trace_state: Seq<(Seq<char>, Seq<char>)>,
}

impl View for TraceContext {
    type V = TraceContextView;

    open spec fn view(&self) -> TraceContextView {
        TraceContextView {
            trace_id: self.trace_id,
            span_id: self.span_id,
            trace_flags: self.trace_flags,
            trace_state: entry_views(self.trace_state@),
        }
    }
}

fn copy_entries(entries: &Vec<TraceStateEntry>) -> (copy: Vec<TraceStateEntry>)
    ensures
        entry_views(copy@) == entry_views(entries@),
{
    let mut copy: Vec<TraceStateEntry> = Vec::new();
    let mut i: usize = 0;
    while i < entries.len()
        invariant
            i <= entries@.len(),
            entry_views(copy@) == entry_views(entries@).take(i as int),
        decreases entries.len() - i,
    {
        let ghost before = copy@;
        copy.push(
            TraceStateEntry { key: entries[i].key.clone(), value: entries[i].value.clone() },
        );
        proof {
            assert(entry_views(copy@) =~= entry_views(before).push(
                (entries@[i as int].key@, entries@[i as int].value@),
            ));
            assert(entry_views(entries@).take(i + 1) =~= entry_views(entries@).take(
                i as int,
            ).push((entries@[i as int].key@, entries@[i as int].value@)));
        }
        i = i + 1;
    }
    proof {
        assert(entry_views(entries@).take(i as int) =~= entry_views(entries@));
    }
    copy
}

impl TraceContext {
    /// A child of the context in the same trace, with a span of its own.
    pub fn child_context(&self, span_id: [u8; 8]) -> (child: TraceContext)
        ensures
            child@ == (TraceContextView { span_id, ..self@ }),
    {
        TraceContext {
            trace_id: self.trace_id,
            span_id,
            trace_flags: self.trace_flags,
            trace_state: copy_entries(&self.trace_state),
        }
    }
}

/// `opentelemetry::trace::TraceState`, an ordered list of entries.
#[verifier::external_type_specification]
#[verifier::external_body]
pub struct ExTraceState(opentelemetry::trace::TraceState);

/// The entries that an OpenTelemetry trace state holds, in order.
pub uninterp spec fn state_entries(state: OtelTraceState) -> Seq<(Seq<char>, Seq<char>)>;

/// Whether a character is a small basic letter or a decimal digit.
pub open spec fn letter_or_digit(c: char) -> bool {
    ('a' <= c && c <= 'z') || ('0' <= c && c <= '9')
}

/// Whether a character may stand in the key of an entry.
pub open spec fn key_char(c: char) -> bool {
    letter_or_digit(c) || c == '_' || c == '-' || c == '*' || c == '/' || c == '@'
}

/// Whether OpenTelemetry takes a text as the key of an entry: what stands behind the one `@` that
/// it may hold is the short name of a vendor.
pub open spec fn valid_key(key: Seq<char>) -> bool {
    &&& key.len() <= 256
    &&& forall|i: int| 0 <= i < key.len() ==> key_char(#[trigger] key[i])
    &&& key.len() > 0 ==> letter_or_digit(key[0])
    &&& forall|i: int|
        #![trigger vendor_at(key, i)]
        0 <= i < key.len() && key[i] == '@' ==> vendor_at(key, i)
}

/// Whether an `@` may stand at the given place of a key.
pub open spec fn vendor_at(key: Seq<char>, i: int) -> bool {
    &&& i + 14 >= key.len()
    &&& forall|j: int| 0 <= j < key.len() && #[trigger] key[j] == '@' ==> j == i
    &&& i + 1 < key.len() ==> letter_or_digit(key[i + 1])
}

/// Whether OpenTelemetry takes a text as the value of an entry.
pub open spec fn valid_value(value: Seq<char>) -> bool {
    &&& encode_utf8(value).len() <= 256
    &&& !value.contains(',')
    &&& !value.contains('=')
}

/// Whether OpenTelemetry takes some entries.
pub open spec fn valid_entries(entries: Seq<(Seq<char>, Seq<char>)>) -> bool {
    forall|i: int|
        #![trigger entries[i]]
        0 <= i < entries.len() ==> valid_key(entries[i].0) && valid_value(entries[i].1)
}

/// What OpenTelemetry says of the first entry that it does not take.
pub open spec fn first_fault(entries: Seq<(Seq<char>, Seq<char>)>) -> Seq<char>
    decreases entries.len(),
{
    if entries.len() == 0 {
        Seq::empty()
    } else if !valid_key(entries[0].0) {
        entries[0].0
            + " is not a valid key in TraceState, see https://www.w3.org/TR/trace-context/#key for more details"@
    } else if !valid_value(entries[0].1) {
        entries[0].1
            + " is not a valid value in TraceState, see https://www.w3.org/TR/trace-context/#value for more details"@
    } else {
        first_fault(entries.skip(1))
    }
}

/// How entries read in a header: a key, `=` and a value, with commas between the entries.
pub open spec fn header_of(entries: Seq<(Seq<char>, Seq<char>)>) -> Seq<char>
    decreases entries.len(),
{
    if entries.len() == 0 {
        Seq::empty()
    } else if entries.len() == 1 {
        member_of(entries[0])
    } else {
        member_of(entries[0]).push(',') + header_of(entries.skip(1))
    }
}

/// How one entry reads in a header.
pub open spec fn member_of(entry: (Seq<char>, Seq<char>)) -> Seq<char> {
    entry.0.push('=') + entry.1
}

/// `opentelemetry::trace::TraceState::from_key_value`, and the display form of its error: entries
/// that are all valid are kept in order, and otherwise the first fault is told.
#[verifier::external_body]
fn from_key_value(entries: &Vec<TraceStateEntry>) -> (state: Result<OtelTraceState, String>)
    ensures
        state is Ok <==> valid_entries(entry_views(entries@)),
        state is Ok ==> state_entries(state->Ok_0) == entry_views(entries@),
        state is Err ==> state->Err_0@ == first_fault(entry_views(entries@)),
{
    OtelTraceState::from_key_value(entries.iter().map(|e| (e.key.as_str(), e.value.as_str())))
        .map_err(|err| err.to_string())
}

/// `opentelemetry::trace::TraceState::header`: the entries as they read in a header.
#[verifier::external_body]
fn header(state: &OtelTraceState) -> (text: String)
    ensures
        text@ == header_of(state_entries(*state)),
{
    state.header()
}

/// A span context of OpenTelemetry, by its parts.
#[derive(Debug)]
pub struct OtelSpanParts {
    pub trace_id: [u8; 16],
    pub span_id: [u8; 8],
    pub trace_flags: u8,
    pub is_remote: bool,
    pub trace_state: OtelTraceState,
}

/// Carries a trace context over to OpenTelemetry, as that of a remote parent.
pub fn trace_context_to_otel(parent: &TraceContext) -> (r: Result<OtelSpanParts, Error>)
    ensures
        r is Ok <==> valid_entries(parent@.trace_state),
        r is Ok ==> {
            &&& r->Ok_0.trace_id == parent.trace_id
            &&& r->Ok_0.span_id == parent.span_id
            &&& r->Ok_0.trace_flags == parent.trace_flags
            &&& r->Ok_0.is_remote
            &&& state_entries(r->Ok_0.trace_state) == parent@.trace_state
        },
        r is Err ==> r->Err_0 is TraceStateConversion && r->Err_0->TraceStateConversion_0@
            == "构造 otel TraceState 失败: "@ + first_fault(parent@.trace_state),
{
    match from_key_value(&parent.trace_state) {
        Ok(trace_state) => Ok(
            OtelSpanParts {
                trace_id: parent.trace_id,
                span_id: parent.span_id,
                trace_flags: parent.trace_flags,
                is_remote: true,
                trace_state,
            },
        ),
        Err(fault) => {
            let mut reason = "构造 otel TraceState 失败: ".to_owned();
            reason.append(fault.as_str());
            Err(Error::TraceStateConversion(reason))
        },
    }
}

/// One member of a header read as an entry: what stands before its first `=`, and what stands
/// behind it. Without an `=` it is no entry.
pub open spec fn entry_of(member: Seq<char>) -> Seq<(Seq<char>, Seq<char>)> {
    let middle = first_position(member, '=') as int;
    if middle < member.len() {
        seq![(member.take(middle), member.skip(middle + 1))]
    } else {
        Seq::empty()
    }
}

/// The entries of a header, in order.
pub open spec fn entries_of(header: Seq<char>) -> Seq<(Seq<char>, Seq<char>)>
    decreases header.len(),
{
    let end = first_position(header, ',') as int;
    if end < header.len() {
        entry_of(header.take(end)) + entries_of(header.skip(end + 1))
    } else {
        entry_of(header)
    }
}

fn push_entry(entries: &mut Vec<TraceStateEntry>, member: &[char])
    ensures
        entry_views(final(entries)@) == entry_views(old(entries)@) + entry_of(member@),
{
    let middle: usize = position_of(member, '=');
    if middle < member.len() {
        let key = text_of(slice_subrange(member, 0, middle));
        let value = text_of(slice_subrange(member, middle + 1, member.len()));
        entries.push(TraceStateEntry { key, value });
        proof {
            assert(member@.take(middle as int) =~= member@.subrange(0, middle as int));
            assert(member@.skip(middle + 1) =~= member@.subrange(
                middle + 1,
                member@.len() as int,
            ));
            assert(entry_views(entries@) =~= entry_views(old(entries)@) + entry_of(member@));
        }
    } else {
        proof {
            assert(entry_views(entries@) =~= entry_views(old(entries)@) + entry_of(member@));
        }
    }
}

/// Reads the entries of a header, in order.
pub fn parse_header(header: &str) -> (entries: Vec<TraceStateEntry>)
    ensures
        entry_views(entries@) == entries_of(header@),
{
    let chars = chars_of(header);
    let mut entries: Vec<TraceStateEntry> = Vec::new();
    let mut start: usize = 0;
    proof {
        assert(chars@.skip(0) == chars@);
        assert(entry_views(entries@) + entries_of(chars@) =~= entries_of(chars@));
    }
    loop
        invariant
            chars@ == header@,
            start <= chars@.len(),
            entry_views(entries@) + entries_of(chars@.skip(start as int)) == entries_of(chars@),
        decreases chars@.len() - start,
    {
        let rest = slice_subrange(chars.as_slice(), start, chars.len());
        let end: usize = position_of(rest, ',');
        proof {
            assert(rest@ =~= chars@.skip(start as int));
        }
        let ghost before = entry_views(entries@);
        if end < rest.len() {
            push_entry(&mut entries, slice_subrange(rest, 0, end));
            proof {
                assert(rest@.take(end as int) =~= rest@.subrange(0, end as int));
                assert(rest@.skip(end + 1) =~= chars@.skip(start + end + 1));
                assert(before + (entry_of(rest@.take(end as int)) + entries_of(
                    rest@.skip(end + 1),
                )) =~= before + entry_of(rest@.take(end as int)) + entries_of(
                    rest@.skip(end + 1),
                ));
            }
            start = start + end + 1;
        } else {
            push_entry(&mut entries, rest);
            return entries;
        }
    }
}

/// The entries of an OpenTelemetry trace state, as its header gives them.
pub fn read_trace_state(state: &OtelTraceState) -> (entries: Vec<TraceStateEntry>)
    ensures
        entry_views(entries@) == entries_of(header_of(state_entries(*state))),
{
    parse_header(header(state).as_str())
}

/// Carries a span context of OpenTelemetry back. Its entries, as [`read_trace_state`] gives them,
/// come as the pipeline has taken them, or with the reason why it has not.
pub fn trace_context_from_otel(
    ctx: &OtelSpanParts,
    taken: Result<Vec<TraceStateEntry>, String>,
) -> (r: Result<TraceContext, Error>)
    ensures
        match taken {
            Ok(entries) => r is Ok && r->Ok_0@ == (TraceContextView {
                trace_id: ctx.trace_id,
                span_id: ctx.span_id,
                trace_flags: ctx.trace_flags,
                trace_state: entry_views(entries@),
            }),
            Err(reason) => r is Err && r->Err_0 is TraceStateConversion
                && r->Err_0->TraceStateConversion_0@ == "otel TraceState -> spark 失败: "@ + reason@,
        },
{
    match taken {
        Ok(trace_state) => Ok(
            TraceContext {
                trace_id: ctx.trace_id,
                span_id: ctx.span_id,
                trace_flags: ctx.trace_flags,
                trace_state,
            },
        ),
        Err(reason) => {
            let mut text = "otel TraceState -> spark 失败: ".to_owned();
            text.append(reason.as_str());
            Err(Error::TraceStateConversion(text))
        },
    }
}

/// Which entries the pipeline takes as the state of a trace, as the host provides it.
pub trait TraceStateRules {
    /// What is said against some entries, where they are not taken.
    fn check(&self, entries: &Vec<TraceStateEntry>) -> Result<(), String>;
}

/// Whether an outcome carries a span context back, given its entries and what the pipeline said
/// of them.
pub open spec fn carried_back(
    ctx: OtelSpanParts,
    entries: Seq<(Seq<char>, Seq<char>)>,
    checked: Result<(), String>,
    r: Result<TraceContext, Error>,
) -> bool {
    match checked {
        Ok(_) => r is Ok && r->Ok_0@ == (TraceContextView {
            trace_id: ctx.trace_id,
            span_id: ctx.span_id,
            trace_flags: ctx.trace_flags,
            trace_state: entries,
        }),
        Err(reason) => r is Err && r->Err_0 is TraceStateConversion
            && r->Err_0->TraceStateConversion_0@ == "otel TraceState -> spark 失败: "@ + reason@,
    }
}

/// Carries a span context of OpenTelemetry back: the entries that its state holds are read and
/// put before the pipeline, which takes them as they are or not at all.
pub fn carry_back<C: TraceStateRules>(
    ctx: &OtelSpanParts,
    rules: &C,
) -> (r: Result<TraceContext, Error>)
    ensures
        exists|entries: Vec<TraceStateEntry>, checked: Result<(), String>|
            #![trigger call_ensures(C::check, (rules, &entries), checked)]
            {
                &&& call_ensures(C::check, (rules, &entries), checked)
                &&& entry_views(entries@) == entries_of(header_of(state_entries(ctx.trace_state)))
                &&& carried_back(*ctx, entry_views(entries@), checked, r)
            },
{
    let entries = read_trace_state(&ctx.trace_state);
    let ghost read = entries;
    let checked = rules.check(&entries);
    proof {
        assert(call_ensures(C::check, (rules, &read), checked));
    }
    match checked {
        Ok(_) => trace_context_from_otel(ctx, Ok(entries)),
        Err(reason) => trace_context_from_otel(ctx, Err(reason)),
    }
}

pub(crate) proof fn lemma_first_position(before: Seq<char>, c: char, after: Seq<char>)
    requires
        !before.contains(c),
    ensures
        first_position(before, c) == before.len(),
        first_position(before.push(c) + after, c) == before.len(),
    decreases before.len(),
{
    let whole = before.push(c) + after;
    if before.len() > 0 {
        assert(before[0] != c) by {
            if before[0] == c {
                assert(before.contains(c));
            }
        }
        assert(whole[0] == before[0]);
        let rest = before.skip(1);
        assert(!rest.contains(c)) by {
            if rest.contains(c) {
                let i = choose|i: int| 0 <= i < rest.len() && rest[i] == c;
                assert(before[i + 1] == c);
            }
        }
        lemma_first_position(rest, c, after);
        assert(whole.skip(1) =~= rest.push(c) + after);
    } else {
        assert(whole[0] == c);
    }
}

proof fn lemma_member_is_read_back(entry: (Seq<char>, Seq<char>))
    requires
        valid_key(entry.0),
        valid_value(entry.1),
    ensures
        entry_of(member_of(entry)) == seq![entry],
        !member_of(entry).contains(','),
{
    let (key, value) = entry;
    let member = member_of(entry);
    assert(!key.contains('=') && !key.contains(',')) by {
        if key.contains('=') {
            let i = choose|i: int| 0 <= i < key.len() && key[i] == '=';
            assert(key_char(key[i]));
        }
        if key.contains(',') {
            let i = choose|i: int| 0 <= i < key.len() && key[i] == ',';
            assert(key_char(key[i]));
        }
    }
    lemma_first_position(key, '=', value);
    assert(member.take(key.len() as int) =~= key);
    assert(member.skip(key.len() as int + 1) =~= value);
    if member.contains(',') {
        let i = choose|i: int| 0 <= i < member.len() && member[i] == ',';
        if i < key.len() {
            assert(key[i] == ',');
        } else if i > key.len() {
            assert(value[i - key.len() - 1] == ',');
        }
    }
}

/// A header of one member is read as its entry.
proof fn lemma_last_member_is_read(entry: (Seq<char>, Seq<char>))
    requires
        valid_key(entry.0),
        valid_value(entry.1),
    ensures
        entries_of(member_of(entry)) == seq![entry],
{
    lemma_member_is_read_back(entry);
    lemma_first_position(member_of(entry), ',', Seq::empty());
}

/// A header is read member by member.
proof fn lemma_first_member_is_read(entry: (Seq<char>, Seq<char>), rest: Seq<char>)
    requires
        valid_key(entry.0),
        valid_value(entry.1),
    ensures
        entries_of(member_of(entry).push(',') + rest) == seq![entry] + entries_of(rest),
{
    let member = member_of(entry);
    let whole = member.push(',') + rest;
    lemma_member_is_read_back(entry);
    lemma_first_position(member, ',', rest);
    assert(whole.take(member.len() as int) =~= member);
    assert(whole.skip(member.len() as int + 1) =~= rest);
}

/// What a header says of valid entries is read back from it, in order.
pub proof fn law_header_is_read_back(entries: Seq<(Seq<char>, Seq<char>)>)
    requires
        valid_entries(entries),
    ensures
        entries_of(header_of(entries)) == entries,
    decreases entries.len(),
{
    if entries.len() == 0 {
        assert(entries_of(header_of(entries)) =~= entries);
    } else if entries.len() == 1 {
        lemma_last_member_is_read(entries[0]);
        assert(entries =~= seq![entries[0]]);
    } else {
        let rest = entries.skip(1);
        assert(valid_entries(rest)) by {
            assert forall|i: int| #![trigger rest[i]] 0 <= i < rest.len() implies valid_key(
                rest[i].0,
            ) && valid_value(rest[i].1) by {
                assert(rest[i] == entries[i + 1]);
            }
        }
        law_header_is_read_back(rest);
        lemma_first_member_is_read(entries[0], header_of(rest));
        assert(seq![entries[0]] + rest =~= entries);
    }
}

/// A trace context that OpenTelemetry takes comes back from it as it was: its identifiers, its
/// flags and its entries in order.
pub proof fn law_trace_context_comes_back(parent: TraceContextView, ctx: OtelSpanParts)
    requires
        valid_entries(parent.trace_state),
        ctx.trace_id == parent.trace_id,
        ctx.span_id == parent.span_id,
        ctx.trace_flags == parent.trace_flags,
        state_entries(ctx.trace_state) == parent.trace_state,
    ensures
        parent == (TraceContextView {
            trace_id: ctx.trace_id,
            span_id: ctx.span_id,
            trace_flags: ctx.trace_flags,
            trace_state: entries_of(header_of(state_entries(ctx.trace_state))),
        }),
{
    law_header_is_read_back(parent.trace_state);
}

} // verus!
