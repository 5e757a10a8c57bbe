//! What the views of shared types say, field by field.
use vstd::prelude::*;

use crate::contract_tests::attribute::{item_forms, MetaItem, SuiteAttribute};
use crate::error::{
    CoreError, ErrorCategory, ErrorCode, RetryAdvice,
};
use crate::observability::{
    field_view, FieldValue, FieldView, LogLevel, LogRecord,
};
use crate::otel::context::{TraceContext};
use crate::pipeline::message::PipelineMessage;
use crate::router::context::{ConnectionIntent, TraceRef};
use crate::router::metadata::{view_of, views_of, MetadataValue, MetadataView};
use crate::runtime::configuration::{ConfigValue, ConfigView};
use crate::text::texts;

verus! {

/// An error is seen with all its parts, and so is its cause.
pub proof fn law_an_error_is_seen_with_all_parts(error: CoreError)
    ensures
        error@.code == error.code,
        error@.message == error.message@,
        error@.category == error.category,
        error@.cause is Some <==> error.cause is Some,
        error.cause is Some ==> *error@.cause->0 == (*error.cause->0)@,
{
}

/// An error is made of a code and a text; a category and a cause are added without changing the
/// rest.
pub proof fn law_an_error_keeps_what_was_set(
    code: ErrorCode,
    message: String,
    fresh: CoreError,
    error: CoreError,
    category: ErrorCategory,
    categorized: CoreError,
    cause: CoreError,
    caused: CoreError,
)
    requires
        call_ensures(CoreError::new, (code, message), fresh),
        call_ensures(CoreError::with_category, (error, category), categorized),
        call_ensures(CoreError::with_cause, (error, cause), caused),
    ensures
        fresh@.code == code && fresh@.message == message@ && fresh@.category is None
            && fresh@.cause is None,
        categorized@.category == Some(category) && categorized@.code == error@.code
            && categorized@.message == error@.message && categorized@.cause == error@.cause,
        caused@.cause is Some && *caused@.cause->0 == cause@ && caused@.code == error@.code
            && caused@.message == error@.message && caused@.category == error@.category,
{
}

/// A record is seen with all its parts, its fields in order.
pub proof fn law_a_record_is_seen_with_all_parts(record: LogRecord, value: FieldValue, i: int)
    ensures
        record@.level == record.level,
        record@.message == record.message@,
        record@.trace == record.trace,
        record@.error is Some <==> record.error is Some,
        record.error is Some ==> record@.error->0 == record.error->0@,
        record@.fields.len() == record.fields@.len(),
        0 <= i < record.fields@.len() ==> record@.fields[i].0 == record.fields@[i].key
            && record@.fields[i].1 == field_view(record.fields@[i].value),
        value is Flag ==> field_view(value) == FieldView::Flag(value->Flag_0),
        value is Text ==> field_view(value) == FieldView::Text(value->Text_0@),
{
}

/// A record has the level, the text and the trace that it was made with; one about an error is an
/// error record that carries it; a field is added behind the others.
pub proof fn law_a_record_keeps_what_was_set(
    level: LogLevel,
    message: String,
    trace: &TraceRef,
    plain: LogRecord,
    error: CoreError,
    about: LogRecord,
    record: LogRecord,
    key: &'static str,
    value: FieldValue,
    longer: LogRecord,
    i: int,
)
    requires
        call_ensures(LogRecord::plain, (level, message, trace), plain),
        call_ensures(LogRecord::about, (message, error, trace), about),
        call_ensures(LogRecord::with_field, (record, key, value), longer),
    ensures
        plain@.level == level && plain@.message == message@ && plain@.trace == *trace
            && plain@.error is None && plain@.fields.len() == 0,
        about@.level == LogLevel::Error && about@.message == message@ && about@.trace == *trace
            && about@.error == Some(error@) && about@.fields.len() == 0,
        longer@.level == record@.level && longer@.message == record@.message && longer@.trace
            == record@.trace && longer@.error == record@.error,
        longer@.fields.len() == record@.fields.len() + 1,
        longer@.fields[record@.fields.len() as int].0 == key,
        longer@.fields[record@.fields.len() as int].1 == field_view(value),
        0 <= i < record@.fields.len() ==> longer@.fields[i] == record@.fields[i],
{
}

/// Values of attributes and of configurations are seen as the kind that they are, lists in order.
pub proof fn law_values_are_seen_as_they_are(
    value: MetadataValue,
    items: Seq<MetadataValue>,
    setting: ConfigValue,
    i: int,
)
    ensures
        value is Boolean ==> view_of(value) == MetadataView::Boolean(value->Boolean_0),
        value is Integer ==> view_of(value) == MetadataView::Integer(value->Integer_0),
        value is Float ==> view_of(value) == MetadataView::Float(value->Float_0),
        value is Text ==> view_of(value) == MetadataView::Text(value->Text_0@),
        value is List ==> view_of(value) is List && view_of(value)->List_0 == views_of(
            value->List_0@,
        ),
        views_of(items).len() == items.len(),
        0 <= i < items.len() ==> views_of(items)[i] == view_of(items[i]),
        setting is Boolean ==> setting@ == ConfigView::Boolean(setting->Boolean_0),
        setting is Integer ==> setting@ == ConfigView::Integer(setting->Integer_0),
        setting is Text ==> setting@ == ConfigView::Text(setting->Text_0@),
    decreases items.len(),
{
    if items.len() > 0 {
        law_values_are_seen_as_they_are(value, items.drop_last(), setting, i);
        assert(items.last() == items[items.len() - 1]);
        if 0 <= i < items.len() - 1 {
            assert(items.drop_last()[i] == items[i]);
        }
    }
}

/// A message has a kind exactly where it was decoded, and it is the one that it was given.
pub proof fn law_a_decoded_message_has_its_kind(message: &PipelineMessage, kind: Option<&str>)
    requires
        call_ensures(PipelineMessage::user_kind, (message,), kind),
    ensures
        *message is Buffer ==> kind is None && message.kind() is None,
        *message is User ==> kind is Some && kind->0@ == message->User_0.kind@ && message.kind()
            == Some(message->User_0.kind@),
{
}

/// A trace context, a wish for a connection and lists of texts are seen with all their parts.
pub proof fn law_contexts_are_seen_with_all_parts(
    context: TraceContext,
    connection: ConnectionIntent,
    names: Seq<String>,
    items: Seq<MetaItem>,
    attribute: SuiteAttribute,
    i: int,
)
    ensures
        context@.trace_id == context.trace_id,
        context@.span_id == context.span_id,
        context@.trace_flags == context.trace_flags,
        context@.trace_state.len() == context.trace_state@.len(),
        0 <= i < context.trace_state@.len() ==> context@.trace_state[i].0
            == context.trace_state@[i].key@ && context@.trace_state[i].1
            == context.trace_state@[i].value@,
        connection@.endpoint == connection.endpoint@,
        connection@.qos == connection.qos,
        connection@.security == connection.security,
        texts(names).len() == names.len(),
        0 <= i < names.len() ==> texts(names)[i] == names[i]@,
        item_forms(items).len() == items.len(),
        0 <= i < items.len() ==> item_forms(items)[i] == items[i]@,
        0 <= i < items.len() && items[i] is Ident ==> items[i]@ is Ident && items[i]@->Ident_0
            == items[i]->Ident_0@,
        0 <= i < items.len() ==> (items[i] is Path <==> items[i]@ is Path) && (items[i] is Other
            <==> items[i]@ is Other),
        attribute is Suites ==> attribute@ is Suites && attribute@->Suites_0 == item_forms(
            attribute->Suites_0@,
        ),
{
}

/// Advice to wait says for how long.
pub proof fn law_advice_says_how_long(wait: crate::time::duration::Duration, advice: RetryAdvice)
    requires
        call_ensures(RetryAdvice::after, (wait,), advice),
    ensures
        advice.wait == wait,
{
}

} // verus!
