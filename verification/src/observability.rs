//! Log records as plain values, each with the trace of the call that it is about. The host writes
//! them out.
use vstd::prelude::*;

use crate::error::{CoreError, ErrorView};
use crate::router::context::TraceRef;

verus! {

/// How urgent a log record is.
#[derive(Clone, Copy, Debug, PartialEq, Eq, Structural)]
pub enum LogLevel {
    Debug,
    Info,
    Warn,
    Error,
}

/// The value of a field of a log record.
#[derive(Debug, PartialEq, Eq)]
pub enum FieldValue {
    Flag(bool),
    Text(String),
}

/// A named field of a log record.
#[derive(Debug, PartialEq, Eq)]
pub struct LogField {
    pub key: &'static str,
    pub value: FieldValue,
}

/// One log record.
#[derive(Debug, PartialEq, Eq)]
pub struct LogRecord {
    pub level: LogLevel,
    pub message: String,
    pub error: Option<CoreError>,
    pub fields: Vec<LogField>,
    pub trace: TraceRef,
}

/// What the value of a field says, for the contracts.
pub enum FieldView {
    Flag(bool),
    Text(Seq<char>),
}

/// What a log record says, for the contracts.
#[verifier::ext_equal]
pub struct LogView {
    pub level: LogLevel,
    pub message: Seq<char>,
    pub error: Option<ErrorView>,
    pub fields: Seq<(&'static str, FieldView)>,
    pub trace: TraceRef,
}

/// What the value of a field says.
pub open spec fn field_view(value: FieldValue) -> FieldView {
    match value {
        FieldValue::Flag(flag) => FieldView::Flag(flag),
        FieldValue::Text(text) => FieldView::Text(text@),
    }
}

impl View for LogRecord {
    type V = LogView;

    open spec fn view(&self) -> LogView {
        LogView {
            level: self.level,
            message: self.message@,
            error: match self.error {
                Some(error) => Some(error@),
                None => None,
            },
            fields: self.fields@.map_values(|f: LogField| (f.key, field_view(f.value))),
            trace: self.trace,
        }
    }
}

/// A record without error and fields.
pub open spec fn plain_record(level: LogLevel, message: Seq<char>, trace: TraceRef) -> LogView {
    LogView { level, message, error: None, fields: Seq::empty(), trace }
}

/// A record about an error.
pub open spec fn error_record(message: Seq<char>, error: ErrorView, trace: TraceRef) -> LogView {
    LogView { level: LogLevel::Error, message, error: Some(error), fields: Seq::empty(), trace }
}

impl LogRecord {
    /// A record without error and fields.
    pub fn plain(level: LogLevel, message: String, trace: &TraceRef) -> (record: LogRecord)
        ensures
            record@ == plain_record(level, message@, *trace),
    {
        let record = LogRecord { level, message, error: None, fields: Vec::new(), trace: *trace };
        proof {
            assert(record@ =~= plain_record(level, message@, *trace));
        }
        record
    }

    /// A record about an error.
    pub fn about(message: String, error: CoreError, trace: &TraceRef) -> (record: LogRecord)
        ensures
            record@ == error_record(message@, error@, *trace),
    {
        let record = LogRecord {
            level: LogLevel::Error,
            message,
            error: Some(error),
            fields: Vec::new(),
            trace: *trace,
        };
        proof {
            assert(record@ =~= error_record(message@, error@, *trace));
        }
        record
    }

    /// The same record with one field more.
    pub fn with_field(self, key: &'static str, value: FieldValue) -> (record: LogRecord)
        ensures
            record@ == (LogView { fields: self@.fields.push((key, field_view(value))), ..self@ }),
    {
        let mut record = self;
        record.fields.push(LogField { key, value });
        proof {
            assert(record@ =~= (LogView {
                fields: self@.fields.push((key, field_view(value))),
                ..self@
            }));
        }
        record
    }
}

} // verus!
