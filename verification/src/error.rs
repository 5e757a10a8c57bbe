//! The error type that the layers share: a stable code, a text for people, and advice on what a
//! caller may do about it.
use vstd::prelude::*;

use crate::time::duration::Duration;

verus! {

/// Codes that the framework itself defines.
#[derive(Clone, Copy, Debug, PartialEq, Eq, Structural)]
pub enum FrameworkCode {
    AppInvalidArgument,
    AppRoutingFailed,
    ProtocolDecode,
    RuntimeInternal,
}

/// The stable code of an error: one of the framework's, or the name that a component picked.
#[derive(Clone, Copy, Debug, PartialEq, Eq)]
pub enum ErrorCode {
    Framework(FrameworkCode),
    Named(&'static str),
}

/// How long to wait before the same call is worth another try.
#[derive(Clone, Copy, Debug, PartialEq, Eq)]
pub struct RetryAdvice {
    pub wait: Duration,
}

impl RetryAdvice {
    /// Advice to wait for the given span.
    pub fn after(wait: Duration) -> (advice: RetryAdvice)
        ensures
            advice.wait == wait,
    {
        RetryAdvice { wait }
    }
}

/// What a caller may do about an error.
#[derive(Clone, Copy, Debug, PartialEq, Eq)]
pub enum ErrorCategory {
    Retryable(RetryAdvice),
    NonRetryable,
    Timeout,
    Cancelled,
}

/// An error of the framework. Without a category, the code decides what a caller may do.
#[derive(Debug, PartialEq, Eq)]
pub struct CoreError {
    pub code: ErrorCode,
    pub message: String,
    pub category: Option<ErrorCategory>,
    pub cause: Option<Box<CoreError>>,
}

/// What an error says, for the contracts.
#[verifier::ext_equal]
pub struct ErrorView {
    pub code: ErrorCode,
    pub message: Seq<char>,
    pub category: Option<ErrorCategory>,
    pub cause: Option<Box<ErrorView>>,
}

/// What an error says.
pub open spec fn error_view(error: CoreError) -> ErrorView
    decreases error,
{
    ErrorView {
        code: error.code,
        message: error.message@,
        category: error.category,
        cause: match error.cause {
            Some(cause) => Some(Box::new(error_view(*cause))),
            None => None,
        },
    }
}

impl View for CoreError {
    type V = ErrorView;

    open spec fn view(&self) -> ErrorView {
        error_view(*self)
    }
}

/// An error with a code and a text, and neither category nor cause.
pub open spec fn plain_error(code: ErrorCode, message: Seq<char>) -> ErrorView {
    ErrorView { code, message, category: None, cause: None }
}

impl CoreError {
    /// An error with a code and a text.
    pub fn new(code: ErrorCode, message: String) -> (error: CoreError)
        ensures
            error@ == plain_error(code, message@),
    {
        CoreError { code, message, category: None, cause: None }
    }

    /// The same error, in the given category.
    pub fn with_category(self, category: ErrorCategory) -> (error: CoreError)
        ensures
            error@ == (ErrorView { category: Some(category), ..self@ }),
    {
        CoreError {
            code: self.code,
            message: self.message,
            category: Some(category),
            cause: self.cause,
        }
    }

    /// The same error, brought about by another.
    pub fn with_cause(self, cause: CoreError) -> (error: CoreError)
        ensures
            error@ == (ErrorView { cause: Some(Box::new(cause@)), ..self@ }),
    {
        CoreError {
            code: self.code,
            message: self.message,
            category: self.category,
            cause: Some(Box::new(cause)),
        }
    }
}

} // verus!
