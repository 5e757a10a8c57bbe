//! The decisions of a TCP transport: how failures are classified, when a call is refused before
//! it begins, and what a look at the write side means.
use vstd::prelude::*;

use crate::error::{CoreError, ErrorCategory, ErrorCode, ErrorView, RetryAdvice};
use crate::time::duration::{Duration, NANOS_PER_MILLI};

verus! {

/// What a TCP transport was doing when something happened.
#[derive(Clone, Copy, Debug, PartialEq, Eq, Structural)]
pub enum OperationKind {
    Bind,
    Accept,
    Connect,
    Read,
    Write,
    WriteVectored,
    Shutdown,
    Configure,
    PollReady,
}

/// The stable code of a failure.
pub open spec fn failure_code(kind: OperationKind) -> &'static str {
    match kind {
        OperationKind::Bind => "spark.transport.tcp.bind_failed",
        OperationKind::Accept => "spark.transport.tcp.accept_failed",
        OperationKind::Connect => "spark.transport.tcp.connect_failed",
        OperationKind::Read => "spark.transport.tcp.read_failed",
        OperationKind::Write => "spark.transport.tcp.write_failed",
        OperationKind::WriteVectored => "spark.transport.tcp.writev_failed",
        OperationKind::Shutdown => "spark.transport.tcp.shutdown_failed",
        OperationKind::Configure => "spark.transport.tcp.configure_failed",
        OperationKind::PollReady => "spark.transport.tcp.poll_ready_failed",
    }
}

/// What the transport was doing, in words.
pub open spec fn doing(kind: OperationKind) -> &'static str {
    match kind {
        OperationKind::Bind => "tcp bind",
        OperationKind::Accept => "tcp accept",
        OperationKind::Connect => "tcp connect",
        OperationKind::Read => "tcp read",
        OperationKind::Write => "tcp write",
        OperationKind::WriteVectored => "tcp write_vectored",
        OperationKind::Shutdown => "tcp shutdown",
        OperationKind::Configure => "tcp configure",
        OperationKind::PollReady => "tcp poll_ready",
    }
}

impl OperationKind {
    /// The stable code of a failure.
    pub fn code(&self) -> (code: &'static str)
        ensures
            code == failure_code(*self),
    {
        match self {
            OperationKind::Bind => "spark.transport.tcp.bind_failed",
            OperationKind::Accept => "spark.transport.tcp.accept_failed",
            OperationKind::Connect => "spark.transport.tcp.connect_failed",
            OperationKind::Read => "spark.transport.tcp.read_failed",
            OperationKind::Write => "spark.transport.tcp.write_failed",
            OperationKind::WriteVectored => "spark.transport.tcp.writev_failed",
            OperationKind::Shutdown => "spark.transport.tcp.shutdown_failed",
            OperationKind::Configure => "spark.transport.tcp.configure_failed",
            OperationKind::PollReady => "spark.transport.tcp.poll_ready_failed",
        }
    }

    /// What the transport was doing, in words.
    pub fn message(&self) -> (message: &'static str)
        ensures
            message == doing(*self),
    {
        match self {
            OperationKind::Bind => "tcp bind",
            OperationKind::Accept => "tcp accept",
            OperationKind::Connect => "tcp connect",
            OperationKind::Read => "tcp read",
            OperationKind::Write => "tcp write",
            OperationKind::WriteVectored => "tcp write_vectored",
            OperationKind::Shutdown => "tcp shutdown",
            OperationKind::Configure => "tcp configure",
            OperationKind::PollReady => "tcp poll_ready",
        }
    }
}

/// The kind of a failure of the operating system, as far as it matters here.
#[derive(Clone, Copy, Debug, PartialEq, Eq, Structural)]
pub enum IoErrorKind {
    TimedOut,
    WouldBlock,
    Interrupted,
    ConnectionRefused,
    ConnectionReset,
    ConnectionAborted,
    NotConnected,
    AddrInUse,
    AddrNotAvailable,
    BrokenPipe,
    PermissionDenied,
    Unsupported,
    WriteZero,
    Other,
}

/// After how many milliseconds a failure is worth another try; nothing where it is not.
pub open spec fn retry_millis(kind: IoErrorKind) -> Option<nat> {
    match kind {
        IoErrorKind::WouldBlock | IoErrorKind::Interrupted => Some(5),
        IoErrorKind::WriteZero => Some(10),
        IoErrorKind::ConnectionRefused | IoErrorKind::ConnectionReset
        | IoErrorKind::ConnectionAborted | IoErrorKind::NotConnected | IoErrorKind::AddrInUse
        | IoErrorKind::AddrNotAvailable | IoErrorKind::BrokenPipe => Some(50),
        _ => None,
    }
}

/// What a caller may do about a failure.
pub open spec fn is_category_of(category: ErrorCategory, kind: IoErrorKind) -> bool {
    match category {
        ErrorCategory::Timeout => kind is TimedOut,
        ErrorCategory::Retryable(advice) => match retry_millis(kind) {
            Some(millis) => advice.wait@ == millis * NANOS_PER_MILLI,
            None => false,
        },
        ErrorCategory::NonRetryable => !(kind is TimedOut) && retry_millis(kind) is None,
        ErrorCategory::Cancelled => false,
    }
}

/// Tells what a caller may do about a failure.
pub fn categorize_io_error(kind: IoErrorKind) -> (category: ErrorCategory)
    ensures
        is_category_of(category, kind),
{
    match kind {
        IoErrorKind::TimedOut => ErrorCategory::Timeout,
        IoErrorKind::WouldBlock | IoErrorKind::Interrupted => ErrorCategory::Retryable(
            RetryAdvice::after(Duration::from_millis(5)),
        ),
        IoErrorKind::ConnectionRefused | IoErrorKind::ConnectionReset
        | IoErrorKind::ConnectionAborted | IoErrorKind::NotConnected | IoErrorKind::AddrInUse
        | IoErrorKind::AddrNotAvailable | IoErrorKind::BrokenPipe => ErrorCategory::Retryable(
            RetryAdvice::after(Duration::from_millis(50)),
        ),
        IoErrorKind::PermissionDenied | IoErrorKind::Unsupported => ErrorCategory::NonRetryable,
        IoErrorKind::WriteZero => ErrorCategory::Retryable(
            RetryAdvice::after(Duration::from_millis(10)),
        ),
        IoErrorKind::Other => ErrorCategory::NonRetryable,
    }
}

/// Whether an error tells of a failure of the operating system as it should.
pub open spec fn is_io_error(
    error: ErrorView,
    operation: OperationKind,
    kind: IoErrorKind,
    shown: Seq<char>,
) -> bool {
    &&& error.code == ErrorCode::Named(failure_code(operation))
    &&& error.message == doing(operation)@ + ": "@ + shown
    &&& error.category is Some
    &&& is_category_of(error.category->0, kind)
    &&& error.cause is None
}

/// The error that tells of a failure of the operating system, given its kind and the form in
/// which it is shown.
pub fn map_io_error(operation: OperationKind, kind: IoErrorKind, shown: &str) -> (error: CoreError)
    ensures
        is_io_error(error@, operation, kind, shown@),
{
    let mut message = operation.message().to_owned();
    message.append(": ");
    message.append(shown);
    CoreError::new(ErrorCode::Named(operation.code()), message).with_category(
        categorize_io_error(kind),
    )
}

/// What a cancelled operation is told.
pub open spec fn cancelled(operation: OperationKind) -> ErrorView {
    ErrorView {
        code: ErrorCode::Named("spark.transport.tcp.cancelled"),
        message: doing(operation)@ + " cancelled"@,
        category: Some(ErrorCategory::Cancelled),
        cause: None,
    }
}

/// What an operation is told whose time is up.
pub open spec fn timed_out(operation: OperationKind) -> ErrorView {
    ErrorView {
        code: ErrorCode::Named("spark.transport.tcp.timeout"),
        message: doing(operation)@ + " timed out"@,
        category: Some(ErrorCategory::Timeout),
        cause: None,
    }
}

/// The error for a cancelled operation.
pub fn cancelled_error(operation: OperationKind) -> (error: CoreError)
    ensures
        error@ == cancelled(operation),
{
    let mut message = operation.message().to_owned();
    message.append(" cancelled");
    CoreError::new(ErrorCode::Named("spark.transport.tcp.cancelled"), message).with_category(
        ErrorCategory::Cancelled,
    )
}

/// The error for an operation whose time is up.
pub fn timeout_error(operation: OperationKind) -> (error: CoreError)
    ensures
        error@ == timed_out(operation),
{
    let mut message = operation.message().to_owned();
    message.append(" timed out");
    CoreError::new(ErrorCode::Named("spark.transport.tcp.timeout"), message).with_category(
        ErrorCategory::Timeout,
    )
}

/// Why a call is refused before it begins; nothing where it is not. A deadline that has passed
/// counts before a cancellation.
pub open spec fn refusal(
    operation: OperationKind,
    deadline_expired: bool,
    is_cancelled: bool,
) -> Option<ErrorView> {
    if deadline_expired {
        Some(timed_out(operation))
    } else if is_cancelled {
        Some(cancelled(operation))
    } else {
        None
    }
}

/// Refuses a call before it begins where its deadline has passed or it was cancelled.
pub fn check_call(
    operation: OperationKind,
    deadline_expired: bool,
    is_cancelled: bool,
) -> (r: Result<(), CoreError>)
    ensures
        r is Ok <==> refusal(operation, deadline_expired, is_cancelled) is None,
        r is Err ==> Some(r->Err_0@) == refusal(operation, deadline_expired, is_cancelled),
{
    if deadline_expired {
        return Err(timeout_error(operation));
    }
    if is_cancelled {
        return Err(cancelled_error(operation));
    }
    Ok(())
}

/// What a look at the write side of a connection saw.
#[derive(Debug, PartialEq, Eq)]
pub enum WriteProbe {
    /// Bytes can be written.
    Writable,
    /// The operating system takes no bytes right now.
    WouldBlock,
    /// The operating system reported a failure.
    Failed { kind: IoErrorKind, shown: String },
    /// Someone else is using the connection.
    InUse,
}

/// Which back-pressure event a look amounts to. The host's back-pressure state turns it into
/// what the caller is told.
#[derive(Clone, Copy, Debug, PartialEq, Eq, Structural)]
pub enum BackpressureEvent {
    Ready,
    WouldBlock,
    ManualBusy,
}

/// Why a readiness check is refused before the connection is looked at; nothing where it is not.
/// A deadline without any time left counts as passed, but only after a cancellation.
pub open spec fn readiness_refusal(
    deadline_expired: bool,
    is_cancelled: bool,
    remaining: Option<Duration>,
) -> Option<ErrorView> {
    match refusal(OperationKind::PollReady, deadline_expired, is_cancelled) {
        Some(error) => Some(error),
        None => match remaining {
            Some(remaining) => if remaining@ == 0 {
                Some(timed_out(OperationKind::PollReady))
            } else {
                None
            },
            None => None,
        },
    }
}

/// Refuses a readiness check before the connection is looked at.
pub fn check_readiness_call(
    deadline_expired: bool,
    is_cancelled: bool,
    remaining: Option<Duration>,
) -> (r: Result<(), CoreError>)
    ensures
        r is Ok <==> readiness_refusal(deadline_expired, is_cancelled, remaining) is None,
        r is Err ==> Some(r->Err_0@) == readiness_refusal(
            deadline_expired,
            is_cancelled,
            remaining,
        ),
{
    match check_call(OperationKind::PollReady, deadline_expired, is_cancelled) {
        Ok(_) => {},
        Err(error) => {
            return Err(error);
        },
    }
    if let Some(remaining) = remaining {
        if remaining.is_zero() {
            return Err(timeout_error(OperationKind::PollReady));
        }
    }
    Ok(())
}

/// What a look at the write side amounts to: an event for the back-pressure state, or an error.
/// A connection that would block is not an error.
pub fn settle_probe(probe: &WriteProbe) -> (r: Result<BackpressureEvent, CoreError>)
    ensures
        match *probe {
            WriteProbe::Writable => r == Ok::<BackpressureEvent, CoreError>(
                BackpressureEvent::Ready,
            ),
            WriteProbe::WouldBlock => r == Ok::<BackpressureEvent, CoreError>(
                BackpressureEvent::WouldBlock,
            ),
            WriteProbe::InUse => r == Ok::<BackpressureEvent, CoreError>(
                BackpressureEvent::ManualBusy,
            ),
            WriteProbe::Failed { kind, shown } => if kind is WouldBlock {
                r == Ok::<BackpressureEvent, CoreError>(BackpressureEvent::WouldBlock)
            } else {
                r is Err && is_io_error(r->Err_0@, OperationKind::PollReady, kind, shown@)
            },
        },
{
    match probe {
        WriteProbe::Writable => Ok(BackpressureEvent::Ready),
        WriteProbe::WouldBlock => Ok(BackpressureEvent::WouldBlock),
        WriteProbe::InUse => Ok(BackpressureEvent::ManualBusy),
        WriteProbe::Failed { kind, shown } => if matches!(kind, IoErrorKind::WouldBlock) {
            Ok(BackpressureEvent::WouldBlock)
        } else {
            Err(map_io_error(OperationKind::PollReady, *kind, shown.as_str()))
        },
    }
}

/// Whether a write has anything to do: one without bytes is answered at once with zero.
pub fn write_shortcut(len: usize) -> (written: Option<usize>)
    ensures
        len == 0 ==> written == Some(0usize),
        len > 0 ==> written is None,
{
    if len == 0 {
        Some(0)
    } else {
        None
    }
}

/// Which half of a connection is closed.
#[derive(Clone, Copy, Debug, PartialEq, Eq, Structural)]
pub enum ShutdownDirection {
    Write,
    Read,
    Both,
}

/// One step of closing a connection.
#[derive(Clone, Copy, Debug, PartialEq, Eq, Structural)]
pub enum ShutdownStep {
    CloseWrite,
    CloseRead,
}

/// The steps of closing a connection, in order. Closing both halves closes the write half first,
/// so that what was written still goes out.
pub open spec fn shutdown_steps(direction: ShutdownDirection) -> Seq<ShutdownStep> {
    match direction {
        ShutdownDirection::Write => seq![ShutdownStep::CloseWrite],
        ShutdownDirection::Read => seq![ShutdownStep::CloseRead],
        ShutdownDirection::Both => seq![ShutdownStep::CloseWrite, ShutdownStep::CloseRead],
    }
}

/// The steps of closing a connection, in order. A step that fails ends the sequence.
pub fn plan_shutdown(direction: ShutdownDirection) -> (steps: Vec<ShutdownStep>)
    ensures
        steps@ == shutdown_steps(direction),
{
    let mut steps: Vec<ShutdownStep> = Vec::new();
    if !matches!(direction, ShutdownDirection::Read) {
        steps.push(ShutdownStep::CloseWrite);
    }
    if !matches!(direction, ShutdownDirection::Write) {
        steps.push(ShutdownStep::CloseRead);
    }
    proof {
        assert(steps@ =~= shutdown_steps(direction));
    }
    steps
}

/// A deadline that has passed wins over a cancellation, whatever the operation.
pub proof fn law_deadline_wins_over_cancellation(operation: OperationKind, is_cancelled: bool)
    ensures
        refusal(operation, true, is_cancelled) == Some(timed_out(operation)),
        refusal(operation, false, true) == Some(cancelled(operation)),
        refusal(operation, false, false) is None,
{
}

/// A failed connection, and an address that is taken or gone, is worth another try after fifty
/// milliseconds, whatever the operation was.
pub proof fn law_lost_connections_are_tried_again(
    operation: OperationKind,
    kind: IoErrorKind,
    shown: &str,
    error: CoreError,
)
    requires
        call_ensures(map_io_error, (operation, kind, shown), error),
        kind is ConnectionRefused || kind is ConnectionReset || kind is ConnectionAborted
            || kind is NotConnected || kind is AddrInUse || kind is AddrNotAvailable
            || kind is BrokenPipe,
    ensures
        error@.category is Some,
        error@.category->0 is Retryable,
        error@.category->0->Retryable_0.wait@ == 50_000_000,
{
}

} // verus!
