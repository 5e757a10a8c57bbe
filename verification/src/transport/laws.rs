//! What the decisions of a transport come to, kind by kind and operation by operation.
use vstd::prelude::*;

use crate::error::{CoreError, ErrorCategory, ErrorCode, ErrorView};
use crate::text::{decimal, hexadecimal, joined};
use crate::time::duration::Duration;
use crate::transport::addr::{segment_texts, TransportSocketAddr};
use crate::transport::tcp::{
    cancelled_error, categorize_io_error, check_call, check_readiness_call, map_io_error,
    plan_shutdown, settle_probe, timeout_error, write_shortcut, BackpressureEvent, IoErrorKind,
    OperationKind, ShutdownDirection, ShutdownStep, WriteProbe,
};

verus! {

/// Each kind of failure has its category: what is lost or taken is tried again after fifty
/// milliseconds, what was interrupted or would block after five, a write of nothing after ten; a
/// timeout is one; anything else is not tried again.
pub proof fn law_each_kind_has_its_category(kind: IoErrorKind, category: ErrorCategory)
    requires
        call_ensures(categorize_io_error, (kind,), category),
    ensures
        kind is ConnectionRefused ==> category is Retryable && category->Retryable_0.wait@
            == 50_000_000,
        kind is ConnectionReset ==> category is Retryable && category->Retryable_0.wait@
            == 50_000_000,
        kind is ConnectionAborted ==> category is Retryable && category->Retryable_0.wait@
            == 50_000_000,
        kind is NotConnected ==> category is Retryable && category->Retryable_0.wait@
            == 50_000_000,
        kind is AddrInUse ==> category is Retryable && category->Retryable_0.wait@ == 50_000_000,
        kind is AddrNotAvailable ==> category is Retryable && category->Retryable_0.wait@
            == 50_000_000,
        kind is BrokenPipe ==> category is Retryable && category->Retryable_0.wait@ == 50_000_000,
        kind is WouldBlock ==> category is Retryable && category->Retryable_0.wait@ == 5_000_000,
        kind is Interrupted ==> category is Retryable && category->Retryable_0.wait@ == 5_000_000,
        kind is WriteZero ==> category is Retryable && category->Retryable_0.wait@ == 10_000_000,
        kind is TimedOut ==> category is Timeout,
        kind is PermissionDenied ==> category is NonRetryable,
        kind is Unsupported ==> category is NonRetryable,
        kind is Other ==> category is NonRetryable,
{
}

/// Each operation fails under a code of its own and in words of its own, and the category is that
/// of the failure, whatever the operation was.
pub proof fn law_each_operation_has_its_code(
    operation: OperationKind,
    kind: IoErrorKind,
    shown: &str,
    error: CoreError,
)
    requires
        call_ensures(map_io_error, (operation, kind, shown), error),
    ensures
        error@.cause is None,
        error@.category is Some,
        kind is TimedOut ==> error@.category->0 is Timeout,
        kind is WouldBlock || kind is Interrupted ==> error@.category->0 is Retryable
            && error@.category->0->Retryable_0.wait@ == 5_000_000,
        kind is WriteZero ==> error@.category->0 is Retryable
            && error@.category->0->Retryable_0.wait@ == 10_000_000,
        kind is PermissionDenied || kind is Unsupported || kind is Other ==> error@.category->0
            is NonRetryable,
        operation is Bind ==> error@.code == ErrorCode::Named("spark.transport.tcp.bind_failed")
            && error@.message == "tcp bind"@ + ": "@ + shown@,
        operation is Accept ==> error@.code == ErrorCode::Named(
            "spark.transport.tcp.accept_failed",
        ) && error@.message == "tcp accept"@ + ": "@ + shown@,
        operation is Connect ==> error@.code == ErrorCode::Named(
            "spark.transport.tcp.connect_failed",
        ) && error@.message == "tcp connect"@ + ": "@ + shown@,
        operation is Read ==> error@.code == ErrorCode::Named("spark.transport.tcp.read_failed")
            && error@.message == "tcp read"@ + ": "@ + shown@,
        operation is Write ==> error@.code == ErrorCode::Named("spark.transport.tcp.write_failed")
            && error@.message == "tcp write"@ + ": "@ + shown@,
        operation is WriteVectored ==> error@.code == ErrorCode::Named(
            "spark.transport.tcp.writev_failed",
        ) && error@.message == "tcp write_vectored"@ + ": "@ + shown@,
        operation is Shutdown ==> error@.code == ErrorCode::Named(
            "spark.transport.tcp.shutdown_failed",
        ) && error@.message == "tcp shutdown"@ + ": "@ + shown@,
        operation is Configure ==> error@.code == ErrorCode::Named(
            "spark.transport.tcp.configure_failed",
        ) && error@.message == "tcp configure"@ + ": "@ + shown@,
        operation is PollReady ==> error@.code == ErrorCode::Named(
            "spark.transport.tcp.poll_ready_failed",
        ) && error@.message == "tcp poll_ready"@ + ": "@ + shown@,
{
}

/// What an operation is called in words.
pub open spec fn is_called(operation: OperationKind, words: Seq<char>) -> bool {
    words == match operation {
        OperationKind::Bind => "tcp bind"@,
        OperationKind::Accept => "tcp accept"@,
        OperationKind::Connect => "tcp connect"@,
        OperationKind::Read => "tcp read"@,
        OperationKind::Write => "tcp write"@,
        OperationKind::WriteVectored => "tcp write_vectored"@,
        OperationKind::Shutdown => "tcp shutdown"@,
        OperationKind::Configure => "tcp configure"@,
        OperationKind::PollReady => "tcp poll_ready"@,
    }
}

/// Whether an error says that an operation ran out of time.
pub open spec fn says_timed_out(error: ErrorView, words: Seq<char>) -> bool {
    &&& error.code == ErrorCode::Named("spark.transport.tcp.timeout")
    &&& error.message == words + " timed out"@
    &&& error.category == Some(ErrorCategory::Timeout)
    &&& error.cause is None
}

/// Whether an error says that an operation was cancelled.
pub open spec fn says_cancelled(error: ErrorView, words: Seq<char>) -> bool {
    &&& error.code == ErrorCode::Named("spark.transport.tcp.cancelled")
    &&& error.message == words + " cancelled"@
    &&& error.category == Some(ErrorCategory::Cancelled)
    &&& error.cause is None
}

/// A call whose deadline has passed is told so, one that was cancelled before that is told that,
/// and any other goes on.
pub proof fn law_a_call_is_refused_for_one_reason(
    operation: OperationKind,
    deadline_expired: bool,
    is_cancelled: bool,
    r: Result<(), CoreError>,
    words: Seq<char>,
)
    requires
        call_ensures(check_call, (operation, deadline_expired, is_cancelled), r),
        is_called(operation, words),
    ensures
        r is Ok <==> !deadline_expired && !is_cancelled,
        deadline_expired ==> says_timed_out(r->Err_0@, words),
        !deadline_expired && is_cancelled ==> says_cancelled(r->Err_0@, words),
{
}

/// The two errors of a call that does not take place name the operation and are each in a category
/// of their own.
pub proof fn law_cancelled_and_timed_out_are_told_apart(
    operation: OperationKind,
    cancelled: CoreError,
    timed_out: CoreError,
    words: Seq<char>,
)
    requires
        call_ensures(cancelled_error, (operation,), cancelled),
        call_ensures(timeout_error, (operation,), timed_out),
        is_called(operation, words),
    ensures
        says_cancelled(cancelled@, words),
        says_timed_out(timed_out@, words),
{
}

/// A readiness check is refused where its deadline has passed, where it was cancelled, or where no
/// time is left, in that order, and goes on otherwise.
pub proof fn law_a_readiness_check_needs_time(
    deadline_expired: bool,
    is_cancelled: bool,
    remaining: Option<Duration>,
    r: Result<(), CoreError>,
)
    requires
        call_ensures(check_readiness_call, (deadline_expired, is_cancelled, remaining), r),
    ensures
        r is Ok <==> !deadline_expired && !is_cancelled && (remaining is None || remaining->0@ > 0),
        deadline_expired ==> says_timed_out(r->Err_0@, "tcp poll_ready"@),
        !deadline_expired && is_cancelled ==> says_cancelled(r->Err_0@, "tcp poll_ready"@),
        !deadline_expired && !is_cancelled && remaining is Some && remaining->0@ == 0
            ==> says_timed_out(r->Err_0@, "tcp poll_ready"@),
{
}

/// A connection that takes bytes is ready, one that takes none right now would block, whichever way
/// that was told, one that is in use is busy, and any other failure is an error of the look.
pub proof fn law_a_look_tells_ready_from_busy(
    probe: &WriteProbe,
    r: Result<BackpressureEvent, CoreError>,
)
    requires
        call_ensures(settle_probe, (probe,), r),
    ensures
        *probe is Writable ==> r is Ok && r->Ok_0 is Ready,
        *probe is WouldBlock ==> r is Ok && r->Ok_0 is WouldBlock,
        *probe is InUse ==> r is Ok && r->Ok_0 is ManualBusy,
        *probe is Failed && probe->Failed_kind is WouldBlock ==> r is Ok && r->Ok_0 is WouldBlock,
        *probe is Failed && !(probe->Failed_kind is WouldBlock) ==> {
            &&& r is Err
            &&& r->Err_0@.code == ErrorCode::Named("spark.transport.tcp.poll_ready_failed")
            &&& r->Err_0@.message == "tcp poll_ready"@ + ": "@ + probe->Failed_shown@
        },
{
}

/// A write is cut short exactly where it has no bytes, with a count of none.
pub proof fn law_only_empty_writes_are_cut_short(len: usize, written: Option<usize>)
    requires
        call_ensures(write_shortcut, (len,), written),
    ensures
        written is Some <==> len == 0,
        written is Some ==> written->0 == 0,
{
}

/// Closing a connection closes the halves that were asked for, each once, the write half first.
pub proof fn law_the_write_half_is_closed_first(
    direction: ShutdownDirection,
    steps: Vec<ShutdownStep>,
)
    requires
        call_ensures(plan_shutdown, (direction,), steps),
    ensures
        direction is Write ==> steps@.len() == 1 && steps@[0] is CloseWrite,
        direction is Read ==> steps@.len() == 1 && steps@[0] is CloseRead,
        direction is Both ==> steps@.len() == 2 && steps@[0] is CloseWrite && steps@[1]
            is CloseRead,
{
}

/// An address is written out in full: four decimal numbers and a port, or eight hexadecimal numbers
/// between brackets and a port.
pub proof fn law_an_address_is_written_in_full(addr: &TransportSocketAddr, text: String)
    requires
        call_ensures(TransportSocketAddr::to_text, (addr,), text),
    ensures
        *addr is V4 ==> text@ == decimal(addr->V4_addr@[0] as nat) + "."@ + decimal(
            addr->V4_addr@[1] as nat,
        ) + "."@ + decimal(addr->V4_addr@[2] as nat) + "."@ + decimal(addr->V4_addr@[3] as nat)
            + ":"@ + decimal(addr->V4_port as nat),
        *addr is V6 ==> text@ == "["@ + hexadecimal(addr->V6_addr@[0] as nat) + ":"@ + hexadecimal(
            addr->V6_addr@[1] as nat,
        ) + ":"@ + hexadecimal(addr->V6_addr@[2] as nat) + ":"@ + hexadecimal(
            addr->V6_addr@[3] as nat,
        ) + ":"@ + hexadecimal(addr->V6_addr@[4] as nat) + ":"@ + hexadecimal(
            addr->V6_addr@[5] as nat,
        ) + ":"@ + hexadecimal(addr->V6_addr@[6] as nat) + ":"@ + hexadecimal(
            addr->V6_addr@[7] as nat,
        ) + "]:"@ + decimal(addr->V6_port as nat),
{
    if *addr is V6 {
        let a = addr->V6_addr@;
        let all = segment_texts(a);
        assert(all.len() == 8);
        lemma_one(all);
        lemma_next(all, 2);
        lemma_next(all, 3);
        lemma_next(all, 4);
        lemma_next(all, 5);
        lemma_next(all, 6);
        lemma_next(all, 7);
        lemma_next(all, 8);
        assert(all.take(8) =~= all);
        let h = |i: int| hexadecimal(a[i] as nat);
        assert(joined(all, ":"@) == h(0) + ":"@ + h(1) + ":"@ + h(2) + ":"@ + h(3) + ":"@ + h(4)
            + ":"@ + h(5) + ":"@ + h(6) + ":"@ + h(7));
        assert(text@ =~= "["@ + h(0) + ":"@ + h(1) + ":"@ + h(2) + ":"@ + h(3) + ":"@ + h(4)
            + ":"@ + h(5) + ":"@ + h(6) + ":"@ + h(7) + "]:"@ + decimal(addr->V6_port as nat));
    }
}

proof fn lemma_one(all: Seq<Seq<char>>)
    requires
        all.len() >= 1,
    ensures
        joined(all.take(1), ":"@) == all[0],
{
    let one = all.take(1);
    assert(one.drop_last() =~= Seq::<Seq<char>>::empty());
    assert(one.last() == all[0]);
    assert(joined(one, ":"@) =~= all[0]);
}

proof fn lemma_next(all: Seq<Seq<char>>, n: int)
    requires
        2 <= n <= all.len(),
    ensures
        joined(all.take(n), ":"@) == joined(all.take(n - 1), ":"@) + ":"@ + all[n - 1],
{
    assert(all.take(n).drop_last() =~= all.take(n - 1));
    assert(all.take(n).last() == all[n - 1]);
}

} // verus!
