use spark::error::{ErrorCategory, ErrorCode};
use spark::time::duration::Duration;
use spark::transport::addr::TransportSocketAddr;
use spark::transport::channel_object::{
    DynServerChannel, ServerChannel, ServerChannelObject,
};
use spark::transport::tcp::{
    cancelled_error, categorize_io_error, check_call, check_readiness_call, map_io_error,
    plan_shutdown, settle_probe, timeout_error, write_shortcut, BackpressureEvent, IoErrorKind,
    OperationKind, ShutdownDirection, ShutdownStep, WriteProbe,
};
use spark::transport::transport_object::{
    DynServerTransport, ServerTransport, ServerTransportObject,
};
use spark::error::CoreError;

#[test]
fn addresses_are_written_with_their_port() {
    let v4 = TransportSocketAddr::V4 { addr: [127, 0, 0, 1], port: 8080 };
    assert_eq!(v4.to_text(), "127.0.0.1:8080");
    assert!(v4.as_ipv6_addr().is_none());
    let v6 = TransportSocketAddr::V6 { addr: [0x2001, 0xdb8, 0, 0, 0, 0, 0, 1], port: 443 };
    assert_eq!(v6.to_text(), "[2001:db8:0:0:0:0:0:1]:443");
    assert_eq!(v6.as_ipv6_addr(), Some([0x2001, 0xdb8, 0, 0, 0, 0, 0, 1]));
}

fn wait_of(kind: IoErrorKind) -> Option<Duration> {
    match categorize_io_error(kind) {
        ErrorCategory::Retryable(advice) => Some(advice.wait),
        _ => None,
    }
}

#[test]
fn failures_are_sorted_by_what_helps() {
    assert_eq!(wait_of(IoErrorKind::WouldBlock), Some(Duration::from_millis(5)));
    assert_eq!(wait_of(IoErrorKind::Interrupted), Some(Duration::from_millis(5)));
    assert_eq!(wait_of(IoErrorKind::WriteZero), Some(Duration::from_millis(10)));
    assert_eq!(wait_of(IoErrorKind::ConnectionReset), Some(Duration::from_millis(50)));
    assert_eq!(wait_of(IoErrorKind::BrokenPipe), Some(Duration::from_millis(50)));
    assert!(matches!(categorize_io_error(IoErrorKind::TimedOut), ErrorCategory::Timeout));
    assert!(matches!(
        categorize_io_error(IoErrorKind::PermissionDenied),
        ErrorCategory::NonRetryable
    ));
    assert!(matches!(categorize_io_error(IoErrorKind::Other), ErrorCategory::NonRetryable));
}

#[test]
fn errors_tell_what_was_being_done() {
    let error = map_io_error(OperationKind::Bind, IoErrorKind::AddrInUse, "address in use");
    assert_eq!(error.code, ErrorCode::Named("spark.transport.tcp.bind_failed"));
    assert_eq!(error.message, "tcp bind: address in use");
    assert!(matches!(error.category, Some(ErrorCategory::Retryable(_))));
    let error = cancelled_error(OperationKind::Read);
    assert_eq!(error.code, ErrorCode::Named("spark.transport.tcp.cancelled"));
    assert_eq!(error.message, "tcp read cancelled");
    assert!(matches!(error.category, Some(ErrorCategory::Cancelled)));
    let error = timeout_error(OperationKind::WriteVectored);
    assert_eq!(error.code, ErrorCode::Named("spark.transport.tcp.timeout"));
    assert_eq!(error.message, "tcp write_vectored timed out");
}

#[test]
fn a_deadline_counts_before_a_cancellation() {
    assert!(check_call(OperationKind::Write, false, false).is_ok());
    let error = check_call(OperationKind::Write, true, true).expect_err("both");
    assert!(matches!(error.category, Some(ErrorCategory::Timeout)));
    let error = check_call(OperationKind::Write, false, true).expect_err("cancelled");
    assert!(matches!(error.category, Some(ErrorCategory::Cancelled)));
}

#[test]
fn readiness_needs_time_that_is_left() {
    assert!(check_readiness_call(false, false, None).is_ok());
    assert!(check_readiness_call(false, false, Some(Duration::from_millis(1))).is_ok());
    let error = check_readiness_call(false, false, Some(Duration::from_secs(0))).expect_err("none");
    assert_eq!(error.message, "tcp poll_ready timed out");
    let error = check_readiness_call(false, true, Some(Duration::from_secs(0))).expect_err("both");
    assert!(matches!(error.category, Some(ErrorCategory::Cancelled)));
}

#[test]
fn a_look_at_the_connection_becomes_an_event() {
    assert_eq!(settle_probe(&WriteProbe::Writable), Ok(BackpressureEvent::Ready));
    assert_eq!(settle_probe(&WriteProbe::WouldBlock), Ok(BackpressureEvent::WouldBlock));
    assert_eq!(settle_probe(&WriteProbe::InUse), Ok(BackpressureEvent::ManualBusy));
    let failed = WriteProbe::Failed { kind: IoErrorKind::TimedOut, shown: "late".to_string() };
    let error = settle_probe(&failed).expect_err("failed");
    assert_eq!(error.message, "tcp poll_ready: late");
}

#[test]
fn an_empty_write_needs_no_connection() {
    assert_eq!(write_shortcut(0), Some(0));
    assert_eq!(write_shortcut(1), None);
}

#[test]
fn both_sides_are_closed_writing_first() {
    assert_eq!(plan_shutdown(ShutdownDirection::Write), vec![ShutdownStep::CloseWrite]);
    assert_eq!(plan_shutdown(ShutdownDirection::Read), vec![ShutdownStep::CloseRead]);
    assert_eq!(
        plan_shutdown(ShutdownDirection::Both),
        vec![ShutdownStep::CloseWrite, ShutdownStep::CloseRead]
    );
}

struct Listener;

impl ServerChannel for Listener {
    type AcceptCtx = u8;
    type ShutdownCtx = u8;
    type Plan = bool;
    type Connection = u8;

    fn scheme(&self) -> &'static str {
        "tcp"
    }

    fn local_addr(&self) -> Result<TransportSocketAddr, CoreError> {
        Ok(TransportSocketAddr::V4 { addr: [0, 0, 0, 0], port: 1 })
    }

    fn accept(&self, ctx: &u8) -> Result<(u8, TransportSocketAddr), CoreError> {
        Ok((*ctx + 1, TransportSocketAddr::V4 { addr: [9, 9, 9, 9], port: 2 }))
    }

    fn shutdown(&self, _ctx: &u8, plan: bool) -> Result<(), CoreError> {
        if plan {
            Ok(())
        } else {
            Err(timeout_error(OperationKind::Shutdown))
        }
    }
}

impl ServerTransport for Listener {
    type Ctx = u8;
    type Plan = bool;

    fn local_addr(&self, ctx: &u8) -> TransportSocketAddr {
        TransportSocketAddr::V4 { addr: [0, 0, 0, *ctx], port: 1 }
    }

    fn shutdown(&self, ctx: &u8, plan: bool) -> Result<(), CoreError> {
        ServerChannel::shutdown(self, ctx, plan)
    }
}

#[test]
fn an_erased_listener_does_what_the_listener_does() {
    let object = ServerChannelObject::new(Listener);
    assert_eq!(object.scheme_dyn(), "tcp");
    assert!(object.local_addr_dyn(&0).is_ok());
    let (connection, peer) = object.accept_dyn(&4).expect("accepted");
    assert_eq!(*connection, 5);
    assert_eq!(peer.to_text(), "9.9.9.9:2");
    assert!(object.shutdown_dyn(&0, true).is_ok());
    assert!(object.shutdown_dyn(&0, false).is_err());
    assert_eq!(object.into_inner().scheme(), "tcp");

    let object = ServerTransportObject::new(Listener);
    assert_eq!(object.local_addr_dyn(&7).to_text(), "0.0.0.7:1");
    assert!(object.shutdown_dyn(&0, false).is_err());
}
