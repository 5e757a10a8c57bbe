//! Instruments around a system under test: a clock that jumps instead of waiting, a task that is
//! done before it is asked for, a logger and an event bus that keep what they get, and a buffer
//! pool that has nothing to give.
use std::sync::Arc;

use vstd::prelude::*;

use crate::buffer::pool::PoolStats;
use crate::contract_tests::graceful_shutdown::OwnedLog;
use crate::error::{plain_error, CoreError, ErrorCode};
use crate::observability::LogLevel;
use crate::runtime::executor::TaskError;
use crate::runtime::services::CoreServices;
use crate::time::duration::{Duration, MAX_NANOS};

verus! {

/// A runtime on which waiting takes no time: the clock jumps, and the span is noted.
#[derive(Debug)]
pub struct TestRuntime {
    now: Duration,
    sleep_log: Vec<Duration>,
}

impl TestRuntime {
    pub closed spec fn reading(&self) -> nat {
        self.now@
    }

    pub closed spec fn slept(&self) -> Seq<Duration> {
        self.sleep_log@
    }

    /// The clock stands at zero, and nothing was waited for.
    pub fn new() -> (runtime: TestRuntime)
        ensures
            runtime.reading() == 0,
            runtime.slept() == Seq::<Duration>::empty(),
    {
        TestRuntime { now: Duration::from_secs(0), sleep_log: Vec::new() }
    }

    /// The spans that were waited for, in order.
    pub fn sleep_calls(&self) -> (calls: &Vec<Duration>)
        ensures
            calls@ == self.slept(),
    {
        &self.sleep_log
    }

    /// Where the clock stands.
    pub fn now(&self) -> (now: Duration)
        ensures
            now@ == self.reading(),
    {
        self.now
    }

    /// Waits for a span: the clock jumps by it. It must not jump past the longest span.
    pub fn sleep(&mut self, duration: Duration)
        requires
            old(self).reading() + duration@ <= MAX_NANOS,
        ensures
            final(self).reading() == old(self).reading() + duration@,
            final(self).slept() == old(self).slept().push(duration),
    {
        self.sleep_log.push(duration);
        if let Some(now) = self.now.checked_add(duration) {
            self.now = now;
        }
    }
}

/// A task that is done before it is asked for.
#[derive(Debug)]
pub struct ReadyHandle<T> {
    result: Option<Result<T, TaskError>>,
    cancelled: bool,
}

impl<T> ReadyHandle<T> {
    pub closed spec fn held(&self) -> Option<Result<T, TaskError>> {
        self.result
    }

    pub closed spec fn was_cancelled(&self) -> bool {
        self.cancelled
    }

    /// A task with the given result.
    pub fn new(result: Result<T, TaskError>) -> (handle: ReadyHandle<T>)
        ensures
            handle.held() == Some(result),
            !handle.was_cancelled(),
    {
        ReadyHandle { result: Some(result), cancelled: false }
    }

    /// A cancellation is noted; the result stays.
    pub fn cancel(&mut self)
        ensures
            final(self).was_cancelled(),
            final(self).held() == old(self).held(),
    {
        self.cancelled = true;
    }

    /// The task is done.
    pub fn is_finished(&self) -> (finished: bool)
        ensures
            finished,
    {
        true
    }

    /// Whether a cancellation was noted.
    pub fn is_cancelled(&self) -> (cancelled: bool)
        ensures
            cancelled == self.was_cancelled(),
    {
        self.cancelled
    }

    /// The result. It can be had once.
    pub fn join(self) -> (r: Result<T, TaskError>)
        requires
            self.held() is Some,
        ensures
            Some(r) == self.held(),
    {
        match self.result {
            Some(result) => result,
            None => Err(TaskError::Panicked),
        }
    }
}

/// A logger that keeps severity and text of each record.
#[derive(Debug)]
pub struct TestLogger {
    pub records: Vec<OwnedLog>,
}

impl TestLogger {
    /// Nothing was logged yet.
    pub fn new() -> (logger: TestLogger)
        ensures
            logger.records@.len() == 0,
    {
        TestLogger { records: Vec::new() }
    }

    /// Keeps a record.
    pub fn log(&mut self, severity: LogLevel, message: &str)
        ensures
            final(self).records@.len() == old(self).records@.len() + 1,
            final(self).records@.drop_last() == old(self).records@,
            final(self).records@.last().severity == severity,
            final(self).records@.last().message@ == message@,
    {
        self.records.push(OwnedLog { severity, message: message.to_owned() });
        proof {
            assert(self.records@.drop_last() =~= old(self).records@);
        }
    }
}

/// An event bus that keeps what is broadcast and which policies were set. Events, kinds and
/// policies are named by numbers.
#[derive(Debug)]
pub struct TestOpsBus {
    pub events: Vec<u64>,
    pub policies: Vec<(u64, u64)>,
}

impl TestOpsBus {
    /// Nothing was broadcast yet.
    pub fn new() -> (bus: TestOpsBus)
        ensures
            bus.events@.len() == 0,
            bus.policies@.len() == 0,
    {
        TestOpsBus { events: Vec::new(), policies: Vec::new() }
    }

    /// Keeps an event.
    pub fn broadcast(&mut self, event: u64)
        ensures
            final(self).events@ == old(self).events@.push(event),
            final(self).policies == old(self).policies,
    {
        self.events.push(event);
    }

    /// Keeps a policy.
    pub fn set_event_policy(&mut self, kind: u64, policy: u64)
        ensures
            final(self).policies@ == old(self).policies@.push((kind, policy)),
            final(self).events == old(self).events,
    {
        self.policies.push((kind, policy));
    }
}

/// A buffer pool that has nothing to give.
#[derive(Clone, Copy, Debug, PartialEq, Eq)]
pub struct NoopBufferPool;

impl NoopBufferPool {
    /// Every lease is refused.
    pub fn acquire(&self, _min_capacity: usize) -> (error: CoreError)
        ensures
            error@ == plain_error(
                ErrorCode::Named("buffer.disabled"),
                "buffer pool disabled in tests"@,
            ),
    {
        CoreError::new(
            ErrorCode::Named("buffer.disabled"),
            "buffer pool disabled in tests".to_owned(),
        )
    }

    /// Nothing can be let go.
    pub fn shrink_to_fit(&self) -> (r: Result<usize, CoreError>)
        ensures
            r == Ok::<usize, CoreError>(0),
    {
        Ok(0)
    }

    /// All counters stand at zero.
    pub fn statistics(&self) -> (r: Result<PoolStats, CoreError>)
        ensures
            r is Ok,
            r->Ok_0.allocated_bytes == 0,
            r->Ok_0.resident_bytes == 0,
            r->Ok_0.active_leases == 0,
            r->Ok_0.available_bytes == 0,
            r->Ok_0.pending_lease_requests == 0,
            r->Ok_0.failed_acquisitions == 0,
            r->Ok_0.custom_dimensions@.len() == 0,
    {
        Ok(
            PoolStats {
                allocated_bytes: 0,
                resident_bytes: 0,
                active_leases: 0,
                available_bytes: 0,
                pending_lease_requests: 0,
                failed_acquisitions: 0,
                custom_dimensions: Vec::new(),
            },
        )
    }
}

/// The services of a system under test: the given instruments, a buffer pool that has nothing to
/// give, no cluster around it, and no health checks.
pub fn build_core_services<R, M, L, C, D, O, H>(
    runtime: Arc<R>,
    logger: Arc<L>,
    ops: Arc<O>,
    metrics: Arc<M>,
) -> (services: CoreServices<R, NoopBufferPool, M, L, C, D, O, Vec<H>>)
    ensures
        services.runtime == runtime,
        services.logger == logger,
        services.ops_bus == ops,
        services.metrics == metrics,
        services.membership is None,
        services.discovery is None,
        services.health_checks@.len() == 0,
{
    CoreServices {
        runtime,
        buffer_pool: Arc::new(NoopBufferPool),
        metrics,
        logger,
        membership: None,
        discovery: None,
        ops_bus: ops,
        health_checks: Arc::new(Vec::new()),
    }
}

} // verus!
