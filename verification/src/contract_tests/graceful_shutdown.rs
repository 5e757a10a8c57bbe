//! The suite on orderly shutdown: a coordinator asks channels to finish, waits for them, and
//! forces those that do not.
use vstd::prelude::*;

use crate::contract_tests::case::{case_names, judge, verdict, Check, TckCase, TckSuite};
use crate::contract_tests::channel_double::{
    acknowledged, blank, completed_state, expecting, ChannelRecorder, CloseReason,
    ManualClosedState, TestChannel,
};
use crate::error::{plain_error, CoreError, ErrorCode, ErrorView};
use crate::observability::LogLevel;
use crate::scan::{contains_text, holds_text};
use crate::task::WakerId;
use crate::text::same_text;
use crate::time::duration::{Duration, NANOS_PER_SEC};

verus! {

/// The names of the cases, in order.
pub open spec fn graceful_shutdown_cases() -> Seq<&'static str> {
    seq![
        "channel_fin_invocation_is_forwarded_once",
        "channel_half_close_waits_for_remote_ack",
        "expired_deadline_triggers_immediate_force_close",
        "pending_channel_times_out_and_forces_close",
        "channel_half_close_requires_dual_ack_steps",
        "channel_closed_future_error_reports_failure",
    ]
}

/// The suite.
pub fn suite() -> (suite: TckSuite)
    ensures
        suite.name == "graceful_shutdown",
        case_names(suite) == graceful_shutdown_cases(),
{
    let mut cases: Vec<TckCase> = Vec::new();
    cases.push(TckCase { name: "channel_fin_invocation_is_forwarded_once" });
    cases.push(TckCase { name: "channel_half_close_waits_for_remote_ack" });
    cases.push(TckCase { name: "expired_deadline_triggers_immediate_force_close" });
    cases.push(TckCase { name: "pending_channel_times_out_and_forces_close" });
    cases.push(TckCase { name: "channel_half_close_requires_dual_ack_steps" });
    cases.push(TckCase { name: "channel_closed_future_error_reports_failure" });
    let suite = TckSuite { name: "graceful_shutdown", cases };
    proof {
        assert(case_names(suite) =~= graceful_shutdown_cases());
    }
    suite
}

/// How the channel of a case comes to its end.
#[derive(Clone, Copy, Debug, PartialEq, Eq, Structural)]
pub enum EndPlan {
    /// As soon as it is waited for.
    AtOnce,
    /// When the test brings it about, if ever.
    HeldBack,
    /// After some confirmations.
    Confirmed(usize),
}

/// What a case sets up: one channel, and the shutdown that is asked of the coordinator.
#[derive(Clone, Copy, Debug, PartialEq, Eq)]
pub struct Scenario {
    pub channel_id: &'static str,
    pub label: &'static str,
    pub reason_code: &'static str,
    pub reason_message: &'static str,
    pub deadline: Option<Duration>,
    pub end: EndPlan,
}

impl Scenario {
    /// The channel that the case registers.
    pub fn channel(&self) -> (channel: TestChannel)
        ensures
            channel.id@ == self.channel_id@,
            exists|recorder: ChannelRecorder| #[trigger]
                blank(recorder) && channel.recorder == match self.end {
                    EndPlan::AtOnce => recorder,
                    EndPlan::HeldBack => ChannelRecorder { keep_pending: true, ..recorder },
                    EndPlan::Confirmed(steps) => ChannelRecorder {
                        keep_pending: true,
                        closed_state: expecting(recorder.closed_state, steps),
                        ..recorder
                    },
                },
    {
        let mut channel = TestChannel::new(self.channel_id);
        proof {
            assert(blank(channel.recorder));
        }
        match self.end {
            EndPlan::AtOnce => {},
            EndPlan::HeldBack => {
                channel.recorder.keep_closed_pending();
            },
            EndPlan::Confirmed(steps) => {
                channel.recorder.require_closed_steps(steps);
            },
        }
        channel
    }

    /// The reason that the shutdown is asked for with.
    pub fn reason(&self) -> (reason: CloseReason)
        ensures
            reason.code@ == self.reason_code@,
            reason.message@ == self.reason_message@,
    {
        CloseReason {
            code: self.reason_code.to_owned(),
            message: self.reason_message.to_owned(),
        }
    }
}

/// How the shutdown of one channel ended.
#[derive(Debug, PartialEq, Eq)]
pub enum GracefulShutdownStatus {
    Completed,
    ForcedTimeout,
    Failed(CoreError),
}

/// A log record that was caught.
#[derive(Debug, PartialEq, Eq)]
pub struct OwnedLog {
    pub severity: LogLevel,
    pub message: String,
}

/// What was seen while a coordinator shut down: its report, what the channel recorded, and what
/// the runtime, the event bus and the logger caught.
#[derive(Debug)]
pub struct ShutdownObservation {
    pub results: Vec<GracefulShutdownStatus>,
    pub forced_count: usize,
    pub recorder: ChannelRecorder,
    pub sleep_calls: Vec<Duration>,
    pub ops_events: usize,
    pub logs: Vec<OwnedLog>,
    /// How often the channel had been forced when it was first looked at.
    pub forced_while_waiting: usize,
    /// Whether the coordinator was still waiting, each time it was looked at.
    pub waiting: Vec<bool>,
}

/// One thing that a case does once the shutdown has begun.
#[derive(Clone, Copy, Debug, PartialEq, Eq, Structural)]
pub enum CaseStep {
    /// Wait until the channel was asked to close.
    AwaitFin,
    /// Look whether the coordinator still waits, and how often the channel was forced.
    Look,
    /// Confirm the end of the channel once.
    Confirm,
    /// End the channel.
    Complete,
    /// End the channel with the error of the case.
    CompleteWithError,
    /// Wait for the report of the coordinator.
    Join,
}

/// What a case does that leaves everything to the coordinator.
pub fn direct_steps() -> (steps: Vec<CaseStep>)
    ensures
        steps@ == seq![CaseStep::Join],
{
    let mut steps: Vec<CaseStep> = Vec::new();
    steps.push(CaseStep::Join);
    proof {
        assert(steps@ =~= seq![CaseStep::Join]);
    }
    steps
}

/// What was seen on the way through the steps of a case.
#[derive(Debug, PartialEq, Eq)]
pub struct CaseProgress {
    /// How often the channel had been forced at the first look.
    pub forced_while_waiting: usize,
    /// Whether the coordinator was still waiting, at each look.
    pub waiting: Vec<bool>,
}

impl CaseProgress {
    /// Nothing was seen yet.
    pub fn new() -> (progress: CaseProgress)
        ensures
            progress.forced_while_waiting == 0,
            progress.waiting@ == Seq::<bool>::empty(),
    {
        CaseProgress { forced_while_waiting: 0, waiting: Vec::new() }
    }
}

/// What came of a step.
#[derive(Clone, Copy, Debug, PartialEq, Eq, Structural)]
pub enum StepOutcome {
    /// It is not time for the step yet.
    NotYet,
    /// The step is done, and this one is to be woken, if any.
    Done(Option<WakerId>),
    /// It is for the host to wait for the report.
    AwaitReport,
}

/// The end of a channel, as far as a step bears on it.
pub open spec fn closed_behind(step: CaseStep, state: ManualClosedState) -> ManualClosedState {
    match step {
        CaseStep::Confirm => acknowledged(state),
        CaseStep::Complete | CaseStep::CompleteWithError => completed_state(state),
        _ => state,
    }
}

/// The end of a channel after some steps.
pub open spec fn closed_after(
    steps: Seq<CaseStep>,
    state: ManualClosedState,
) -> ManualClosedState
    decreases steps.len(),
{
    if steps.len() == 0 {
        state
    } else {
        closed_behind(steps.last(), closed_after(steps.drop_last(), state))
    }
}

/// Whom a step wakes: who waits for the end, where the step brings it about.
pub open spec fn woken_by(step: CaseStep, state: ManualClosedState) -> Option<WakerId> {
    if !state.completed && closed_behind(step, state).completed {
        state.waker
    } else {
        None
    }
}

/// Takes one step of a case. `still_waiting` tells whether the coordinator is without a report.
pub fn take_step(
    step: CaseStep,
    recorder: &mut ChannelRecorder,
    still_waiting: bool,
    progress: &mut CaseProgress,
) -> (outcome: StepOutcome)
    ensures
        outcome == match step {
            CaseStep::AwaitFin => if old(recorder).graceful_calls == 0 {
                StepOutcome::NotYet
            } else {
                StepOutcome::Done(None)
            },
            CaseStep::Join => StepOutcome::AwaitReport,
            _ => StepOutcome::Done(woken_by(step, old(recorder).closed_state)),
        },
        *final(recorder) == (ChannelRecorder {
            closed_state: closed_behind(step, old(recorder).closed_state),
            failure: final(recorder).failure,
            ..*old(recorder)
        }),
        if step is CompleteWithError {
            final(recorder).failure is Some && final(recorder).failure->0@ == closed_error()
        } else {
            final(recorder).failure == old(recorder).failure
        },
        final(progress).waiting@ == if step is Look {
            old(progress).waiting@.push(still_waiting)
        } else {
            old(progress).waiting@
        },
        final(progress).forced_while_waiting == if step is Look && old(progress).waiting@.len()
            == 0 {
            old(recorder).force_calls
        } else {
            old(progress).forced_while_waiting
        },
{
    match step {
        CaseStep::AwaitFin => if recorder.graceful_calls == 0 {
            StepOutcome::NotYet
        } else {
            StepOutcome::Done(None)
        },
        CaseStep::Look => {
            if progress.waiting.len() == 0 {
                progress.forced_while_waiting = recorder.force_calls;
            }
            progress.waiting.push(still_waiting);
            StepOutcome::Done(None)
        },
        CaseStep::Confirm => StepOutcome::Done(recorder.ack_closed_step()),
        CaseStep::Complete => StepOutcome::Done(recorder.complete_closed()),
        CaseStep::CompleteWithError => {
            StepOutcome::Done(recorder.complete_closed_with_error(injected_error()))
        },
        CaseStep::Join => StepOutcome::AwaitReport,
    }
}

/// Whether a record of the given severity was caught that holds the given text.
pub open spec fn was_logged(logs: Seq<OwnedLog>, severity: LogLevel, text: Seq<char>) -> bool {
    exists|i: int|
        0 <= i < logs.len() && (#[trigger] logs[i]).severity == severity && holds_text(
            logs[i].message@,
            text,
        )
}

fn any_logged(logs: &Vec<OwnedLog>, severity: LogLevel, text: &str) -> (any: bool)
    ensures
        any == was_logged(logs@, severity, text@),
{
    let mut i: usize = 0;
    while i < logs.len()
        invariant
            i <= logs@.len(),
            forall|k: int|
                0 <= k < i ==> !((#[trigger] logs@[k]).severity == severity && holds_text(
                    logs@[k].message@,
                    text@,
                )),
        decreases logs.len() - i,
    {
        if logs[i].severity == severity && contains_text(logs[i].message.as_str(), text) {
            return true;
        }
        i = i + 1;
    }
    false
}

impl ShutdownObservation {
    /// Whether the report has exactly one entry.
    pub open spec fn one_result(&self) -> bool {
        self.results@.len() == 1
    }

    /// Whether the first entry says that the channel finished.
    pub open spec fn first_completed(&self) -> bool {
        self.results@.len() > 0 && self.results@[0] is Completed
    }

    /// Whether the first entry says that the channel was forced.
    pub open spec fn first_forced(&self) -> bool {
        self.results@.len() > 0 && self.results@[0] is ForcedTimeout
    }

    /// Whether the first entry says that the channel failed with the given code.
    pub open spec fn first_failed_with(&self, code: &'static str) -> bool {
        self.results@.len() > 0 && self.results@[0] is Failed && match self.results@[0]->Failed_0.code {
            ErrorCode::Named(named) => named@ == code@,
            ErrorCode::Framework(_) => false,
        }
    }

    fn has_one_result(&self) -> (r: bool)
        ensures
            r == self.one_result(),
    {
        self.results.len() == 1
    }

    fn is_completed(&self) -> (r: bool)
        ensures
            r == self.first_completed(),
    {
        self.results.len() > 0 && matches!(self.results[0], GracefulShutdownStatus::Completed)
    }

    fn is_forced(&self) -> (r: bool)
        ensures
            r == self.first_forced(),
    {
        self.results.len() > 0 && matches!(self.results[0], GracefulShutdownStatus::ForcedTimeout)
    }

    fn is_failed_with(&self, code: &'static str) -> (r: bool)
        ensures
            r == self.first_failed_with(code),
    {
        if self.results.len() == 0 {
            return false;
        }
        match &self.results[0] {
            GracefulShutdownStatus::Failed(error) => match error.code {
                ErrorCode::Named(named) => same_text(named, code),
                ErrorCode::Framework(_) => false,
            },
            _ => false,
        }
    }

    /// Whether the coordinator was still waiting at the given look.
    pub open spec fn waited(&self, look: int) -> bool {
        look < self.waiting@.len() && self.waiting@[look]
    }

    fn was_waiting(&self, look: usize) -> (r: bool)
        ensures
            r == self.waited(look as int),
    {
        look < self.waiting.len() && self.waiting[look]
    }
}

/// The reason that the channel was asked to close with is the one of the scenario.
pub open spec fn reason_passed_on(scenario: Scenario, recorder: ChannelRecorder) -> bool {
    recorder.graceful_reasons@.len() > 0 && recorder.graceful_reasons@[0].code@
        == scenario.reason_code@ && recorder.graceful_reasons@[0].message@
        == scenario.reason_message@
}

/// The deadline that the channel was asked to close with is the one of the scenario.
pub open spec fn deadline_passed_on(scenario: Scenario, recorder: ChannelRecorder) -> bool {
    recorder.graceful_deadlines@.len() > 0 && match (
        recorder.graceful_deadlines@[0],
        scenario.deadline,
    ) {
        (Some(seen), Some(asked)) => seen@ == asked@,
        (None, None) => true,
        _ => false,
    }
}

fn reason_matches(scenario: &Scenario, recorder: &ChannelRecorder) -> (r: bool)
    ensures
        r == reason_passed_on(*scenario, *recorder),
{
    recorder.graceful_reasons.len() > 0 && same_text(
        recorder.graceful_reasons[0].code.as_str(),
        scenario.reason_code,
    ) && same_text(recorder.graceful_reasons[0].message.as_str(), scenario.reason_message)
}

fn deadline_matches(scenario: &Scenario, recorder: &ChannelRecorder) -> (r: bool)
    ensures
        r == deadline_passed_on(*scenario, *recorder),
{
    if recorder.graceful_deadlines.len() == 0 {
        return false;
    }
    match (recorder.graceful_deadlines[0], scenario.deadline) {
        (Some(seen), Some(asked)) => seen.as_nanos() == asked.as_nanos(),
        (None, None) => true,
        _ => false,
    }
}

/// A check.
pub open spec fn check(holds: bool, message: &'static str) -> Check {
    Check { holds, message }
}

/// The channel is asked to close once, with the reason and the deadline of the shutdown, before
/// it is waited for.
pub fn fin_scenario() -> (scenario: Scenario)
    ensures
        scenario.channel_id == "fin-channel",
        scenario.label == "fin",
        scenario.reason_code == "spark.tck.shutdown.fin",
        scenario.reason_message == "ensure FIN dispatch",
        scenario.deadline is Some,
        scenario.deadline->0@ == 15 * NANOS_PER_SEC,
        scenario.end is AtOnce,
{
    Scenario {
        channel_id: "fin-channel",
        label: "fin",
        reason_code: "spark.tck.shutdown.fin",
        reason_message: "ensure FIN dispatch",
        deadline: Some(Duration::from_secs(15)),
        end: EndPlan::AtOnce,
    }
}

/// What the case on the single request to close demands.
pub open spec fn fin_checks(scenario: Scenario, seen: ShutdownObservation) -> Seq<Check> {
    seq![
        check(seen.one_result(), "仅注册一个通道应生成单条记录"),
        check(seen.forced_count == 0, "FIN 成功路径不应触发硬关闭"),
        check(seen.first_completed(), "报告状态应为 Completed"),
        check(seen.recorder.graceful_calls == 1, "close_graceful 必须仅触发一次"),
        check(seen.recorder.force_calls == 0, "正常收敛路径不应调用 close()"),
        check(
            seen.recorder.graceful_reasons@.len() == 1,
            "记录的 FIN 原因数量应与调用次数一致",
        ),
        check(reason_passed_on(scenario, seen.recorder), "FIN 原因应原样透传"),
        check(
            seen.recorder.graceful_deadlines@.len() == 1,
            "Deadline 传播记录应保持一一对应",
        ),
        check(
            deadline_passed_on(scenario, seen.recorder),
            "GracefulShutdownTarget::for_channel 应透传 deadline",
        ),
        check(seen.ops_events == 1, "应广播一次 ShutdownTriggered 事件"),
        check(
            was_logged(seen.logs@, LogLevel::Info, "graceful shutdown initiated"@),
            "INFO 日志应标记停机启动",
        ),
    ]
}

/// The verdict on the case on the single request to close.
pub fn channel_fin_invocation_is_forwarded_once(
    scenario: &Scenario,
    seen: &ShutdownObservation,
) -> (r: Result<(), &'static str>)
    ensures
        r == verdict(fin_checks(*scenario, *seen)),
{
    let recorder = &seen.recorder;
    let mut checks: Vec<Check> = Vec::new();
    checks.push(
        Check { holds: seen.has_one_result(), message: "仅注册一个通道应生成单条记录" },
    );
    checks.push(
        Check { holds: seen.forced_count == 0, message: "FIN 成功路径不应触发硬关闭" },
    );
    checks.push(Check { holds: seen.is_completed(), message: "报告状态应为 Completed" });
    checks.push(
        Check { holds: recorder.graceful_calls == 1, message: "close_graceful 必须仅触发一次" },
    );
    checks.push(
        Check { holds: recorder.force_calls == 0, message: "正常收敛路径不应调用 close()" },
    );
    checks.push(
        Check {
            holds: recorder.graceful_reasons.len() == 1,
            message: "记录的 FIN 原因数量应与调用次数一致",
        },
    );
    checks.push(
        Check { holds: reason_matches(scenario, recorder), message: "FIN 原因应原样透传" },
    );
    checks.push(
        Check {
            holds: recorder.graceful_deadlines.len() == 1,
            message: "Deadline 传播记录应保持一一对应",
        },
    );
    checks.push(
        Check {
            holds: deadline_matches(scenario, recorder),
            message: "GracefulShutdownTarget::for_channel 应透传 deadline",
        },
    );
    checks.push(
        Check { holds: seen.ops_events == 1, message: "应广播一次 ShutdownTriggered 事件" },
    );
    checks.push(
        Check {
            holds: any_logged(&seen.logs, LogLevel::Info, "graceful shutdown initiated"),
            message: "INFO 日志应标记停机启动",
        },
    );
    proof {
        assert(checks@ =~= fin_checks(*scenario, *seen));
    }
    judge(&checks)
}

/// The coordinator waits, without a deadline, until the other side has confirmed the end.
pub fn half_close_scenario() -> (scenario: Scenario)
    ensures
        scenario.channel_id == "half-close",
        scenario.label == "half-close",
        scenario.reason_code == "spark.tck.shutdown.half",
        scenario.reason_message == "await peer confirmation",
        scenario.deadline is None,
        scenario.end is HeldBack,
{
    Scenario {
        channel_id: "half-close",
        label: "half-close",
        reason_code: "spark.tck.shutdown.half",
        reason_message: "await peer confirmation",
        deadline: None,
        end: EndPlan::HeldBack,
    }
}

/// What the case on waiting for the other side does, in order.
pub open spec fn half_close_script() -> Seq<CaseStep> {
    seq![CaseStep::AwaitFin, CaseStep::Look, CaseStep::Complete, CaseStep::Join]
}

/// What the case on waiting for the other side does, in order.
pub fn half_close_steps() -> (steps: Vec<CaseStep>)
    ensures
        steps@ == half_close_script(),
{
    let mut steps: Vec<CaseStep> = Vec::new();
    steps.push(CaseStep::AwaitFin);
    steps.push(CaseStep::Look);
    steps.push(CaseStep::Complete);
    steps.push(CaseStep::Join);
    proof {
        assert(steps@ =~= half_close_script());
    }
    steps
}

/// What the case on waiting for the other side demands.
pub open spec fn half_close_checks(seen: ShutdownObservation) -> Seq<Check> {
    seq![
        check(seen.forced_while_waiting == 0, "等待阶段不应触发硬关闭"),
        check(seen.one_result(), "报告应只有一条记录"),
        check(seen.first_completed(), "报告状态应为 Completed"),
        check(seen.recorder.closed_completions == 1, "closed() 应完成一次"),
        check(seen.recorder.force_calls == 0, "整个流程未触发强制关闭"),
    ]
}

/// The verdict on the case on waiting for the other side.
pub fn channel_half_close_waits_for_remote_ack(seen: &ShutdownObservation) -> (r: Result<
    (),
    &'static str,
>)
    ensures
        r == verdict(half_close_checks(*seen)),
{
    let mut checks: Vec<Check> = Vec::new();
    checks.push(
        Check { holds: seen.forced_while_waiting == 0, message: "等待阶段不应触发硬关闭" },
    );
    checks.push(Check { holds: seen.has_one_result(), message: "报告应只有一条记录" });
    checks.push(Check { holds: seen.is_completed(), message: "报告状态应为 Completed" });
    checks.push(
        Check { holds: seen.recorder.closed_completions == 1, message: "closed() 应完成一次" },
    );
    checks.push(
        Check { holds: seen.recorder.force_calls == 0, message: "整个流程未触发强制关闭" },
    );
    proof {
        assert(checks@ =~= half_close_checks(*seen));
    }
    judge(&checks)
}

/// The deadline has passed before the shutdown begins.
pub fn expired_scenario() -> (scenario: Scenario)
    ensures
        scenario.channel_id == "expired",
        scenario.label == "expired",
        scenario.reason_code == "spark.tck.shutdown.expired",
        scenario.reason_message == "deadline already expired",
        scenario.deadline is Some,
        scenario.deadline->0@ == 0,
        scenario.end is HeldBack,
{
    Scenario {
        channel_id: "expired",
        label: "expired",
        reason_code: "spark.tck.shutdown.expired",
        reason_message: "deadline already expired",
        deadline: Some(Duration::from_secs(0)),
        end: EndPlan::HeldBack,
    }
}

/// What the case on a deadline in the past demands.
pub open spec fn expired_checks(seen: ShutdownObservation) -> Seq<Check> {
    seq![
        check(seen.one_result(), "报告应只有一条记录"),
        check(seen.forced_count == 1, "到期场景必须统计强制关闭"),
        check(seen.first_forced(), "预期 ForcedTimeout"),
        check(seen.recorder.force_calls == 1, "force_close 应立即被调用"),
        check(seen.sleep_calls@.len() == 0, "截止时间已过期时不应调用 sleep"),
        check(
            was_logged(seen.logs@, LogLevel::Warn, "forced"@),
            "WARN 日志需提示强制关闭",
        ),
    ]
}

/// The verdict on the case on a deadline in the past.
pub fn expired_deadline_triggers_immediate_force_close(seen: &ShutdownObservation) -> (r: Result<
    (),
    &'static str,
>)
    ensures
        r == verdict(expired_checks(*seen)),
{
    let mut checks: Vec<Check> = Vec::new();
    checks.push(Check { holds: seen.has_one_result(), message: "报告应只有一条记录" });
    checks.push(
        Check { holds: seen.forced_count == 1, message: "到期场景必须统计强制关闭" },
    );
    checks.push(Check { holds: seen.is_forced(), message: "预期 ForcedTimeout" });
    checks.push(
        Check { holds: seen.recorder.force_calls == 1, message: "force_close 应立即被调用" },
    );
    checks.push(
        Check {
            holds: seen.sleep_calls.len() == 0,
            message: "截止时间已过期时不应调用 sleep",
        },
    );
    checks.push(
        Check {
            holds: any_logged(&seen.logs, LogLevel::Warn, "forced"),
            message: "WARN 日志需提示强制关闭",
        },
    );
    proof {
        assert(checks@ =~= expired_checks(*seen));
    }
    judge(&checks)
}

/// The channel never ends, and there is a second until the deadline.
pub fn timeout_scenario() -> (scenario: Scenario)
    ensures
        scenario.channel_id == "timeout",
        scenario.label == "timeout",
        scenario.reason_code == "spark.tck.shutdown.timeout",
        scenario.reason_message == "target stalled",
        scenario.deadline is Some,
        scenario.deadline->0@ == NANOS_PER_SEC,
        scenario.end is HeldBack,
{
    Scenario {
        channel_id: "timeout",
        label: "timeout",
        reason_code: "spark.tck.shutdown.timeout",
        reason_message: "target stalled",
        deadline: Some(Duration::from_secs(1)),
        end: EndPlan::HeldBack,
    }
}

/// Whether the only span that was waited for is one second.
pub open spec fn slept_one_second(sleeps: Seq<Duration>) -> bool {
    sleeps.len() == 1 && sleeps[0]@ == NANOS_PER_SEC
}

/// What the case on a channel that never ends demands.
pub open spec fn timeout_checks(seen: ShutdownObservation) -> Seq<Check> {
    seq![
        check(seen.one_result(), "报告应只有一条记录"),
        check(seen.forced_count == 1, "超时场景应计入一次强制关闭"),
        check(seen.first_forced(), "预期 ForcedTimeout"),
        check(seen.recorder.force_calls == 1, "超时后必须调用 close()"),
        check(slept_one_second(seen.sleep_calls@), "计时器应等待完整的截止时间"),
        check(was_logged(seen.logs@, LogLevel::Warn, "forced"@), "超时路径需记录 WARN 日志"),
        check(
            seen.recorder.closed_completions == 0,
            "强制关闭后 `closed()` Future 不应报告成功",
        ),
        check(
            seen.recorder.closed_drops >= 1,
            "超时导致的取消必须释放 `closed()` Future 资源",
        ),
    ]
}

/// The verdict on the case on a channel that never ends.
pub fn pending_channel_times_out_and_forces_close(seen: &ShutdownObservation) -> (r: Result<
    (),
    &'static str,
>)
    ensures
        r == verdict(timeout_checks(*seen)),
{
    let slept: bool = seen.sleep_calls.len() == 1 && seen.sleep_calls[0].as_nanos()
        == NANOS_PER_SEC;
    let mut checks: Vec<Check> = Vec::new();
    checks.push(Check { holds: seen.has_one_result(), message: "报告应只有一条记录" });
    checks.push(
        Check { holds: seen.forced_count == 1, message: "超时场景应计入一次强制关闭" },
    );
    checks.push(Check { holds: seen.is_forced(), message: "预期 ForcedTimeout" });
    checks.push(
        Check { holds: seen.recorder.force_calls == 1, message: "超时后必须调用 close()" },
    );
    checks.push(Check { holds: slept, message: "计时器应等待完整的截止时间" });
    checks.push(
        Check {
            holds: any_logged(&seen.logs, LogLevel::Warn, "forced"),
            message: "超时路径需记录 WARN 日志",
        },
    );
    checks.push(
        Check {
            holds: seen.recorder.closed_completions == 0,
            message: "强制关闭后 `closed()` Future 不应报告成功",
        },
    );
    checks.push(
        Check {
            holds: seen.recorder.closed_drop_count() >= 1,
            message: "超时导致的取消必须释放 `closed()` Future 资源",
        },
    );
    proof {
        assert(checks@ =~= timeout_checks(*seen));
    }
    judge(&checks)
}

/// The end takes two confirmations, one for each direction.
pub fn dual_ack_scenario() -> (scenario: Scenario)
    ensures
        scenario.channel_id == "dual-ack",
        scenario.label == "dual-ack",
        scenario.reason_code == "spark.tck.shutdown.dual",
        scenario.reason_message == "await read/write half-close",
        scenario.deadline is None,
        scenario.end == EndPlan::Confirmed(2),
{
    Scenario {
        channel_id: "dual-ack",
        label: "dual-ack",
        reason_code: "spark.tck.shutdown.dual",
        reason_message: "await read/write half-close",
        deadline: None,
        end: EndPlan::Confirmed(2),
    }
}

/// What the case on two confirmations does, in order.
pub open spec fn dual_ack_script() -> Seq<CaseStep> {
    seq![
        CaseStep::AwaitFin,
        CaseStep::Look,
        CaseStep::Confirm,
        CaseStep::Look,
        CaseStep::Confirm,
        CaseStep::Join,
    ]
}

/// What the case on two confirmations does, in order.
pub fn dual_ack_steps() -> (steps: Vec<CaseStep>)
    ensures
        steps@ == dual_ack_script(),
{
    let mut steps: Vec<CaseStep> = Vec::new();
    steps.push(CaseStep::AwaitFin);
    steps.push(CaseStep::Look);
    steps.push(CaseStep::Confirm);
    steps.push(CaseStep::Look);
    steps.push(CaseStep::Confirm);
    steps.push(CaseStep::Join);
    proof {
        assert(steps@ =~= dual_ack_script());
    }
    steps
}

/// What the case on two confirmations demands. The coordinator is looked at before the first and
/// before the second.
pub open spec fn dual_ack_checks(seen: ShutdownObservation) -> Seq<Check> {
    seq![
        check(seen.waited(0), "两个半关闭确认均未到齐前不应返回"),
        check(seen.waited(1), "仅完成一个方向的半关闭时仍应等待"),
        check(seen.one_result(), "报告应只有一条记录"),
        check(seen.first_completed(), "报告状态应为 Completed"),
        check(seen.recorder.force_calls == 0, "双向确认完成后不应触发硬关闭"),
        check(
            seen.recorder.closed_completions == 1,
            "两个方向确认后应成功完成一次 closed()",
        ),
        check(seen.recorder.closed_drops >= 1, "Future 在完成后应被丢弃以释放资源"),
    ]
}

/// The verdict on the case on two confirmations.
pub fn channel_half_close_requires_dual_ack_steps(seen: &ShutdownObservation) -> (r: Result<
    (),
    &'static str,
>)
    ensures
        r == verdict(dual_ack_checks(*seen)),
{
    let mut checks: Vec<Check> = Vec::new();
    checks.push(
        Check { holds: seen.was_waiting(0), message: "两个半关闭确认均未到齐前不应返回" },
    );
    checks.push(
        Check { holds: seen.was_waiting(1), message: "仅完成一个方向的半关闭时仍应等待" },
    );
    checks.push(Check { holds: seen.has_one_result(), message: "报告应只有一条记录" });
    checks.push(Check { holds: seen.is_completed(), message: "报告状态应为 Completed" });
    checks.push(
        Check { holds: seen.recorder.force_calls == 0, message: "双向确认完成后不应触发硬关闭" },
    );
    checks.push(
        Check {
            holds: seen.recorder.closed_completions == 1,
            message: "两个方向确认后应成功完成一次 closed()",
        },
    );
    checks.push(
        Check {
            holds: seen.recorder.closed_drop_count() >= 1,
            message: "Future 在完成后应被丢弃以释放资源",
        },
    );
    proof {
        assert(checks@ =~= dual_ack_checks(*seen));
    }
    judge(&checks)
}

/// The channel ends with an error.
pub fn error_scenario() -> (scenario: Scenario)
    ensures
        scenario.channel_id == "error",
        scenario.label == "error",
        scenario.reason_code == "spark.tck.shutdown.error",
        scenario.reason_message == "closed future failed",
        scenario.deadline is None,
        scenario.end is HeldBack,
{
    Scenario {
        channel_id: "error",
        label: "error",
        reason_code: "spark.tck.shutdown.error",
        reason_message: "closed future failed",
        deadline: None,
        end: EndPlan::HeldBack,
    }
}

/// The error that the channel ends with.
pub open spec fn closed_error() -> ErrorView {
    plain_error(
        ErrorCode::Named("spark.tck.shutdown.closed_error"),
        "closed future returned error"@,
    )
}

/// The error that the channel ends with.
pub fn injected_error() -> (error: CoreError)
    ensures
        error@ == closed_error(),
{
    CoreError::new(
        ErrorCode::Named("spark.tck.shutdown.closed_error"),
        "closed future returned error".to_owned(),
    )
}

/// What the case on an end with an error does, in order.
pub open spec fn error_script() -> Seq<CaseStep> {
    seq![CaseStep::AwaitFin, CaseStep::Look, CaseStep::CompleteWithError, CaseStep::Join]
}

/// What the case on an end with an error does, in order.
pub fn error_steps() -> (steps: Vec<CaseStep>)
    ensures
        steps@ == error_script(),
{
    let mut steps: Vec<CaseStep> = Vec::new();
    steps.push(CaseStep::AwaitFin);
    steps.push(CaseStep::Look);
    steps.push(CaseStep::CompleteWithError);
    steps.push(CaseStep::Join);
    proof {
        assert(steps@ =~= error_script());
    }
    steps
}

/// The steps of each scripted case bring the end of its channel about, and not before the last
/// step in front of the report.
pub proof fn law_scripts_end_the_channel(state: ManualClosedState, k: int)
    requires
        !state.completed,
        0 <= k,
    ensures
        closed_after(half_close_script(), state).completed,
        closed_after(error_script(), state).completed,
        closed_after(dual_ack_script(), expecting(state, 2)).completed,
        k <= 2 ==> !closed_after(half_close_script().take(k), state).completed,
        k <= 2 ==> !closed_after(error_script().take(k), state).completed,
        k <= 4 ==> !closed_after(dual_ack_script().take(k), expecting(state, 2)).completed,
{
    reveal_with_fuel(closed_after, 7);
    let half = half_close_script();
    let error = error_script();
    let dual = dual_ack_script();
    assert(half.take(0) =~= Seq::empty() && error.take(0) =~= Seq::empty() && dual.take(0)
        =~= Seq::empty());
    assert(half.take(1).drop_last() =~= half.take(0));
    assert(half.take(2).drop_last() =~= half.take(1));
    assert(half.take(3).drop_last() =~= half.take(2));
    assert(half.drop_last() =~= half.take(3));
    assert(error.take(1).drop_last() =~= error.take(0));
    assert(error.take(2).drop_last() =~= error.take(1));
    assert(error.take(3).drop_last() =~= error.take(2));
    assert(error.drop_last() =~= error.take(3));
    assert(dual.take(1).drop_last() =~= dual.take(0));
    assert(dual.take(2).drop_last() =~= dual.take(1));
    assert(dual.take(3).drop_last() =~= dual.take(2));
    assert(dual.take(4).drop_last() =~= dual.take(3));
    assert(dual.take(5).drop_last() =~= dual.take(4));
    assert(dual.drop_last() =~= dual.take(5));
}

/// What the case on an end with an error demands.
pub open spec fn error_checks(seen: ShutdownObservation) -> Seq<Check> {
    seq![
        check(seen.waited(0), "在错误注入前 shutdown 应保持等待"),
        check(seen.one_result(), "报告应只有一条记录"),
        check(seen.first_failed_with("spark.tck.shutdown.closed_error"), "预期 Failed"),
        check(seen.recorder.force_calls == 0, "异常路径不应调用硬关闭"),
        check(seen.recorder.closed_failures == 1, "应记录一次 closed() 错误"),
        check(seen.recorder.closed_completions == 0, "错误场景不应统计成功关闭"),
        check(seen.recorder.closed_drops >= 1, "错误返回后 Future 应被释放"),
    ]
}

/// The verdict on the case on an end with an error.
pub fn channel_closed_future_error_reports_failure(seen: &ShutdownObservation) -> (r: Result<
    (),
    &'static str,
>)
    ensures
        r == verdict(error_checks(*seen)),
{
    let mut checks: Vec<Check> = Vec::new();
    checks.push(
        Check { holds: seen.was_waiting(0), message: "在错误注入前 shutdown 应保持等待" },
    );
    checks.push(Check { holds: seen.has_one_result(), message: "报告应只有一条记录" });
    checks.push(
        Check {
            holds: seen.is_failed_with("spark.tck.shutdown.closed_error"),
            message: "预期 Failed",
        },
    );
    checks.push(
        Check { holds: seen.recorder.force_calls == 0, message: "异常路径不应调用硬关闭" },
    );
    checks.push(
        Check {
            holds: seen.recorder.closed_failure_count() == 1,
            message: "应记录一次 closed() 错误",
        },
    );
    checks.push(
        Check {
            holds: seen.recorder.closed_completions == 0,
            message: "错误场景不应统计成功关闭",
        },
    );
    checks.push(
        Check {
            holds: seen.recorder.closed_drop_count() >= 1,
            message: "错误返回后 Future 应被释放",
        },
    );
    proof {
        assert(checks@ =~= error_checks(*seen));
    }
    judge(&checks)
}

} // verus!
