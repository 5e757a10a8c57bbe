//! What the instruments of the suites record, step by step.
use vstd::prelude::*;

use crate::contract_tests::channel_double::{
    ChannelRecorder, CloseReason, ManualClosedState, TestChannel,
};
use crate::contract_tests::case::{case_names, TckSuite};
use crate::contract_tests::graceful_shutdown::{
    direct_steps, dual_ack_scenario, dual_ack_steps, error_scenario, error_steps, expired_scenario,
    fin_scenario, half_close_scenario, half_close_steps, injected_error, take_step,
    timeout_scenario, CaseProgress, CaseStep, EndPlan, Scenario, StepOutcome,
};
use crate::contract_tests::hot_swap::{swap_steps, test_message, RecordingInbound, SwapStep};
use crate::contract_tests::runtime_double::{
    NoopBufferPool, ReadyHandle, TestLogger, TestOpsBus, TestRuntime,
};
use crate::error::{CoreError, ErrorCode};
use crate::observability::LogLevel;
use crate::pipeline::message::PipelineMessage;
use crate::runtime::executor::TaskError;
use crate::task::{Poll, WakerId};
use crate::text::{decimal, texts};
use crate::time::duration::{Duration, MAX_NANOS};

verus! {

/// A channel ends once: who waits is woken then and nobody the second time.
pub proof fn law_a_channel_ends_once(state: &mut ManualClosedState, to_wake: Option<WakerId>)
    requires
        call_ensures(ManualClosedState::complete, (state,), to_wake),
    ensures
        final(state).completed,
        old(state).completed ==> to_wake is None && *final(state) == *old(state),
        !old(state).completed ==> to_wake == old(state).waker && final(state).waker is None
            && final(state).pending_steps == 0,
{
}

/// Each confirmation is one less to wait for; the last one ends the channel and wakes who waits,
/// and one that nobody asked for does nothing.
pub proof fn law_each_confirmation_counts(state: &mut ManualClosedState, to_wake: Option<WakerId>)
    requires
        call_ensures(ManualClosedState::ack_step, (state,), to_wake),
    ensures
        old(state).pending_steps == 0 ==> *final(state) == *old(state) && to_wake is None,
        old(state).pending_steps > 0 ==> final(state).pending_steps == old(state).pending_steps - 1,
        old(state).pending_steps > 1 ==> final(state).completed == old(state).completed
            && final(state).waker == old(state).waker && to_wake is None,
        old(state).pending_steps == 1 ==> final(state).completed,
        old(state).pending_steps == 1 && !old(state).completed ==> to_wake == old(state).waker
            && final(state).waker is None,
{
}

/// Asking for confirmations opens the channel again until they are there; who waits stays.
pub proof fn law_confirmations_are_asked_for(state: &mut ManualClosedState, steps: usize)
    requires
        call_ensures(ManualClosedState::set_pending_steps, (state, steps), ()),
    ensures
        final(state).pending_steps == steps,
        !final(state).completed,
        final(state).waker == old(state).waker,
{
}

/// Whether a recorder differs from another at most in how its end was looked at.
pub open spec fn same_but_for_the_end(a: ChannelRecorder, b: ChannelRecorder) -> bool {
    &&& a.graceful_calls == b.graceful_calls
    &&& a.force_calls == b.force_calls
    &&& a.graceful_reasons == b.graceful_reasons
    &&& a.graceful_deadlines == b.graceful_deadlines
    &&& a.keep_pending == b.keep_pending
    &&& a.closed_drops == b.closed_drops
}

/// A wait ends where the channel has ended or nothing holds its end back, and leaves its waker
/// otherwise. The first look at the end in a wait counts, as a failure with the error that was set
/// up, or else as a completion; a later look counts nothing.
pub proof fn law_the_end_is_seen_once(
    recorder: &mut ChannelRecorder,
    waker: WakerId,
    polled: Poll<Result<(), CoreError>>,
)
    requires
        call_ensures(ChannelRecorder::poll_closed, (recorder, waker), polled),
    ensures
        polled is Ready <==> old(recorder).closed_state.completed || !old(recorder).keep_pending,
        same_but_for_the_end(*final(recorder), *old(recorder)),
        polled is Pending ==> {
            &&& final(recorder).closed_state.waker == Some(waker)
            &&& final(recorder).closed_completions == old(recorder).closed_completions
            &&& final(recorder).closed_failures == old(recorder).closed_failures
            &&& final(recorder).failure == old(recorder).failure
            &&& final(recorder).result_recorded == old(recorder).result_recorded
        },
        polled is Ready ==> final(recorder).closed_state.completed
            && final(recorder).result_recorded,
        polled is Ready && old(recorder).result_recorded ==> {
            &&& polled->Ready_0 is Ok
            &&& final(recorder).closed_completions == old(recorder).closed_completions
            &&& final(recorder).closed_failures == old(recorder).closed_failures
        },
        polled is Ready && !old(recorder).result_recorded && old(recorder).failure is Some ==> {
            &&& polled->Ready_0 is Err
            &&& polled->Ready_0->Err_0 == old(recorder).failure->0
            &&& final(recorder).failure is None
            &&& final(recorder).closed_completions == old(recorder).closed_completions
            &&& old(recorder).closed_failures < usize::MAX ==> final(recorder).closed_failures
                == old(recorder).closed_failures + 1
        },
        polled is Ready && !old(recorder).result_recorded && old(recorder).failure is None ==> {
            &&& polled->Ready_0 is Ok
            &&& final(recorder).closed_failures == old(recorder).closed_failures
            &&& old(recorder).closed_completions < usize::MAX
                ==> final(recorder).closed_completions == old(recorder).closed_completions + 1
        },
{
}

/// A request to close is counted and kept with its reason and its deadline, behind earlier ones.
pub proof fn law_a_request_to_close_is_kept(
    channel: &mut TestChannel,
    reason: CloseReason,
    deadline: Option<Duration>,
)
    requires
        call_ensures(TestChannel::close_graceful, (channel, reason, deadline), ()),
    ensures
        old(channel).recorder.graceful_calls < usize::MAX
            ==> final(channel).recorder.graceful_calls == old(channel).recorder.graceful_calls + 1,
        final(channel).recorder.graceful_reasons@ == old(channel).recorder.graceful_reasons@.push(
            reason,
        ),
        final(channel).recorder.graceful_deadlines@
            == old(channel).recorder.graceful_deadlines@.push(deadline),
        final(channel).recorder.force_calls == old(channel).recorder.force_calls,
        final(channel).recorder.closed_state == old(channel).recorder.closed_state,
        final(channel).recorder.closed_completions == old(channel).recorder.closed_completions,
        final(channel).recorder.closed_failures == old(channel).recorder.closed_failures,
{
}

/// Forcing a channel is counted, and counts as nothing else; letting go of a wait likewise.
pub proof fn law_force_and_drop_are_counted(channel: &mut TestChannel, recorder: &mut ChannelRecorder)
    requires
        call_ensures(TestChannel::close, (channel,), ()),
        call_ensures(ChannelRecorder::drop_closed, (recorder,), ()),
    ensures
        old(channel).recorder.force_calls < usize::MAX ==> final(channel).recorder.force_calls
            == old(channel).recorder.force_calls + 1,
        final(channel).recorder.graceful_calls == old(channel).recorder.graceful_calls,
        final(channel).recorder.closed_state == old(channel).recorder.closed_state,
        final(channel).recorder.closed_completions == old(channel).recorder.closed_completions,
        old(recorder).closed_drops < usize::MAX ==> final(recorder).closed_drops
            == old(recorder).closed_drops + 1,
        final(recorder).closed_completions == old(recorder).closed_completions,
        final(recorder).closed_failures == old(recorder).closed_failures,
        final(recorder).closed_state == old(recorder).closed_state,
{
}

/// The channel of a case is fresh, and its end is held back as the case plans it.
pub proof fn law_a_case_sets_up_its_channel(scenario: &Scenario, channel: TestChannel)
    requires
        call_ensures(Scenario::channel, (scenario,), channel),
    ensures
        channel.id@ == scenario.channel_id@,
        channel.recorder.graceful_calls == 0,
        channel.recorder.force_calls == 0,
        channel.recorder.closed_completions == 0,
        channel.recorder.closed_failures == 0,
        channel.recorder.closed_drops == 0,
        channel.recorder.failure is None,
        !channel.recorder.closed_state.completed,
        channel.recorder.keep_pending <==> !(scenario.end is AtOnce),
        scenario.end is Confirmed ==> channel.recorder.closed_state.pending_steps
            == scenario.end->Confirmed_0,
        !(scenario.end is Confirmed) ==> channel.recorder.closed_state.pending_steps == 0,
{
}

/// Each step of a case does its own thing: it waits for the request to close, looks, confirms,
/// ends the channel with or without an error, or leaves the rest to the host.
pub proof fn law_each_step_does_its_own_thing(
    step: CaseStep,
    recorder: &mut ChannelRecorder,
    still_waiting: bool,
    progress: &mut CaseProgress,
    outcome: StepOutcome,
)
    requires
        call_ensures(take_step, (step, recorder, still_waiting, progress), outcome),
    ensures
        step is AwaitFin ==> (outcome is NotYet <==> old(recorder).graceful_calls == 0) && (
        old(recorder).graceful_calls > 0 ==> outcome is Done) && *final(recorder) == *old(recorder),
        step is Join ==> outcome is AwaitReport && *final(recorder) == *old(recorder),
        step is Look ==> {
            &&& outcome is Done
            &&& *final(recorder) == *old(recorder)
            &&& final(progress).waiting@ == old(progress).waiting@.push(still_waiting)
            &&& old(progress).waiting@.len() == 0 ==> final(progress).forced_while_waiting == old(recorder).force_calls
            &&& old(progress).waiting@.len() > 0 ==> final(progress).forced_while_waiting == old(progress).forced_while_waiting
        },
        !(step is Look) ==> final(progress).waiting@ == old(progress).waiting@
            && final(progress).forced_while_waiting == old(progress).forced_while_waiting,
        step is Confirm ==> {
            let (before, after) = (old(recorder).closed_state, final(recorder).closed_state);
            &&& outcome is Done
            &&& before.pending_steps > 0 ==> after.pending_steps == before.pending_steps - 1
            &&& before.pending_steps == 0 ==> after == before
            &&& before.pending_steps == 1 ==> after.completed
            &&& before.pending_steps > 1 ==> after.completed == before.completed
            &&& final(recorder).failure == old(recorder).failure
        },
        step is Complete ==> outcome is Done && final(recorder).closed_state.completed
            && final(recorder).failure == old(recorder).failure,
        step is CompleteWithError ==> {
            &&& outcome is Done
            &&& final(recorder).closed_state.completed
            &&& final(recorder).failure is Some
            &&& final(recorder).failure->0@.code == ErrorCode::Named(
                "spark.tck.shutdown.closed_error",
            )
            &&& final(recorder).failure->0@.message == "closed future returned error"@
        },
        (step is Complete || step is CompleteWithError) && !old(recorder).closed_state.completed
            ==> outcome == StepOutcome::Done(old(recorder).closed_state.waker),
        same_but_for_the_end(*final(recorder), *old(recorder)),
        final(recorder).closed_completions == old(recorder).closed_completions,
        final(recorder).closed_failures == old(recorder).closed_failures,
{
}

/// The scripted cases take their steps in order: each waits for the request to close and looks
/// before it brings the end about, and leaves the report to the host last.
pub proof fn law_cases_take_their_steps_in_order(
    half: Vec<CaseStep>,
    dual: Vec<CaseStep>,
    error: Vec<CaseStep>,
    injected: CoreError,
)
    requires
        call_ensures(half_close_steps, (), half),
        call_ensures(dual_ack_steps, (), dual),
        call_ensures(error_steps, (), error),
        call_ensures(injected_error, (), injected),
    ensures
        half@.len() == 4 && half@[0] is AwaitFin && half@[1] is Look && half@[2] is Complete
            && half@[3] is Join,
        dual@.len() == 6 && dual@[0] is AwaitFin && dual@[1] is Look && dual@[2] is Confirm
            && dual@[3] is Look && dual@[4] is Confirm && dual@[5] is Join,
        error@.len() == 4 && error@[0] is AwaitFin && error@[1] is Look && error@[2]
            is CompleteWithError && error@[3] is Join,
        injected@.code == ErrorCode::Named("spark.tck.shutdown.closed_error"),
        injected@.message == "closed future returned error"@,
{
}

/// A handler of the case on swapping passes every message on as it came, and notes those of the
/// case under its own name and their number, behind what was noted before.
pub proof fn law_a_recording_handler_notes_and_passes_on(
    handler: &RecordingInbound,
    events: &mut Vec<String>,
    message: PipelineMessage,
    forwarded: PipelineMessage,
)
    requires
        call_ensures(RecordingInbound::on_read, (handler, events, message), forwarded),
    ensures
        forwarded == message,
        message is Buffer ==> texts(final(events)@) == texts(old(events)@),
        message is User && message->User_0.kind@ != "TestMessage"@ ==> texts(final(events)@)
            == texts(old(events)@),
        message is User && message->User_0.kind@ == "TestMessage"@ ==> texts(final(events)@)
            == texts(old(events)@).push(
            handler.name@ + ":"@ + decimal(message->User_0.number as nat),
        ),
{
}

/// The case on swapping sends a message before and a message after the second handler is put in
/// behind the first, and looks after each.
pub proof fn law_the_swap_stands_between_two_messages(steps: Vec<SwapStep>)
    requires
        call_ensures(swap_steps, (), steps),
    ensures
        steps@.len() == 7,
        steps@[0] is Register && steps@[0]->Register_label == "tls",
        steps@[1] is Emit && steps@[1]->id == 1,
        steps@[2] is Look,
        steps@[3] is Find && steps@[3]->Find_label == "tls",
        steps@[4] is AddAfterFound && steps@[4]->AddAfterFound_label == "logging",
        steps@[5] is Emit && steps@[5]->id == 2,
        steps@[6] is Look,
{
}

/// The scenarios of the suite: each has a channel, a label and a reason of its own, the deadline
/// that its case is about, and a channel that ends as its case needs it.
pub proof fn law_each_case_has_its_scenario(
    fin: Scenario,
    half: Scenario,
    expired: Scenario,
    timeout: Scenario,
    dual: Scenario,
    error: Scenario,
)
    requires
        call_ensures(fin_scenario, (), fin),
        call_ensures(half_close_scenario, (), half),
        call_ensures(expired_scenario, (), expired),
        call_ensures(timeout_scenario, (), timeout),
        call_ensures(dual_ack_scenario, (), dual),
        call_ensures(error_scenario, (), error),
    ensures
        fin.reason_code == "spark.tck.shutdown.fin" && fin.deadline is Some && fin.deadline->0@
            == 15_000_000_000 && fin.end is AtOnce,
        half.reason_code == "spark.tck.shutdown.half" && half.deadline is None && half.end
            is HeldBack,
        expired.reason_code == "spark.tck.shutdown.expired" && expired.deadline is Some
            && expired.deadline->0@ == 0 && expired.end is HeldBack,
        timeout.reason_code == "spark.tck.shutdown.timeout" && timeout.deadline is Some
            && timeout.deadline->0@ == 1_000_000_000 && timeout.end is HeldBack,
        dual.reason_code == "spark.tck.shutdown.dual" && dual.deadline is None && dual.end
            == EndPlan::Confirmed(2),
        error.reason_code == "spark.tck.shutdown.error" && error.deadline is None && error.end
            is HeldBack,
{
}

/// The reason of a scenario is made of its code and its text; a case without steps of its own
/// leaves everything to the coordinator.
pub proof fn law_a_scenario_gives_its_reason(
    scenario: &Scenario,
    reason: CloseReason,
    steps: Vec<CaseStep>,
)
    requires
        call_ensures(Scenario::reason, (scenario,), reason),
        call_ensures(direct_steps, (), steps),
    ensures
        reason.code@ == scenario.reason_code@,
        reason.message@ == scenario.reason_message@,
        steps@.len() == 1 && steps@[0] is Join,
{
}

/// The suites list their cases in order.
pub proof fn law_suites_list_their_cases(shutdown: TckSuite, swap: TckSuite, reload: TckSuite)
    requires
        call_ensures(crate::contract_tests::graceful_shutdown::suite, (), shutdown),
        call_ensures(crate::contract_tests::hot_swap::suite, (), swap),
        call_ensures(crate::contract_tests::hot_reload::suite, (), reload),
    ensures
        shutdown.name == "graceful_shutdown" && shutdown.cases@.len() == 6,
        shutdown.cases@[0].name == "channel_fin_invocation_is_forwarded_once",
        shutdown.cases@[1].name == "channel_half_close_waits_for_remote_ack",
        shutdown.cases@[2].name == "expired_deadline_triggers_immediate_force_close",
        shutdown.cases@[3].name == "pending_channel_times_out_and_forces_close",
        shutdown.cases@[4].name == "channel_half_close_requires_dual_ack_steps",
        shutdown.cases@[5].name == "channel_closed_future_error_reports_failure",
        swap.name == "hot_swap" && swap.cases@.len() == 1,
        swap.cases@[0].name == "hot_swap_inserts_handler_without_dropping_messages",
        reload.name == "hot_reload" && reload.cases@.len() == 1,
        reload.cases@[0].name == "hot_reload_limits_and_timeouts_is_atomic_case",
{
    let (a, b, c) = (case_names(shutdown), case_names(swap), case_names(reload));
    assert(a.len() == shutdown.cases@.len() && b.len() == swap.cases@.len() && c.len()
        == reload.cases@.len());
    assert(a[0] == shutdown.cases@[0].name && a[1] == shutdown.cases@[1].name && a[2]
        == shutdown.cases@[2].name && a[3] == shutdown.cases@[3].name && a[4]
        == shutdown.cases@[4].name && a[5] == shutdown.cases@[5].name);
    assert(b[0] == swap.cases@[0].name && c[0] == reload.cases@[0].name);
}

/// The end of a recorder is brought about, held back and confirmed as that of its channel is, and
/// nothing else of the recorder changes; an error is set up for the next look.
pub proof fn law_the_end_of_a_recorder_is_controlled(
    ended: &mut ChannelRecorder,
    woken: Option<WakerId>,
    held: &mut ChannelRecorder,
    asked: &mut ChannelRecorder,
    steps: usize,
    failed: &mut ChannelRecorder,
    error: CoreError,
    told: Option<WakerId>,
)
    requires
        call_ensures(ChannelRecorder::complete_closed, (ended,), woken),
        call_ensures(ChannelRecorder::keep_closed_pending, (held,), ()),
        call_ensures(ChannelRecorder::require_closed_steps, (asked, steps), ()),
        call_ensures(ChannelRecorder::complete_closed_with_error, (failed, error), told),
    ensures
        final(ended).closed_state.completed && final(ended).failure == old(ended).failure
            && final(ended).closed_completions == old(ended).closed_completions,
        !old(ended).closed_state.completed ==> woken == old(ended).closed_state.waker,
        same_but_for_the_end(*final(ended), *old(ended)),
        final(held).keep_pending && final(held).closed_state == old(held).closed_state,
        final(asked).keep_pending && final(asked).closed_state.pending_steps == steps
            && !final(asked).closed_state.completed,
        final(failed).closed_state.completed && final(failed).failure == Some(error)
            && final(failed).closed_failures == old(failed).closed_failures,
        !old(failed).closed_state.completed ==> told == old(failed).closed_state.waker,
        same_but_for_the_end(*final(failed), *old(failed)),
{
}

/// A confirmation of a recorder is one of its channel.
pub proof fn law_a_recorder_passes_confirmations_on(
    recorder: &mut ChannelRecorder,
    to_wake: Option<WakerId>,
)
    requires
        call_ensures(ChannelRecorder::ack_closed_step, (recorder,), to_wake),
    ensures
        same_but_for_the_end(*final(recorder), *old(recorder)),
        old(recorder).closed_state.pending_steps > 0 ==> final(recorder).closed_state.pending_steps == old(recorder).closed_state.pending_steps - 1,
        old(recorder).closed_state.pending_steps == 0 ==> final(recorder).closed_state == old(recorder).closed_state && to_wake is None,
        old(recorder).closed_state.pending_steps == 1 ==> final(recorder).closed_state.completed,
        old(recorder).closed_state.pending_steps == 1 && !old(recorder).closed_state.completed
            ==> to_wake == old(recorder).closed_state.waker,
        old(recorder).closed_state.pending_steps > 1 ==> final(recorder).closed_state.completed
            == old(recorder).closed_state.completed && to_wake is None,
{
}

/// A message of the case on swapping is a decoded one with its number.
pub proof fn law_a_case_message_has_its_number(id: u64, message: PipelineMessage)
    requires
        call_ensures(test_message, (id,), message),
    ensures
        message is User,
        message->User_0.kind@ == "TestMessage"@,
        message->User_0.number == id,
{
}

/// A runtime of the instruments jumps by each span and notes it; a logger and an event bus keep
/// what they get, in order.
pub proof fn law_instruments_keep_what_they_get(
    runtime: &mut TestRuntime,
    duration: Duration,
    logger: &mut TestLogger,
    severity: LogLevel,
    text: &str,
    bus: &mut TestOpsBus,
    event: u64,
    i: int,
)
    requires
        old(runtime).reading() + duration@ <= MAX_NANOS,
        call_ensures(TestRuntime::sleep, (runtime, duration), ()),
        call_ensures(TestLogger::log, (logger, severity, text), ()),
        call_ensures(TestOpsBus::broadcast, (bus, event), ()),
    ensures
        final(runtime).reading() == old(runtime).reading() + duration@,
        final(runtime).slept() == old(runtime).slept() + seq![duration],
        final(logger).records@.len() == old(logger).records@.len() + 1,
        final(logger).records@.last().severity == severity,
        final(logger).records@.last().message@ == text@,
        0 <= i < old(logger).records@.len() ==> final(logger).records@[i] == old(logger).records@[i],
        final(bus).events@ == old(bus).events@ + seq![event],
        final(bus).policies == old(bus).policies,
{
    if 0 <= i < old(logger).records@.len() {
        assert(final(logger).records@.drop_last()[i] == final(logger).records@[i]);
    }
    assert(final(runtime).slept() =~= old(runtime).slept() + seq![duration]);
    assert(final(bus).events@ =~= old(bus).events@ + seq![event]);
}

/// A task that is done keeps its result through a cancellation and gives it when it is joined.
pub proof fn law_a_done_task_keeps_its_result<T>(
    result: Result<T, TaskError>,
    handle: ReadyHandle<T>,
    other: &mut ReadyHandle<T>,
    joined: Result<T, TaskError>,
    cancelled: bool,
)
    requires
        call_ensures(ReadyHandle::<T>::new, (result,), handle),
        call_ensures(ReadyHandle::<T>::cancel, (other,), ()),
        *old(other) == handle,
        call_ensures(ReadyHandle::<T>::join, (*final(other),), joined),
        call_ensures(ReadyHandle::<T>::is_cancelled, (&*final(other),), cancelled),
    ensures
        joined == result,
        cancelled,
{
}

/// The pool of the instruments refuses every lease, has nothing to let go, and counts nothing.
pub proof fn law_the_empty_pool_gives_nothing(
    pool: &NoopBufferPool,
    min_capacity: usize,
    error: CoreError,
    shrunk: Result<usize, CoreError>,
)
    requires
        call_ensures(NoopBufferPool::acquire, (pool, min_capacity), error),
        call_ensures(NoopBufferPool::shrink_to_fit, (pool,), shrunk),
    ensures
        error@.code == ErrorCode::Named("buffer.disabled"),
        error@.message == "buffer pool disabled in tests"@,
        shrunk is Ok && shrunk->Ok_0 == 0,
{
}

} // verus!
