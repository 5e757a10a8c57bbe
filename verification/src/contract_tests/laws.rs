//! What a favourable verdict of a suite says about what was seen.
use vstd::prelude::*;

use crate::contract_tests::case::{
    law_favourable_means_everything_holds, law_the_first_failure_decides,
};
use crate::contract_tests::graceful_shutdown::{
    channel_closed_future_error_reports_failure, channel_fin_invocation_is_forwarded_once,
    channel_half_close_requires_dual_ack_steps, channel_half_close_waits_for_remote_ack,
    dual_ack_checks, error_checks, expired_checks,
    expired_deadline_triggers_immediate_force_close, fin_checks, half_close_checks,
    pending_channel_times_out_and_forces_close, timeout_checks, Scenario, ShutdownObservation,
};
use crate::contract_tests::hot_reload::{
    hot_reload_limits_and_timeouts_is_atomic_case, reload_checks, ReloadObservation,
};
use crate::contract_tests::hot_swap::{
    hot_swap_inserts_handler_without_dropping_messages, swap_checks, SwapObservation,
};
use crate::observability::LogLevel;
use crate::scan::holds_text;
use crate::text::texts;
use crate::time::duration::Duration;

verus! {

/// Whether two deadlines are the same.
pub open spec fn same_deadline(seen: Option<Duration>, asked: Option<Duration>) -> bool {
    &&& seen is Some <==> asked is Some
    &&& seen is Some ==> seen->0@ == asked->0@
}

/// The verdict on the single request to close is favourable exactly where the report has one entry
/// that says `Completed`, nothing was forced, and the channel was asked to close once, with the
/// reason and the deadline of the shutdown, with one event and a record of the start.
pub proof fn law_a_favourable_fin_asked_once(
    scenario: &Scenario,
    seen: &ShutdownObservation,
    r: Result<(), &'static str>,
)
    requires
        call_ensures(channel_fin_invocation_is_forwarded_once, (scenario, seen), r),
    ensures
        r is Ok <==> {
            &&& seen.results@.len() == 1
            &&& seen.forced_count == 0
            &&& seen.results@[0] is Completed
            &&& seen.recorder.graceful_calls == 1
            &&& seen.recorder.force_calls == 0
            &&& seen.recorder.graceful_reasons@.len() == 1
            &&& (seen.recorder.graceful_reasons@[0].code@ == scenario.reason_code@
             && seen.recorder.graceful_reasons@[0].message@ == scenario.reason_message@)
            &&& seen.recorder.graceful_deadlines@.len() == 1
            &&& same_deadline(seen.recorder.graceful_deadlines@[0], scenario.deadline)
            &&& seen.ops_events == 1
            &&& exists|i: int|
                0 <= i < seen.logs@.len() && (#[trigger] seen.logs@[i]).severity == LogLevel::Info
                    && holds_text(
                    seen.logs@[i].message@,
                    "graceful shutdown initiated"@,
                )
        },
        !(seen.results@.len() == 1)
            ==> r == Err::<(), &'static str>("仅注册一个通道应生成单条记录"),
        (seen.results@.len() == 1) && !(seen.forced_count == 0)
            ==> r == Err::<(), &'static str>("FIN 成功路径不应触发硬关闭"),
        (seen.results@.len() == 1) && (seen.forced_count == 0) && !(seen.results@[0] is Completed)
            ==> r == Err::<(), &'static str>("报告状态应为 Completed"),
        (seen.results@.len() == 1) && (seen.forced_count == 0) && (seen.results@[0] is Completed)
            && !(seen.recorder.graceful_calls == 1)
            ==> r == Err::<(), &'static str>("close_graceful 必须仅触发一次"),
        (seen.results@.len() == 1) && (seen.forced_count == 0) && (seen.results@[0] is Completed)
            && (seen.recorder.graceful_calls == 1) && !(seen.recorder.force_calls == 0)
            ==> r == Err::<(), &'static str>("正常收敛路径不应调用 close()"),
        (seen.results@.len() == 1) && (seen.forced_count == 0) && (seen.results@[0] is Completed)
            && (seen.recorder.graceful_calls == 1) && (seen.recorder.force_calls == 0)
            && !(seen.recorder.graceful_reasons@.len() == 1)
            ==> r == Err::<(), &'static str>("记录的 FIN 原因数量应与调用次数一致"),
        (seen.results@.len() == 1) && (seen.forced_count == 0) && (seen.results@[0] is Completed)
            && (seen.recorder.graceful_calls == 1) && (seen.recorder.force_calls == 0)
            && (seen.recorder.graceful_reasons@.len() == 1)
            && !(seen.recorder.graceful_reasons@[0].code@ == scenario.reason_code@
             && seen.recorder.graceful_reasons@[0].message@ == scenario.reason_message@)
            ==> r == Err::<(), &'static str>("FIN 原因应原样透传"),
        (seen.results@.len() == 1) && (seen.forced_count == 0) && (seen.results@[0] is Completed)
            && (seen.recorder.graceful_calls == 1) && (seen.recorder.force_calls == 0)
            && (seen.recorder.graceful_reasons@.len() == 1)
            && (seen.recorder.graceful_reasons@[0].code@ == scenario.reason_code@
             && seen.recorder.graceful_reasons@[0].message@ == scenario.reason_message@)
                 && !(seen.recorder.graceful_deadlines@.len() == 1)
            ==> r == Err::<(), &'static str>("Deadline 传播记录应保持一一对应"),
        (seen.results@.len() == 1) && (seen.forced_count == 0) && (seen.results@[0] is Completed)
            && (seen.recorder.graceful_calls == 1) && (seen.recorder.force_calls == 0)
            && (seen.recorder.graceful_reasons@.len() == 1)
            && (seen.recorder.graceful_reasons@[0].code@ == scenario.reason_code@
             && seen.recorder.graceful_reasons@[0].message@ == scenario.reason_message@)
                 && (seen.recorder.graceful_deadlines@.len() == 1)
                 && !(same_deadline(seen.recorder.graceful_deadlines@[0], scenario.deadline))
            ==> r == Err::<(), &'static str>("GracefulShutdownTarget::for_channel 应透传 deadline"),
        (seen.results@.len() == 1) && (seen.forced_count == 0) && (seen.results@[0] is Completed)
            && (seen.recorder.graceful_calls == 1) && (seen.recorder.force_calls == 0)
            && (seen.recorder.graceful_reasons@.len() == 1)
            && (seen.recorder.graceful_reasons@[0].code@ == scenario.reason_code@
             && seen.recorder.graceful_reasons@[0].message@ == scenario.reason_message@)
                 && (seen.recorder.graceful_deadlines@.len() == 1)
                 && (same_deadline(seen.recorder.graceful_deadlines@[0], scenario.deadline))
                 && !(seen.ops_events == 1)
            ==> r == Err::<(), &'static str>("应广播一次 ShutdownTriggered 事件"),
        (seen.results@.len() == 1) && (seen.forced_count == 0) && (seen.results@[0] is Completed)
            && (seen.recorder.graceful_calls == 1) && (seen.recorder.force_calls == 0)
            && (seen.recorder.graceful_reasons@.len() == 1)
            && (seen.recorder.graceful_reasons@[0].code@ == scenario.reason_code@
             && seen.recorder.graceful_reasons@[0].message@ == scenario.reason_message@)
                 && (seen.recorder.graceful_deadlines@.len() == 1)
                 && (same_deadline(seen.recorder.graceful_deadlines@[0], scenario.deadline))
                 && (seen.ops_events == 1) && !(exists|i: int|
                0 <= i < seen.logs@.len() && (#[trigger] seen.logs@[i]).severity == LogLevel::Info
                    && holds_text(
                    seen.logs@[i].message@,
                    "graceful shutdown initiated"@,
                ))
            ==> r == Err::<(), &'static str>("INFO 日志应标记停机启动"),
{
    let checks = fin_checks(*scenario, *seen);
    law_favourable_means_everything_holds(checks);
    if r is Ok {
        assert(checks[0].holds);
        assert(checks[1].holds);
        assert(checks[2].holds);
        assert(checks[3].holds);
        assert(checks[4].holds);
        assert(checks[5].holds);
        assert(checks[6].holds);
        assert(checks[7].holds);
        assert(checks[8].holds);
        assert(checks[9].holds);
        assert(checks[10].holds);
    }
    if !checks[0].holds {
        law_the_first_failure_decides(checks, 0);
    }
    if checks[0].holds && !checks[1].holds {
        law_the_first_failure_decides(checks, 1);
    }
    if checks[0].holds && checks[1].holds && !checks[2].holds {
        law_the_first_failure_decides(checks, 2);
    }
    if checks[0].holds && checks[1].holds && checks[2].holds && !checks[3].holds {
        law_the_first_failure_decides(checks, 3);
    }
    if checks[0].holds && checks[1].holds && checks[2].holds && checks[3].holds
        && !checks[4].holds {
        law_the_first_failure_decides(checks, 4);
    }
    if checks[0].holds && checks[1].holds && checks[2].holds && checks[3].holds && checks[4].holds
        && !checks[5].holds {
        law_the_first_failure_decides(checks, 5);
    }
    if checks[0].holds && checks[1].holds && checks[2].holds && checks[3].holds && checks[4].holds
        && checks[5].holds && !checks[6].holds {
        law_the_first_failure_decides(checks, 6);
    }
    if checks[0].holds && checks[1].holds && checks[2].holds && checks[3].holds && checks[4].holds
        && checks[5].holds && checks[6].holds && !checks[7].holds {
        law_the_first_failure_decides(checks, 7);
    }
    if checks[0].holds && checks[1].holds && checks[2].holds && checks[3].holds && checks[4].holds
        && checks[5].holds && checks[6].holds && checks[7].holds && !checks[8].holds {
        law_the_first_failure_decides(checks, 8);
    }
    if checks[0].holds && checks[1].holds && checks[2].holds && checks[3].holds && checks[4].holds
        && checks[5].holds && checks[6].holds && checks[7].holds && checks[8].holds
        && !checks[9].holds {
        law_the_first_failure_decides(checks, 9);
    }
    if checks[0].holds && checks[1].holds && checks[2].holds && checks[3].holds && checks[4].holds
        && checks[5].holds && checks[6].holds && checks[7].holds && checks[8].holds
        && checks[9].holds && !checks[10].holds {
        law_the_first_failure_decides(checks, 10);
    }
}

/// The verdict on waiting for the other side is favourable exactly where nothing was forced, neither
/// while the coordinator waited nor later, the report has one entry that says `Completed`, and
/// `closed()` completed once.
pub proof fn law_a_favourable_half_close_waited(
    seen: &ShutdownObservation,
    r: Result<(), &'static str>,
)
    requires
        call_ensures(channel_half_close_waits_for_remote_ack, (seen,), r),
    ensures
        r is Ok <==> {
            &&& seen.forced_while_waiting == 0
            &&& seen.results@.len() == 1
            &&& seen.results@[0] is Completed
            &&& seen.recorder.closed_completions == 1
            &&& seen.recorder.force_calls == 0
        },
        !(seen.forced_while_waiting == 0)
            ==> r == Err::<(), &'static str>("等待阶段不应触发硬关闭"),
        (seen.forced_while_waiting == 0) && !(seen.results@.len() == 1)
            ==> r == Err::<(), &'static str>("报告应只有一条记录"),
        (seen.forced_while_waiting == 0) && (seen.results@.len() == 1)
            && !(seen.results@[0] is Completed)
            ==> r == Err::<(), &'static str>("报告状态应为 Completed"),
        (seen.forced_while_waiting == 0) && (seen.results@.len() == 1)
            && (seen.results@[0] is Completed) && !(seen.recorder.closed_completions == 1)
            ==> r == Err::<(), &'static str>("closed() 应完成一次"),
        (seen.forced_while_waiting == 0) && (seen.results@.len() == 1)
            && (seen.results@[0] is Completed) && (seen.recorder.closed_completions == 1)
            && !(seen.recorder.force_calls == 0)
            ==> r == Err::<(), &'static str>("整个流程未触发强制关闭"),
{
    let checks = half_close_checks(*seen);
    law_favourable_means_everything_holds(checks);
    if r is Ok {
        assert(checks[0].holds);
        assert(checks[1].holds);
        assert(checks[2].holds);
        assert(checks[3].holds);
        assert(checks[4].holds);
    }
    if !checks[0].holds {
        law_the_first_failure_decides(checks, 0);
    }
    if checks[0].holds && !checks[1].holds {
        law_the_first_failure_decides(checks, 1);
    }
    if checks[0].holds && checks[1].holds && !checks[2].holds {
        law_the_first_failure_decides(checks, 2);
    }
    if checks[0].holds && checks[1].holds && checks[2].holds && !checks[3].holds {
        law_the_first_failure_decides(checks, 3);
    }
    if checks[0].holds && checks[1].holds && checks[2].holds && checks[3].holds
        && !checks[4].holds {
        law_the_first_failure_decides(checks, 4);
    }
}

/// The verdict on a deadline in the past is favourable exactly where the report has one entry that
/// says `ForcedTimeout`, the channel was forced once, nothing was slept, and a warning tells of it.
pub proof fn law_a_favourable_expiry_forced_at_once(
    seen: &ShutdownObservation,
    r: Result<(), &'static str>,
)
    requires
        call_ensures(expired_deadline_triggers_immediate_force_close, (seen,), r),
    ensures
        r is Ok <==> {
            &&& seen.results@.len() == 1
            &&& seen.forced_count == 1
            &&& seen.results@[0] is ForcedTimeout
            &&& seen.recorder.force_calls == 1
            &&& seen.sleep_calls@.len() == 0
            &&& exists|i: int|
                0 <= i < seen.logs@.len() && (#[trigger] seen.logs@[i]).severity == LogLevel::Warn
                    && holds_text(
                    seen.logs@[i].message@,
                    "forced"@,
                )
        },
        !(seen.results@.len() == 1)
            ==> r == Err::<(), &'static str>("报告应只有一条记录"),
        (seen.results@.len() == 1) && !(seen.forced_count == 1)
            ==> r == Err::<(), &'static str>("到期场景必须统计强制关闭"),
        (seen.results@.len() == 1) && (seen.forced_count == 1)
            && !(seen.results@[0] is ForcedTimeout)
            ==> r == Err::<(), &'static str>("预期 ForcedTimeout"),
        (seen.results@.len() == 1) && (seen.forced_count == 1)
            && (seen.results@[0] is ForcedTimeout) && !(seen.recorder.force_calls == 1)
            ==> r == Err::<(), &'static str>("force_close 应立即被调用"),
        (seen.results@.len() == 1) && (seen.forced_count == 1)
            && (seen.results@[0] is ForcedTimeout) && (seen.recorder.force_calls == 1)
            && !(seen.sleep_calls@.len() == 0)
            ==> r == Err::<(), &'static str>("截止时间已过期时不应调用 sleep"),
        (seen.results@.len() == 1) && (seen.forced_count == 1)
            && (seen.results@[0] is ForcedTimeout) && (seen.recorder.force_calls == 1)
            && (seen.sleep_calls@.len() == 0) && !(exists|i: int|
                0 <= i < seen.logs@.len() && (#[trigger] seen.logs@[i]).severity == LogLevel::Warn
                    && holds_text(
                    seen.logs@[i].message@,
                    "forced"@,
                ))
            ==> r == Err::<(), &'static str>("WARN 日志需提示强制关闭"),
{
    let checks = expired_checks(*seen);
    law_favourable_means_everything_holds(checks);
    if r is Ok {
        assert(checks[0].holds);
        assert(checks[1].holds);
        assert(checks[2].holds);
        assert(checks[3].holds);
        assert(checks[4].holds);
        assert(checks[5].holds);
    }
    if !checks[0].holds {
        law_the_first_failure_decides(checks, 0);
    }
    if checks[0].holds && !checks[1].holds {
        law_the_first_failure_decides(checks, 1);
    }
    if checks[0].holds && checks[1].holds && !checks[2].holds {
        law_the_first_failure_decides(checks, 2);
    }
    if checks[0].holds && checks[1].holds && checks[2].holds && !checks[3].holds {
        law_the_first_failure_decides(checks, 3);
    }
    if checks[0].holds && checks[1].holds && checks[2].holds && checks[3].holds
        && !checks[4].holds {
        law_the_first_failure_decides(checks, 4);
    }
    if checks[0].holds && checks[1].holds && checks[2].holds && checks[3].holds && checks[4].holds
        && !checks[5].holds {
        law_the_first_failure_decides(checks, 5);
    }
}

/// The verdict on a stalled channel is favourable exactly where the channel was forced once, the
/// report has one entry that says `ForcedTimeout`, one second was slept, a warning tells of it, and
/// `closed()` did not complete and was let go.
pub proof fn law_a_favourable_timeout_forced_once(
    seen: &ShutdownObservation,
    r: Result<(), &'static str>,
)
    requires
        call_ensures(pending_channel_times_out_and_forces_close, (seen,), r),
    ensures
        r is Ok <==> {
            &&& seen.results@.len() == 1
            &&& seen.forced_count == 1
            &&& seen.results@[0] is ForcedTimeout
            &&& seen.recorder.force_calls == 1
            &&& (seen.sleep_calls@.len() == 1 && seen.sleep_calls@[0]@ == 1_000_000_000)
            &&& exists|i: int|
                0 <= i < seen.logs@.len() && (#[trigger] seen.logs@[i]).severity == LogLevel::Warn
                    && holds_text(
                    seen.logs@[i].message@,
                    "forced"@,
                )
            &&& seen.recorder.closed_completions == 0
            &&& seen.recorder.closed_drops >= 1
        },
        !(seen.results@.len() == 1)
            ==> r == Err::<(), &'static str>("报告应只有一条记录"),
        (seen.results@.len() == 1) && !(seen.forced_count == 1)
            ==> r == Err::<(), &'static str>("超时场景应计入一次强制关闭"),
        (seen.results@.len() == 1) && (seen.forced_count == 1)
            && !(seen.results@[0] is ForcedTimeout)
            ==> r == Err::<(), &'static str>("预期 ForcedTimeout"),
        (seen.results@.len() == 1) && (seen.forced_count == 1)
            && (seen.results@[0] is ForcedTimeout) && !(seen.recorder.force_calls == 1)
            ==> r == Err::<(), &'static str>("超时后必须调用 close()"),
        (seen.results@.len() == 1) && (seen.forced_count == 1)
            && (seen.results@[0] is ForcedTimeout) && (seen.recorder.force_calls == 1)
            && !(seen.sleep_calls@.len() == 1 && seen.sleep_calls@[0]@ == 1_000_000_000)
            ==> r == Err::<(), &'static str>("计时器应等待完整的截止时间"),
        (seen.results@.len() == 1) && (seen.forced_count == 1)
            && (seen.results@[0] is ForcedTimeout) && (seen.recorder.force_calls == 1)
            && (seen.sleep_calls@.len() == 1 && seen.sleep_calls@[0]@ == 1_000_000_000)
            && !(exists|i: int|
                0 <= i < seen.logs@.len() && (#[trigger] seen.logs@[i]).severity == LogLevel::Warn
                    && holds_text(
                    seen.logs@[i].message@,
                    "forced"@,
                ))
            ==> r == Err::<(), &'static str>("超时路径需记录 WARN 日志"),
        (seen.results@.len() == 1) && (seen.forced_count == 1)
            && (seen.results@[0] is ForcedTimeout) && (seen.recorder.force_calls == 1)
            && (seen.sleep_calls@.len() == 1 && seen.sleep_calls@[0]@ == 1_000_000_000)
            && (exists|i: int|
                0 <= i < seen.logs@.len() && (#[trigger] seen.logs@[i]).severity == LogLevel::Warn
                    && holds_text(
                    seen.logs@[i].message@,
                    "forced"@,
                )) && !(seen.recorder.closed_completions == 0)
            ==> r == Err::<(), &'static str>("强制关闭后 `closed()` Future 不应报告成功"),
        (seen.results@.len() == 1) && (seen.forced_count == 1)
            && (seen.results@[0] is ForcedTimeout) && (seen.recorder.force_calls == 1)
            && (seen.sleep_calls@.len() == 1 && seen.sleep_calls@[0]@ == 1_000_000_000)
            && (exists|i: int|
                0 <= i < seen.logs@.len() && (#[trigger] seen.logs@[i]).severity == LogLevel::Warn
                    && holds_text(
                    seen.logs@[i].message@,
                    "forced"@,
                )) && (seen.recorder.closed_completions == 0) && !(seen.recorder.closed_drops >= 1)
            ==> r == Err::<(), &'static str>("超时导致的取消必须释放 `closed()` Future 资源"),
{
    let checks = timeout_checks(*seen);
    law_favourable_means_everything_holds(checks);
    if r is Ok {
        assert(checks[0].holds);
        assert(checks[1].holds);
        assert(checks[2].holds);
        assert(checks[3].holds);
        assert(checks[4].holds);
        assert(checks[5].holds);
        assert(checks[6].holds);
        assert(checks[7].holds);
    }
    if !checks[0].holds {
        law_the_first_failure_decides(checks, 0);
    }
    if checks[0].holds && !checks[1].holds {
        law_the_first_failure_decides(checks, 1);
    }
    if checks[0].holds && checks[1].holds && !checks[2].holds {
        law_the_first_failure_decides(checks, 2);
    }
    if checks[0].holds && checks[1].holds && checks[2].holds && !checks[3].holds {
        law_the_first_failure_decides(checks, 3);
    }
    if checks[0].holds && checks[1].holds && checks[2].holds && checks[3].holds
        && !checks[4].holds {
        law_the_first_failure_decides(checks, 4);
    }
    if checks[0].holds && checks[1].holds && checks[2].holds && checks[3].holds && checks[4].holds
        && !checks[5].holds {
        law_the_first_failure_decides(checks, 5);
    }
    if checks[0].holds && checks[1].holds && checks[2].holds && checks[3].holds && checks[4].holds
        && checks[5].holds && !checks[6].holds {
        law_the_first_failure_decides(checks, 6);
    }
    if checks[0].holds && checks[1].holds && checks[2].holds && checks[3].holds && checks[4].holds
        && checks[5].holds && checks[6].holds && !checks[7].holds {
        law_the_first_failure_decides(checks, 7);
    }
}

/// The verdict on two confirmations is favourable exactly where the coordinator still waited at both
/// looks, the report has one entry that says `Completed`, nothing was forced, and `closed()`
/// completed once and was let go.
pub proof fn law_a_favourable_end_took_two_confirmations(
    seen: &ShutdownObservation,
    r: Result<(), &'static str>,
)
    requires
        call_ensures(channel_half_close_requires_dual_ack_steps, (seen,), r),
    ensures
        r is Ok <==> {
            &&& (seen.waiting@.len() > 0 && seen.waiting@[0])
            &&& (seen.waiting@.len() > 1 && seen.waiting@[1])
            &&& seen.results@.len() == 1
            &&& seen.results@[0] is Completed
            &&& seen.recorder.force_calls == 0
            &&& seen.recorder.closed_completions == 1
            &&& seen.recorder.closed_drops >= 1
        },
        !(seen.waiting@.len() > 0 && seen.waiting@[0])
            ==> r == Err::<(), &'static str>("两个半关闭确认均未到齐前不应返回"),
        (seen.waiting@.len() > 0 && seen.waiting@[0]) && !(seen.waiting@.len() > 1
            && seen.waiting@[1])
            ==> r == Err::<(), &'static str>("仅完成一个方向的半关闭时仍应等待"),
        (seen.waiting@.len() > 0 && seen.waiting@[0]) && (seen.waiting@.len() > 1
            && seen.waiting@[1]) && !(seen.results@.len() == 1)
            ==> r == Err::<(), &'static str>("报告应只有一条记录"),
        (seen.waiting@.len() > 0 && seen.waiting@[0]) && (seen.waiting@.len() > 1
            && seen.waiting@[1]) && (seen.results@.len() == 1) && !(seen.results@[0] is Completed)
            ==> r == Err::<(), &'static str>("报告状态应为 Completed"),
        (seen.waiting@.len() > 0 && seen.waiting@[0]) && (seen.waiting@.len() > 1
            && seen.waiting@[1]) && (seen.results@.len() == 1) && (seen.results@[0] is Completed)
            && !(seen.recorder.force_calls == 0)
            ==> r == Err::<(), &'static str>("双向确认完成后不应触发硬关闭"),
        (seen.waiting@.len() > 0 && seen.waiting@[0]) && (seen.waiting@.len() > 1
            && seen.waiting@[1]) && (seen.results@.len() == 1) && (seen.results@[0] is Completed)
            && (seen.recorder.force_calls == 0) && !(seen.recorder.closed_completions == 1)
            ==> r == Err::<(), &'static str>("两个方向确认后应成功完成一次 closed()"),
        (seen.waiting@.len() > 0 && seen.waiting@[0]) && (seen.waiting@.len() > 1
            && seen.waiting@[1]) && (seen.results@.len() == 1) && (seen.results@[0] is Completed)
            && (seen.recorder.force_calls == 0) && (seen.recorder.closed_completions == 1)
            && !(seen.recorder.closed_drops >= 1)
            ==> r == Err::<(), &'static str>("Future 在完成后应被丢弃以释放资源"),
{
    let checks = dual_ack_checks(*seen);
    law_favourable_means_everything_holds(checks);
    if r is Ok {
        assert(checks[0].holds);
        assert(checks[1].holds);
        assert(checks[2].holds);
        assert(checks[3].holds);
        assert(checks[4].holds);
        assert(checks[5].holds);
        assert(checks[6].holds);
    }
    if !checks[0].holds {
        law_the_first_failure_decides(checks, 0);
    }
    if checks[0].holds && !checks[1].holds {
        law_the_first_failure_decides(checks, 1);
    }
    if checks[0].holds && checks[1].holds && !checks[2].holds {
        law_the_first_failure_decides(checks, 2);
    }
    if checks[0].holds && checks[1].holds && checks[2].holds && !checks[3].holds {
        law_the_first_failure_decides(checks, 3);
    }
    if checks[0].holds && checks[1].holds && checks[2].holds && checks[3].holds
        && !checks[4].holds {
        law_the_first_failure_decides(checks, 4);
    }
    if checks[0].holds && checks[1].holds && checks[2].holds && checks[3].holds && checks[4].holds
        && !checks[5].holds {
        law_the_first_failure_decides(checks, 5);
    }
    if checks[0].holds && checks[1].holds && checks[2].holds && checks[3].holds && checks[4].holds
        && checks[5].holds && !checks[6].holds {
        law_the_first_failure_decides(checks, 6);
    }
}

/// The verdict on an end with an error is favourable exactly where the coordinator waited until then,
/// the report has one entry that says `Failed` with the code of the error, nothing was forced, and
/// `closed()` failed once, never completed and was let go.
pub proof fn law_a_favourable_error_was_reported(
    seen: &ShutdownObservation,
    r: Result<(), &'static str>,
)
    requires
        call_ensures(channel_closed_future_error_reports_failure, (seen,), r),
    ensures
        r is Ok <==> {
            &&& (seen.waiting@.len() > 0 && seen.waiting@[0])
            &&& seen.results@.len() == 1
            &&& (seen.results@[0] is Failed && seen.results@[0]->Failed_0.code is Named
             && seen.results@[0]->Failed_0.code->Named_0@ == "spark.tck.shutdown.closed_error"@)
            &&& seen.recorder.force_calls == 0
            &&& seen.recorder.closed_failures == 1
            &&& seen.recorder.closed_completions == 0
            &&& seen.recorder.closed_drops >= 1
        },
        !(seen.waiting@.len() > 0 && seen.waiting@[0])
            ==> r == Err::<(), &'static str>("在错误注入前 shutdown 应保持等待"),
        (seen.waiting@.len() > 0 && seen.waiting@[0]) && !(seen.results@.len() == 1)
            ==> r == Err::<(), &'static str>("报告应只有一条记录"),
        (seen.waiting@.len() > 0 && seen.waiting@[0]) && (seen.results@.len() == 1)
            && !(seen.results@[0] is Failed && seen.results@[0]->Failed_0.code is Named
             && seen.results@[0]->Failed_0.code->Named_0@ == "spark.tck.shutdown.closed_error"@)
            ==> r == Err::<(), &'static str>("预期 Failed"),
        (seen.waiting@.len() > 0 && seen.waiting@[0]) && (seen.results@.len() == 1)
            && (seen.results@[0] is Failed && seen.results@[0]->Failed_0.code is Named
             && seen.results@[0]->Failed_0.code->Named_0@ == "spark.tck.shutdown.closed_error"@)
                 && !(seen.recorder.force_calls == 0)
            ==> r == Err::<(), &'static str>("异常路径不应调用硬关闭"),
        (seen.waiting@.len() > 0 && seen.waiting@[0]) && (seen.results@.len() == 1)
            && (seen.results@[0] is Failed && seen.results@[0]->Failed_0.code is Named
             && seen.results@[0]->Failed_0.code->Named_0@ == "spark.tck.shutdown.closed_error"@)
                 && (seen.recorder.force_calls == 0) && !(seen.recorder.closed_failures == 1)
            ==> r == Err::<(), &'static str>("应记录一次 closed() 错误"),
        (seen.waiting@.len() > 0 && seen.waiting@[0]) && (seen.results@.len() == 1)
            && (seen.results@[0] is Failed && seen.results@[0]->Failed_0.code is Named
             && seen.results@[0]->Failed_0.code->Named_0@ == "spark.tck.shutdown.closed_error"@)
                 && (seen.recorder.force_calls == 0) && (seen.recorder.closed_failures == 1)
                 && !(seen.recorder.closed_completions == 0)
            ==> r == Err::<(), &'static str>("错误场景不应统计成功关闭"),
        (seen.waiting@.len() > 0 && seen.waiting@[0]) && (seen.results@.len() == 1)
            && (seen.results@[0] is Failed && seen.results@[0]->Failed_0.code is Named
             && seen.results@[0]->Failed_0.code->Named_0@ == "spark.tck.shutdown.closed_error"@)
                 && (seen.recorder.force_calls == 0) && (seen.recorder.closed_failures == 1)
                 && (seen.recorder.closed_completions == 0) && !(seen.recorder.closed_drops >= 1)
            ==> r == Err::<(), &'static str>("错误返回后 Future 应被释放"),
{
    let checks = error_checks(*seen);
    law_favourable_means_everything_holds(checks);
    if r is Ok {
        assert(checks[0].holds);
        assert(checks[1].holds);
        assert(checks[2].holds);
        assert(checks[3].holds);
        assert(checks[4].holds);
        assert(checks[5].holds);
        assert(checks[6].holds);
    }
    if !checks[0].holds {
        law_the_first_failure_decides(checks, 0);
    }
    if checks[0].holds && !checks[1].holds {
        law_the_first_failure_decides(checks, 1);
    }
    if checks[0].holds && checks[1].holds && !checks[2].holds {
        law_the_first_failure_decides(checks, 2);
    }
    if checks[0].holds && checks[1].holds && checks[2].holds && !checks[3].holds {
        law_the_first_failure_decides(checks, 3);
    }
    if checks[0].holds && checks[1].holds && checks[2].holds && checks[3].holds
        && !checks[4].holds {
        law_the_first_failure_decides(checks, 4);
    }
    if checks[0].holds && checks[1].holds && checks[2].holds && checks[3].holds && checks[4].holds
        && !checks[5].holds {
        law_the_first_failure_decides(checks, 5);
    }
    if checks[0].holds && checks[1].holds && checks[2].holds && checks[3].holds && checks[4].holds
        && checks[5].holds && !checks[6].holds {
        law_the_first_failure_decides(checks, 6);
    }
}

/// The verdict on a swap is favourable exactly where only the first handler had noted the first
/// message before, that handler was found, the new handle is not the head, the epoch rose, and in
/// the end the first handler has noted both messages and the new one the second, in that order.
pub proof fn law_a_favourable_swap_lost_nothing(
    seen: &SwapObservation,
    r: Result<(), &'static str>,
)
    requires
        call_ensures(hot_swap_inserts_handler_without_dropping_messages, (seen,), r),
    ensures
        r is Ok <==> {
            &&& (seen.events_before@.len() == 1 && seen.events_before@[0]@ == "tls:1"@)
            &&& seen.first_registered
            &&& !seen.new_handle_is_head
            &&& seen.epoch_after > seen.epoch_before
            &&& (seen.events_after@.len() == 3 && seen.events_after@[0]@ == "tls:1"@
             && seen.events_after@[1]@ == "tls:2"@ && seen.events_after@[2]@ == "log:2"@)
        },
        !(seen.events_before@.len() == 1 && seen.events_before@[0]@ == "tls:1"@)
            ==> r == Err::<(), &'static str>("插入前仅 TLS 处理消息"),
        (seen.events_before@.len() == 1 && seen.events_before@[0]@ == "tls:1"@)
            && !(seen.first_registered)
            ==> r == Err::<(), &'static str>("应能在注册表中找到 TLS Handler"),
        (seen.events_before@.len() == 1 && seen.events_before@[0]@ == "tls:1"@)
            && (seen.first_registered) && seen.new_handle_is_head
            ==> r == Err::<(), &'static str>("新增句柄不应指向链表头"),
        (seen.events_before@.len() == 1 && seen.events_before@[0]@ == "tls:1"@)
            && (seen.first_registered) && (!seen.new_handle_is_head)
            && !(seen.epoch_after > seen.epoch_before)
            ==> r == Err::<(), &'static str>("插入后 epoch 应自增"),
        (seen.events_before@.len() == 1 && seen.events_before@[0]@ == "tls:1"@)
            && (seen.first_registered) && (!seen.new_handle_is_head)
            && (seen.epoch_after > seen.epoch_before) && !(seen.events_after@.len() == 3
            && seen.events_after@[0]@ == "tls:1"@
             && seen.events_after@[1]@ == "tls:2"@ && seen.events_after@[2]@ == "log:2"@)
            ==> r == Err::<(), &'static str>("插入后事件序列应保持完整"),
{
    let checks = swap_checks(*seen);
    law_favourable_means_everything_holds(checks);
    let before = texts(seen.events_before@);
    let after = texts(seen.events_after@);
    if seen.events_before@.len() == 1 && seen.events_before@[0]@ == "tls:1"@ {
        assert(before =~= seq!["tls:1"@]);
    }
    if before == seq!["tls:1"@] {
        assert(before.len() == 1 && before[0] == seen.events_before@[0]@);
    }
    if seen.events_after@.len() == 3 && seen.events_after@[0]@ == "tls:1"@
        && seen.events_after@[1]@ == "tls:2"@ && seen.events_after@[2]@ == "log:2"@ {
        assert(after =~= seq!["tls:1"@, "tls:2"@, "log:2"@]);
    }
    if after == seq!["tls:1"@, "tls:2"@, "log:2"@] {
        assert(after.len() == 3 && after[0] == seen.events_after@[0]@ && after[1]
            == seen.events_after@[1]@ && after[2] == seen.events_after@[2]@);
    }
    if r is Ok {
        assert(checks[0].holds);
        assert(checks[1].holds);
        assert(checks[2].holds);
        assert(checks[3].holds);
        assert(checks[4].holds);
    }
    if !checks[0].holds {
        law_the_first_failure_decides(checks, 0);
    }
    if checks[0].holds && !checks[1].holds {
        law_the_first_failure_decides(checks, 1);
    }
    if checks[0].holds && checks[1].holds && !checks[2].holds {
        law_the_first_failure_decides(checks, 2);
    }
    if checks[0].holds && checks[1].holds && checks[2].holds && !checks[3].holds {
        law_the_first_failure_decides(checks, 3);
    }
    if checks[0].holds && checks[1].holds && checks[2].holds && checks[3].holds
        && !checks[4].holds {
        law_the_first_failure_decides(checks, 4);
    }
}

/// The verdict on a reload is favourable exactly where both epochs rose at each update, the latest
/// values are in force in the end, and no reader ever saw a limit or a timeout of none.
pub proof fn law_a_favourable_reload_kept_readers_safe(
    seen: &ReloadObservation,
    r: Result<(), &'static str>,
)
    requires
        call_ensures(hot_reload_limits_and_timeouts_is_atomic_case, (seen,), r),
    ensures
        r is Ok <==> {
            &&& seen.start.limit_epoch < seen.after_first.limit_epoch
            &&& seen.start.timeout_epoch < seen.after_first.timeout_epoch
            &&& seen.after_first.limit_epoch < seen.after_second.limit_epoch
            &&& seen.after_first.timeout_epoch < seen.after_second.timeout_epoch
            &&& seen.after_second.connections == 2_048
            &&& seen.after_second.request_timeout@ == 8_000_000_000
            &&& seen.after_second.idle_timeout@ == 30_000_000_000
            &&& forall|i: int| 0 <= i < seen.limits_seen@.len() ==> #[trigger] seen.limits_seen@[i] > 0
            &&& forall|i: int|
             0 <= i < seen.request_timeouts_seen@.len() ==> (#[trigger] seen.request_timeouts_seen@[i])@
             > 0
        },
        !(seen.start.limit_epoch < seen.after_first.limit_epoch)
            ==> r == Err::<(), &'static str>("首次更新后限额纪元应递增"),
        (seen.start.limit_epoch < seen.after_first.limit_epoch)
            && !(seen.start.timeout_epoch < seen.after_first.timeout_epoch)
            ==> r == Err::<(), &'static str>("首次更新后超时纪元应递增"),
        (seen.start.limit_epoch < seen.after_first.limit_epoch)
            && (seen.start.timeout_epoch < seen.after_first.timeout_epoch)
            && !(seen.after_first.limit_epoch < seen.after_second.limit_epoch)
            ==> r == Err::<(), &'static str>("再次更新后限额纪元应递增"),
        (seen.start.limit_epoch < seen.after_first.limit_epoch)
            && (seen.start.timeout_epoch < seen.after_first.timeout_epoch)
            && (seen.after_first.limit_epoch < seen.after_second.limit_epoch)
            && !(seen.after_first.timeout_epoch < seen.after_second.timeout_epoch)
            ==> r == Err::<(), &'static str>("再次更新后超时纪元应递增"),
        (seen.start.limit_epoch < seen.after_first.limit_epoch)
            && (seen.start.timeout_epoch < seen.after_first.timeout_epoch)
            && (seen.after_first.limit_epoch < seen.after_second.limit_epoch)
            && (seen.after_first.timeout_epoch < seen.after_second.timeout_epoch)
            && !(seen.after_second.connections == 2_048)
            ==> r == Err::<(), &'static str>("最终限额应为 2048"),
        (seen.start.limit_epoch < seen.after_first.limit_epoch)
            && (seen.start.timeout_epoch < seen.after_first.timeout_epoch)
            && (seen.after_first.limit_epoch < seen.after_second.limit_epoch)
            && (seen.after_first.timeout_epoch < seen.after_second.timeout_epoch)
            && (seen.after_second.connections == 2_048)
            && !(seen.after_second.request_timeout@ == 8_000_000_000)
            ==> r == Err::<(), &'static str>("最终请求超时应为 8000 毫秒"),
        (seen.start.limit_epoch < seen.after_first.limit_epoch)
            && (seen.start.timeout_epoch < seen.after_first.timeout_epoch)
            && (seen.after_first.limit_epoch < seen.after_second.limit_epoch)
            && (seen.after_first.timeout_epoch < seen.after_second.timeout_epoch)
            && (seen.after_second.connections == 2_048)
            && (seen.after_second.request_timeout@ == 8_000_000_000)
            && !(seen.after_second.idle_timeout@ == 30_000_000_000)
            ==> r == Err::<(), &'static str>("最终空闲超时应为 30000 毫秒"),
        (seen.start.limit_epoch < seen.after_first.limit_epoch)
            && (seen.start.timeout_epoch < seen.after_first.timeout_epoch)
            && (seen.after_first.limit_epoch < seen.after_second.limit_epoch)
            && (seen.after_first.timeout_epoch < seen.after_second.timeout_epoch)
            && (seen.after_second.connections == 2_048)
            && (seen.after_second.request_timeout@ == 8_000_000_000)
            && (seen.after_second.idle_timeout@ == 30_000_000_000)
            && !(forall|i: int| 0 <= i < seen.limits_seen@.len() ==> #[trigger] seen.limits_seen@[i] > 0)
            ==> r == Err::<(), &'static str>("读线程应始终看到合法限额"),
        (seen.start.limit_epoch < seen.after_first.limit_epoch)
            && (seen.start.timeout_epoch < seen.after_first.timeout_epoch)
            && (seen.after_first.limit_epoch < seen.after_second.limit_epoch)
            && (seen.after_first.timeout_epoch < seen.after_second.timeout_epoch)
            && (seen.after_second.connections == 2_048)
            && (seen.after_second.request_timeout@ == 8_000_000_000)
            && (seen.after_second.idle_timeout@ == 30_000_000_000)
            && (forall|i: int| 0 <= i < seen.limits_seen@.len() ==> #[trigger] seen.limits_seen@[i] > 0)
            && !(forall|i: int|
             0 <= i < seen.request_timeouts_seen@.len() ==> (#[trigger] seen.request_timeouts_seen@[i])@
             > 0)
            ==> r == Err::<(), &'static str>("读线程应始终看到合法超时"),
{
    let checks = reload_checks(*seen);
    law_favourable_means_everything_holds(checks);
    if r is Ok {
        assert(checks[0].holds);
        assert(checks[1].holds);
        assert(checks[2].holds);
        assert(checks[3].holds);
        assert(checks[4].holds);
        assert(checks[5].holds);
        assert(checks[6].holds);
        assert(checks[7].holds);
        assert(checks[8].holds);
    }
    if !checks[0].holds {
        law_the_first_failure_decides(checks, 0);
    }
    if checks[0].holds && !checks[1].holds {
        law_the_first_failure_decides(checks, 1);
    }
    if checks[0].holds && checks[1].holds && !checks[2].holds {
        law_the_first_failure_decides(checks, 2);
    }
    if checks[0].holds && checks[1].holds && checks[2].holds && !checks[3].holds {
        law_the_first_failure_decides(checks, 3);
    }
    if checks[0].holds && checks[1].holds && checks[2].holds && checks[3].holds
        && !checks[4].holds {
        law_the_first_failure_decides(checks, 4);
    }
    if checks[0].holds && checks[1].holds && checks[2].holds && checks[3].holds && checks[4].holds
        && !checks[5].holds {
        law_the_first_failure_decides(checks, 5);
    }
    if checks[0].holds && checks[1].holds && checks[2].holds && checks[3].holds && checks[4].holds
        && checks[5].holds && !checks[6].holds {
        law_the_first_failure_decides(checks, 6);
    }
    if checks[0].holds && checks[1].holds && checks[2].holds && checks[3].holds && checks[4].holds
        && checks[5].holds && checks[6].holds && !checks[7].holds {
        law_the_first_failure_decides(checks, 7);
    }
    if checks[0].holds && checks[1].holds && checks[2].holds && checks[3].holds && checks[4].holds
        && checks[5].holds && checks[6].holds && checks[7].holds && !checks[8].holds {
        law_the_first_failure_decides(checks, 8);
    }
}

} // verus!
