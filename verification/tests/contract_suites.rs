use spark::buffer::readable::OwnedReadableBuffer;
use spark::contract_tests::attribute::{
    default_suite_idents, generate_tests, inject_tests, list_items, parse_suites, read_suites,
    settle_suites, suites_of, AttributeError, ElementForm, GeneratedTest, MetaForm, MetaItem,
    ModuleItem, SuiteAttribute, SuiteError, TestModule,
};
use spark::contract_tests::attribute_depth::is_shallow;
use spark::contract_tests::case::{judge, Check};
use spark::contract_tests::channel_double::{ChannelRecorder, ManualClosedState, TestChannel};
use spark::contract_tests::graceful_shutdown::{
    self, channel_closed_future_error_reports_failure, channel_fin_invocation_is_forwarded_once,
    channel_half_close_requires_dual_ack_steps, channel_half_close_waits_for_remote_ack,
    direct_steps, dual_ack_scenario, dual_ack_steps, error_scenario, error_steps,
    expired_deadline_triggers_immediate_force_close, expired_scenario, fin_scenario,
    half_close_scenario, half_close_steps, injected_error,
    pending_channel_times_out_and_forces_close, take_step, timeout_scenario, CaseProgress,
    CaseStep, GracefulShutdownStatus, OwnedLog, Scenario, ShutdownObservation, StepOutcome,
};
use spark::contract_tests::comments::is_blank;
use spark::contract_tests::hot_reload::{
    self, hot_reload_limits_and_timeouts_is_atomic_case, idle_timeout_key, initial_settings,
    read_settings, reload_twice, request_timeout_key, ReloadObservation,
};
use spark::contract_tests::hot_swap::{
    self, hot_swap_inserts_handler_without_dropping_messages, swap_steps, test_message,
    RecordingInbound, SwapObservation, SwapStep,
};
use spark::observability::LogLevel;
use spark::pipeline::message::{PipelineMessage, UserMessage};
use spark::task::Poll;
use spark::time::duration::Duration;

#[test]
fn an_attribute_names_suites() {
    let defaults = default_suite_idents();
    assert_eq!(defaults.len(), 7);
    assert_eq!(settle_suites(&SuiteAttribute::Empty).as_ref(), Ok(&defaults));
    assert_eq!(settle_suites(&SuiteAttribute::BareSuites).as_ref(), Ok(&defaults));
    assert_eq!(settle_suites(&SuiteAttribute::Suites(Vec::new())).as_ref(), Ok(&defaults));
    let named = SuiteAttribute::Suites(vec![
        MetaItem::Ident("errors".to_string()),
        MetaItem::Ident("hot_swap".to_string()),
    ]);
    assert_eq!(settle_suites(&named), Ok(vec!["errors".to_string(), "hot_swap".to_string()]));
    let mixed = SuiteAttribute::Suites(vec![
        MetaItem::Ident("errors".to_string()),
        MetaItem::Path,
        MetaItem::Other,
    ]);
    assert_eq!(
        settle_suites(&mixed),
        Err(AttributeError { element: Some(1), message: "suite 需为标识符" })
    );
    assert_eq!(
        settle_suites(&SuiteAttribute::Suites(vec![MetaItem::Other])),
        Err(AttributeError { element: Some(0), message: "suites(...) 仅接受标识符" })
    );
    assert_eq!(
        settle_suites(&SuiteAttribute::Other),
        Err(AttributeError { element: None, message: "spark_tck 属性仅支持 suites(...)" })
    );
}

#[test]
fn a_written_attribute_names_suites() {
    let defaults = default_suite_idents();
    assert_eq!(parse_suites("").as_ref(), Ok(&defaults));
    assert_eq!(parse_suites("suites").as_ref(), Ok(&defaults));
    assert_eq!(parse_suites("suites()").as_ref(), Ok(&defaults));
    assert_eq!(
        parse_suites("suites(errors, hot_swap,)"),
        Ok(vec!["errors".to_string(), "hot_swap".to_string()])
    );
    assert_eq!(
        parse_suites("suites(errors, a::b)"),
        Err(SuiteError::Refused(AttributeError {
            element: Some(1),
            message: "suite 需为标识符",
        }))
    );
    assert_eq!(
        parse_suites("suites(errors = 1)"),
        Err(SuiteError::Refused(AttributeError {
            element: Some(0),
            message: "suites(...) 仅接受标识符",
        }))
    );
    for other in ["suite(errors)", "tests", "suites = 3", "a::suites"] {
        assert_eq!(
            parse_suites(other),
            Err(SuiteError::Refused(AttributeError {
                element: None,
                message: "spark_tck 属性仅支持 suites(...)",
            }))
        );
    }
    assert!(matches!(parse_suites("suites(errors hot_swap)"), Err(SuiteError::Syntax(_))));
    assert!(matches!(parse_suites("1 + 1"), Err(SuiteError::Syntax(_))));
}

#[test]
fn an_attribute_of_white_space_and_comments_is_none() {
    let defaults = default_suite_idents();
    for blank in [" ", "\t\n\u{85}", "// all of them\n", "/* a /* b */ */ ", "//// x", "/**/", "/*** x */"] {
        assert!(is_blank(blank), "{blank}");
        assert_eq!(parse_suites(blank).as_ref(), Ok(&defaults));
    }
    for other in ["/// x", "//! x", "/** x */", "/*! x */", "/* a /* b */", "/", "a // b", "\u{a0}"] {
        assert!(!is_blank(other), "{other}");
        assert!(parse_suites(other).is_err());
    }
}

#[test]
fn the_answer_of_the_parser_settles_the_suites() {
    let defaults = default_suite_idents();
    let suites = || Some("suites".to_string());
    let list = |elements| Ok(MetaForm::List { ident: suites(), elements });
    assert_eq!(suites_of(Ok(MetaForm::Path(suites()))).as_ref(), Ok(&defaults));
    assert_eq!(suites_of(list(Ok(Vec::new()))).as_ref(), Ok(&defaults));
    let errors = ElementForm::Path(Some("errors".to_string()));
    assert_eq!(
        list_items(&vec![ElementForm::NameValue, ElementForm::Path(None)]),
        vec![MetaItem::Other, MetaItem::Path]
    );
    assert_eq!(suites_of(list(Ok(vec![errors]))), Ok(vec!["errors".to_string()]));
    assert_eq!(
        suites_of(list(Ok(vec![ElementForm::List]))),
        Err(SuiteError::Refused(AttributeError {
            element: Some(0),
            message: "suites(...) 仅接受标识符",
        }))
    );
    assert_eq!(
        suites_of(list(Err("expected `,`".to_string()))),
        Err(SuiteError::Syntax("expected `,`".to_string()))
    );
    assert_eq!(
        suites_of(Err("expected identifier".to_string())),
        Err(SuiteError::Syntax("expected identifier".to_string()))
    );
    for other in [
        MetaForm::Path(None),
        MetaForm::NameValue,
        MetaForm::List { ident: Some("tests".to_string()), elements: Err("no".to_string()) },
    ] {
        assert!(matches!(
            suites_of(Ok(other)),
            Err(SuiteError::Refused(AttributeError { element: None, .. }))
        ));
    }
}

#[test]
fn deep_attributes_are_not_parsed() {
    let nested = |n: usize| format!("suites{}{}", "(".repeat(n), ")".repeat(n));
    assert!(is_shallow(&nested(256)));
    assert!(!is_shallow(&nested(257)));
    assert!(matches!(read_suites(&nested(256)), Some(Err(_))));
    assert_eq!(read_suites(&nested(257)), None);
    assert_eq!(read_suites("suites(errors)"), Some(Ok(vec!["errors".to_string()])));
    assert!(parse_suites(&nested(256)).is_err());
    let operators = [
        ("(", 1), ("[", 1), ("{", 1), ("!", 1), ("&", 1), ("||", 2), ("<", 1), ("<(", 2),
        ("<[", 2), ("<&", 2), ("a::<", 4), ("<fn(", 3), ("if ", 1), ("match ", 1), ("<dyn ", 2),
        ("move||", 3), ("unsafe{", 2), ("<impl ", 2), ("loop{", 2), ("<A,", 1), ("|a,", 2),
        ("(!,", 2), ("=", 1), ("b=\",\"=", 5),
    ];
    for (operator, depth) in operators {
        let value = format!("suites={}", operator.repeat(29 / depth));
        assert!(is_shallow(&value), "{value}");
        assert!(parse_suites(&value).is_err());
        let listed = format!("suites(a={}", operator.repeat(26 / depth));
        assert!(is_shallow(&listed), "{listed}");
        assert!(parse_suites(&listed).is_err());
        assert!(!is_shallow(&format!("suites={}", operator.repeat(40))), "{operator}");
    }
    let described = "suites = \"what is said of the suites here, at length, is a long text\"";
    assert!(matches!(read_suites(described), Some(Err(SuiteError::Refused(_)))));
    let refused_at = |index| {
        Some(Err(SuiteError::Refused(AttributeError {
            element: Some(index),
            message: "suites(...) 仅接受标识符",
        })))
    };
    let names = vec!["errors"; 40].join(", ");
    assert_eq!(read_suites(&format!("suites({names}, a = 1)")), refused_at(40));
    assert_eq!(read_suites(&format!("suites(a = 1, {names})")), refused_at(0));
    assert_eq!(read_suites(&format!("suites({})", vec!["a = 1"; 100].join(", "))), refused_at(0));
    let long: String = vec!["errors"; 10_000].join(",");
    let many = parse_suites(&format!("suites({long})")).expect("a flat list");
    assert_eq!(many.len(), 10_000);
    assert!(is_shallow(&format!("suites({long},a=1)")));
}

#[test]
fn one_test_is_generated_for_each_suite() {
    let tests = generate_tests(&vec!["errors".to_string(), "hot_reload".to_string()]);
    let tests = tests.expect("plain names");
    assert_eq!(tests.len(), 2);
    assert_eq!(tests[1].test_name, "hot_reload_suite");
    assert_eq!(tests[1].run_path, "spark_contract_tests::run_hot_reload_suite");
    assert_eq!(
        generate_tests(&vec!["errors".to_string(), "r#match".to_string(), "r#if".to_string()]),
        Err("spark_contract_tests::run_r#match_suite".to_string())
    );
    assert!(syn::parse_str::<syn::Path>("spark_contract_tests::run_r#match_suite").is_err());
    assert!(syn::parse_str::<syn::Path>(&tests[0].run_path).is_ok());
}

#[test]
fn tests_are_put_behind_what_a_module_holds() {
    let module = TestModule {
        attributes: vec!["#[cfg(test)]"],
        visibility: "pub",
        name: "tck",
        items: Some(vec!["use a;", "fn b() {}"]),
    };
    let suites = vec!["errors".to_string(), "hot_swap".to_string()];
    let injected = inject_tests(&suites, module).expect("plain names");
    assert_eq!(injected.attributes, vec!["#[cfg(test)]"]);
    assert_eq!(injected.visibility, "pub");
    assert_eq!(injected.name, "tck");
    let test = |name: &str| {
        ModuleItem::Test(GeneratedTest {
            test_name: format!("{name}_suite"),
            run_path: format!("spark_contract_tests::run_{name}_suite"),
        })
    };
    assert_eq!(
        injected.items,
        vec![
            ModuleItem::Kept("use a;"),
            ModuleItem::Kept("fn b() {}"),
            test("errors"),
            test("hot_swap"),
        ]
    );

    let bare: TestModule<(), &str, &str, &str> =
        TestModule { attributes: (), visibility: "", name: "m", items: None };
    let injected = inject_tests(&suites, bare).expect("plain names");
    assert_eq!(injected.items, vec![test("errors"), test("hot_swap")]);
    let bare: TestModule<(), &str, &str, &str> =
        TestModule { attributes: (), visibility: "", name: "m", items: None };
    assert!(inject_tests(&vec!["r#try".to_string()], bare).is_err());
}

#[test]
fn a_verdict_names_the_first_failure() {
    assert_eq!(judge(&Vec::new()), Ok(()));
    let checks = vec![
        Check { holds: true, message: "a" },
        Check { holds: false, message: "b" },
        Check { holds: false, message: "c" },
    ];
    assert_eq!(judge(&checks), Err("b"));
}

#[test]
fn the_last_confirmation_ends_the_channel() {
    let mut state = ManualClosedState::new();
    state.set_pending_steps(2);
    state.register(5);
    assert_eq!(state.ack_step(), None);
    assert!(!state.is_completed());
    assert_eq!(state.ack_step(), Some(5));
    assert!(state.is_completed());
    assert_eq!(state.ack_step(), None);
    assert_eq!(state.complete(), None);
}

#[test]
fn a_failure_is_seen_once() {
    let mut recorder = ChannelRecorder::new();
    recorder.keep_closed_pending();
    assert!(matches!(recorder.poll_closed(1), Poll::Pending));
    assert_eq!(recorder.complete_closed_with_error(injected_error()), Some(1));
    assert!(matches!(recorder.poll_closed(2), Poll::Ready(Err(_))));
    assert!(matches!(recorder.poll_closed(2), Poll::Ready(Ok(()))));
    assert_eq!(recorder.closed_failure_count(), 1);
    assert_eq!(recorder.closed_completions, 0);
    recorder.drop_closed();
    assert_eq!(recorder.closed_drop_count(), 1);
}

fn observe(scenario: &Scenario, mut channel: TestChannel) -> ShutdownObservation {
    channel.close_graceful(scenario.reason(), scenario.deadline);
    channel.closed();
    ShutdownObservation {
        results: vec![GracefulShutdownStatus::Completed],
        forced_count: 0,
        recorder: channel.recorder,
        sleep_calls: Vec::new(),
        ops_events: 1,
        logs: vec![OwnedLog {
            severity: LogLevel::Info,
            message: "graceful shutdown initiated".to_string(),
        }],
        forced_while_waiting: 0,
        waiting: Vec::new(),
    }
}

#[test]
fn an_orderly_shutdown_is_accepted() {
    let scenario = fin_scenario();
    let mut seen = observe(&scenario, scenario.channel());
    assert!(matches!(seen.recorder.poll_closed(1), Poll::Ready(Ok(()))));
    let verdict = channel_fin_invocation_is_forwarded_once(&scenario, &seen);
    assert_eq!(verdict, Ok(()));
    seen.recorder.graceful_calls = 2;
    assert_eq!(
        channel_fin_invocation_is_forwarded_once(&scenario, &seen),
        Err("close_graceful 必须仅触发一次")
    );
}

#[test]
fn a_half_close_waits_for_the_other_side() {
    let scenario = half_close_scenario();
    let mut seen = observe(&scenario, scenario.channel());
    assert!(matches!(seen.recorder.poll_closed(1), Poll::Pending));
    assert_eq!(seen.recorder.complete_closed(), Some(1));
    assert!(matches!(seen.recorder.poll_closed(1), Poll::Ready(Ok(()))));
    assert_eq!(channel_half_close_waits_for_remote_ack(&seen), Ok(()));
    seen.forced_while_waiting = 1;
    assert_eq!(
        channel_half_close_waits_for_remote_ack(&seen),
        Err("等待阶段不应触发硬关闭")
    );
}

#[test]
fn two_confirmations_are_needed() {
    let scenario = dual_ack_scenario();
    let mut seen = observe(&scenario, scenario.channel());
    assert!(matches!(seen.recorder.poll_closed(1), Poll::Pending));
    seen.waiting.push(true);
    assert_eq!(seen.recorder.ack_closed_step(), None);
    assert!(matches!(seen.recorder.poll_closed(1), Poll::Pending));
    seen.waiting.push(true);
    assert_eq!(seen.recorder.ack_closed_step(), Some(1));
    assert!(matches!(seen.recorder.poll_closed(1), Poll::Ready(Ok(()))));
    seen.recorder.drop_closed();
    assert_eq!(channel_half_close_requires_dual_ack_steps(&seen), Ok(()));
    seen.waiting[1] = false;
    assert!(channel_half_close_requires_dual_ack_steps(&seen).is_err());
}

fn force(seen: &mut ShutdownObservation) {
    seen.results = vec![GracefulShutdownStatus::ForcedTimeout];
    seen.forced_count = 1;
    seen.recorder.force_calls = 1;
    seen.logs.push(OwnedLog {
        severity: LogLevel::Warn,
        message: "channel forced to close".to_string(),
    });
}

#[test]
fn an_expired_deadline_forces_at_once() {
    let scenario = expired_scenario();
    let mut seen = observe(&scenario, scenario.channel());
    assert!(expired_deadline_triggers_immediate_force_close(&seen).is_err());
    force(&mut seen);
    assert_eq!(expired_deadline_triggers_immediate_force_close(&seen), Ok(()));
    seen.sleep_calls.push(Duration::from_secs(1));
    assert_eq!(
        expired_deadline_triggers_immediate_force_close(&seen),
        Err("截止时间已过期时不应调用 sleep")
    );
}

#[test]
fn a_stalled_channel_is_forced_after_its_deadline() {
    let scenario = timeout_scenario();
    assert_eq!(scenario.deadline, Some(Duration::from_secs(1)));
    let mut seen = observe(&scenario, scenario.channel());
    assert!(pending_channel_times_out_and_forces_close(&seen).is_err());
    force(&mut seen);
    seen.sleep_calls.push(Duration::from_secs(1));
    seen.recorder.drop_closed();
    assert_eq!(pending_channel_times_out_and_forces_close(&seen), Ok(()));
    seen.sleep_calls[0] = Duration::from_millis(999);
    assert_eq!(
        pending_channel_times_out_and_forces_close(&seen),
        Err("计时器应等待完整的截止时间")
    );
}

#[test]
fn an_error_at_the_end_must_be_reported() {
    let scenario = error_scenario();
    let mut seen = observe(&scenario, scenario.channel());
    assert!(channel_closed_future_error_reports_failure(&seen).is_err());
    assert!(matches!(seen.recorder.poll_closed(1), Poll::Pending));
    seen.waiting.push(true);
    assert_eq!(seen.recorder.complete_closed_with_error(injected_error()), Some(1));
    assert!(matches!(seen.recorder.poll_closed(1), Poll::Ready(Err(_))));
    seen.recorder.drop_closed();
    seen.results = vec![GracefulShutdownStatus::Failed(injected_error())];
    assert_eq!(channel_closed_future_error_reports_failure(&seen), Ok(()));
    seen.recorder.closed_drops = 0;
    assert_eq!(
        channel_closed_future_error_reports_failure(&seen),
        Err("错误返回后 Future 应被释放")
    );
}

#[test]
fn suites_list_their_cases() {
    assert_eq!(graceful_shutdown::suite().name, "graceful_shutdown");
    assert_eq!(graceful_shutdown::suite().cases.len(), 6);
    assert_eq!(hot_swap::suite().cases.len(), 1);
    assert_eq!(
        hot_swap::suite().cases[0].name,
        "hot_swap_inserts_handler_without_dropping_messages"
    );
    assert_eq!(hot_reload::suite().cases.len(), 1);
}

fn observed_reload() -> ReloadObservation {
    let (mut limits, mut timeouts) = initial_settings().expect("settings");
    let readings = reload_twice(&mut limits, &mut timeouts).expect("reload");
    assert_eq!(read_settings(&limits, &timeouts), readings.after_second);
    ReloadObservation {
        start: readings.start,
        after_first: readings.after_first,
        after_second: readings.after_second,
        limits_seen: vec![4_096, 4_096, 2_048],
        request_timeouts_seen: vec![Duration::from_millis(5_000), Duration::from_millis(8_000)],
    }
}

#[test]
fn reloading_switches_limits_and_timeouts_together() {
    let seen = observed_reload();
    assert_eq!(seen.start.connections, 4_096);
    assert_eq!(seen.start.limit_epoch, 0);
    assert_eq!(seen.after_first.connections, 2_048);
    assert_eq!(seen.after_first.request_timeout, Duration::from_millis(8_000));
    assert_eq!(seen.after_first.idle_timeout, Duration::from_millis(60_000));
    assert_eq!(seen.after_second.idle_timeout, Duration::from_millis(30_000));
    assert_eq!(seen.after_second.limit_epoch, 2);
    assert_eq!(seen.after_second.timeout_epoch, 2);
    assert_eq!(request_timeout_key(), "timeouts.request_ms");
    assert_eq!(idle_timeout_key(), "timeouts.idle_ms");
    assert_eq!(hot_reload_limits_and_timeouts_is_atomic_case(&seen), Ok(()));
}

#[test]
fn a_reload_that_is_not_atomic_is_found_out() {
    let verdict = |change: &dyn Fn(&mut ReloadObservation)| {
        let mut seen = observed_reload();
        change(&mut seen);
        hot_reload_limits_and_timeouts_is_atomic_case(&seen)
    };
    assert_eq!(verdict(&|_| {}), Ok(()));
    assert_eq!(
        verdict(&|seen| seen.after_first.limit_epoch = 0),
        Err("首次更新后限额纪元应递增")
    );
    assert_eq!(
        verdict(&|seen| seen.after_first.timeout_epoch = 0),
        Err("首次更新后超时纪元应递增")
    );
    assert_eq!(
        verdict(&|seen| seen.after_second.limit_epoch = 1),
        Err("再次更新后限额纪元应递增")
    );
    assert_eq!(
        verdict(&|seen| seen.after_second.timeout_epoch = 1),
        Err("再次更新后超时纪元应递增")
    );
    assert_eq!(verdict(&|seen| seen.after_second.connections = 4_096), Err("最终限额应为 2048"));
    assert_eq!(
        verdict(&|seen| seen.after_second.request_timeout = Duration::from_millis(5_000)),
        Err("最终请求超时应为 8000 毫秒")
    );
    assert_eq!(
        verdict(&|seen| seen.after_second.idle_timeout = Duration::from_millis(60_000)),
        Err("最终空闲超时应为 30000 毫秒")
    );
    assert_eq!(verdict(&|seen| seen.limits_seen.push(0)), Err("读线程应始终看到合法限额"));
    assert_eq!(
        verdict(&|seen| seen.request_timeouts_seen.push(Duration::from_millis(0))),
        Err("读线程应始终看到合法超时")
    );
}

#[test]
fn only_messages_of_the_case_are_noted() {
    let handler = RecordingInbound::new("tls");
    let mut events = vec!["before".to_string()];
    let other = || PipelineMessage::User(UserMessage { kind: "other".to_string(), number: 7 });
    assert_eq!(handler.on_read(&mut events, other()), other());
    let raw = || PipelineMessage::Buffer(OwnedReadableBuffer::new(vec![1, 2]));
    assert_eq!(handler.on_read(&mut events, raw()), raw());
    assert_eq!(events, vec!["before".to_string()]);
    assert_eq!(handler.on_read(&mut events, test_message(7)), test_message(7));
    assert_eq!(events, vec!["before".to_string(), "tls:7".to_string()]);
}

#[test]
fn the_steps_of_a_swap_lead_to_a_favourable_verdict() {
    let mut chain: Vec<(&str, RecordingInbound)> = Vec::new();
    let mut events = Vec::new();
    let mut looks: Vec<Vec<String>> = Vec::new();
    let mut found = None;
    let mut epoch = 0;
    for step in swap_steps() {
        match step {
            SwapStep::Register { label, name } => chain.push((label, RecordingInbound::new(name))),
            SwapStep::Emit { id } => {
                let mut message = test_message(id);
                for (_, handler) in &chain {
                    message = handler.on_read(&mut events, message);
                }
            }
            SwapStep::Look => looks.push(events.clone()),
            SwapStep::Find { label } => found = chain.iter().position(|(l, _)| *l == label),
            SwapStep::AddAfterFound { label, name } => {
                let anchor = found.expect("found");
                chain.insert(anchor + 1, (label, RecordingInbound::new(name)));
                epoch += 1;
            }
        }
    }
    assert_eq!(chain[1].0, "logging");
    let seen = SwapObservation {
        events_before: looks[0].clone(),
        first_registered: found.is_some(),
        new_handle_is_head: false,
        epoch_before: 0,
        epoch_after: epoch,
        events_after: looks[1].clone(),
    };
    assert_eq!(hot_swap_inserts_handler_without_dropping_messages(&seen), Ok(()));
}

/// Goes through the steps of a case with a coordinator that does what it should: it asks the
/// channel to close, and waits for its end.
fn go_through(scenario: &Scenario, steps: Vec<CaseStep>) -> ShutdownObservation {
    let mut channel = scenario.channel();
    let mut progress = CaseProgress::new();
    let mut report = None;
    assert_eq!(
        take_step(CaseStep::AwaitFin, &mut channel.recorder, true, &mut progress),
        StepOutcome::NotYet
    );
    channel.close_graceful(scenario.reason(), scenario.deadline);
    channel.closed();
    for step in steps {
        if report.is_none() {
            if let Poll::Ready(result) = channel.recorder.poll_closed(3) {
                channel.recorder.drop_closed();
                report = Some(result);
            }
        }
        match take_step(step, &mut channel.recorder, report.is_none(), &mut progress) {
            StepOutcome::NotYet => panic!("the channel was asked to close"),
            StepOutcome::Done(woken) => {
                let ends = channel.recorder.closed_state.completed;
                assert_eq!(woken, if ends { Some(3) } else { None });
            }
            StepOutcome::AwaitReport => assert_eq!(step, CaseStep::Join),
        }
    }
    let status = match report.expect("the channel has ended") {
        Ok(()) => GracefulShutdownStatus::Completed,
        Err(error) => GracefulShutdownStatus::Failed(error),
    };
    ShutdownObservation {
        results: vec![status],
        forced_count: 0,
        recorder: channel.recorder,
        sleep_calls: Vec::new(),
        ops_events: 1,
        logs: Vec::new(),
        forced_while_waiting: progress.forced_while_waiting,
        waiting: progress.waiting,
    }
}

#[test]
fn the_steps_of_shutdown_cases_lead_to_favourable_verdicts() {
    assert_eq!(direct_steps(), vec![CaseStep::Join]);
    let seen = go_through(&half_close_scenario(), half_close_steps());
    assert_eq!(seen.waiting, vec![true]);
    assert_eq!(channel_half_close_waits_for_remote_ack(&seen), Ok(()));
    let seen = go_through(&dual_ack_scenario(), dual_ack_steps());
    assert_eq!(seen.waiting, vec![true, true]);
    assert_eq!(channel_half_close_requires_dual_ack_steps(&seen), Ok(()));
    let seen = go_through(&error_scenario(), error_steps());
    assert_eq!(channel_closed_future_error_reports_failure(&seen), Ok(()));
}

#[test]
fn the_first_look_counts_how_often_a_channel_was_forced() {
    let mut channel = half_close_scenario().channel();
    let mut progress = CaseProgress::new();
    channel.close();
    take_step(CaseStep::Look, &mut channel.recorder, true, &mut progress);
    channel.close();
    take_step(CaseStep::Look, &mut channel.recorder, false, &mut progress);
    assert_eq!(progress, CaseProgress { forced_while_waiting: 1, waiting: vec![true, false] });
}

#[test]
fn a_swapped_in_handler_sees_every_later_message() {
    let tls = RecordingInbound::new("tls");
    let log = RecordingInbound::new("log");
    let mut events = Vec::new();
    tls.on_read(&mut events, test_message(1));
    let events_before = events.clone();
    let forwarded = tls.on_read(&mut events, test_message(2));
    log.on_read(&mut events, forwarded);
    let mut seen = SwapObservation {
        events_before,
        first_registered: true,
        new_handle_is_head: false,
        epoch_before: 1,
        epoch_after: 2,
        events_after: events,
    };
    assert_eq!(hot_swap_inserts_handler_without_dropping_messages(&seen), Ok(()));
    seen.epoch_after = 1;
    assert_eq!(
        hot_swap_inserts_handler_without_dropping_messages(&seen),
        Err("插入后 epoch 应自增")
    );
}
