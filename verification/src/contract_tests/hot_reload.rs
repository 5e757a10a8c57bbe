//! The suite on settings that change while the system runs.
use vstd::prelude::*;

use crate::contract_tests::case::{
    case_names, judge, law_favourable_means_everything_holds, verdict, Check, TckCase, TckSuite,
};
use crate::contract_tests::graceful_shutdown::check;
use crate::runtime::configuration::{
    changed, ChangeQueue, ConfigChange, ConfigValue, ConfigView, ResolvedConfiguration,
};
use crate::runtime::limits::{
    limit_entry, limit_key, limit_of, LimitConfigError, LimitRuntimeConfig, LimitRuntimeView,
    LimitSettings, ResourceKind,
};
use crate::runtime::timeouts::{
    timeouts_of, TimeoutConfigError, TimeoutField, TimeoutRuntimeConfig, TimeoutRuntimeView,
    TimeoutSettings, TimeoutsView,
};
use crate::task::Poll;
use crate::time::duration::{Duration, NANOS_PER_MILLI};

verus! {

/// The suite.
pub fn suite() -> (suite: TckSuite)
    ensures
        suite.name == "hot_reload",
        case_names(suite) == seq!["hot_reload_limits_and_timeouts_is_atomic_case"],
{
    let mut cases: Vec<TckCase> = Vec::new();
    cases.push(TckCase { name: "hot_reload_limits_and_timeouts_is_atomic_case" });
    let suite = TckSuite { name: "hot_reload", cases };
    proof {
        assert(case_names(suite) =~= seq!["hot_reload_limits_and_timeouts_is_atomic_case"]);
    }
    suite
}

/// The name of the entry of the request timeout.
pub fn request_timeout_key() -> (name: String)
    ensures
        name@ == TimeoutField::Request.entry(),
{
    TimeoutField::Request.entry_name().to_owned()
}

/// The name of the entry of the idle timeout.
pub fn idle_timeout_key() -> (name: String)
    ensures
        name@ == TimeoutField::Idle.entry(),
{
    TimeoutField::Idle.entry_name().to_owned()
}

/// Why a change of the configuration could not be carried out.
#[derive(Clone, Copy, Debug, PartialEq, Eq)]
pub enum ReloadError {
    Limits(LimitConfigError),
    Timeouts(TimeoutConfigError),
    /// No change waits that could be carried out.
    NothingWaits,
}

/// Carries a configuration over to limits and timeouts. Limits come first; where they cannot be
/// read the timeouts stay as they are.
pub fn apply_update(
    config: &ResolvedConfiguration,
    limits: &mut LimitRuntimeConfig,
    timeouts: &mut TimeoutRuntimeConfig,
) -> (r: Result<(), ReloadError>)
    ensures
        final(limits)@ == old(limits)@.updated(config@),
        match limit_of(config@, ResourceKind::Connections) {
            Err(error) => r == Err::<(), ReloadError>(ReloadError::Limits(error))
                && final(timeouts)@ == old(timeouts)@,
            Ok(_) => final(timeouts)@ == old(timeouts)@.updated(config@) && match timeouts_of(
                config@,
            ) {
                Err(error) => r == Err::<(), ReloadError>(ReloadError::Timeouts(error)),
                Ok(_) => r is Ok,
            },
        },
{
    match limits.update_from_configuration(config) {
        Ok(_) => {},
        Err(error) => {
            return Err(ReloadError::Limits(error));
        },
    }
    match timeouts.update_from_configuration(config) {
        Ok(_) => Ok(()),
        Err(error) => Err(ReloadError::Timeouts(error)),
    }
}

/// Takes the next batch of changes off the queue and makes it.
pub fn wait_for_update(
    queue: &mut ChangeQueue,
    config: &mut ResolvedConfiguration,
) -> (r: Result<(), ReloadError>)
    ensures
        old(queue)@.len() == 0 ==> r == Err::<(), ReloadError>(ReloadError::NothingWaits)
            && final(queue)@ == old(queue)@ && final(config)@ == old(config)@,
        old(queue)@.len() > 0 ==> r is Ok && final(queue)@ == old(queue)@.skip(1) && final(config)@ == changed(old(config)@, old(queue)@[0]@),
{
    match queue.poll_next() {
        Poll::Ready(changes) => {
            config.apply(&changes);
            Ok(())
        },
        Poll::Pending => Err(ReloadError::NothingWaits),
    }
}

/// What the settings are at one point of a reload.
#[derive(Clone, Copy, Debug, PartialEq, Eq)]
pub struct SettingsReading {
    pub limit_epoch: u64,
    pub timeout_epoch: u64,
    pub connections: u64,
    pub request_timeout: Duration,
    pub idle_timeout: Duration,
}

/// Whether a reading tells what limits and timeouts are.
pub open spec fn reads(
    reading: SettingsReading,
    limits: LimitRuntimeView,
    timeouts: TimeoutRuntimeView,
) -> bool {
    &&& reading.limit_epoch == limits.epoch
    &&& reading.timeout_epoch == timeouts.epoch
    &&& reading.connections == limits.connections
    &&& reading.request_timeout@ == timeouts.timeouts.request
    &&& reading.idle_timeout@ == timeouts.timeouts.idle
}

/// Reads limits and timeouts.
pub fn read_settings(
    limits: &LimitRuntimeConfig,
    timeouts: &TimeoutRuntimeConfig,
) -> (reading: SettingsReading)
    ensures
        reads(reading, limits@, timeouts@),
{
    let snapshot = timeouts.snapshot();
    SettingsReading {
        limit_epoch: limits.config_epoch(),
        timeout_epoch: timeouts.config_epoch(),
        connections: limits.snapshot().plan(ResourceKind::Connections).limit(),
        request_timeout: snapshot.request_timeout(),
        idle_timeout: snapshot.idle_timeout(),
    }
}

/// The three entries that the case works with.
pub open spec fn entries(limit: i64, request_ms: i64, idle_ms: i64) -> Map<Seq<char>, ConfigView> {
    Map::<Seq<char>, ConfigView>::empty().insert(
        limit_entry(ResourceKind::Connections),
        ConfigView::Integer(limit),
    ).insert(TimeoutField::Request.entry(), ConfigView::Integer(request_ms)).insert(
        TimeoutField::Idle.entry(),
        ConfigView::Integer(idle_ms),
    )
}

proof fn lemma_entries_differ()
    ensures
        limit_entry(ResourceKind::Connections) != TimeoutField::Request.entry(),
        limit_entry(ResourceKind::Connections) != TimeoutField::Idle.entry(),
        TimeoutField::Request.entry() != TimeoutField::Idle.entry(),
{
    reveal_strlit("limits.");
    reveal_strlit("connections");
    reveal_strlit(".limit");
    reveal_strlit("timeouts.request_ms");
    reveal_strlit("timeouts.idle_ms");
    assert(limit_entry(ResourceKind::Connections)[0] == 'l');
    assert(TimeoutField::Request.entry()[0] == 't');
    assert(TimeoutField::Idle.entry()[0] == 't');
    assert(TimeoutField::Request.entry().len() == 19);
    assert(TimeoutField::Idle.entry().len() == 16);
}

/// What the entries mean.
pub(crate) proof fn lemma_entries(limit: i64, request_ms: i64, idle_ms: i64)
    requires
        limit > 0,
        request_ms > 0,
        idle_ms > 0,
    ensures
        limit_of(entries(limit, request_ms, idle_ms), ResourceKind::Connections) == Ok::<
            u64,
            LimitConfigError,
        >(limit as u64),
        timeouts_of(entries(limit, request_ms, idle_ms)) == Ok::<TimeoutsView, TimeoutConfigError>(
            TimeoutsView {
                request: (request_ms * NANOS_PER_MILLI) as nat,
                idle: (idle_ms * NANOS_PER_MILLI) as nat,
            },
        ),
{
    lemma_entries_differ();
}

/// What changing one of the entries does.
proof fn lemma_changed_entries(limit: i64, request_ms: i64, idle_ms: i64, v: i64)
    ensures
        entries(limit, request_ms, idle_ms).insert(
            limit_entry(ResourceKind::Connections),
            ConfigView::Integer(v),
        ) == entries(v, request_ms, idle_ms),
        entries(limit, request_ms, idle_ms).insert(
            TimeoutField::Request.entry(),
            ConfigView::Integer(v),
        ) == entries(limit, v, idle_ms),
        entries(limit, request_ms, idle_ms).insert(
            TimeoutField::Idle.entry(),
            ConfigView::Integer(v),
        ) == entries(limit, request_ms, v),
{
    lemma_entries_differ();
    assert(entries(limit, request_ms, idle_ms).insert(
        limit_entry(ResourceKind::Connections),
        ConfigView::Integer(v),
    ) =~= entries(v, request_ms, idle_ms));
    assert(entries(limit, request_ms, idle_ms).insert(
        TimeoutField::Request.entry(),
        ConfigView::Integer(v),
    ) =~= entries(limit, v, idle_ms));
    assert(entries(limit, request_ms, idle_ms).insert(
        TimeoutField::Idle.entry(),
        ConfigView::Integer(v),
    ) =~= entries(limit, request_ms, v));
}

fn change(name: String, value: i64) -> (change: ConfigChange)
    ensures
        change.name@ == name@,
        change.value@ == ConfigView::Integer(value),
{
    ConfigChange { name, value: ConfigValue::Integer(value) }
}

/// The configuration that the case begins with.
pub fn initial_configuration() -> (config: ResolvedConfiguration)
    ensures
        config@ == entries(4_096, 5_000, 60_000),
{
    let mut config = ResolvedConfiguration::new();
    let mut changes: Vec<ConfigChange> = Vec::new();
    changes.push(change(limit_key(ResourceKind::Connections), 4_096));
    changes.push(change(request_timeout_key(), 5_000));
    changes.push(change(idle_timeout_key(), 60_000));
    config.apply(&changes);
    proof {
        reveal_with_fuel(changed, 4);
        assert(changes@.drop_last().drop_last().drop_last().len() == 0);
        assert(config@ =~= entries(4_096, 5_000, 60_000));
    }
    config
}

/// The limits and the timeouts that the case begins with.
pub fn initial_settings() -> (r: Result<(LimitRuntimeConfig, TimeoutRuntimeConfig), ReloadError>)
    ensures
        r is Ok,
        (r->Ok_0).0@ == (LimitRuntimeView { connections: 4_096, epoch: 0 }),
        (r->Ok_0).1@ == (TimeoutRuntimeView {
            timeouts: TimeoutsView {
                request: (5_000 * NANOS_PER_MILLI) as nat,
                idle: (60_000 * NANOS_PER_MILLI) as nat,
            },
            epoch: 0,
            component: None,
        }),
{
    let config = initial_configuration();
    proof {
        lemma_entries(4_096, 5_000, 60_000);
    }
    let limits = match LimitSettings::from_configuration(&config) {
        Ok(settings) => settings,
        Err(error) => {
            return Err(ReloadError::Limits(error));
        },
    };
    match TimeoutSettings::from_configuration(&config) {
        Ok(settings) => Ok((LimitRuntimeConfig::new(limits), TimeoutRuntimeConfig::new(settings))),
        Err(error) => Err(ReloadError::Timeouts(error)),
    }
}

/// The first batch of changes of the case: the limit and the request timeout at once.
pub fn first_changes() -> (changes: Vec<ConfigChange>)
    ensures
        changes@.len() == 2,
        changes@[0].name@ == limit_entry(ResourceKind::Connections),
        changes@[0].value@ == ConfigView::Integer(2_048),
        changes@[1].name@ == TimeoutField::Request.entry(),
        changes@[1].value@ == ConfigView::Integer(8_000),
{
    let mut changes: Vec<ConfigChange> = Vec::new();
    changes.push(change(limit_key(ResourceKind::Connections), 2_048));
    changes.push(change(request_timeout_key(), 8_000));
    changes
}

/// The second batch of changes of the case: the idle timeout.
pub fn second_changes() -> (changes: Vec<ConfigChange>)
    ensures
        changes@.len() == 1,
        changes@[0].name@ == TimeoutField::Idle.entry(),
        changes@[0].value@ == ConfigView::Integer(30_000),
{
    let mut changes: Vec<ConfigChange> = Vec::new();
    changes.push(change(idle_timeout_key(), 30_000));
    changes
}

/// What was seen of limits and timeouts that were switched twice: the settings at the start and
/// after each update, and every snapshot that a reader took meanwhile.
#[derive(Debug)]
pub struct ReloadObservation {
    pub start: SettingsReading,
    pub after_first: SettingsReading,
    pub after_second: SettingsReading,
    /// The connection limit of each snapshot of the limits.
    pub limits_seen: Vec<u64>,
    /// The request timeout of each snapshot of the timeouts.
    pub request_timeouts_seen: Vec<Duration>,
}

/// Whether every limit is more than none.
pub open spec fn all_limits_positive(limits: Seq<u64>) -> bool {
    forall|i: int| 0 <= i < limits.len() ==> #[trigger] limits[i] > 0
}

/// Whether every timeout is more than none.
pub open spec fn all_timeouts_positive(timeouts: Seq<Duration>) -> bool {
    forall|i: int| 0 <= i < timeouts.len() ==> (#[trigger] timeouts[i])@ > 0
}

fn limits_positive(limits: &Vec<u64>) -> (positive: bool)
    ensures
        positive == all_limits_positive(limits@),
{
    let mut i: usize = 0;
    while i < limits.len()
        invariant
            i <= limits@.len(),
            forall|k: int| 0 <= k < i ==> #[trigger] limits@[k] > 0,
        decreases limits.len() - i,
    {
        if limits[i] == 0 {
            return false;
        }
        i = i + 1;
    }
    true
}

fn timeouts_positive(timeouts: &Vec<Duration>) -> (positive: bool)
    ensures
        positive == all_timeouts_positive(timeouts@),
{
    let mut i: usize = 0;
    while i < timeouts.len()
        invariant
            i <= timeouts@.len(),
            forall|k: int| 0 <= k < i ==> (#[trigger] timeouts@[k])@ > 0,
        decreases timeouts.len() - i,
    {
        if timeouts[i].is_zero() {
            return false;
        }
        i = i + 1;
    }
    true
}

/// What the case demands: each update moves both epochs on, in the end the latest values are in
/// force, and no reader ever saw a limit or a timeout of none.
pub open spec fn reload_checks(seen: ReloadObservation) -> Seq<Check> {
    seq![
        check(seen.after_first.limit_epoch > seen.start.limit_epoch, "首次更新后限额纪元应递增"),
        check(
            seen.after_first.timeout_epoch > seen.start.timeout_epoch,
            "首次更新后超时纪元应递增",
        ),
        check(
            seen.after_second.limit_epoch > seen.after_first.limit_epoch,
            "再次更新后限额纪元应递增",
        ),
        check(
            seen.after_second.timeout_epoch > seen.after_first.timeout_epoch,
            "再次更新后超时纪元应递增",
        ),
        check(seen.after_second.connections == 2_048, "最终限额应为 2048"),
        check(
            seen.after_second.request_timeout@ == 8_000 * NANOS_PER_MILLI,
            "最终请求超时应为 8000 毫秒",
        ),
        check(
            seen.after_second.idle_timeout@ == 30_000 * NANOS_PER_MILLI,
            "最终空闲超时应为 30000 毫秒",
        ),
        check(all_limits_positive(seen.limits_seen@), "读线程应始终看到合法限额"),
        check(
            all_timeouts_positive(seen.request_timeouts_seen@),
            "读线程应始终看到合法超时",
        ),
    ]
}

/// The verdict on the case.
pub fn hot_reload_limits_and_timeouts_is_atomic_case(seen: &ReloadObservation) -> (r: Result<
    (),
    &'static str,
>)
    ensures
        r == verdict(reload_checks(*seen)),
{
    let (start, first, second) = (&seen.start, &seen.after_first, &seen.after_second);
    let mut checks: Vec<Check> = Vec::new();
    checks.push(
        Check {
            holds: first.limit_epoch > start.limit_epoch,
            message: "首次更新后限额纪元应递增",
        },
    );
    checks.push(
        Check {
            holds: first.timeout_epoch > start.timeout_epoch,
            message: "首次更新后超时纪元应递增",
        },
    );
    checks.push(
        Check {
            holds: second.limit_epoch > first.limit_epoch,
            message: "再次更新后限额纪元应递增",
        },
    );
    checks.push(
        Check {
            holds: second.timeout_epoch > first.timeout_epoch,
            message: "再次更新后超时纪元应递增",
        },
    );
    checks.push(Check { holds: second.connections == 2_048, message: "最终限额应为 2048" });
    checks.push(
        Check {
            holds: second.request_timeout.as_nanos() == 8_000 * NANOS_PER_MILLI,
            message: "最终请求超时应为 8000 毫秒",
        },
    );
    checks.push(
        Check {
            holds: second.idle_timeout.as_nanos() == 30_000 * NANOS_PER_MILLI,
            message: "最终空闲超时应为 30000 毫秒",
        },
    );
    checks.push(
        Check {
            holds: limits_positive(&seen.limits_seen),
            message: "读线程应始终看到合法限额",
        },
    );
    checks.push(
        Check {
            holds: timeouts_positive(&seen.request_timeouts_seen),
            message: "读线程应始终看到合法超时",
        },
    );
    proof {
        assert(checks@ =~= reload_checks(*seen));
    }
    judge(&checks)
}

/// The three readings of a reload.
#[derive(Clone, Copy, Debug, PartialEq, Eq)]
pub struct ReloadReadings {
    pub start: SettingsReading,
    pub after_first: SettingsReading,
    pub after_second: SettingsReading,
}

/// The configuration after the first batch of changes.
pub open spec fn first_configuration() -> Map<Seq<char>, ConfigView> {
    entries(2_048, 8_000, 60_000)
}

/// The configuration after the second batch of changes.
pub open spec fn second_configuration() -> Map<Seq<char>, ConfigView> {
    entries(2_048, 8_000, 30_000)
}

/// Switches limits and timeouts twice, as the case does: from the configuration that it begins
/// with, by the limit and the request timeout at once, and then by the idle timeout. Both are
/// switched by each update, whatever they were before.
pub fn reload_twice(
    limits: &mut LimitRuntimeConfig,
    timeouts: &mut TimeoutRuntimeConfig,
) -> (r: Result<ReloadReadings, ReloadError>)
    ensures
        r is Ok,
        final(limits)@ == old(limits)@.updated(first_configuration()).updated(
            second_configuration(),
        ),
        final(timeouts)@ == old(timeouts)@.updated(first_configuration()).updated(
            second_configuration(),
        ),
        reads(r->Ok_0.start, old(limits)@, old(timeouts)@),
        reads(
            r->Ok_0.after_first,
            old(limits)@.updated(first_configuration()),
            old(timeouts)@.updated(first_configuration()),
        ),
        reads(r->Ok_0.after_second, final(limits)@, final(timeouts)@),
{
    let mut config = initial_configuration();
    proof {
        lemma_entries(2_048, 8_000, 60_000);
        lemma_entries(2_048, 8_000, 30_000);
        lemma_changed_entries(4_096, 5_000, 60_000, 2_048);
        lemma_changed_entries(2_048, 5_000, 60_000, 8_000);
        lemma_changed_entries(2_048, 8_000, 60_000, 30_000);
    }
    let mut queue = ChangeQueue::new();
    let start = read_settings(limits, timeouts);

    let batch = first_changes();
    let ghost first = batch@;
    queue.push(batch);
    match wait_for_update(&mut queue, &mut config) {
        Ok(_) => {},
        Err(error) => {
            return Err(error);
        },
    }
    proof {
        reveal_with_fuel(changed, 3);
        assert(first.drop_last().drop_last().len() == 0);
        assert(config@ == first_configuration());
    }
    match apply_update(&config, limits, timeouts) {
        Ok(_) => {},
        Err(error) => {
            return Err(error);
        },
    }
    let after_first = read_settings(limits, timeouts);

    let batch = second_changes();
    let ghost second = batch@;
    queue.push(batch);
    match wait_for_update(&mut queue, &mut config) {
        Ok(_) => {},
        Err(error) => {
            return Err(error);
        },
    }
    proof {
        reveal_with_fuel(changed, 2);
        assert(second.drop_last().len() == 0);
        assert(config@ == second_configuration());
    }
    match apply_update(&config, limits, timeouts) {
        Ok(_) => {},
        Err(error) => {
            return Err(error);
        },
    }
    let after_second = read_settings(limits, timeouts);
    Ok(ReloadReadings { start, after_first, after_second })
}

/// Whether a snapshot of the limits is one of those that a reader can come across while they are
/// switched twice.
pub open spec fn limits_in_force(start: LimitRuntimeView, seen: u64) -> bool {
    ||| seen == start.connections
    ||| seen == start.updated(first_configuration()).connections
    ||| seen == start.updated(first_configuration()).updated(second_configuration()).connections
}

/// Whether a request timeout is one of those that a reader can come across while the timeouts are
/// switched twice.
pub open spec fn request_timeout_in_force(start: TimeoutRuntimeView, seen: nat) -> bool {
    ||| seen == start.timeouts.request
    ||| seen == start.updated(first_configuration()).timeouts.request
    ||| seen == start.updated(first_configuration()).updated(
        second_configuration(),
    ).timeouts.request
}

/// The settings of the library pass the case. Whatever limits and timeouts above none they begin
/// with, and whenever the readers look, the verdict on switching them twice is favourable.
pub proof fn law_settings_are_switched_atomically(
    limits: LimitRuntimeView,
    timeouts: TimeoutRuntimeView,
    seen: ReloadObservation,
)
    requires
        limits.connections > 0,
        timeouts.timeouts.request > 0,
        limits.epoch <= u64::MAX - 2,
        timeouts.epoch <= u64::MAX - 2,
        reads(seen.start, limits, timeouts),
        reads(
            seen.after_first,
            limits.updated(first_configuration()),
            timeouts.updated(first_configuration()),
        ),
        reads(
            seen.after_second,
            limits.updated(first_configuration()).updated(second_configuration()),
            timeouts.updated(first_configuration()).updated(second_configuration()),
        ),
        forall|i: int|
            0 <= i < seen.limits_seen@.len() ==> limits_in_force(
                limits,
                #[trigger] seen.limits_seen@[i],
            ),
        forall|i: int|
            0 <= i < seen.request_timeouts_seen@.len() ==> request_timeout_in_force(
                timeouts,
                (#[trigger] seen.request_timeouts_seen@[i])@,
            ),
    ensures
        verdict(reload_checks(seen)) is Ok,
{
    lemma_entries(2_048, 8_000, 60_000);
    lemma_entries(2_048, 8_000, 30_000);
    law_favourable_means_everything_holds(reload_checks(seen));
}

/// A favourable verdict means what the case promises: both epochs rose at each update, the latest
/// values are in force in the end, and every reader saw legal settings.
pub proof fn law_favourable_reload_is_atomic(seen: ReloadObservation)
    ensures
        verdict(reload_checks(seen)) is Ok <==> {
            &&& seen.start.limit_epoch < seen.after_first.limit_epoch
            &&& seen.after_first.limit_epoch < seen.after_second.limit_epoch
            &&& seen.start.timeout_epoch < seen.after_first.timeout_epoch
            &&& seen.after_first.timeout_epoch < seen.after_second.timeout_epoch
            &&& seen.after_second.connections == 2_048
            &&& seen.after_second.request_timeout@ == 8_000 * NANOS_PER_MILLI
            &&& seen.after_second.idle_timeout@ == 30_000 * NANOS_PER_MILLI
            &&& all_limits_positive(seen.limits_seen@)
            &&& all_timeouts_positive(seen.request_timeouts_seen@)
        },
{
    law_favourable_means_everything_holds(reload_checks(seen));
    let checks = reload_checks(seen);
    if verdict(checks) is Ok {
        assert(checks[0].holds && checks[1].holds && checks[2].holds && checks[3].holds);
        assert(checks[4].holds && checks[5].holds && checks[6].holds && checks[7].holds);
        assert(checks[8].holds);
    }
}

} // verus!
