use std::sync::Arc;

use spark::contract_tests::runtime_double::{
    build_core_services, NoopBufferPool, ReadyHandle, TestLogger, TestOpsBus, TestRuntime,
};
use spark::error::ErrorCode;
use spark::observability::LogLevel;
use spark::runtime::configuration::{
    ChangeQueue, ConfigChange, ConfigValue, ResolvedConfiguration,
};
use spark::runtime::executor::{
    restore_output, spawn, ErasedHandle, TaskError, TaskExecutor,
};
use spark::runtime::hotreload::{HotReloadApplyTimer, HotReloadObservability, HotReloadPoint};
use spark::runtime::limits::{
    limit_key, LimitConfigError, LimitRuntimeConfig, LimitSettings, ResourceKind,
};
use spark::runtime::services::{
    CoreServices, DefaultObservabilityFacade, LegacyObservabilityHandles, ObservabilityFacade,
};
use spark::runtime::timeouts::{
    TimeoutConfigError, TimeoutField, TimeoutRuntimeConfig, TimeoutSettings,
};
use spark::task::Poll;
use spark::time::duration::{Duration, Instant};

fn configuration(entries: &[(&str, ConfigValue)]) -> ResolvedConfiguration {
    let mut config = ResolvedConfiguration::new();
    let changes: Vec<ConfigChange> = entries
        .iter()
        .map(|(name, value)| ConfigChange { name: name.to_string(), value: value.clone() })
        .collect();
    config.apply(&changes);
    config
}

#[test]
fn timeouts_default_where_nothing_is_configured() {
    let settings =
        TimeoutSettings::from_configuration(&ResolvedConfiguration::new()).expect("defaults");
    assert_eq!(settings.request_timeout(), Duration::from_secs(5));
    assert_eq!(settings.idle_timeout(), Duration::from_secs(60));
    let settings = TimeoutSettings::default();
    assert_eq!(settings.request_timeout(), Duration::from_secs(5));
    assert_eq!(settings.idle_timeout(), Duration::from_secs(60));
}

#[test]
fn timeouts_are_read_in_milliseconds() {
    let config = configuration(&[
        ("timeouts.request_ms", ConfigValue::Integer(250)),
        ("timeouts.idle_ms", ConfigValue::Integer(1)),
    ]);
    let settings = TimeoutSettings::from_configuration(&config).expect("configured");
    assert_eq!(settings.request_timeout(), Duration::from_millis(250));
    assert_eq!(settings.idle_timeout(), Duration::from_millis(1));
}

#[test]
fn timeouts_must_be_positive_numbers() {
    let config = configuration(&[
        ("timeouts.request_ms", ConfigValue::Integer(0)),
        ("timeouts.idle_ms", ConfigValue::Text("soon".to_string())),
    ]);
    assert_eq!(
        TimeoutSettings::from_configuration(&config).expect_err("zero"),
        TimeoutConfigError::NonPositiveDuration { field: TimeoutField::Request, provided: 0 }
    );
    let config = configuration(&[("timeouts.idle_ms", ConfigValue::Boolean(true))]);
    assert_eq!(
        TimeoutSettings::from_configuration(&config).expect_err("not a number"),
        TimeoutConfigError::InvalidValueType { field: TimeoutField::Idle, expected: "integer" }
    );
    assert_eq!(TimeoutField::Request.to_text(), "timeouts.request");
    assert_eq!(TimeoutField::Idle.to_text(), "timeouts.idle");
    assert_eq!(TimeoutField::Request.entry_name(), "timeouts.request_ms");
    assert_eq!(TimeoutField::Idle.entry_name(), "timeouts.idle_ms");
}

#[test]
fn a_switch_is_read_back_and_counted() {
    let mut timeouts = TimeoutRuntimeConfig::new(TimeoutSettings::default());
    assert_eq!(timeouts.config_epoch(), 0);
    timeouts.replace(TimeoutSettings::new(Duration::from_secs(1), Duration::from_secs(2)));
    assert_eq!(timeouts.snapshot().request_timeout(), Duration::from_secs(1));
    assert_eq!(timeouts.config_epoch(), 1);

    let bad = configuration(&[("timeouts.request_ms", ConfigValue::Integer(-3))]);
    assert!(timeouts.update_from_configuration(&bad).is_err());
    assert_eq!(timeouts.config_epoch(), 1);
    assert_eq!(timeouts.snapshot().idle_timeout(), Duration::from_secs(2));

    let good = configuration(&[("timeouts.request_ms", ConfigValue::Integer(30))]);
    timeouts.update_from_configuration(&good).expect("update");
    assert_eq!(timeouts.config_epoch(), 2);
    assert_eq!(timeouts.snapshot().request_timeout(), Duration::from_millis(30));
    assert_eq!(timeouts.snapshot().idle_timeout(), Duration::from_secs(60));
}

#[test]
fn a_fenced_switch_is_measured() {
    let mut timeouts =
        TimeoutRuntimeConfig::with_observability(TimeoutSettings::default(), "timeouts".to_string());
    let begun = Instant::at(Duration::from_secs(1));
    let done = Instant::at(Duration::from_millis(1_250));
    let points = timeouts.replace_with_fence(
        TimeoutSettings::default(),
        HotReloadApplyTimer::start(begun),
        done,
    );
    assert_eq!(
        points,
        vec![
            HotReloadPoint::Epoch { component: "timeouts".to_string(), epoch: 1 },
            HotReloadPoint::Latency {
                component: "timeouts".to_string(),
                latency: Duration::from_millis(250),
            },
        ]
    );
    let points = timeouts
        .update_from_configuration_with_fence(
            &ResolvedConfiguration::new(),
            HotReloadApplyTimer::start(done),
            begun,
        )
        .expect("update");
    assert_eq!(
        points[1],
        HotReloadPoint::Latency {
            component: "timeouts".to_string(),
            latency: Duration::from_secs(0),
        }
    );
    assert!(HotReloadObservability::new().record(7, None).is_empty());
    assert_eq!(
        HotReloadObservability::with_component("c".to_string()).record(7, None),
        vec![HotReloadPoint::Epoch { component: "c".to_string(), epoch: 7 }]
    );
}

#[test]
fn limits_are_positive_numbers() {
    let key = limit_key(ResourceKind::Connections);
    assert_eq!(key, "limits.connections.limit");
    assert_eq!(
        LimitSettings::from_configuration(&ResolvedConfiguration::new()).expect_err("missing"),
        LimitConfigError::Missing { resource: ResourceKind::Connections }
    );
    let config = configuration(&[(&key, ConfigValue::Boolean(true))]);
    assert_eq!(
        LimitSettings::from_configuration(&config).expect_err("not a number"),
        LimitConfigError::InvalidValueType { resource: ResourceKind::Connections }
    );
    let config = configuration(&[(&key, ConfigValue::Integer(-1))]);
    assert_eq!(
        LimitSettings::from_configuration(&config).expect_err("negative"),
        LimitConfigError::NonPositiveLimit { resource: ResourceKind::Connections, provided: -1 }
    );
    let config = configuration(&[(&key, ConfigValue::Integer(12))]);
    let settings = LimitSettings::from_configuration(&config).expect("limit");
    assert_eq!(settings.plan(ResourceKind::Connections).limit(), 12);
    let mut runtime = LimitRuntimeConfig::new(settings);
    let config = configuration(&[(&key, ConfigValue::Integer(13))]);
    runtime.update_from_configuration(&config).expect("update");
    assert_eq!(runtime.config_epoch(), 1);
    assert_eq!(runtime.snapshot().plan(ResourceKind::Connections).limit(), 13);
}

#[test]
fn changes_are_made_in_the_order_in_which_they_came() {
    let mut queue = ChangeQueue::new();
    assert!(matches!(queue.poll_next(), Poll::Pending));
    queue.push(vec![ConfigChange { name: "a".to_string(), value: ConfigValue::Integer(1) }]);
    queue.push(vec![ConfigChange { name: "a".to_string(), value: ConfigValue::Integer(2) }]);
    let mut config = ResolvedConfiguration::new();
    for expected in [1, 2] {
        match queue.poll_next() {
            Poll::Ready(batch) => config.apply(&batch),
            Poll::Pending => panic!("a batch waits"),
        }
        assert!(matches!(config.get("a"), Some(ConfigValue::Integer(n)) if *n == expected));
    }
    assert!(config.get("b").is_none());
}

#[test]
fn services_share_what_the_facade_hands_out() {
    let facade =
        DefaultObservabilityFacade::new(Arc::new('l'), Arc::new('m'), Arc::new('o'), Arc::new('h'));
    assert_eq!(*facade.logger(), 'l');
    let services: CoreServices<u8, u8, char, char, (), (), char, char> =
        CoreServices::with_observability_facade(Arc::new(1), Arc::new(2), facade);
    assert_eq!(*services.runtime(), 1);
    assert_eq!(*services.time_driver(), 1);
    assert_eq!(*services.buffer_pool, 2);
    assert_eq!(*services.metrics, 'm');
    assert_eq!(*services.ops_bus, 'o');
    assert!(services.membership.is_none());
    let again = services.clone().observability_facade();
    assert_eq!(*again.health_checks(), 'h');

    let handles = LegacyObservabilityHandles {
        metrics: Arc::new('m'),
        logger: Arc::new('l'),
        ops_bus: Arc::new('o'),
        health_checks: Arc::new('h'),
    };
    let services: CoreServices<u8, u8, char, char, (), (), char, char> =
        CoreServices::with_legacy_observability_handles(Arc::new(1), Arc::new(2), handles);
    assert_eq!(*services.logger, 'l');
    assert!(services.discovery.is_none());
}

struct Doubling;

#[derive(Debug)]
struct Done(u32);

impl ErasedHandle<u32> for Done {
    fn join_erased(self) -> Result<Option<u32>, TaskError> {
        Ok(Some(self.0))
    }
}

impl ErasedHandle<char> for Done {
    fn join_erased(self) -> Result<Option<char>, TaskError> {
        Ok(None)
    }
}

impl ErasedHandle<bool> for Done {
    fn join_erased(self) -> Result<Option<bool>, TaskError> {
        Err(TaskError::Panicked)
    }
}

impl TaskExecutor for Doubling {
    type CallContext = u32;
    type Task = u32;
    type Handle = Done;

    fn spawn_dyn(&self, ctx: &u32, task: u32) -> Done {
        Done(*ctx + 2 * task)
    }
}

#[test]
fn a_task_is_submitted_once_and_its_output_restored() {
    assert_eq!(spawn(&Doubling, &100, 21).join::<u32>(), Ok(142));
    assert_eq!(
        spawn(&Doubling, &100, 21).join::<char>(),
        Err(TaskError::Failed("join handle type mismatch".to_string()))
    );
    assert_eq!(spawn(&Doubling, &100, 21).join::<bool>(), Err(TaskError::Panicked));
    assert_eq!(restore_output(Ok(Some(3))), Ok(3));
    assert_eq!(restore_output::<u8>(Err(TaskError::Cancelled)), Err(TaskError::Cancelled));
    assert!(matches!(restore_output::<u8>(Ok(None)), Err(TaskError::Failed(_))));
}

#[test]
fn instruments_keep_what_they_see() {
    let mut runtime = TestRuntime::new();
    runtime.sleep(Duration::from_secs(2));
    runtime.sleep(Duration::from_secs(3));
    assert_eq!(runtime.now(), Duration::from_secs(5));
    assert_eq!(runtime.sleep_calls(), &vec![Duration::from_secs(2), Duration::from_secs(3)]);

    let mut handle = ReadyHandle::new(Ok(5));
    assert!(handle.is_finished());
    assert!(!handle.is_cancelled());
    handle.cancel();
    assert!(handle.is_cancelled());
    assert_eq!(handle.join(), Ok(5));

    let mut logger = TestLogger::new();
    logger.log(LogLevel::Warn, "slow");
    assert_eq!(logger.records.len(), 1);
    assert_eq!(logger.records[0].message, "slow");

    let mut bus = TestOpsBus::new();
    bus.broadcast(4);
    bus.set_event_policy(1, 2);
    assert_eq!(bus.events, vec![4]);
    assert_eq!(bus.policies, vec![(1, 2)]);

    assert_eq!(NoopBufferPool.acquire(8).code, ErrorCode::Named("buffer.disabled"));
    assert_eq!(NoopBufferPool.shrink_to_fit(), Ok(0));
    assert_eq!(NoopBufferPool.statistics().expect("statistics").active_leases, 0);

    let services: CoreServices<_, _, _, _, (), (), _, Vec<()>> = build_core_services(
        Arc::new(runtime),
        Arc::new(logger),
        Arc::new(bus),
        Arc::new("metrics"),
    );
    assert_eq!(*services.metrics, "metrics");
    assert!(services.health_checks.is_empty());
}
