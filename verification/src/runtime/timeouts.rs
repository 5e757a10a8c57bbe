//! Timeouts of the runtime: how they are read from the configuration, and how they are switched
//! while the system runs.
use vstd::prelude::*;

use crate::runtime::configuration::{ConfigValue, ConfigView, ResolvedConfiguration};
use crate::runtime::hotreload::{
    point_views, recorded, HotReloadApplyTimer, HotReloadObservability, HotReloadPoint,
};
use crate::time::duration::{Duration, Instant, NANOS_PER_MILLI, NANOS_PER_SEC};

verus! {

/// How long a request may take, and how long a connection may be idle.
#[derive(Clone, Copy, Debug, PartialEq, Eq, Structural)]
pub struct TimeoutSettings {
    request_timeout: Duration,
    idle_timeout: Duration,
}

/// What timeouts say, for the contracts, in nanoseconds.
pub struct TimeoutsView {
    pub request: nat,
    pub idle: nat,
}

impl View for TimeoutSettings {
    type V = TimeoutsView;

    closed spec fn view(&self) -> TimeoutsView {
        TimeoutsView { request: self.request_timeout@, idle: self.idle_timeout@ }
    }
}

/// Five seconds for a request, sixty for an idle connection.
pub open spec fn default_timeouts() -> TimeoutsView {
    TimeoutsView { request: 5 * NANOS_PER_SEC as nat, idle: 60 * NANOS_PER_SEC as nat }
}

/// Which timeout an error is about.
#[derive(Clone, Copy, Debug, PartialEq, Eq, Structural)]
pub enum TimeoutField {
    Request,
    Idle,
}

impl TimeoutField {
    /// The name of the timeout, as it is shown.
    pub open spec fn shown(self) -> Seq<char> {
        match self {
            TimeoutField::Request => "timeouts.request"@,
            TimeoutField::Idle => "timeouts.idle"@,
        }
    }

    /// The name of the configuration entry, in milliseconds.
    pub open spec fn entry(self) -> Seq<char> {
        match self {
            TimeoutField::Request => "timeouts.request_ms"@,
            TimeoutField::Idle => "timeouts.idle_ms"@,
        }
    }

    /// The name of the timeout, as it is shown.
    pub fn to_text(&self) -> (text: &'static str)
        ensures
            text@ == self.shown(),
    {
        match self {
            TimeoutField::Request => "timeouts.request",
            TimeoutField::Idle => "timeouts.idle",
        }
    }

    /// The name of the configuration entry.
    pub fn entry_name(&self) -> (name: &'static str)
        ensures
            name@ == self.entry(),
    {
        match self {
            TimeoutField::Request => "timeouts.request_ms",
            TimeoutField::Idle => "timeouts.idle_ms",
        }
    }
}

/// Why timeouts could not be read from a configuration.
#[derive(Clone, Copy, Debug, PartialEq, Eq)]
pub enum TimeoutConfigError {
    InvalidValueType { field: TimeoutField, expected: &'static str },
    NonPositiveDuration { field: TimeoutField, provided: i64 },
}

/// One timeout as a configuration sets it: in whole milliseconds, more than none; the default
/// where the entry is missing.
pub open spec fn timeout_of(
    config: Map<Seq<char>, ConfigView>,
    field: TimeoutField,
    default: nat,
) -> Result<nat, TimeoutConfigError> {
    if !config.dom().contains(field.entry()) {
        Ok(default)
    } else {
        match config[field.entry()] {
            ConfigView::Integer(millis) => if millis > 0 {
                Ok((millis * NANOS_PER_MILLI) as nat)
            } else {
                Err(TimeoutConfigError::NonPositiveDuration { field, provided: millis })
            },
            _ => Err(TimeoutConfigError::InvalidValueType { field, expected: "integer" }),
        }
    }
}

/// The timeouts of a configuration. An error of the request timeout comes first.
pub open spec fn timeouts_of(config: Map<Seq<char>, ConfigView>) -> Result<
    TimeoutsView,
    TimeoutConfigError,
> {
    match timeout_of(config, TimeoutField::Request, default_timeouts().request) {
        Err(error) => Err(error),
        Ok(request) => match timeout_of(config, TimeoutField::Idle, default_timeouts().idle) {
            Err(error) => Err(error),
            Ok(idle) => Ok(TimeoutsView { request, idle }),
        },
    }
}

fn read_timeout(
    config: &ResolvedConfiguration,
    field: TimeoutField,
    default: Duration,
) -> (r: Result<Duration, TimeoutConfigError>)
    ensures
        match timeout_of(config@, field, default@) {
            Ok(nanos) => r is Ok && r->Ok_0@ == nanos,
            Err(error) => r == Err::<Duration, TimeoutConfigError>(error),
        },
{
    match config.get(field.entry_name()) {
        None => Ok(default),
        Some(ConfigValue::Integer(millis)) => if *millis > 0 {
            Ok(Duration::from_millis(*millis as u64))
        } else {
            Err(TimeoutConfigError::NonPositiveDuration { field, provided: *millis })
        },
        Some(_) => Err(TimeoutConfigError::InvalidValueType { field, expected: "integer" }),
    }
}

impl TimeoutSettings {
    /// The given timeouts.
    pub fn new(request_timeout: Duration, idle_timeout: Duration) -> (settings: TimeoutSettings)
        ensures
            settings@ == (TimeoutsView { request: request_timeout@, idle: idle_timeout@ }),
    {
        TimeoutSettings { request_timeout, idle_timeout }
    }

    /// How long a request may take.
    pub fn request_timeout(&self) -> (timeout: Duration)
        ensures
            timeout@ == self@.request,
    {
        self.request_timeout
    }

    /// How long a connection may be idle.
    pub fn idle_timeout(&self) -> (timeout: Duration)
        ensures
            timeout@ == self@.idle,
    {
        self.idle_timeout
    }

    /// The timeouts of a configuration.
    pub fn from_configuration(config: &ResolvedConfiguration) -> (r: Result<
        TimeoutSettings,
        TimeoutConfigError,
    >)
        ensures
            match timeouts_of(config@) {
                Ok(timeouts) => r is Ok && r->Ok_0@ == timeouts,
                Err(error) => r == Err::<TimeoutSettings, TimeoutConfigError>(error),
            },
    {
        let request = match read_timeout(config, TimeoutField::Request, Duration::from_secs(5)) {
            Ok(request) => request,
            Err(error) => {
                return Err(error);
            },
        };
        match read_timeout(config, TimeoutField::Idle, Duration::from_secs(60)) {
            Ok(idle) => Ok(TimeoutSettings::new(request, idle)),
            Err(error) => Err(error),
        }
    }
}

impl Default for TimeoutSettings {
    fn default() -> (settings: TimeoutSettings)
        ensures
            settings@ == default_timeouts(),
    {
        TimeoutSettings::new(Duration::from_secs(5), Duration::from_secs(60))
    }
}

/// The timeouts in force, and how often they were switched.
#[derive(Debug)]
pub struct TimeoutRuntimeConfig {
    settings: TimeoutSettings,
    epoch: u64,
    observability: HotReloadObservability,
}

/// What the timeouts in force are, for the contracts.
pub struct TimeoutRuntimeView {
    pub timeouts: TimeoutsView,
    pub epoch: u64,
    pub component: Option<Seq<char>>,
}

/// The next epoch; the counter wraps around.
pub open spec fn next_epoch(epoch: u64) -> u64 {
    if epoch == u64::MAX {
        0
    } else {
        (epoch + 1) as u64
    }
}

impl TimeoutRuntimeView {
    /// The state after a switch to other timeouts.
    pub open spec fn switched(self, timeouts: TimeoutsView) -> TimeoutRuntimeView {
        TimeoutRuntimeView { timeouts, epoch: next_epoch(self.epoch), component: self.component }
    }

    /// The state after an update from a configuration; one that cannot be read changes nothing.
    pub open spec fn updated(self, config: Map<Seq<char>, ConfigView>) -> TimeoutRuntimeView {
        match timeouts_of(config) {
            Ok(timeouts) => self.switched(timeouts),
            Err(_) => self,
        }
    }
}

impl View for TimeoutRuntimeConfig {
    type V = TimeoutRuntimeView;

    closed spec fn view(&self) -> TimeoutRuntimeView {
        TimeoutRuntimeView {
            timeouts: self.settings@,
            epoch: self.epoch,
            component: self.observability@,
        }
    }
}

impl TimeoutRuntimeConfig {
    /// The given timeouts are in force; nothing is recorded.
    pub fn new(initial: TimeoutSettings) -> (config: TimeoutRuntimeConfig)
        ensures
            config@ == (TimeoutRuntimeView { timeouts: initial@, epoch: 0, component: None }),
    {
        TimeoutRuntimeConfig {
            settings: initial,
            epoch: 0,
            observability: HotReloadObservability::new(),
        }
    }

    /// The given timeouts are in force; switches are recorded under the given component.
    pub fn with_observability(
        initial: TimeoutSettings,
        component: String,
    ) -> (config: TimeoutRuntimeConfig)
        ensures
            config@ == (TimeoutRuntimeView {
                timeouts: initial@,
                epoch: 0,
                component: Some(component@),
            }),
    {
        TimeoutRuntimeConfig {
            settings: initial,
            epoch: 0,
            observability: HotReloadObservability::with_component(component),
        }
    }

    /// The timeouts in force.
    pub fn snapshot(&self) -> (settings: TimeoutSettings)
        ensures
            settings@ == self@.timeouts,
    {
        self.settings
    }

    /// How often the timeouts were switched.
    pub fn config_epoch(&self) -> (epoch: u64)
        ensures
            epoch == self@.epoch,
    {
        self.epoch
    }

    /// Switches to the given timeouts.
    pub fn replace(&mut self, settings: TimeoutSettings)
        ensures
            final(self)@ == old(self)@.switched(settings@),
    {
        self.settings = settings;
        self.epoch = self.epoch.wrapping_add(1);
    }

    /// Switches to the given timeouts while the fence is held, and measures how long it took.
    pub fn replace_with_fence(
        &mut self,
        settings: TimeoutSettings,
        timer: HotReloadApplyTimer,
        now: Instant,
    ) -> (points: Vec<HotReloadPoint>)
        ensures
            final(self)@ == old(self)@.switched(settings@),
            point_views(points@) == recorded(
                old(self)@.component,
                next_epoch(old(self)@.epoch),
                Some(
                    if now@ >= timer.started() {
                        (now@ - timer.started()) as nat
                    } else {
                        0
                    },
                ),
            ),
    {
        self.replace(settings);
        self.observability.record(self.epoch, timer.elapsed(now))
    }

    /// Switches to the timeouts of a configuration; one that cannot be read changes nothing.
    pub fn update_from_configuration(
        &mut self,
        config: &ResolvedConfiguration,
    ) -> (r: Result<(), TimeoutConfigError>)
        ensures
            final(self)@ == old(self)@.updated(config@),
            match timeouts_of(config@) {
                Ok(_) => r is Ok,
                Err(error) => r == Err::<(), TimeoutConfigError>(error),
            },
    {
        match TimeoutSettings::from_configuration(config) {
            Ok(settings) => {
                self.replace(settings);
                Ok(())
            },
            Err(error) => Err(error),
        }
    }

    /// Switches to the timeouts of a configuration while the fence is held, and measures how long
    /// it took; one that cannot be read changes nothing.
    pub fn update_from_configuration_with_fence(
        &mut self,
        config: &ResolvedConfiguration,
        timer: HotReloadApplyTimer,
        now: Instant,
    ) -> (r: Result<Vec<HotReloadPoint>, TimeoutConfigError>)
        ensures
            final(self)@ == old(self)@.updated(config@),
            match timeouts_of(config@) {
                Ok(_) => r is Ok && point_views(r->Ok_0@) == recorded(
                    old(self)@.component,
                    next_epoch(old(self)@.epoch),
                    Some(
                        if now@ >= timer.started() {
                            (now@ - timer.started()) as nat
                        } else {
                            0
                        },
                    ),
                ),
                Err(error) => r == Err::<Vec<HotReloadPoint>, TimeoutConfigError>(error),
            },
    {
        match TimeoutSettings::from_configuration(config) {
            Ok(settings) => Ok(self.replace_with_fence(settings, timer, now)),
            Err(error) => Err(error),
        }
    }
}

impl Default for TimeoutRuntimeConfig {
    fn default() -> (config: TimeoutRuntimeConfig)
        ensures
            config@ == (TimeoutRuntimeView {
                timeouts: default_timeouts(),
                epoch: 0,
                component: None,
            }),
    {
        TimeoutRuntimeConfig::new(TimeoutSettings::default())
    }
}

/// A switch is read back at once, and it moves the epoch on; an update that cannot be read does
/// neither.
pub proof fn law_switch_is_read_back(state: TimeoutRuntimeView, config: Map<Seq<char>, ConfigView>)
    ensures
        timeouts_of(config) is Ok ==> state.updated(config).timeouts == timeouts_of(config)->Ok_0,
        timeouts_of(config) is Ok ==> state.updated(config).epoch == next_epoch(state.epoch),
        timeouts_of(config) is Ok && state.epoch < u64::MAX ==> state.updated(config).epoch
            > state.epoch,
        timeouts_of(config) is Err ==> state.updated(config) == state,
{
}

/// Timeouts that come out of a configuration are never empty.
pub proof fn law_configured_timeouts_are_positive(config: Map<Seq<char>, ConfigView>)
    requires
        timeouts_of(config) is Ok,
    ensures
        timeouts_of(config)->Ok_0.request > 0,
        timeouts_of(config)->Ok_0.idle > 0,
{
}

} // verus!
