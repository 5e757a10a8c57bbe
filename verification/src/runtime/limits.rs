//! Limits on resources: how they are read from the configuration, and how they are switched while
//! the system runs.
use vstd::prelude::*;

use crate::runtime::configuration::{ConfigValue, ConfigView, ResolvedConfiguration};
use crate::runtime::timeouts::next_epoch;

verus! {

/// What a limit is on.
#[derive(Clone, Copy, Debug, PartialEq, Eq, Structural)]
pub enum ResourceKind {
    Connections,
}

impl ResourceKind {
    /// The name of the resource.
    pub open spec fn name(self) -> Seq<char> {
        match self {
            ResourceKind::Connections => "connections"@,
        }
    }

    /// The name of the resource.
    pub fn as_str(&self) -> (name: &'static str)
        ensures
            name@ == self.name(),
    {
        match self {
            ResourceKind::Connections => "connections",
        }
    }
}

/// The name of the configuration entry of a limit.
pub open spec fn limit_entry(resource: ResourceKind) -> Seq<char> {
    "limits."@ + resource.name() + ".limit"@
}

/// The name of the configuration entry of a limit.
pub fn limit_key(resource: ResourceKind) -> (name: String)
    ensures
        name@ == limit_entry(resource),
{
    let mut name = "limits.".to_owned();
    name.append(resource.as_str());
    name.append(".limit");
    name
}

/// How much of a resource may be used.
#[derive(Clone, Copy, Debug, PartialEq, Eq, Structural)]
pub struct LimitPlan {
    limit: u64,
}

impl LimitPlan {
    pub closed spec fn most(self) -> u64 {
        self.limit
    }

    /// How much may be used.
    pub fn limit(&self) -> (limit: u64)
        ensures
            limit == self.most(),
    {
        self.limit
    }
}

/// Why limits could not be read from a configuration.
#[derive(Clone, Copy, Debug, PartialEq, Eq, Structural)]
pub enum LimitConfigError {
    Missing { resource: ResourceKind },
    InvalidValueType { resource: ResourceKind },
    NonPositiveLimit { resource: ResourceKind, provided: i64 },
}

/// The limits on all resources.
#[derive(Clone, Copy, Debug, PartialEq, Eq, Structural)]
pub struct LimitSettings {
    connections: LimitPlan,
}

/// The limit that a configuration sets: a whole number, more than none.
pub open spec fn limit_of(
    config: Map<Seq<char>, ConfigView>,
    resource: ResourceKind,
) -> Result<u64, LimitConfigError> {
    if !config.dom().contains(limit_entry(resource)) {
        Err(LimitConfigError::Missing { resource })
    } else {
        match config[limit_entry(resource)] {
            ConfigView::Integer(limit) => if limit > 0 {
                Ok(limit as u64)
            } else {
                Err(LimitConfigError::NonPositiveLimit { resource, provided: limit })
            },
            _ => Err(LimitConfigError::InvalidValueType { resource }),
        }
    }
}

impl LimitSettings {
    /// The limit on a resource.
    pub closed spec fn most(self, resource: ResourceKind) -> u64 {
        match resource {
            ResourceKind::Connections => self.connections.most(),
        }
    }

    /// The plan for a resource.
    pub fn plan(&self, resource: ResourceKind) -> (plan: LimitPlan)
        ensures
            plan.most() == self.most(resource),
    {
        match resource {
            ResourceKind::Connections => self.connections,
        }
    }

    /// The limits of a configuration.
    pub fn from_configuration(config: &ResolvedConfiguration) -> (r: Result<
        LimitSettings,
        LimitConfigError,
    >)
        ensures
            match limit_of(config@, ResourceKind::Connections) {
                Ok(limit) => r is Ok && r->Ok_0.most(ResourceKind::Connections) == limit,
                Err(error) => r == Err::<LimitSettings, LimitConfigError>(error),
            },
    {
        let resource = ResourceKind::Connections;
        let key = limit_key(resource);
        match config.get(key.as_str()) {
            None => Err(LimitConfigError::Missing { resource }),
            Some(ConfigValue::Integer(limit)) => if *limit > 0 {
                Ok(LimitSettings { connections: LimitPlan { limit: *limit as u64 } })
            } else {
                Err(LimitConfigError::NonPositiveLimit { resource, provided: *limit })
            },
            Some(_) => Err(LimitConfigError::InvalidValueType { resource }),
        }
    }
}

/// The limits in force, and how often they were switched.
#[derive(Debug)]
pub struct LimitRuntimeConfig {
    settings: LimitSettings,
    epoch: u64,
}

/// What the limits in force are, for the contracts.
pub struct LimitRuntimeView {
    pub connections: u64,
    pub epoch: u64,
}

impl LimitRuntimeView {
    /// The state after an update from a configuration; one that cannot be read changes nothing.
    pub open spec fn updated(self, config: Map<Seq<char>, ConfigView>) -> LimitRuntimeView {
        match limit_of(config, ResourceKind::Connections) {
            Ok(connections) => LimitRuntimeView { connections, epoch: next_epoch(self.epoch) },
            Err(_) => self,
        }
    }
}

impl View for LimitRuntimeConfig {
    type V = LimitRuntimeView;

    closed spec fn view(&self) -> LimitRuntimeView {
        LimitRuntimeView {
            connections: self.settings.most(ResourceKind::Connections),
            epoch: self.epoch,
        }
    }
}

impl LimitRuntimeConfig {
    /// The given limits are in force.
    pub fn new(initial: LimitSettings) -> (config: LimitRuntimeConfig)
        ensures
            config@ == (LimitRuntimeView {
                connections: initial.most(ResourceKind::Connections),
                epoch: 0,
            }),
    {
        LimitRuntimeConfig { settings: initial, epoch: 0 }
    }

    /// The limits in force.
    pub fn snapshot(&self) -> (settings: LimitSettings)
        ensures
            settings.most(ResourceKind::Connections) == self@.connections,
    {
        self.settings
    }

    /// How often the limits were switched.
    pub fn config_epoch(&self) -> (epoch: u64)
        ensures
            epoch == self@.epoch,
    {
        self.epoch
    }

    /// Switches to the limits of a configuration; one that cannot be read changes nothing.
    pub fn update_from_configuration(
        &mut self,
        config: &ResolvedConfiguration,
    ) -> (r: Result<(), LimitConfigError>)
        ensures
            final(self)@ == old(self)@.updated(config@),
            match limit_of(config@, ResourceKind::Connections) {
                Ok(_) => r is Ok,
                Err(error) => r == Err::<(), LimitConfigError>(error),
            },
    {
        match LimitSettings::from_configuration(config) {
            Ok(settings) => {
                self.settings = settings;
                self.epoch = self.epoch.wrapping_add(1);
                Ok(())
            },
            Err(error) => Err(error),
        }
    }
}

/// A switch of limits is read back at once, is never to none, and moves the epoch on; an update
/// that cannot be read changes nothing.
pub proof fn law_limit_switch_is_read_back(
    state: LimitRuntimeView,
    config: Map<Seq<char>, ConfigView>,
)
    ensures
        limit_of(config, ResourceKind::Connections) is Ok ==> {
            &&& state.updated(config).connections == limit_of(config, ResourceKind::Connections)->Ok_0
            &&& state.updated(config).connections > 0
            &&& state.epoch < u64::MAX ==> state.updated(config).epoch == state.epoch + 1
        },
        limit_of(config, ResourceKind::Connections) is Err ==> state.updated(config) == state,
{
}

} // verus!
