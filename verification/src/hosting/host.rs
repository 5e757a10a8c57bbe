//! A host: its configuration, and what was registered with it.
use vstd::prelude::*;

use crate::router::decision::ServiceId;
use crate::runtime::configuration::ResolvedConfiguration;
use crate::text_map::TextMap;

verus! {

/// A handle on the live configuration of a host.
#[derive(Debug)]
pub struct ConfigurationHandle {
    pub profile: String,
}

/// What happened while the configuration was built.
#[derive(Debug)]
pub struct BuildReport {
    pub sources: Vec<String>,
}

/// Names a factory of services that the host keeps.
pub type FactoryRef = u64;

/// Names a pipeline initializer that the host keeps.
pub type InitializerRef = u64;

/// How a registered service is had: it is there, or it is made.
#[derive(Clone, Copy, Debug, PartialEq, Eq, Structural)]
pub enum ServiceEntry {
    Instance(ServiceId),
    Factory(FactoryRef),
}

/// The registered services, by name.
pub type ServiceRegistry = TextMap<ServiceEntry>;

/// The registered initializers, by label.
pub type MiddlewareRegistry = TextMap<InitializerRef>;

/// A host.
#[derive(Debug)]
pub struct Host {
    configuration_handle: ConfigurationHandle,
    initial_configuration: ResolvedConfiguration,
    configuration_report: BuildReport,
    services: ServiceRegistry,
    middleware: MiddlewareRegistry,
}

/// What a host shows of itself.
#[derive(Debug, PartialEq, Eq)]
pub struct HostSummary {
    pub profile: String,
    pub service_count: usize,
    pub middleware_count: usize,
}

impl Host {
    pub closed spec fn handle(&self) -> ConfigurationHandle {
        self.configuration_handle
    }

    pub closed spec fn initial(&self) -> ResolvedConfiguration {
        self.initial_configuration
    }

    pub closed spec fn report(&self) -> BuildReport {
        self.configuration_report
    }

    pub closed spec fn registered_services(&self) -> ServiceRegistry {
        self.services
    }

    pub closed spec fn registered_middleware(&self) -> MiddlewareRegistry {
        self.middleware
    }

    /// A host made of the given parts.
    pub fn new(
        configuration_handle: ConfigurationHandle,
        initial_configuration: ResolvedConfiguration,
        configuration_report: BuildReport,
        services: ServiceRegistry,
        middleware: MiddlewareRegistry,
    ) -> (host: Host)
        ensures
            host.handle() == configuration_handle,
            host.initial() == initial_configuration,
            host.report() == configuration_report,
            host.registered_services() == services,
            host.registered_middleware() == middleware,
    {
        Host {
            configuration_handle,
            initial_configuration,
            configuration_report,
            services,
            middleware,
        }
    }

    /// The handle on the live configuration, to change it.
    pub fn configuration_handle(&mut self) -> (handle: &mut ConfigurationHandle)
        ensures
            *handle == old(self).handle(),
            final(self).handle() == *final(handle),
            final(self).initial() == old(self).initial(),
            final(self).report() == old(self).report(),
            final(self).registered_services() == old(self).registered_services(),
            final(self).registered_middleware() == old(self).registered_middleware(),
    {
        &mut self.configuration_handle
    }

    /// The configuration that the host began with.
    pub fn initial_configuration(&self) -> (configuration: &ResolvedConfiguration)
        ensures
            *configuration == self.initial(),
    {
        &self.initial_configuration
    }

    /// What happened while the configuration was built.
    pub fn configuration_report(&self) -> (report: &BuildReport)
        ensures
            *report == self.report(),
    {
        &self.configuration_report
    }

    /// The registered services.
    pub fn services(&self) -> (services: &ServiceRegistry)
        ensures
            *services == self.registered_services(),
    {
        &self.services
    }

    /// The registered initializers.
    pub fn middleware(&self) -> (middleware: &MiddlewareRegistry)
        ensures
            *middleware == self.registered_middleware(),
    {
        &self.middleware
    }

    /// What the host shows of itself: its profile, and how much is registered.
    pub fn summary(&self) -> (summary: HostSummary)
        ensures
            summary.profile@ == self.handle().profile@,
            summary.service_count == self.registered_services().keys().len(),
            summary.middleware_count == self.registered_middleware().keys().len(),
    {
        HostSummary {
            profile: self.configuration_handle.profile.clone(),
            service_count: self.services.len(),
            middleware_count: self.middleware.len(),
        }
    }
}

} // verus!
