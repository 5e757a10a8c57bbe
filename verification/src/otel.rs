//! Bridging to OpenTelemetry: installation, resources, trace contexts and handler spans.
pub mod context;
pub mod install;
pub mod resource;
pub mod span;
pub mod laws;
