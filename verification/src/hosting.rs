//! Hosts and the servers that run on them.
pub mod ember;
pub mod examples;
pub mod host;
pub mod laws;
