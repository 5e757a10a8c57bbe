//! Runtime settings that can change while the system runs, and the services that a runtime hands
//! to handlers.
pub mod configuration;
pub mod executor;
pub mod hotreload;
pub mod limits;
pub mod services;
pub mod timeouts;
pub mod laws;
