//! The compatibility suites: what an implementation is put through, the instruments that watch
//! it, and the verdict on what they saw.
pub mod attribute;
pub mod attribute_depth;
mod attribute_parser;
pub mod case;
pub mod channel_double;
pub mod comments;
pub mod graceful_shutdown;
pub mod hot_reload;
pub mod hot_swap;
pub mod runtime_double;
pub mod laws;
pub mod suite_laws;
pub mod double_laws;
pub mod reload_laws;
