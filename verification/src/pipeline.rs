//! The handler pipeline of a channel: messages, per-channel state, and the handlers at its end.
pub mod app_router;
pub mod descriptor;
pub mod extensions;
pub mod factory;
pub mod message;
pub mod router_handler;
pub mod laws;
pub mod handle_laws;
