//! A telephony switch: call sessions, media negotiation, and the proxy between two call legs.
pub mod sdp;
pub mod negotiation;
pub mod sip;
pub mod session;
pub mod proxy;
pub mod laws;
pub mod call_laws;
pub mod part_laws;
