//! Transports: addresses, listeners and the factories that open them, and the decisions of a TCP
//! transport.
pub mod addr;
pub mod channel_object;
pub mod connection;
pub mod tcp;
pub mod transport_object;
pub mod laws;
pub mod object_laws;
