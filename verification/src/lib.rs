//! Connection supervision core of a watchdog client: configuration values,
//! the authenticated handshake, the keepalive timer and the reconnect policy.

pub mod config;
pub mod counter;
pub mod error;
pub mod handshake;
pub mod keepalive;
pub mod supervisor;
pub mod transport;
