//! The two ends of a remote procedure call.

pub mod client;
pub mod server;
