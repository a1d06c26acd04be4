//! The publish/subscribe protocol.

pub mod mqtt;
