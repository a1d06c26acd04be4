//! The broker side and the client side of the protocol.

pub mod mqtt_broker;
pub mod mqtt_client;
