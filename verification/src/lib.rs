//! A small MQTT-style publish/subscribe library: the messages exchanged by
//! clients and the broker, the broker's subscription table, and the decisions
//! that the client and the broker take on each event of a connection.

pub mod input;
pub mod message_processor;
pub mod protocol;
