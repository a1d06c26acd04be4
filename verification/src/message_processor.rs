//! The messages that travel between a client and the broker.

use vstd::prelude::*;

verus! {

/// A protocol message, as exchanged over a connection.
#[derive(Debug, Clone, PartialEq, Eq)]
pub enum MqttMessage {
    Publish { topic: String, qos: u8, message: String },
    Subscribe { topic: String, qos: u8 },
    Ping,
    Disconnect,
    Pubackqos1,
    Pubrec,
    Pubrel,
    Pubcomplete,
}

/// `m` is the publication of `message` on `topic` with quality of service `qos`.
pub open spec fn is_publish(m: MqttMessage, topic: Seq<char>, qos: u8, message: Seq<char>) -> bool {
    m matches MqttMessage::Publish { topic: t, qos: q, message: b }
        && t@ == topic && q == qos && b@ == message
}

/// `m` is the subscription to `topic` with quality of service `qos`.
pub open spec fn is_subscribe(m: MqttMessage, topic: Seq<char>, qos: u8) -> bool {
    m matches MqttMessage::Subscribe { topic: t, qos: q } && t@ == topic && q == qos
}

impl MqttMessage {
    /// The publication of `message` on `topic`.
    pub fn pub_message(topic: &String, qos: u8, message: &String) -> (m: Self)
        ensures
            m == (MqttMessage::Publish { topic: *topic, qos, message: *message }),
    {
        MqttMessage::Publish { topic: topic.clone(), qos, message: message.clone() }
    }

    /// The subscription to `topic`.
    pub fn sub(topic: &String, qos: u8) -> (m: Self)
        ensures
            m == (MqttMessage::Subscribe { topic: *topic, qos }),
    {
        MqttMessage::Subscribe { topic: topic.clone(), qos }
    }
}

} // verus!
