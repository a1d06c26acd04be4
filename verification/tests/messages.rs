use library::message_processor::MqttMessage;
use library::protocol::mqtt::mqtt_broker::BrokerMessage;

#[test]
fn pub_message_holds_its_arguments() {
    let m = MqttMessage::pub_message(&"news".to_string(), 1, &"hello".to_string());
    assert_eq!(
        m,
        MqttMessage::Publish { topic: "news".to_string(), qos: 1, message: "hello".to_string() }
    );
}

#[test]
fn sub_holds_its_arguments() {
    let m = MqttMessage::sub(&"weather".to_string(), 2);
    assert_eq!(m, MqttMessage::Subscribe { topic: "weather".to_string(), qos: 2 });
}

#[test]
fn broker_message_constructors() {
    assert_eq!(
        BrokerMessage::pub_message(&"t".to_string(), 0, &"m".to_string(), 7),
        BrokerMessage::Publish { topic: "t".to_string(), message: "m".to_string(), qos: 0, id: 7 }
    );
    assert_eq!(
        BrokerMessage::sub(3, &"t".to_string(), 1),
        BrokerMessage::Subscribe { id: 3, topic: "t".to_string(), qos: 1 }
    );
    assert_eq!(BrokerMessage::ping(9), BrokerMessage::Ping { id: 9 });
    assert_eq!(BrokerMessage::disconnect(4), BrokerMessage::Disconnect { id: 4 });
}
