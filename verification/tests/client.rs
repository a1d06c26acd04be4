use library::message_processor::MqttMessage;
use library::protocol::mqtt::mqtt_client::{
    broker_message_report, ping_outcome, AckEvent, AckStep, PingReply, PublishExchange, MAX_RESENDS,
};

#[test]
fn only_qos_one_waits_for_an_acknowledgement() {
    assert!(PublishExchange::new(0).finished);
    assert!(PublishExchange::new(2).finished);
    assert!(!PublishExchange::new(1).finished);
}

#[test]
fn acknowledgement_ends_the_exchange() {
    let mut e = PublishExchange::new(1);
    assert_eq!(e.step(&AckEvent::Received(MqttMessage::Ping)), AckStep::Ignored);
    assert_eq!(e.step(&AckEvent::ReadFailed), AckStep::ReadFailed);
    assert!(!e.finished);
    assert_eq!(e.step(&AckEvent::Received(MqttMessage::Pubackqos1)), AckStep::Acked);
    assert!(e.finished);
}

#[test]
fn publication_is_resent_five_times_then_given_up() {
    let mut e = PublishExchange::new(1);
    let mut resends = 0;
    let mut steps = 0;
    while !e.finished {
        let step = e.step(&AckEvent::TimedOut);
        if step == AckStep::Resend {
            resends += 1;
        }
        steps += 1;
        if e.finished {
            assert_eq!(step, AckStep::GiveUp);
        }
    }
    assert_eq!(resends, 5);
    assert_eq!(resends, MAX_RESENDS);
    assert_eq!(steps, 6);
}

#[test]
fn other_messages_do_not_count_as_timeouts() {
    let mut e = PublishExchange::new(1);
    for _ in 0..4 {
        assert_eq!(e.step(&AckEvent::TimedOut), AckStep::Resend);
    }
    for _ in 0..10 {
        assert_eq!(e.step(&AckEvent::Received(MqttMessage::Pubrec)), AckStep::Ignored);
    }
    assert_eq!(e.step(&AckEvent::TimedOut), AckStep::Resend);
    assert_eq!(e.step(&AckEvent::TimedOut), AckStep::GiveUp);
}

#[test]
fn ping_verdicts() {
    assert_eq!(
        ping_outcome(PingReply::Received(MqttMessage::Ping)),
        Ok("Client also keep connect to mqtt broker".to_string())
    );
    assert_eq!(
        ping_outcome(PingReply::Received(MqttMessage::Pubackqos1)),
        Err("Get broker another broker message".to_string())
    );
    assert_eq!(ping_outcome(PingReply::ReadFailed), Err("Can't read anything".to_string()));
    assert_eq!(
        ping_outcome(PingReply::TimedOut("deadline has elapsed".to_string())),
        Err("Can't send ping to server with deadline has elapsed".to_string())
    );
}

#[test]
fn report_of_a_publication() {
    let m = MqttMessage::Publish { topic: "news".to_string(), qos: 1, message: "hi".to_string() };
    assert_eq!(
        broker_message_report(&m),
        vec!["topic: news, qos: 1".to_string(), "message: hi".to_string()]
    );
    let m = MqttMessage::Publish { topic: "a".to_string(), qos: 255, message: String::new() };
    assert_eq!(broker_message_report(&m), vec!["topic: a, qos: 255".to_string(), "message: ".to_string()]);
    let m = MqttMessage::Publish { topic: "a".to_string(), qos: 40, message: "x".to_string() };
    assert_eq!(broker_message_report(&m)[0], "topic: a, qos: 40");
    let m = MqttMessage::Publish { topic: "a".to_string(), qos: 0, message: "x".to_string() };
    assert_eq!(broker_message_report(&m)[0], "topic: a, qos: 0");
}

#[test]
fn report_of_a_subscription_and_of_the_rest() {
    let m = MqttMessage::Subscribe { topic: "news".to_string(), qos: 2 };
    assert_eq!(broker_message_report(&m), vec!["Successfully subscribe to topic: news".to_string()]);
    assert_eq!(broker_message_report(&MqttMessage::Ping), vec!["Invalid message".to_string()]);
}
