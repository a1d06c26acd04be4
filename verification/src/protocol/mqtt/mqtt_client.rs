//! The client side: how a client waits for the acknowledgement of a
//! publication, judges the answer to a ping, and reports what the broker sent.

use vstd::prelude::*;
use vstd::string::StringExecFns;
use crate::message_processor::MqttMessage;

verus! {

/// The number of times a publication with quality of service 1 is sent again
/// when no acknowledgement comes in time.
pub const MAX_RESENDS: u32 = 5;

/// What the client observes while it waits for an acknowledgement.
#[derive(Debug, Clone, PartialEq, Eq)]
pub enum AckEvent {
    /// A message from the broker arrived and decoded.
    Received(MqttMessage),
    /// Reading from the broker failed.
    ReadFailed,
    /// Nothing arrived in time.
    TimedOut,
}

/// What the client does about one observation.
#[derive(Debug, Clone, Copy, PartialEq, Eq)]
pub enum AckStep {
    /// The acknowledgement arrived: the exchange is over.
    Acked,
    /// Another message arrived: keep waiting.
    Ignored,
    /// The read failed: keep waiting.
    ReadFailed,
    /// Nothing came in time: send the publication again and keep waiting.
    Resend,
    /// Nothing came in time once too often: the exchange is over.
    GiveUp,
}

/// The state of one publication while the client waits for its
/// acknowledgement.
#[derive(Debug, Clone, Copy, PartialEq, Eq)]
pub struct PublishExchange {
    /// How many times nothing came in time so far.
    pub count_send: u32,
    /// Whether the client has stopped waiting.
    pub finished: bool,
}

/// The exchange that follows the first sending of a publication with quality
/// of service `qos`: only quality of service 1 waits for an acknowledgement.
pub open spec fn exchange_start(qos: u8) -> PublishExchange {
    PublishExchange { count_send: 0, finished: qos != 1 }
}

/// The next state of exchange `s`, and what to do, on observation `e`.
pub open spec fn exchange_next(s: PublishExchange, e: AckEvent) -> (PublishExchange, AckStep) {
    match e {
        AckEvent::Received(MqttMessage::Pubackqos1) =>
            (PublishExchange { count_send: s.count_send, finished: true }, AckStep::Acked),
        AckEvent::Received(_) => (s, AckStep::Ignored),
        AckEvent::ReadFailed => (s, AckStep::ReadFailed),
        AckEvent::TimedOut => if s.count_send + 1 > MAX_RESENDS {
            (PublishExchange { count_send: (s.count_send + 1) as u32, finished: true }, AckStep::GiveUp)
        } else {
            (PublishExchange { count_send: (s.count_send + 1) as u32, finished: false }, AckStep::Resend)
        },
    }
}

/// The steps taken on the observations `events`, from exchange `s` until it
/// is over or the observations run out.
pub open spec fn exchange_run(s: PublishExchange, events: Seq<AckEvent>) -> Seq<AckStep>
    decreases events.len(),
{
    if events.len() == 0 || s.finished {
        Seq::empty()
    } else {
        let (next, step) = exchange_next(s, events[0]);
        seq![step] + exchange_run(next, events.drop_first())
    }
}

/// How many times `steps` sends the publication again.
pub open spec fn resend_count(steps: Seq<AckStep>) -> nat
    decreases steps.len(),
{
    if steps.len() == 0 {
        0
    } else {
        resend_count(steps.drop_first()) + if steps[0] == AckStep::Resend { 1nat } else { 0nat }
    }
}

impl PublishExchange {
    /// The counter stays within its bound while the client waits.
    pub open spec fn wf(self) -> bool {
        &&& self.count_send <= MAX_RESENDS + 1
        &&& !self.finished ==> self.count_send <= MAX_RESENDS
    }

    /// The exchange after a publication with quality of service `qos` was sent.
    pub fn new(qos: u8) -> (s: Self)
        ensures
            s == exchange_start(qos),
            s.wf(),
    {
        PublishExchange { count_send: 0, finished: qos != 1 }
    }

    /// Takes one observation into account.
    pub fn step(&mut self, event: &AckEvent) -> (step: AckStep)
        requires
            old(self).wf(),
            !old(self).finished,
        ensures
            (*final(self), step) == exchange_next(*old(self), *event),
            final(self).wf(),
            (step == AckStep::Acked) <==> (*event == AckEvent::Received(MqttMessage::Pubackqos1)),
            (event matches AckEvent::Received(m) && m != MqttMessage::Pubackqos1) ==>
                step == AckStep::Ignored && *final(self) == *old(self),
            *event == AckEvent::ReadFailed ==> step == AckStep::ReadFailed && *final(self) == *old(self),
            *event == AckEvent::TimedOut ==> final(self).count_send == old(self).count_send + 1
                && (step == AckStep::Resend || step == AckStep::GiveUp),
    {
        match event {
            AckEvent::Received(MqttMessage::Pubackqos1) => {
                self.finished = true;
                AckStep::Acked
            },
            AckEvent::Received(_) => AckStep::Ignored,
            AckEvent::ReadFailed => AckStep::ReadFailed,
            AckEvent::TimedOut => {
                self.count_send = self.count_send + 1;
                if self.count_send > MAX_RESENDS {
                    self.finished = true;
                    AckStep::GiveUp
                } else {
                    AckStep::Resend
                }
            },
        }
    }
}

/// From a well-formed exchange the publication is sent again at most as many
/// more times as the counter allows.
proof fn lemma_resend_bound(s: PublishExchange, events: Seq<AckEvent>)
    requires
        s.wf(),
    ensures
        !s.finished ==> resend_count(exchange_run(s, events)) + s.count_send <= MAX_RESENDS,
        s.finished ==> exchange_run(s, events).len() == 0,
    decreases events.len(),
{
    if events.len() > 0 && !s.finished {
        let (next, step) = exchange_next(s, events[0]);
        lemma_resend_bound(next, events.drop_first());
        let run = exchange_run(s, events);
        assert(run.drop_first() =~= exchange_run(next, events.drop_first()));
        assert(run[0] == step);
        assert(resend_count(run) == resend_count(run.drop_first()) + if step == AckStep::Resend { 1nat } else { 0nat });
    }
}

/// Whatever the broker does, a publication is sent again at most
/// `MAX_RESENDS` times after its first sending.
pub proof fn law_publication_resent_at_most_max(qos: u8, events: Seq<AckEvent>)
    ensures
        resend_count(exchange_run(exchange_start(qos), events)) <= MAX_RESENDS,
{
    lemma_resend_bound(exchange_start(qos), events);
}

/// A publication without quality of service 1 waits for nothing.
pub proof fn law_no_wait_without_qos1(qos: u8, events: Seq<AckEvent>)
    requires
        qos != 1,
    ensures
        exchange_run(exchange_start(qos), events).len() == 0,
{
}

/// What came back after the client pinged the broker.
#[derive(Debug, Clone, PartialEq, Eq)]
pub enum PingReply {
    /// A message from the broker arrived and decoded.
    Received(MqttMessage),
    /// Reading from the broker failed.
    ReadFailed,
    /// Nothing arrived in time; the text says why.
    TimedOut(String),
}

/// The verdict on the answer to a ping: the broker keeps the connection when
/// it answers with a ping; anything else is an error, each with its text.
pub fn ping_outcome(reply: PingReply) -> (r: Result<String, String>)
    ensures
        match reply {
            PingReply::Received(MqttMessage::Ping) =>
                r matches Ok(t) && t@ == "Client also keep connect to mqtt broker"@,
            PingReply::Received(_) => r matches Err(t) && t@ == "Get broker another broker message"@,
            PingReply::ReadFailed => r matches Err(t) && t@ == "Can't read anything"@,
            PingReply::TimedOut(why) => r matches Err(t) && t@ == "Can't send ping to server with "@ + why@,
        },
{
    match reply {
        PingReply::Received(MqttMessage::Ping) => Ok(String::from_str("Client also keep connect to mqtt broker")),
        PingReply::Received(_) => Err(String::from_str("Get broker another broker message")),
        PingReply::ReadFailed => Err(String::from_str("Can't read anything")),
        PingReply::TimedOut(why) => {
            let mut t = String::from_str("Can't send ping to server with ");
            t.append(why.as_str());
            Err(t)
        },
    }
}

/// The decimal digit `d`.
pub open spec fn digit_char(d: nat) -> char {
    if d == 0 { '0' } else if d == 1 { '1' } else if d == 2 { '2' } else if d == 3 { '3' }
    else if d == 4 { '4' } else if d == 5 { '5' } else if d == 6 { '6' } else if d == 7 { '7' }
    else if d == 8 { '8' } else { '9' }
}

/// `n` written in decimal, without leading zeros.
pub open spec fn decimal(n: nat) -> Seq<char>
    decreases n,
{
    if n < 10 {
        seq![digit_char(n)]
    } else {
        decimal(n / 10).push(digit_char(n % 10))
    }
}

/// The decimal digit `d`, as text.
fn digit_str(d: u8) -> (s: &'static str)
    requires
        d < 10,
    ensures
        s@ == seq![digit_char(d as nat)],
{
    proof {
        reveal_strlit("0");
        reveal_strlit("1");
        reveal_strlit("2");
        reveal_strlit("3");
        reveal_strlit("4");
        reveal_strlit("5");
        reveal_strlit("6");
        reveal_strlit("7");
        reveal_strlit("8");
        reveal_strlit("9");
    }
    match d {
        0 => "0",
        1 => "1",
        2 => "2",
        3 => "3",
        4 => "4",
        5 => "5",
        6 => "6",
        7 => "7",
        8 => "8",
        _ => "9",
    }
}

/// Appends `n` in decimal to `s`.
fn append_decimal(s: &mut String, n: u8)
    ensures
        final(s)@ == old(s)@ + decimal(n as nat),
    decreases n,
{
    if n >= 10 {
        append_decimal(s, n / 10);
    }
    s.append(digit_str(n % 10));
    assert(old(s)@ + decimal(n as nat) =~= if n >= 10 {
        old(s)@ + decimal((n / 10) as nat) + seq![digit_char((n % 10) as nat)]
    } else {
        old(s)@ + seq![digit_char((n % 10) as nat)]
    });
}

/// The lines a client prints for a message from the broker: a publication
/// shows its topic, quality of service and text, a subscription its topic,
/// and anything else is reported as invalid.
pub fn broker_message_report(m: &MqttMessage) -> (lines: Vec<String>)
    ensures
        match *m {
            MqttMessage::Publish { topic, qos, message } => lines@.len() == 2
                && lines@[0]@ == "topic: "@ + topic@ + ", qos: "@ + decimal(qos as nat)
                && lines@[1]@ == "message: "@ + message@,
            MqttMessage::Subscribe { topic, qos } => lines@.len() == 1
                && lines@[0]@ == "Successfully subscribe to topic: "@ + topic@,
            _ => lines@.len() == 1 && lines@[0]@ == "Invalid message"@,
        },
{
    let mut lines: Vec<String> = Vec::new();
    match m {
        MqttMessage::Publish { topic, qos, message } => {
            let mut first = String::from_str("topic: ");
            first.append(topic.as_str());
            first.append(", qos: ");
            append_decimal(&mut first, *qos);
            let mut second = String::from_str("message: ");
            second.append(message.as_str());
            lines.push(first);
            lines.push(second);
        },
        MqttMessage::Subscribe { topic, .. } => {
            let mut line = String::from_str("Successfully subscribe to topic: ");
            line.append(topic.as_str());
            lines.push(line);
        },
        _ => lines.push(String::from_str("Invalid message")),
    }
    lines
}

/// Only the acknowledgement ends the wait for it: any other message from the
/// broker leaves the exchange as it was and is ignored, a failed read changes
/// nothing, and only a timeout counts towards giving up.
pub proof fn law_only_acknowledgement_ends_wait(s: PublishExchange, e: AckEvent)
    ensures
        (exchange_next(s, e).1 == AckStep::Acked) <==> (e == AckEvent::Received(MqttMessage::Pubackqos1)),
        (e matches AckEvent::Received(m) && m != MqttMessage::Pubackqos1) ==> exchange_next(s, e) == (s, AckStep::Ignored),
        e == AckEvent::ReadFailed ==> exchange_next(s, e) == (s, AckStep::ReadFailed),
        exchange_next(s, e).0.count_send != s.count_send ==> e == AckEvent::TimedOut,
        (exchange_next(s, e).1 == AckStep::Resend || exchange_next(s, e).1 == AckStep::GiveUp)
            ==> e == AckEvent::TimedOut,
{
}

} // verus!
