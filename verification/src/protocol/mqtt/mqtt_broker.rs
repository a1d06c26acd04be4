//! The broker: its subscription table, the clients it serves, and what it
//! sends to whom on each request.

use vstd::prelude::*;
use vstd::hash_map::{HashMapWithView, StringHashMap};
use crate::message_processor::{MqttMessage, is_publish, is_subscribe};

verus! {

broadcast use vstd::std_specs::hash::group_hash_axioms;

/// A request that a connection hands to the broker.
#[derive(Debug, Clone, PartialEq, Eq)]
pub enum BrokerMessage {
    Subscribe { id: usize, topic: String, qos: u8 },
    Publish { topic: String, message: String, qos: u8, id: usize },
    Ping { id: usize },
    Disconnect { id: usize },
}

impl BrokerMessage {
    /// Client `id` publishes `message` on `topic`.
    pub fn pub_message(topic: &String, qos: u8, message: &String, id: usize) -> (m: Self)
        ensures
            m == (BrokerMessage::Publish { topic: *topic, message: *message, qos, id }),
    {
        BrokerMessage::Publish { topic: topic.clone(), message: message.clone(), qos, id }
    }

    /// Client `id` subscribes to `topic`.
    pub fn sub(id: usize, topic: &String, qos: u8) -> (m: Self)
        ensures
            m == (BrokerMessage::Subscribe { id, topic: *topic, qos }),
    {
        BrokerMessage::Subscribe { id, topic: topic.clone(), qos }
    }

    /// Client `id` pings the broker.
    pub fn ping(id: usize) -> (m: Self)
        ensures
            m == (BrokerMessage::Ping { id }),
    {
        BrokerMessage::Ping { id }
    }

    /// Client `id` leaves.
    pub fn disconnect(id: usize) -> (m: Self)
        ensures
            m == (BrokerMessage::Disconnect { id }),
    {
        BrokerMessage::Disconnect { id }
    }
}

/// The clients of `subs`, in order and with repetitions, that are connected.
pub open spec fn recipients(subs: Seq<usize>, connected: Set<usize>) -> Seq<usize>
    decreases subs.len(),
{
    if subs.len() == 0 {
        Seq::empty()
    } else {
        let rest = recipients(subs.drop_last(), connected);
        if connected.contains(subs.last()) {
            rest.push(subs.last())
        } else {
            rest
        }
    }
}

/// A client is among the recipients exactly when it is a connected subscriber.
proof fn lemma_recipients_contains(subs: Seq<usize>, connected: Set<usize>, x: usize)
    ensures
        recipients(subs, connected).contains(x) <==> (subs.contains(x) && connected.contains(x)),
    decreases subs.len(),
{
    if subs.len() > 0 {
        let init = subs.drop_last();
        lemma_recipients_contains(init, connected, x);
        assert(subs =~= init.push(subs.last()));
        if subs.contains(x) && !init.contains(x) {
            let k = choose|k: int| 0 <= k < subs.len() && subs[k] == x;
            if k < init.len() {
                assert(init[k] == x);
            }
        }
        if init.contains(x) {
            let k = choose|k: int| 0 <= k < init.len() && init[k] == x;
            assert(subs[k] == x);
        }
        let rest = recipients(init, connected);
        if connected.contains(subs.last()) {
            if rest.contains(x) {
                let k = choose|k: int| 0 <= k < rest.len() && rest[k] == x;
                assert(rest.push(subs.last())[k] == x);
            }
            if rest.push(subs.last()).contains(x) && x != subs.last() {
                let k = choose|k: int| 0 <= k < rest.len() + 1 && rest.push(subs.last())[k] == x;
                assert(rest[k] == x);
            }
            assert(rest.push(subs.last())[rest.len() as int] == subs.last());
        }
    }
}

/// Appending a subscription appends its client to the recipients if it is connected.
proof fn lemma_recipients_push(subs: Seq<usize>, connected: Set<usize>, id: usize)
    ensures
        recipients(subs.push(id), connected) == if connected.contains(id) {
            recipients(subs, connected).push(id)
        } else {
            recipients(subs, connected)
        },
{
    assert(subs.push(id).drop_last() =~= subs);
}

/// `d` hands the publication of `message` on `topic` to each of `ids`, in order.
pub open spec fn publishes_to(
    d: Seq<(usize, MqttMessage)>,
    ids: Seq<usize>,
    topic: Seq<char>,
    qos: u8,
    message: Seq<char>,
) -> bool {
    &&& d.len() == ids.len()
    &&& forall|i: int|
        0 <= i < d.len() ==> (#[trigger] d[i]).0 == ids[i] && is_publish(d[i].1, topic, qos, message)
}

/// The broker's state. `S` is whatever carries messages to a connected client.
#[verifier::reject_recursive_types(S)]
pub struct BrokerManager<S> {
    /// For each topic, the clients subscribed to it, in the order of their subscriptions.
    pub subscriber: StringHashMap<Vec<usize>>,
    /// The connected clients, each with the channel to it.
    pub clients: HashMapWithView<usize, S>,
}

impl<S> BrokerManager<S> {
    /// The subscription table: for each topic, its subscribers in order.
    pub open spec fn table(&self) -> Map<Seq<char>, Seq<usize>> {
        self.subscriber@.map_values(|v: Vec<usize>| v@)
    }

    /// The subscribers of `topic`, in order (none when the topic is unknown).
    pub open spec fn subscribers(&self, topic: Seq<char>) -> Seq<usize> {
        if self.table().contains_key(topic) {
            self.table()[topic]
        } else {
            Seq::empty()
        }
    }

    /// The ids of the connected clients.
    pub open spec fn connected(&self) -> Set<usize> {
        self.clients@.dom()
    }

    /// `post` is `pre` after `id` subscribed to `topic`, and `d` answers the
    /// subscriber if it is connected.
    pub open spec fn subscribed(pre: Self, post: Self, d: Seq<(usize, MqttMessage)>, id: usize, topic: Seq<char>, qos: u8) -> bool {
        &&& post.table() == pre.table().insert(topic, pre.subscribers(topic).push(id))
        &&& post.clients@ == pre.clients@
        &&& pre.clients@.contains_key(id) ==> d.len() == 1 && d[0].0 == id && is_subscribe(d[0].1, topic, qos)
        &&& !pre.clients@.contains_key(id) ==> d.len() == 0
    }

    /// `d` is the publication of `message` on `topic` to the connected
    /// subscribers of `topic` in `b`.
    pub open spec fn published(b: Self, d: Seq<(usize, MqttMessage)>, topic: Seq<char>, qos: u8, message: Seq<char>) -> bool {
        publishes_to(d, recipients(b.subscribers(topic), b.connected()), topic, qos, message)
    }

    /// `d` answers a ping from `id` in `b`.
    pub open spec fn ponged(b: Self, d: Seq<(usize, MqttMessage)>, id: usize) -> bool {
        &&& b.clients@.contains_key(id) ==> d == seq![(id, MqttMessage::Ping)]
        &&& !b.clients@.contains_key(id) ==> d.len() == 0
    }

    /// `post` is `pre` without the channel of `id`, subscriptions kept.
    pub open spec fn removed(pre: Self, post: Self, id: usize) -> bool {
        &&& post.clients@ == pre.clients@.remove(id)
        &&& post.table() == pre.table()
    }

    /// A broker with no subscription and no client.
    pub fn new() -> (b: Self)
        ensures
            b.table() == Map::<Seq<char>, Seq<usize>>::empty(),
            b.clients@ == Map::<usize, S>::empty(),
    {
        let b = BrokerManager { subscriber: StringHashMap::new(), clients: HashMapWithView::new() };
        assert(b.table() =~= Map::<Seq<char>, Seq<usize>>::empty());
        b
    }

    /// The channel to client `id`, if it is connected.
    pub fn client(&self, id: usize) -> (r: Option<&S>)
        ensures
            match r {
                Some(s) => self.clients@.contains_key(id) && *s == self.clients@[id],
                None => !self.clients@.contains_key(id),
            },
    {
        self.clients.get(&id)
    }

    /// Records that `client_id` subscribes to `topic`, and answers the client
    /// with the subscription if it is connected.
    pub fn add_subscriber(&mut self, client_id: usize, topic: &str, qos: u8) -> (d: Vec<(usize, MqttMessage)>)
        ensures
            Self::subscribed(*old(self), *final(self), d@, client_id, topic@, qos),
    {
        let mut subs: Vec<usize> = match self.subscriber.get(topic) {
            Some(v) => v.clone(),
            None => Vec::new(),
        };
        assert(subs@ =~= old(self).subscribers(topic@));
        subs.push(client_id);
        self.subscriber.insert(topic.to_owned(), subs);
        assert(self.table() =~= old(self).table().insert(topic@, old(self).subscribers(topic@).push(client_id)));
        let mut d: Vec<(usize, MqttMessage)> = Vec::new();
        if self.clients.contains_key(&client_id) {
            let t: String = topic.to_owned();
            d.push((client_id, MqttMessage::sub(&t, qos)));
        }
        d
    }

    /// Registers the channel `tx_client` of client `client_id`, replacing any
    /// earlier one.
    pub fn add_client(&mut self, client_id: usize, tx_client: S)
        ensures
            final(self).clients@ == old(self).clients@.insert(client_id, tx_client),
            final(self).table() == old(self).table(),
    {
        self.clients.insert(client_id, tx_client);
    }

    /// The publication of `message` on `topic` by `clientid`, handed to each
    /// connected subscriber of the topic, in the order of the subscriptions.
    pub fn publish_to_subscriber(&self, topic: &str, qos: u8, message: &str, clientid: usize) -> (d: Vec<(usize, MqttMessage)>)
        ensures
            Self::published(*self, d@, topic@, qos, message@),
    {
        let ghost connected = self.connected();
        let mut d: Vec<(usize, MqttMessage)> = Vec::new();
        match self.subscriber.get(topic) {
            Some(subs) => {
                let t: String = topic.to_owned();
                let b: String = message.to_owned();
                let n = subs.len();
                for i in 0..n
                    invariant
                        n == subs@.len(),
                        subs@ == self.subscribers(topic@),
                        connected == self.connected(),
                        t@ == topic@,
                        b@ == message@,
                        publishes_to(d@, recipients(subs@.take(i as int), connected), topic@, qos, message@),
                {
                    assert(subs@.take(i + 1).drop_last() =~= subs@.take(i as int));
                    let id = subs[i];
                    if self.clients.contains_key(&id) {
                        d.push((id, MqttMessage::pub_message(&t, qos, &b)));
                    }
                }
                assert(subs@.take(n as int) =~= subs@);
            },
            None => {},
        }
        d
    }

    /// The answer to a ping from client `id`, if it is connected.
    pub fn send_pingres_to_client(&self, id: usize) -> (d: Vec<(usize, MqttMessage)>)
        ensures
            Self::ponged(*self, d@, id),
    {
        let mut d: Vec<(usize, MqttMessage)> = Vec::new();
        if self.clients.contains_key(&id) {
            d.push((id, MqttMessage::Ping));
        }
        d
    }

    /// Forgets the channel of client `id`. Its subscriptions stay in the table.
    pub fn remove_client(&mut self, id: usize)
        ensures
            Self::removed(*old(self), *final(self), id),
    {
        let _ = self.clients.remove(&id);
        assert(self.clients@ =~= old(self).clients@.remove(id));
    }

    /// Carries out one request: a subscription, a publication, a ping or a
    /// departure. Returns the messages to hand to clients, in order.
    pub fn handle(&mut self, request: BrokerMessage) -> (d: Vec<(usize, MqttMessage)>)
        ensures
            match request {
                BrokerMessage::Subscribe { id, topic, qos } =>
                    Self::subscribed(*old(self), *final(self), d@, id, topic@, qos),
                BrokerMessage::Publish { topic, message, qos, id } =>
                    *final(self) == *old(self) && Self::published(*old(self), d@, topic@, qos, message@),
                BrokerMessage::Ping { id } =>
                    *final(self) == *old(self) && Self::ponged(*old(self), d@, id),
                BrokerMessage::Disconnect { id } =>
                    Self::removed(*old(self), *final(self), id) && d@.len() == 0,
            },
    {
        match request {
            BrokerMessage::Subscribe { id, topic, qos } => self.add_subscriber(id, topic.as_str(), qos),
            BrokerMessage::Publish { topic, message, qos, id } =>
                self.publish_to_subscriber(topic.as_str(), qos, message.as_str(), id),
            BrokerMessage::Ping { id } => self.send_pingres_to_client(id),
            BrokerMessage::Disconnect { id } => {
                self.remove_client(id);
                Vec::new()
            },
        }
    }
}

/// A publication on `topic` reaches a client exactly when the client is
/// connected and subscribed to `topic`; it reaches it once per subscription,
/// in the order of the subscriptions.
pub proof fn law_publication_reaches_connected_subscribers<S>(b: BrokerManager<S>, topic: Seq<char>, id: usize)
    ensures
        recipients(b.subscribers(topic), b.connected()).contains(id)
            <==> (b.subscribers(topic).contains(id) && b.connected().contains(id)),
{
    lemma_recipients_contains(b.subscribers(topic), b.connected(), id);
}

/// Once a client has left, no publication reaches it, on any topic.
pub proof fn law_departed_client_receives_nothing<S>(pre: BrokerManager<S>, post: BrokerManager<S>, id: usize, topic: Seq<char>)
    requires
        BrokerManager::removed(pre, post, id),
    ensures
        !recipients(post.subscribers(topic), post.connected()).contains(id),
{
    lemma_recipients_contains(post.subscribers(topic), post.connected(), id);
}

/// A subscription of a connected client puts it last among the recipients of
/// its topic; the recipients of every other topic stay as they were.
pub proof fn law_subscription_appends_recipient<S>(
    pre: BrokerManager<S>,
    post: BrokerManager<S>,
    d: Seq<(usize, MqttMessage)>,
    id: usize,
    topic: Seq<char>,
    qos: u8,
    other: Seq<char>,
)
    requires
        BrokerManager::subscribed(pre, post, d, id, topic, qos),
        pre.connected().contains(id),
        other != topic,
    ensures
        recipients(post.subscribers(topic), post.connected()) == recipients(pre.subscribers(topic), pre.connected()).push(id),
        recipients(post.subscribers(other), post.connected()) == recipients(pre.subscribers(other), pre.connected()),
{
    lemma_recipients_push(pre.subscribers(topic), pre.connected(), id);
    assert(post.connected() =~= pre.connected());
}

/// Subscriptions outlive a departure: a client that leaves and comes back
/// under the same id again receives what is published on the topics it
/// subscribed to before.
pub proof fn law_subscriptions_survive_reconnection<S>(
    before: BrokerManager<S>,
    gone: BrokerManager<S>,
    back: BrokerManager<S>,
    id: usize,
    tx: S,
    topic: Seq<char>,
)
    requires
        BrokerManager::removed(before, gone, id),
        back.clients@ == gone.clients@.insert(id, tx),
        back.table() == gone.table(),
        before.subscribers(topic).contains(id),
    ensures
        recipients(back.subscribers(topic), back.connected()).contains(id),
{
    lemma_recipients_contains(back.subscribers(topic), back.connected(), id);
}

/// What the handler of one client connection learns in one turn.
#[derive(Debug, Clone, PartialEq, Eq)]
pub enum ConnectionEvent {
    /// The client sent a request that decodes to a message.
    Request(MqttMessage),
    /// The client sent bytes that do not decode to a message.
    Undecodable,
    /// Reading from the client failed.
    ReadFailed,
    /// The broker handed this client a message, or its channel gave nothing.
    FromBroker(Option<MqttMessage>),
}

/// What the handler of a connection does in answer to one event, in this
/// order: pass a request to the broker, write a message to the client, and
/// close the connection.
#[derive(Debug, Clone, PartialEq, Eq)]
pub struct ConnectionStep {
    pub to_broker: Option<BrokerMessage>,
    pub to_client: Option<MqttMessage>,
    pub close: bool,
}

/// The request that the broker receives for message `m` from client `id`.
pub open spec fn request_for(id: usize, m: MqttMessage) -> Option<BrokerMessage> {
    match m {
        MqttMessage::Subscribe { topic, qos } => Some(BrokerMessage::Subscribe { id, topic, qos }),
        MqttMessage::Publish { topic, qos, message } => Some(BrokerMessage::Publish { topic, message, qos, id }),
        MqttMessage::Ping => Some(BrokerMessage::Ping { id }),
        MqttMessage::Disconnect => Some(BrokerMessage::Disconnect { id }),
        _ => None,
    }
}

/// One turn of the handler of the connection of client `clientid`.
///
/// A subscription, a publication, a ping or a departure from the client is
/// passed to the broker under the client's id, and a publication with
/// quality of service 1 is acknowledged to the client; other requests are
/// ignored. A message from the broker is written to the client, except a
/// departure. A failed read or undecodable bytes close the connection.
pub fn client_handle_step(clientid: usize, event: ConnectionEvent) -> (r: ConnectionStep)
    ensures
        match event {
            ConnectionEvent::Request(m) => {
                &&& r.to_broker == request_for(clientid, m)
                &&& (m matches MqttMessage::Publish { topic, qos, message } ==>
                    r.to_broker == Some(BrokerMessage::Publish { topic, message, qos, id: clientid }))
                &&& (m matches MqttMessage::Subscribe { topic, qos } ==>
                    r.to_broker == Some(BrokerMessage::Subscribe { id: clientid, topic, qos }))
                &&& (m == MqttMessage::Ping ==> r.to_broker == Some(BrokerMessage::Ping { id: clientid }))
                &&& (m == MqttMessage::Disconnect ==> r.to_broker == Some(BrokerMessage::Disconnect { id: clientid }))
                &&& r.to_client == (if m matches MqttMessage::Publish { qos, .. } && qos == 1 {
                    Some(MqttMessage::Pubackqos1)
                } else {
                    None
                })
                &&& !r.close
            },
            ConnectionEvent::Undecodable => r.to_broker is None && r.to_client is None && r.close,
            ConnectionEvent::ReadFailed => r.to_broker is None && r.to_client is None && r.close,
            ConnectionEvent::FromBroker(m) => {
                &&& r.to_broker is None
                &&& r.to_client == (if m == Some(MqttMessage::Disconnect) { None } else { m })
                &&& !r.close
            },
        },
{
    match event {
        ConnectionEvent::Request(m) => match m {
            MqttMessage::Subscribe { topic, qos } => ConnectionStep {
                to_broker: Some(BrokerMessage::sub(clientid, &topic, qos)),
                to_client: None,
                close: false,
            },
            MqttMessage::Publish { topic, qos, message } => {
                let to_broker = Some(BrokerMessage::pub_message(&topic, qos, &message, clientid));
                let to_client = if qos == 1 { Some(MqttMessage::Pubackqos1) } else { None };
                ConnectionStep { to_broker, to_client, close: false }
            },
            MqttMessage::Ping => ConnectionStep {
                to_broker: Some(BrokerMessage::ping(clientid)),
                to_client: None,
                close: false,
            },
            MqttMessage::Disconnect => ConnectionStep {
                to_broker: Some(BrokerMessage::disconnect(clientid)),
                to_client: None,
                close: false,
            },
            _ => ConnectionStep { to_broker: None, to_client: None, close: false },
        },
        ConnectionEvent::Undecodable => ConnectionStep { to_broker: None, to_client: None, close: true },
        ConnectionEvent::ReadFailed => ConnectionStep { to_broker: None, to_client: None, close: true },
        ConnectionEvent::FromBroker(m) => match m {
            Some(MqttMessage::Disconnect) => ConnectionStep { to_broker: None, to_client: None, close: false },
            other => ConnectionStep { to_broker: None, to_client: other, close: false },
        },
    }
}

/// Every request a client makes reaches the broker under the client's own id,
/// unchanged: a publication whatever its quality of service, a subscription,
/// a ping and a departure. The acknowledgements and the other protocol
/// replies that a client may send are not passed on.
pub proof fn law_requests_reach_broker_under_client_id(id: usize, topic: String, qos: u8, message: String)
    ensures
        request_for(id, MqttMessage::Publish { topic, qos, message })
            == Some(BrokerMessage::Publish { topic, message, qos, id }),
        request_for(id, MqttMessage::Subscribe { topic, qos }) == Some(BrokerMessage::Subscribe { id, topic, qos }),
        request_for(id, MqttMessage::Ping) == Some(BrokerMessage::Ping { id }),
        request_for(id, MqttMessage::Disconnect) == Some(BrokerMessage::Disconnect { id }),
        request_for(id, MqttMessage::Pubackqos1) == None::<BrokerMessage>,
        request_for(id, MqttMessage::Pubrec) == None::<BrokerMessage>,
        request_for(id, MqttMessage::Pubrel) == None::<BrokerMessage>,
        request_for(id, MqttMessage::Pubcomplete) == None::<BrokerMessage>,
{
}

} // verus!
