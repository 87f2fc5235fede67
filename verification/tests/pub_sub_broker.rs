use azumaneo::broker::{Broadcast, Broker, MassSubChannel, UnsubAll};
use azumaneo::ids::DEFAULT_CHANNEL;
use azumaneo::message::ChatMessage;
use azumaneo::pub_sub::PubSub;
use azumaneo::session::Session;

fn msg(id: u128, author: u128, channel: u128, content: &str) -> ChatMessage {
    ChatMessage { id, author, channel, content: content.to_string(), created_at: 7 }
}

fn session_for(subject: u128) -> Session {
    Session { token: 1, subject, created_at: 0, expires_at: 10 }
}

#[test]
fn sub_is_idempotent() {
    let mut ps = PubSub::new();
    ps.sub(1, 100);
    ps.sub(1, 100);
    let subs = ps.get_subs(100);
    assert_eq!(subs.len(), 1);
    assert_eq!(subs[0], 1);
}

#[test]
fn unsub_removes_edge_and_is_noop_when_absent() {
    let mut ps = PubSub::new();
    ps.sub(1, 100);
    ps.sub(2, 100);
    ps.unsub(1, 100);
    let subs = ps.get_subs(100);
    assert_eq!(subs, vec![2]);
    ps.unsub(1, 100);
    assert_eq!(ps.get_subs(100), vec![2]);
}

#[test]
fn unsub_all_completeness_and_idempotence() {
    let mut ps = PubSub::new();
    ps.sub(1, 100);
    ps.sub(1, 200);
    ps.sub(2, 100);
    ps.unsub_all(1);
    assert_eq!(ps.get_subs(100), vec![2]);
    assert!(ps.get_subs(200).is_empty());
    // a second teardown of the same connection changes nothing
    ps.unsub_all(1);
    assert_eq!(ps.get_subs(100), vec![2]);
    assert!(ps.get_subs(200).is_empty());
}

#[test]
fn unsub_all_on_unknown_connection_is_safe() {
    let mut ps = PubSub::new();
    ps.unsub_all(42);
    assert!(ps.get_subs(1).is_empty());
}

#[test]
fn broadcast_reaches_exactly_current_subscribers() {
    let mut broker = Broker::new();
    let channel_x: u128 = 77;
    broker.handle_sub(1, channel_x); // connection A
    broker.handle_sub(2, channel_x); // connection B
    broker.handle_sub(3, 88); // connection C, another channel

    let m = msg(500, 9, channel_x, "hello");
    let deliveries = broker.handle_broadcast(&Broadcast::ChatMessage(m));
    let mut tos: Vec<u128> = deliveries.iter().map(|d| d.to).collect();
    tos.sort();
    assert_eq!(tos, vec![1, 2]);
    for d in &deliveries {
        assert_eq!(d.message.content, "hello");
        assert_eq!(d.message.channel, channel_x);
    }

    // a connection subscribing after the call returns does not receive it
    broker.handle_sub(4, channel_x);
    assert_eq!(deliveries.len(), 2);
    assert!(deliveries.iter().all(|d| d.to != 4));
}

#[test]
fn mass_sub_adds_default_channel_and_topics() {
    let mut broker = Broker::new();
    broker.handle_mass_sub(&MassSubChannel {
        addr: 5,
        session: session_for(1),
        topics: vec![100, 200],
    });
    assert_eq!(broker.handle_broadcast(&Broadcast::ChatMessage(msg(1, 1, 100, "a"))).len(), 1);
    assert_eq!(broker.handle_broadcast(&Broadcast::ChatMessage(msg(2, 1, 200, "b"))).len(), 1);
    assert_eq!(
        broker.handle_broadcast(&Broadcast::ChatMessage(msg(3, 1, DEFAULT_CHANNEL, "c"))).len(),
        1
    );
    assert_eq!(broker.handle_broadcast(&Broadcast::ChatMessage(msg(4, 1, 300, "d"))).len(), 0);
}

#[test]
fn broker_unsub_removes_one_edge() {
    let mut broker = Broker::new();
    broker.handle_sub(1, 100);
    broker.handle_sub(1, 200);
    broker.handle_unsub(1, 100);
    assert!(broker.handle_broadcast(&Broadcast::ChatMessage(msg(1, 2, 100, "x"))).is_empty());
    assert_eq!(broker.handle_broadcast(&Broadcast::ChatMessage(msg(2, 2, 200, "y"))).len(), 1);
}

#[test]
fn broadcast_to_empty_channel_is_noop() {
    let broker = Broker::new();
    let deliveries = broker.handle_broadcast(&Broadcast::ChatMessage(msg(1, 1, 12, "x")));
    assert!(deliveries.is_empty());
}

#[test]
fn unsub_all_message_clears_broker() {
    let mut broker = Broker::new();
    broker.handle_sub(1, 100);
    broker.handle_unsub_all(&UnsubAll { addr: 1 });
    assert!(broker.handle_broadcast(&Broadcast::ChatMessage(msg(1, 2, 100, "x"))).is_empty());
}
