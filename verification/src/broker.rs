//! The subscription broker: owns the channel-subscription graph and performs
//! fan-out. All its operations are serialized through the single owner of the
//! `Broker` value, which gives per-channel broadcast ordering and makes batch
//! subscription atomic with respect to a concurrent teardown.

use vstd::prelude::*;

use crate::ids::{ChannelId, ConnId, DEFAULT_CHANNEL};
use crate::message::{ChatMessage, ChatMessageView};
use crate::pub_sub::{sub_post, unsub_all_post, unsub_post, PubSub};
use crate::session::Session;

verus! {

/// The broker, a thin owner of the bipartite subscription graph.
pub struct Broker {
    channel_subs: PubSub,
}

/// Request to subscribe a connection to several channels at once, as issued
/// when a connection authenticates and is subscribed to every channel
/// visible to its user.
pub struct MassSubChannel {
    pub addr: ConnId,
    pub session: Session,
    pub topics: Vec<ChannelId>,
}

/// Request to drop every subscription of a connection, issued exactly once
/// from the connection's teardown path.
pub struct UnsubAll {
    pub addr: ConnId,
}

/// An event fanned out to the subscribers of a channel.
pub enum Broadcast {
    ChatMessage(ChatMessage),
}

/// One pending push of a message to one live connection. The push itself is
/// best-effort and fire-and-forget: a slow or dead recipient affects nobody
/// else.
pub struct Delivery {
    pub to: ConnId,
    pub message: ChatMessage,
}

impl Broker {
    /// The current subscription graph.
    pub closed spec fn graph(self) -> PubSub {
        self.channel_subs
    }

    pub open spec fn wf(self) -> bool {
        self.graph().wf()
    }

    /// A broker with no subscriptions.
    pub fn new() -> (r: Broker)
        ensures
            r.wf(),
            forall|c: ConnId, ch: ChannelId| !(#[trigger] r.graph().subscriptions(c).contains(ch)),
            forall|c: ConnId, ch: ChannelId| !(#[trigger] r.graph().subscribers_of(ch).contains(c)),
    {
        Broker { channel_subs: PubSub::new() }
    }

    /// Subscribe one connection to one channel; idempotent.
    pub fn handle_sub(&mut self, addr: ConnId, topic: ChannelId)
        requires
            old(self).wf(),
        ensures
            final(self).wf(),
            sub_post(old(self).graph(), final(self).graph(), addr, topic),
    {
        self.channel_subs.sub(addr, topic);
    }

    /// Subscribe a connection to the default channel and to every requested
    /// topic, in one serialized batch.
    pub fn handle_mass_sub(&mut self, msg: &MassSubChannel)
        requires
            old(self).wf(),
        ensures
            final(self).wf(),
            mass_sub_post(old(self).graph(), final(self).graph(), msg.addr, msg.topics@),
    {
        let ghost pre = self.channel_subs;
        self.channel_subs.sub(msg.addr, DEFAULT_CHANNEL);
        let mut i: usize = 0;
        while i < msg.topics.len()
            invariant
                self.wf(),
                i <= msg.topics@.len(),
                forall|c: ConnId, ch: ChannelId|
                    #[trigger] self.channel_subs.subscriptions(c).contains(ch) <==> pre.subscriptions(
                        c,
                    ).contains(ch) || (c == msg.addr && (ch == DEFAULT_CHANNEL
                        || msg.topics@.subrange(0, i as int).contains(ch))),
                forall|c: ConnId, ch: ChannelId|
                    #[trigger] self.channel_subs.subscribers_of(ch).contains(c) <==> pre.subscribers_of(
                        ch,
                    ).contains(c) || (c == msg.addr && (ch == DEFAULT_CHANNEL
                        || msg.topics@.subrange(0, i as int).contains(ch))),
            decreases msg.topics@.len() - i,
        {
            let ghost mid = self.channel_subs;
            let ghost prefix = msg.topics@.subrange(0, i as int);
            self.channel_subs.sub(msg.addr, msg.topics[i]);
            proof {
                assert(msg.topics@.subrange(0, i as int + 1) =~= prefix.push(
                    msg.topics@[i as int],
                ));
                crate::index_list::lemma_push_contains(prefix, msg.topics@[i as int]);
            }
            i += 1;
        }
        proof {
            assert(msg.topics@.subrange(0, msg.topics@.len() as int) =~= msg.topics@);
        }
    }

    /// Remove one subscription edge; a no-op where it is absent.
    pub fn handle_unsub(&mut self, addr: ConnId, topic: ChannelId)
        requires
            old(self).wf(),
        ensures
            final(self).wf(),
            unsub_post(old(self).graph(), final(self).graph(), addr, topic),
    {
        self.channel_subs.unsub(addr, topic);
    }

    /// Drop every subscription of the connection; safe to call for a
    /// connection with none.
    pub fn handle_unsub_all(&mut self, msg: &UnsubAll)
        requires
            old(self).wf(),
        ensures
            final(self).wf(),
            unsub_all_post(old(self).graph(), final(self).graph(), msg.addr),
    {
        self.channel_subs.unsub_all(msg.addr);
    }

    /// Fan a broadcast out: one pending delivery for every connection
    /// currently subscribed to the message's channel, each exactly once, each
    /// carrying the same message, and none for any other connection.
    pub fn handle_broadcast(&self, msg: &Broadcast) -> (r: Vec<Delivery>)
        requires
            self.wf(),
        ensures
            msg matches Broadcast::ChatMessage(m) ==> broadcast_exact(self.graph(), m@, r@),
    {
        match msg {
            Broadcast::ChatMessage(m) => {
                let subs = self.channel_subs.get_subs(m.channel);
                let mut r: Vec<Delivery> = Vec::new();
                let mut i: usize = 0;
                while i < subs.len()
                    invariant
                        i <= subs@.len(),
                        r@.len() == i,
                        forall|k: int|
                            0 <= k < i ==> (#[trigger] r@[k]).to == subs@[k] && r@[k].message@
                                == m@,
                    decreases subs@.len() - i,
                {
                    r.push(Delivery { to: subs[i], message: m.duplicate() });
                    i += 1;
                }
                proof {
                    assert forall|c: ConnId|
                        (exists|k: int| 0 <= k < r@.len() && (#[trigger] r@[k]).to
                            == c) <==> self.graph().subscribers_of(m.channel).contains(c) by {
                        if exists|k: int| 0 <= k < r@.len() && (#[trigger] r@[k]).to == c {
                            let k = choose|k: int| 0 <= k < r@.len() && (#[trigger] r@[k]).to == c;
                            assert(subs@.contains(subs@[k]));
                        }
                        if self.graph().subscribers_of(m.channel).contains(c) {
                            assert(subs@.contains(c));
                            let k = choose|k: int| 0 <= k < subs@.len() && subs@[k] == c;
                            assert(r@[k].to == c);
                        }
                    }
                    assert forall|k1: int, k2: int|
                        0 <= k1 < r@.len() && 0 <= k2 < r@.len() && k1 != k2 implies (
                        #[trigger] r@[k1]).to != (#[trigger] r@[k2]).to by {
                        assert(subs@[k1] != subs@[k2]);
                    }
                }
                r
            }
        }
    }
}

/// What a batch subscription does to the graph: the connection gains the
/// default channel and every requested topic; nothing else changes.
pub open spec fn mass_sub_post(
    pre: PubSub,
    post: PubSub,
    addr: ConnId,
    topics: Seq<ChannelId>,
) -> bool {
    &&& forall|c: ConnId, ch: ChannelId|
        #[trigger] post.subscriptions(c).contains(ch) <==> pre.subscriptions(c).contains(ch) || (c
            == addr && (ch == DEFAULT_CHANNEL || topics.contains(ch)))
    &&& forall|c: ConnId, ch: ChannelId|
        #[trigger] post.subscribers_of(ch).contains(c) <==> pre.subscribers_of(ch).contains(c) || (
        c == addr && (ch == DEFAULT_CHANNEL || topics.contains(ch)))
}

/// A fan-out reaches exactly the then-current subscribers of the message's
/// channel: every subscriber once, nobody else, always with the same
/// message.
pub open spec fn broadcast_exact(graph: PubSub, m: ChatMessageView, r: Seq<Delivery>) -> bool {
    &&& forall|c: ConnId|
        (exists|k: int| 0 <= k < r.len() && (#[trigger] r[k]).to == c)
            <==> graph.subscribers_of(m.channel).contains(c)
    &&& forall|k1: int, k2: int|
        0 <= k1 < r.len() && 0 <= k2 < r.len() && k1 != k2 ==> (#[trigger] r[k1]).to != (
        #[trigger] r[k2]).to
    &&& forall|k: int| 0 <= k < r.len() ==> (#[trigger] r[k]).message@ == m
}

} // verus!
