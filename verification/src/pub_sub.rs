//! Generic publish/subscribe relation between connections and channels.
//!
//! The subscription graph is kept redundantly in two indices, one ordered for
//! by-connection lookups and one for by-channel lookups, exactly as a
//! subscriber map and a topic map would be. The well-formedness invariant
//! says that every edge appears identically in both indices; every operation
//! preserves it, so at every quiescent point a connection is listed under a
//! channel if and only if the channel is listed under the connection.
//!
//! All operations on one `PubSub` value are serialized through its single
//! owner (`&mut` access), which is what makes batch subscription atomic with
//! respect to a concurrent teardown of the same connection.

use vstd::prelude::*;

use crate::ids::{ChannelId, ConnId};
use crate::index_list::{find_pair, lemma_push_contains, lemma_push_no_duplicates, remove_pair, retain_without_key};

verus! {

/// The bipartite subscription graph.
pub struct PubSub {
    /// Connection-major index of subscription edges.
    subscribers: Vec<(ConnId, ChannelId)>,
    /// Channel-major index of subscription edges.
    topics: Vec<(ConnId, ChannelId)>,
}

impl PubSub {
    /// The channels the connection-major index records for `c`.
    pub closed spec fn subscriptions(self, c: ConnId) -> Set<ChannelId> {
        Set::new(|ch: ChannelId| self.subscribers@.contains((c, ch)))
    }

    /// The connections the channel-major index records for `ch`.
    pub closed spec fn subscribers_of(self, ch: ChannelId) -> Set<ConnId> {
        Set::new(|c: ConnId| self.topics@.contains((c, ch)))
    }

    /// Well-formedness: no index lists an edge twice, and the two indices
    /// hold exactly the same edges.
    pub closed spec fn wf(self) -> bool {
        &&& self.subscribers@.no_duplicates()
        &&& self.topics@.no_duplicates()
        &&& forall|e: (ConnId, ChannelId)|
            #[trigger] self.subscribers@.contains(e) <==> #[trigger] self.topics@.contains(e)
    }

    /// An empty graph: nothing is subscribed to anything.
    pub fn new() -> (r: PubSub)
        ensures
            r.wf(),
            forall|c: ConnId, ch: ChannelId| !(#[trigger] r.subscriptions(c).contains(ch)),
            forall|c: ConnId, ch: ChannelId| !(#[trigger] r.subscribers_of(ch).contains(c)),
    {
        PubSub { subscribers: Vec::new(), topics: Vec::new() }
    }

    /// Add the edge between `subscriber` and `topic` to both indices;
    /// idempotent.
    pub fn sub(&mut self, subscriber: ConnId, topic: ChannelId)
        requires
            old(self).wf(),
        ensures
            final(self).wf(),
            sub_post(*old(self), *final(self), subscriber, topic),
    {
        if find_pair(&self.subscribers, subscriber, topic).is_none() {
            let ghost pre_s = self.subscribers@;
            let ghost pre_t = self.topics@;
            self.subscribers.push((subscriber, topic));
            self.topics.push((subscriber, topic));
            proof {
                lemma_push_contains(pre_s, (subscriber, topic));
                lemma_push_contains(pre_t, (subscriber, topic));
                assert(!pre_t.contains((subscriber, topic)));
                lemma_push_no_duplicates(pre_s, (subscriber, topic));
                lemma_push_no_duplicates(pre_t, (subscriber, topic));
                assert forall|c: ConnId, ch: ChannelId| #[trigger]
                    self.subscriptions(c).contains(ch) <==> old(self).subscriptions(c).contains(ch)
                    || (c == subscriber && ch == topic) by {
                    assert(self.subscribers@.contains((c, ch)) <==> pre_s.contains((c, ch)) || (c,
                    ch) == (subscriber, topic));
                }
                assert forall|c: ConnId, ch: ChannelId| #[trigger]
                    self.subscribers_of(ch).contains(c) <==> old(self).subscribers_of(ch).contains(
                    c) || (c == subscriber && ch == topic) by {
                    assert(self.topics@.contains((c, ch)) <==> pre_t.contains((c, ch)) || (c, ch)
                        == (subscriber, topic));
                }
            }
        } else {
            proof {
                assert(self.subscribers@.contains((subscriber, topic)));
                assert(self.topics@.contains((subscriber, topic)));
                assert forall|c: ConnId, ch: ChannelId| #[trigger]
                    self.subscriptions(c).contains(ch) <==> old(self).subscriptions(c).contains(ch)
                    || (c == subscriber && ch == topic) by {
                    if c == subscriber && ch == topic {
                        assert(self.subscribers@.contains((c, ch)));
                    }
                }
                assert forall|c: ConnId, ch: ChannelId| #[trigger]
                    self.subscribers_of(ch).contains(c) <==> old(self).subscribers_of(ch).contains(
                    c) || (c == subscriber && ch == topic) by {
                    if c == subscriber && ch == topic {
                        assert(self.topics@.contains((c, ch)));
                    }
                }
            }
        }
    }

    /// Remove the edge between `subscriber` and `topic` from both indices;
    /// a no-op if the edge is absent.
    pub fn unsub(&mut self, subscriber: ConnId, topic: ChannelId)
        requires
            old(self).wf(),
        ensures
            final(self).wf(),
            unsub_post(*old(self), *final(self), subscriber, topic),
    {
        remove_pair(&mut self.subscribers, subscriber, topic);
        remove_pair(&mut self.topics, subscriber, topic);
    }

    /// Remove every edge belonging to `subscriber` from both indices. Safe to
    /// call for a connection with no subscriptions.
    pub fn unsub_all(&mut self, subscriber: ConnId)
        requires
            old(self).wf(),
        ensures
            final(self).wf(),
            unsub_all_post(*old(self), *final(self), subscriber),
    {
        self.subscribers = retain_without_key(&self.subscribers, subscriber);
        self.topics = retain_without_key(&self.topics, subscriber);
    }

    /// The connections currently subscribed to `topic`, each exactly once.
    pub fn get_subs(&self, topic: ChannelId) -> (r: Vec<ConnId>)
        requires
            self.wf(),
        ensures
            r@.no_duplicates(),
            forall|c: ConnId| #[trigger] r@.contains(c) <==> self.subscribers_of(topic).contains(
                c,
            ),
    {
        let v = &self.topics;
        let mut r: Vec<ConnId> = Vec::new();
        let mut i: usize = 0;
        while i < v.len()
            invariant
                i <= v@.len(),
                v@.no_duplicates(),
                r@.no_duplicates(),
                forall|c: ConnId| #[trigger] r@.contains(c) <==> v@.subrange(0, i as int).contains(
                    (c, topic),
                ),
            decreases v@.len() - i,
        {
            let ghost prefix = v@.subrange(0, i as int);
            proof {
                assert(v@.subrange(0, i as int + 1) =~= prefix.push(v@[i as int]));
                lemma_push_contains(prefix, v@[i as int]);
            }
            if v[i].1 == topic {
                let c = v[i].0;
                proof {
                    assert(v@[i as int] == (c, topic));
                    if r@.contains(c) {
                        let k = choose|k: int|
                            0 <= k < prefix.len() && prefix[k] == (c, topic);
                        assert(v@[k] == v@[i as int]);
                        assert(false);
                    }
                    lemma_push_contains(r@, c);
                    lemma_push_no_duplicates(r@, c);
                }
                r.push(c);
            }
            i += 1;
        }
        proof {
            assert(v@.subrange(0, v@.len() as int) =~= v@);
        }
        r
    }
}

/// What `sub` does: afterwards an edge is recorded, in either index, exactly
/// if it was recorded before or is the added one.
pub open spec fn sub_post(pre: PubSub, post: PubSub, subscriber: ConnId, topic: ChannelId) -> bool {
    &&& forall|c: ConnId, ch: ChannelId|
        #[trigger] post.subscriptions(c).contains(ch) <==> pre.subscriptions(c).contains(ch) || (c
            == subscriber && ch == topic)
    &&& forall|c: ConnId, ch: ChannelId|
        #[trigger] post.subscribers_of(ch).contains(c) <==> pre.subscribers_of(ch).contains(c) || (
        c == subscriber && ch == topic)
}

/// What `unsub` does: afterwards an edge is recorded, in either index,
/// exactly if it was recorded before and is not the removed one.
pub open spec fn unsub_post(
    pre: PubSub,
    post: PubSub,
    subscriber: ConnId,
    topic: ChannelId,
) -> bool {
    &&& forall|c: ConnId, ch: ChannelId|
        #[trigger] post.subscriptions(c).contains(ch) <==> pre.subscriptions(c).contains(ch) && !(c
            == subscriber && ch == topic)
    &&& forall|c: ConnId, ch: ChannelId|
        #[trigger] post.subscribers_of(ch).contains(c) <==> pre.subscribers_of(ch).contains(c) && !(
        c == subscriber && ch == topic)
}

/// What `unsub_all` does: afterwards an edge is recorded, in either index,
/// exactly if it was recorded before and does not belong to the torn-down
/// connection.
pub open spec fn unsub_all_post(pre: PubSub, post: PubSub, subscriber: ConnId) -> bool {
    &&& forall|c: ConnId, ch: ChannelId|
        #[trigger] post.subscriptions(c).contains(ch) <==> pre.subscriptions(c).contains(ch) && c
            != subscriber
    &&& forall|c: ConnId, ch: ChannelId|
        #[trigger] post.subscribers_of(ch).contains(c) <==> pre.subscribers_of(ch).contains(c) && c
            != subscriber
}

/// Bidirectional index consistency: in a well-formed graph a connection is
/// recorded under a channel exactly when the channel is recorded under the
/// connection. Every operation requires and preserves well-formedness, so
/// this holds at every quiescent point of any operation sequence.
pub proof fn lemma_bidirectional_consistency(ps: PubSub, c: ConnId, ch: ChannelId)
    requires
        ps.wf(),
    ensures
        ps.subscriptions(c).contains(ch) <==> ps.subscribers_of(ch).contains(c),
{
    assert(ps.subscribers@.contains((c, ch)) <==> ps.topics@.contains((c, ch)));
}

/// Completeness of `unsub_all`: afterwards the torn-down connection has no
/// subscriptions and no channel lists it as a subscriber.
pub proof fn lemma_unsub_all_completeness(pre: PubSub, post: PubSub, c: ConnId)
    requires
        unsub_all_post(pre, post, c),
    ensures
        forall|ch: ChannelId| !(#[trigger] post.subscriptions(c).contains(ch)),
        forall|ch: ChannelId| !(#[trigger] post.subscribers_of(ch).contains(c)),
{
}

/// Idempotence of `unsub_all`: tearing the same connection down a second
/// time changes no recorded subscription in either index.
pub proof fn lemma_unsub_all_idempotent(s0: PubSub, s1: PubSub, s2: PubSub, c: ConnId)
    requires
        unsub_all_post(s0, s1, c),
        unsub_all_post(s1, s2, c),
    ensures
        forall|c2: ConnId, ch: ChannelId|
            #[trigger] s2.subscriptions(c2).contains(ch) <==> s1.subscriptions(c2).contains(ch),
        forall|c2: ConnId, ch: ChannelId|
            #[trigger] s2.subscribers_of(ch).contains(c2) <==> s1.subscribers_of(ch).contains(c2),
{
}

} // verus!
