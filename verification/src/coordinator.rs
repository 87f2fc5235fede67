//! The long-lived shared state of the server: the subscription broker and the
//! presence/session registries, composed under one invariant. Every
//! connection actor reaches this state through its single owner, so all
//! registry mutations are serialized.

use vstd::prelude::*;

use crate::broker::{broadcast_exact, Broadcast, Broker, Delivery};
use crate::error::AzumaError;
use crate::ids::{ConnId, UserId};
use crate::message::ChatMessage;
use crate::stateactor::{OnlineStatus, StateActor};

verus! {

/// The shared runtime state reachable from every connection actor.
pub struct AzumaState {
    pub broker: Broker,
    pub state: StateActor,
}

/// Whether some entry of a presence fan-out is addressed to `c`.
pub open spec fn status_delivers_to(ds: Seq<StatusDelivery>, c: ConnId) -> bool {
    exists|k: int| 0 <= k < ds.len() && (#[trigger] ds[k]).to == c
}

/// One pending push of a presence change to one live connection.
pub struct StatusDelivery {
    pub to: ConnId,
    pub user: UserId,
    pub status: OnlineStatus,
}

impl AzumaState {
    /// The coordinator invariant: both registries are well-formed, and a
    /// presence entry exists only for users with at least one live
    /// connection.
    pub open spec fn wf(self) -> bool {
        &&& self.broker.wf()
        &&& self.state.inv()
        &&& forall|u: UserId| #[trigger] self.state.has_any_status(u) ==> self.state.has_session(u)
        &&& forall|u: UserId| #[trigger] self.state.has_session(u) ==> self.state.has_any_status(u)
    }

    /// Fresh state: no subscriptions, no sessions, everyone offline.
    pub fn new() -> (r: AzumaState)
        ensures
            r.wf(),
            forall|u: UserId| #[trigger] r.state.status_of(u) == OnlineStatus::Offline,
            forall|u: UserId, c: ConnId| !(#[trigger] r.state.has_session_entry(u, c)),
            forall|c: ConnId, ch: u128| !(#[trigger] r.broker.graph().subscriptions(c).contains(
                ch,
            )),
    {
        let r = AzumaState { broker: Broker::new(), state: StateActor::new() };
        proof {
            assert forall|u: UserId| #[trigger]
                r.state.has_any_status(u) implies r.state.has_session(u) by {
                r.state.lemma_has_any_iff_not_offline(u);
            }
            assert forall|u: UserId| #[trigger]
                r.state.has_session(u) implies r.state.has_any_status(u) by {
                let c = choose|c: ConnId| r.state.has_session_entry(u, c);
            }
        }
        r
    }
}

/// Presence derivation: under the coordinator invariant, a user with no live
/// connection reads as `Offline`, regardless of prior history.
pub proof fn lemma_presence_derivation(st: AzumaState, u: UserId)
    requires
        st.wf(),
        !st.state.has_session(u),
    ensures
        st.state.status_of(u) == OnlineStatus::Offline,
{
    if st.state.has_any_status(u) {
        assert(st.state.has_session(u));
    }
}

/// The other face of presence derivation: a user with a live connection
/// never reads as `Offline` (the first authenticated connection sets the
/// user online, and the entry outlives every connection but the last).
pub proof fn lemma_connected_not_offline(st: AzumaState, u: UserId)
    requires
        st.wf(),
        st.state.has_session(u),
    ensures
        st.state.status_of(u) != OnlineStatus::Offline,
{
    assert(st.state.has_any_status(u));
    st.state.lemma_has_any_iff_not_offline(u);
}

/// Message ingress: turn a validated send-message request into a persisted,
/// fanned-out chat message. The caller first asks the external channel store
/// whether the channel exists, then — only on existence — asks the external
/// message store to persist, and hands both results here. A missing channel
/// is reported as not found; a persistence failure is reported to the
/// submitter alone and, as a hard ordering invariant, produces no deliveries
/// (nothing unpersisted is ever broadcast). On success the message goes to
/// exactly the current subscribers of its channel; the author need not be
/// among them, and no connection of the author is excluded.
pub fn submit_message(
    st: &AzumaState,
    channel_exists: bool,
    persist_result: Result<ChatMessage, AzumaError>,
) -> (r: (Result<ChatMessage, AzumaError>, Vec<Delivery>))
    requires
        st.wf(),
    ensures
        !channel_exists ==> r.0 == Err::<ChatMessage, AzumaError>(AzumaError::NotFound)
            && r.1@.len() == 0,
        channel_exists && persist_result is Err ==> r.0 == Err::<ChatMessage, AzumaError>(
            persist_result->Err_0,
        ) && r.1@.len() == 0,
        persist_result matches Ok(m) ==> channel_exists ==> ({
            &&& r.0 matches Ok(m2) && m2@ == m@
            &&& broadcast_exact(st.broker.graph(), m@, r.1@)
        }),
{
    if !channel_exists {
        return (Err(AzumaError::NotFound), Vec::new());
    }
    match persist_result {
        Err(e) => (Err(e), Vec::new()),
        Ok(m) => {
            let deliveries = st.broker.handle_broadcast(&Broadcast::ChatMessage(m.duplicate()));
            (Ok(m), deliveries)
        }
    }
}

/// Store a new presence mode for `user` and fan the change out to every live
/// connection. Fails with a bad-request error where the user owns no live
/// connection or asks for the unsettable `Offline`; on failure nothing
/// changes and nothing is delivered.
pub fn update_onlinestatus(st: &mut AzumaState, user: UserId, status: OnlineStatus) -> (r: Result<
    Vec<StatusDelivery>,
    AzumaError,
>)
    requires
        old(st).wf(),
    ensures
        final(st).wf(),
        final(st).broker == old(st).broker,
        forall|u: UserId, c: ConnId| #[trigger]
            final(st).state.has_session_entry(u, c) <==> old(st).state.has_session_entry(u, c),
        status == OnlineStatus::Offline ==> r is Err && r->Err_0 == AzumaError::BadRequest,
        !old(st).state.has_session(user) ==> r is Err && r->Err_0 == AzumaError::BadRequest,
        status != OnlineStatus::Offline && old(st).state.has_session(user) ==> r is Ok,
        r is Err ==> forall|u: UserId| #[trigger]
            final(st).state.status_of(u) == old(st).state.status_of(u),
        r matches Ok(ds) ==> {
            &&& status != OnlineStatus::Offline
            &&& old(st).state.has_session(user)
            &&& forall|u: UserId| #[trigger]
                final(st).state.status_of(u) == (if u == user {
                    status
                } else {
                    old(st).state.status_of(u)
                })
            &&& forall|c: ConnId|
                #[trigger] status_delivers_to(ds@, c) <==> final(st).state.connection_live(c)
            &&& forall|k: int|
                0 <= k < ds@.len() ==> (#[trigger] ds@[k]).user == user && ds@[k].status == status
            &&& forall|k1: int, k2: int|
                0 <= k1 < ds@.len() && 0 <= k2 < ds@.len() && k1 != k2 ==> (#[trigger] ds@[k1]).to
                    != (#[trigger] ds@[k2]).to
        },
{
    match st.state.set_online_status(user, status) {
        Err(e) => {
            proof {
                assert forall|u: UserId| #[trigger]
                    st.state.has_any_status(u) implies st.state.has_session(u) by {
                    st.state.lemma_has_any_iff_not_offline(u);
                    old(st).state.lemma_has_any_iff_not_offline(u);
                    assert(old(st).state.has_session(u));
                    let c = choose|c: ConnId| old(st).state.has_session_entry(u, c);
                    assert(st.state.has_session_entry(u, c));
                }
                assert forall|u: UserId| #[trigger]
                    st.state.has_session(u) implies st.state.has_any_status(u) by {
                    let c = choose|c: ConnId| st.state.has_session_entry(u, c);
                    assert(old(st).state.has_session_entry(u, c));
                    assert(old(st).state.has_session(u));
                    assert(old(st).state.has_any_status(u));
                    old(st).state.lemma_has_any_iff_not_offline(u);
                    st.state.lemma_has_any_iff_not_offline(u);
                }
            }
            Err(e)
        },
        Ok(()) => {
            proof {
                assert forall|u: UserId| #[trigger]
                    st.state.has_any_status(u) implies st.state.has_session(u) by {
                    st.state.lemma_has_any_iff_not_offline(u);
                    if u == user {
                        let c = choose|c: ConnId| old(st).state.has_session_entry(user, c);
                        assert(st.state.has_session_entry(user, c));
                    } else {
                        old(st).state.lemma_has_any_iff_not_offline(u);
                        assert(old(st).state.has_session(u));
                        let c = choose|c: ConnId| old(st).state.has_session_entry(u, c);
                        assert(st.state.has_session_entry(u, c));
                    }
                }
                assert forall|u: UserId| #[trigger]
                    st.state.has_session(u) implies st.state.has_any_status(u) by {
                    st.state.lemma_has_any_iff_not_offline(u);
                    if u != user {
                        let c = choose|c: ConnId| st.state.has_session_entry(u, c);
                        assert(old(st).state.has_session_entry(u, c));
                        assert(old(st).state.has_session(u));
                        assert(old(st).state.has_any_status(u));
                        old(st).state.lemma_has_any_iff_not_offline(u);
                    }
                }
            }
            let conns = st.state.all_connections();
            let mut ds: Vec<StatusDelivery> = Vec::new();
            let mut i: usize = 0;
            while i < conns.len()
                invariant
                    i <= conns@.len(),
                    ds@.len() == i,
                    forall|k: int|
                        0 <= k < i ==> (#[trigger] ds@[k]).to == conns@[k] && ds@[k].user == user
                            && ds@[k].status == status,
                decreases conns@.len() - i,
            {
                ds.push(StatusDelivery { to: conns[i], user, status });
                i += 1;
            }
            proof {
                assert forall|c: ConnId|
                    #[trigger] status_delivers_to(ds@, c) <==> st.state.connection_live(c) by {
                    if status_delivers_to(ds@, c) {
                        let k = choose|k: int| 0 <= k < ds@.len() && (#[trigger] ds@[k]).to == c;
                        assert(conns@.contains(conns@[k]));
                    }
                    if st.state.connection_live(c) {
                        assert(conns@.contains(c));
                        let k = choose|k: int| 0 <= k < conns@.len() && conns@[k] == c;
                        assert(ds@[k].to == c);
                    }
                }
                assert forall|k1: int, k2: int|
                    0 <= k1 < ds@.len() && 0 <= k2 < ds@.len() && k1 != k2 implies (
                #[trigger] ds@[k1]).to != (#[trigger] ds@[k2]).to by {
                    assert(conns@[k1] != conns@[k2]);
                }
            }
            Ok(ds)
        }
    }
}

} // verus!
