//! One websocket connection: its protocol state machine and its lifecycle
//! against the shared coordinator state.
//!
//! A connection starts unauthenticated and may transition exactly once to
//! authenticated; it never reverts. While unauthenticated the only accepted
//! frame is an `Auth` frame with a well-formed token; everything else — a
//! frame of another type, or an `Auth` frame whose credential is missing or
//! malformed — is answered with an unauthorized error and changes nothing
//! (only text that is no protocol envelope at all is a bad request there).
//! Once authenticated, every undecodable frame is answered with a
//! bad-request error. No failure ever tears the connection down. The
//! transport layer feeds decoded frames in, performs the returned actions
//! (replies, store round-trips, deliveries), and reports transport close as
//! `stopped`.

use vstd::prelude::*;

use crate::awsp::{AwspErrorType, AwspFrame, DecodeError};
use crate::broker::{mass_sub_post, MassSubChannel, UnsubAll};
use crate::pub_sub::unsub_all_post;
use crate::coordinator::AzumaState;
use crate::error::AzumaError;
use crate::ids::{ChannelId, ConnId, Token, UserId};
use crate::session::Session;
use crate::stateactor::OnlineStatus;
use crate::ws::AwspResponseMessage;

verus! {

/// The per-connection state: a fresh identity, and the authenticated subject
/// once the session token has been resolved.
pub struct Ws {
    /// Identity of this connection, minted when the transport was accepted;
    /// never reused.
    pub connection_id: ConnId,
    /// `None` while unauthenticated; the owning user afterwards.
    pub subject: Option<UserId>,
}

/// What the transport layer must do next with a frame it handed in.
pub enum FrameAction {
    /// Send an error frame back; nothing else changes.
    Reply(AwspErrorType),
    /// Resolve this token against the external session store, then finish
    /// with `complete_auth`.
    StartAuth(Token),
    /// Run message ingress for this request (channel lookup, persistence,
    /// fan-out).
    Submit { author: UserId, channel: ChannelId, content: String },
    /// Apply this presence change for the authenticated user.
    SetStatusReq { user: UserId, status: OnlineStatus },
    /// An ephemeral frame with nothing to do.
    Ignore,
}

impl Ws {
    /// A freshly accepted, unauthenticated connection.
    pub fn new(connection_id: ConnId) -> (r: Ws)
        ensures
            r.connection_id == connection_id,
            r.subject is None,
    {
        Ws { connection_id, subject: None }
    }

    /// Whether data may be pushed to this connection's client: an
    /// unauthenticated connection receives nothing from the server beyond
    /// direct replies to its own frames.
    pub fn may_receive(&self) -> (r: bool)
        ensures
            r == (self.subject is Some),
    {
        self.subject.is_some()
    }

    /// Dispatch one inbound frame against the protocol state. The connection
    /// state itself never changes here: authentication completes only in
    /// `complete_auth`, after the asynchronous session-store round-trip.
    ///
    /// Gating: while unauthenticated, anything but an `Auth` frame carrying
    /// a well-formed token — another frame type, an inadmissible envelope,
    /// or an `Auth` frame with a missing or malformed credential — is
    /// answered with an unauthorized error; only text that is no protocol
    /// envelope at all is a bad request there. Once authenticated, every
    /// failure is a bad request, and so is a second `Auth` (the transition
    /// happens exactly once).
    pub fn handle(&self, decoded: Result<AwspFrame, DecodeError>) -> (a: FrameAction)
        ensures
            decoded matches Err(e) ==> self.subject is None ==> a == FrameAction::Reply(
                match e {
                    DecodeError::NotAnEnvelope => AwspErrorType::BadRequest,
                    DecodeError::BadCredential => AwspErrorType::Unauthorized,
                    DecodeError::BadFrame => AwspErrorType::Unauthorized,
                },
            ),
            decoded is Err && self.subject is Some ==> a == FrameAction::Reply(
                AwspErrorType::BadRequest,
            ),
            decoded matches Ok(f) ==> self.subject is None ==> match f {
                AwspFrame::Auth { token } => a == FrameAction::StartAuth(token),
                _ => a == FrameAction::Reply(AwspErrorType::Unauthorized),
            },
            decoded matches Ok(f) ==> self.subject matches Some(u) ==> match f {
                AwspFrame::Auth { .. } => a == FrameAction::Reply(AwspErrorType::BadRequest),
                AwspFrame::SendMessage { channel, content } => ({
                    &&& a matches FrameAction::Submit { author, channel: ch2, content: c2 }
                    &&& author == u
                    &&& ch2 == channel
                    &&& c2@ == content@
                }),
                AwspFrame::ChangeOnlineStatus { status } => a == (FrameAction::SetStatusReq {
                    user: u,
                    status,
                }),
                AwspFrame::SendTyping => a == FrameAction::Ignore,
                AwspFrame::StopTyping => a == FrameAction::Ignore,
            },
    {
        match decoded {
            Err(e) => match self.subject {
                None => match e {
                    DecodeError::NotAnEnvelope => FrameAction::Reply(AwspErrorType::BadRequest),
                    DecodeError::BadCredential => FrameAction::Reply(AwspErrorType::Unauthorized),
                    DecodeError::BadFrame => FrameAction::Reply(AwspErrorType::Unauthorized),
                },
                Some(_) => FrameAction::Reply(AwspErrorType::BadRequest),
            },
            Ok(f) => match self.subject {
                None => match f {
                    AwspFrame::Auth { token } => FrameAction::StartAuth(token),
                    _ => FrameAction::Reply(AwspErrorType::Unauthorized),
                },
                Some(u) => match f {
                    AwspFrame::Auth { .. } => FrameAction::Reply(AwspErrorType::BadRequest),
                    AwspFrame::SendMessage { channel, content } => FrameAction::Submit {
                        author: u,
                        channel,
                        content,
                    },
                    AwspFrame::ChangeOnlineStatus { status } => FrameAction::SetStatusReq {
                        user: u,
                        status,
                    },
                    AwspFrame::SendTyping => FrameAction::Ignore,
                    AwspFrame::StopTyping => FrameAction::Ignore,
                },
            },
        }
    }

    /// Finish an authentication round-trip. On failure the connection stays
    /// unauthenticated and open, and the client may retry; a missing session
    /// reads as unauthorized. On success the connection becomes
    /// authenticated, is registered in the session registry, marks its user
    /// online if this is the user's first live connection, is subscribed to
    /// the default channel and every visible channel, and a welcome frame
    /// goes back.
    pub fn complete_auth(
        &mut self,
        st: &mut AzumaState,
        resolved: &Result<Session, AzumaError>,
        channels: Vec<ChannelId>,
    ) -> (reply: AwspResponseMessage)
        requires
            old(self).subject is None,
            old(st).wf(),
        ensures
            final(self).connection_id == old(self).connection_id,
            final(st).wf(),
            resolved matches Err(e) ==> ({
                &&& *final(self) == *old(self)
                &&& *final(st) == *old(st)
                &&& reply matches AwspResponseMessage::Error { message } && message@ == (if e
                    == AzumaError::NotFound {
                    AzumaError::Unauthorized
                } else {
                    *e
                }).message_spec()
            }),
            resolved matches Ok(s) ==> ({
                &&& final(self).subject == Some(s.subject)
                &&& reply is Welcome
                &&& mass_sub_post(
                    old(st).broker.graph(),
                    final(st).broker.graph(),
                    old(self).connection_id,
                    channels@,
                )
                &&& forall|u: UserId, c: ConnId| #[trigger]
                    final(st).state.has_session_entry(u, c) <==> old(st).state.has_session_entry(
                        u,
                        c,
                    ) || (u == s.subject && c == old(self).connection_id)
                &&& forall|u: UserId| #[trigger]
                    final(st).state.status_of(u) == (if u == s.subject && !old(
                        st,
                    ).state.has_session(s.subject) {
                        OnlineStatus::Online
                    } else {
                        old(st).state.status_of(u)
                    })
            }),
    {
        match resolved {
            Err(e) => {
                let kind = if matches!(e, AzumaError::NotFound) {
                    AzumaError::Unauthorized
                } else {
                    *e
                };
                AwspResponseMessage::Error { message: kind.message() }
            }
            Ok(session) => {
                let first = !st.state.has_session_of(session.subject);
                st.state.add_user_session(session.subject, self.connection_id);
                if first {
                    proof {
                        assert(st.state.has_session_entry(session.subject, self.connection_id));
                    }
                    let set_res = st.state.set_online_status(session.subject, OnlineStatus::Online);
                    proof {
                        assert(set_res is Ok);
                    }
                }
                st.broker.handle_mass_sub(
                    &MassSubChannel { addr: self.connection_id, session: *session, topics: channels },
                );
                self.subject = Some(session.subject);
                proof {
                    assert forall|u: UserId| #[trigger]
                        st.state.has_any_status(u) implies st.state.has_session(u) by {
                        st.state.lemma_has_any_iff_not_offline(u);
                        if u == session.subject {
                            assert(st.state.has_session_entry(u, self.connection_id));
                        } else {
                            old(st).state.lemma_has_any_iff_not_offline(u);
                            assert(old(st).state.has_session(u));
                            let c = choose|c: ConnId| old(st).state.has_session_entry(u, c);
                            assert(st.state.has_session_entry(u, c));
                        }
                    }
                    assert forall|u: UserId| #[trigger]
                        st.state.has_session(u) implies st.state.has_any_status(u) by {
                        st.state.lemma_has_any_iff_not_offline(u);
                        if u == session.subject {
                            if first {
                                assert(st.state.status_of(u) == OnlineStatus::Online);
                            } else {
                                assert(old(st).state.has_session(u));
                                assert(old(st).state.has_any_status(u));
                                old(st).state.lemma_has_any_iff_not_offline(u);
                            }
                        } else {
                            let c = choose|c: ConnId| st.state.has_session_entry(u, c);
                            assert(old(st).state.has_session_entry(u, c));
                            assert(old(st).state.has_session(u));
                            assert(old(st).state.has_any_status(u));
                            old(st).state.lemma_has_any_iff_not_offline(u);
                        }
                    }
                }
                AwspResponseMessage::Welcome
            }
        }
    }

    /// Tear the connection down after transport close or error: drop every
    /// subscription, and, if authenticated, deregister the session; if that
    /// was the user's last connection, the user's presence entry goes away
    /// and the user reads as offline.
    pub fn stopped(&self, st: &mut AzumaState)
        requires
            old(st).wf(),
        ensures
            final(st).wf(),
            unsub_all_post(old(st).broker.graph(), final(st).broker.graph(), self.connection_id),
            self.subject is None ==> final(st).state == old(st).state,
            self.subject matches Some(u) ==> ({
                &&& forall|u2: UserId, c: ConnId| #[trigger]
                    final(st).state.has_session_entry(u2, c) <==> old(st).state.has_session_entry(
                        u2,
                        c,
                    ) && !(u2 == u && c == self.connection_id)
                &&& forall|u2: UserId| #[trigger]
                    final(st).state.status_of(u2) == (if u2 == u && !final(st).state.has_session(
                        u,
                    ) {
                        OnlineStatus::Offline
                    } else {
                        old(st).state.status_of(u2)
                    })
            }),
    {
        st.broker.handle_unsub_all(&UnsubAll { addr: self.connection_id });
        match self.subject {
            None => {
            }
            Some(u) => {
                let ghost mid = st.state;
                let last = st.state.remove_user_session(u, self.connection_id);
                if last {
                    st.state.remove_online_status(u);
                }
                proof {
                    assert forall|u2: UserId| #[trigger]
                        st.state.has_any_status(u2) implies st.state.has_session(u2) by {
                        st.state.lemma_has_any_iff_not_offline(u2);
                        old(st).state.lemma_has_any_iff_not_offline(u2);
                        if u2 == u {
                            if last {
                                assert(st.state.status_of(u2) == OnlineStatus::Offline);
                            } else {
                                assert(st.state.has_session(u));
                            }
                        } else {
                            assert(old(st).state.has_session(u2));
                            let c = choose|c: ConnId| old(st).state.has_session_entry(u2, c);
                            assert(st.state.has_session_entry(u2, c));
                        }
                    }
                    assert forall|u2: UserId| #[trigger]
                        st.state.has_session(u2) implies st.state.has_any_status(u2) by {
                        st.state.lemma_has_any_iff_not_offline(u2);
                        let c = choose|c: ConnId| st.state.has_session_entry(u2, c);
                        assert(old(st).state.has_session_entry(u2, c));
                        assert(old(st).state.has_session(u2));
                        assert(old(st).state.has_any_status(u2));
                        old(st).state.lemma_has_any_iff_not_offline(u2);
                        if u2 == u {
                            assert(!last);
                        }
                    }
                }
            }
        }
    }
}

/// The wire error kind reporting a failed authentication round-trip: a
/// session token that resolves to no live session is a credential failure
/// and reads as unauthorized; every other error keeps its own wire kind.
pub fn auth_error_kind(e: &AzumaError) -> (r: AwspErrorType)
    ensures
        *e == AzumaError::NotFound ==> r == AwspErrorType::Unauthorized,
        *e != AzumaError::NotFound ==> r == AwspErrorType::of_azuma_spec(*e),
{
    if matches!(e, AzumaError::NotFound) {
        AwspErrorType::Unauthorized
    } else {
        AwspErrorType::of_azuma(e)
    }
}

} // verus!
