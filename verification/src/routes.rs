//! The request payloads of the REST layer, and the decisions those routes
//! delegate to the core. The HTTP plumbing itself (routing, JSON bodies,
//! status codes) lives outside the core; these functions carry the rules.

use vstd::prelude::*;

use crate::coordinator::{status_delivers_to, update_onlinestatus, AzumaState, StatusDelivery};
use crate::error::AzumaError;
use crate::ids::{ConnId, UserId};
use crate::session::Session;
use crate::stateactor::OnlineStatus;

verus! {

/// Payload of the account-registration route.
pub struct RegisterUserRequest {
    pub name: String,
    pub password: String,
}

/// Payload of the login route.
pub struct LoginUserRequest {
    pub name: String,
    pub password: String,
}

/// Payload of the account-update route.
pub struct UpdateUserRequest {
    pub name: Option<String>,
    pub password: Option<String>,
}

/// Payload of the channel-creation route.
pub struct TextchannelCreateRequest {
    pub name: String,
    pub description: Option<String>,
}

/// Payload of the presence route.
pub struct StatusSetRequest {
    pub status: OnlineStatus,
}

/// Payload of the presence route, as the websocket-side update carries it.
pub struct UpdateOnlinestatusRequest {
    pub status: OnlineStatus,
}

/// Set the presence of the user behind an authenticated REST session, and
/// fan the change out to every live connection; the same rules as on the
/// websocket path apply (no live connection, or the unsettable `Offline`,
/// is a bad request, and then nothing changes).
pub fn set_onlinestatus(st: &mut AzumaState, request: &StatusSetRequest, session: &Session) -> (r:
    Result<Vec<StatusDelivery>, AzumaError>)
    requires
        old(st).wf(),
    ensures
        final(st).wf(),
        final(st).broker == old(st).broker,
        forall|u: UserId, c: ConnId| #[trigger]
            final(st).state.has_session_entry(u, c) <==> old(st).state.has_session_entry(u, c),
        request.status == OnlineStatus::Offline ==> r is Err && r->Err_0 == AzumaError::BadRequest,
        !old(st).state.has_session(session.subject) ==> r is Err && r->Err_0
            == AzumaError::BadRequest,
        request.status != OnlineStatus::Offline && old(st).state.has_session(session.subject)
            ==> r is Ok,
        r is Err ==> forall|u: UserId| #[trigger]
            final(st).state.status_of(u) == old(st).state.status_of(u),
        r matches Ok(ds) ==> ({
            &&& forall|u: UserId| #[trigger]
                final(st).state.status_of(u) == (if u == session.subject {
                    request.status
                } else {
                    old(st).state.status_of(u)
                })
            &&& forall|c: ConnId|
                #[trigger] status_delivers_to(ds@, c) <==> final(st).state.connection_live(c)
            &&& forall|k: int|
                0 <= k < ds@.len() ==> (#[trigger] ds@[k]).user == session.subject && ds@[k].status
                    == request.status
        }),
{
    update_onlinestatus(st, session.subject, request.status)
}

} // verus!
