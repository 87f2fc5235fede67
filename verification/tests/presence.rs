use azumaneo::connection::Ws;
use azumaneo::coordinator::{update_onlinestatus, AzumaState};
use azumaneo::error::AzumaError;
use azumaneo::routes::{set_onlinestatus, StatusSetRequest};
use azumaneo::session::Session;
use azumaneo::stateactor::{OnlineStatus, StateActor};

fn connect(st: &mut AzumaState, conn: u128, user: u128) -> Ws {
    let mut ws = Ws::new(conn);
    let session = Session { token: conn, subject: user, created_at: 0, expires_at: 10 };
    ws.complete_auth(st, &Ok(session), vec![]);
    ws
}

// Presence derivation: offline for any user with zero registered
// connections, regardless of prior history.
#[test]
fn status_is_offline_without_connections() {
    let st = AzumaState::new();
    assert_eq!(st.state.get_online_status(123), OnlineStatus::Offline);
}

#[test]
fn status_follows_connection_lifecycle() {
    let mut st = AzumaState::new();
    let u: u128 = 5;
    let ws = connect(&mut st, 1, u);
    assert_ne!(st.state.get_online_status(u), OnlineStatus::Offline);
    ws.stopped(&mut st);
    assert_eq!(st.state.get_online_status(u), OnlineStatus::Offline);
}

// Offline is unsettable, connected or not.
#[test]
fn setting_offline_fails_for_disconnected_user() {
    let mut st = AzumaState::new();
    let r = update_onlinestatus(&mut st, 5, OnlineStatus::Offline);
    assert!(matches!(r, Err(AzumaError::BadRequest)));
}

#[test]
fn setting_offline_fails_for_connected_user() {
    let mut st = AzumaState::new();
    connect(&mut st, 1, 5);
    let r = update_onlinestatus(&mut st, 5, OnlineStatus::Offline);
    assert!(matches!(r, Err(AzumaError::BadRequest)));
    assert_eq!(st.state.get_online_status(5), OnlineStatus::Online);
}

#[test]
fn setting_status_for_disconnected_user_fails() {
    let mut st = AzumaState::new();
    let r = update_onlinestatus(&mut st, 5, OnlineStatus::Afk);
    assert!(matches!(r, Err(AzumaError::BadRequest)));
}

#[test]
fn status_update_is_fanned_out_to_all_live_connections() {
    let mut st = AzumaState::new();
    connect(&mut st, 1, 5);
    connect(&mut st, 2, 5);
    connect(&mut st, 3, 8);
    let ds = update_onlinestatus(&mut st, 5, OnlineStatus::Dnd).unwrap();
    let mut tos: Vec<u128> = ds.iter().map(|d| d.to).collect();
    tos.sort();
    assert_eq!(tos, vec![1, 2, 3]);
    for d in &ds {
        assert_eq!(d.user, 5);
        assert_eq!(d.status, OnlineStatus::Dnd);
    }
    assert_eq!(st.state.get_online_status(5), OnlineStatus::Dnd);
    assert_eq!(st.state.get_online_status(8), OnlineStatus::Online);
}

#[test]
fn rest_route_applies_presence_for_session_subject() {
    let mut st = AzumaState::new();
    connect(&mut st, 1, 5);
    let session = Session { token: 9, subject: 5, created_at: 0, expires_at: 10 };
    let r = set_onlinestatus(&mut st, &StatusSetRequest { status: OnlineStatus::Afk }, &session);
    assert!(r.is_ok());
    assert_eq!(st.state.get_online_status(5), OnlineStatus::Afk);
}

#[test]
fn appear_as_offline_is_settable_and_reads_back() {
    let mut st = AzumaState::new();
    connect(&mut st, 1, 5);
    update_onlinestatus(&mut st, 5, OnlineStatus::AppearAsOffline).unwrap();
    assert_eq!(st.state.get_online_status(5), OnlineStatus::AppearAsOffline);
}

#[test]
fn stateactor_session_registry_tracks_last_connection() {
    let mut sa = StateActor::new();
    sa.add_user_session(5, 1);
    sa.add_user_session(5, 2);
    assert!(!sa.remove_user_session(5, 1));
    assert!(sa.remove_user_session(5, 2));
    // removals of missing keys are idempotent no-ops
    assert!(sa.remove_user_session(5, 2));
}

#[test]
fn stateactor_set_requires_session_and_get_never_fails() {
    let mut sa = StateActor::new();
    assert_eq!(sa.get_online_status(7), OnlineStatus::Offline);
    assert!(matches!(sa.set_online_status(7, OnlineStatus::Afk), Err(AzumaError::BadRequest)));
    sa.add_user_session(7, 1);
    assert!(sa.set_online_status(7, OnlineStatus::Afk).is_ok());
    assert_eq!(sa.get_online_status(7), OnlineStatus::Afk);
    sa.remove_online_status(7);
    assert_eq!(sa.get_online_status(7), OnlineStatus::Offline);
}
