use azumaneo::awsp::{AwspErrorType, AwspFrame, DecodeError};
use azumaneo::connection::{FrameAction, Ws};
use azumaneo::coordinator::{submit_message, AzumaState};
use azumaneo::error::AzumaError;
use azumaneo::message::ChatMessage;
use azumaneo::session::Session;
use azumaneo::stateactor::OnlineStatus;
use azumaneo::ws::AwspResponseMessage;

fn valid_session(token: u128, subject: u128) -> Result<Session, AzumaError> {
    Ok(Session { token, subject, created_at: 0, expires_at: 1000 })
}

// Protocol gating: any frame other than Auth while unauthenticated yields an
// unauthorized error and leaves the connection unauthenticated.
#[test]
fn unauthenticated_send_message_is_unauthorized() {
    let ws = Ws::new(1);
    let a = ws.handle(Ok(AwspFrame::SendMessage { channel: 7, content: "hi".to_string() }));
    assert!(matches!(a, FrameAction::Reply(AwspErrorType::Unauthorized)));
    assert!(ws.subject.is_none());
}

#[test]
fn unauthenticated_set_status_is_unauthorized() {
    let ws = Ws::new(1);
    let a = ws.handle(Ok(AwspFrame::ChangeOnlineStatus { status: OnlineStatus::Afk }));
    assert!(matches!(a, FrameAction::Reply(AwspErrorType::Unauthorized)));
}

// An Auth attempt whose token is missing or malformed is a failed
// credential: the unauthenticated connection answers it as unauthorized and
// stays open for a retry.
#[test]
fn unauthenticated_bad_credential_is_unauthorized() {
    let ws = Ws::new(1);
    let a = ws.handle(Err(DecodeError::BadCredential));
    assert!(matches!(a, FrameAction::Reply(AwspErrorType::Unauthorized)));
    assert!(ws.subject.is_none());
}

// Any inadmissible envelope while unauthenticated is likewise unauthorized;
// only text that is no protocol envelope at all is a bad request.
#[test]
fn unauthenticated_bad_frame_is_unauthorized() {
    let ws = Ws::new(1);
    let a = ws.handle(Err(DecodeError::BadFrame));
    assert!(matches!(a, FrameAction::Reply(AwspErrorType::Unauthorized)));
    let a = ws.handle(Err(DecodeError::NotAnEnvelope));
    assert!(matches!(a, FrameAction::Reply(AwspErrorType::BadRequest)));
}

#[test]
fn unauthenticated_auth_starts_authentication() {
    let ws = Ws::new(1);
    let a = ws.handle(Ok(AwspFrame::Auth { token: 99 }));
    assert!(matches!(a, FrameAction::StartAuth(99)));
}

// Malformed input: a single bad-request error frame, connection stays open
// and authenticated.
#[test]
fn malformed_frame_on_authenticated_connection_is_bad_request() {
    let mut ws = Ws::new(1);
    let mut st = AzumaState::new();
    let reply = ws.complete_auth(&mut st, &valid_session(5, 42), vec![]);
    assert!(matches!(reply, AwspResponseMessage::Welcome));
    let a = ws.handle(Err(DecodeError::NotAnEnvelope));
    assert!(matches!(a, FrameAction::Reply(AwspErrorType::BadRequest)));
    let a = ws.handle(Err(DecodeError::BadFrame));
    assert!(matches!(a, FrameAction::Reply(AwspErrorType::BadRequest)));
    let a = ws.handle(Err(DecodeError::BadCredential));
    assert!(matches!(a, FrameAction::Reply(AwspErrorType::BadRequest)));
    assert_eq!(ws.subject, Some(42));
}

#[test]
fn failed_auth_keeps_connection_unauthenticated() {
    let mut ws = Ws::new(1);
    let mut st = AzumaState::new();
    let reply = ws.complete_auth(&mut st, &Err(AzumaError::NotFound), vec![]);
    match reply {
        AwspResponseMessage::Error { message } => assert_eq!(message, "UNAUTHORIZED"),
        _ => panic!("expected an error reply"),
    }
    assert!(ws.subject.is_none());
    // the client may retry on the same connection
    let a = ws.handle(Ok(AwspFrame::Auth { token: 3 }));
    assert!(matches!(a, FrameAction::StartAuth(3)));
}

#[test]
fn second_auth_on_authenticated_connection_is_bad_request() {
    let mut ws = Ws::new(1);
    let mut st = AzumaState::new();
    ws.complete_auth(&mut st, &valid_session(5, 42), vec![]);
    let a = ws.handle(Ok(AwspFrame::Auth { token: 6 }));
    assert!(matches!(a, FrameAction::Reply(AwspErrorType::BadRequest)));
}

// End-to-end: A authenticates as U1, B as U2 subscribed to C1; A sends into
// C1 without being subscribed there; B receives it, A does not.
#[test]
fn end_to_end_send_message_scenario() {
    let mut st = AzumaState::new();
    let c1: u128 = 700;
    let u1: u128 = 10;
    let u2: u128 = 20;

    let mut conn_a = Ws::new(1);
    let reply_a = conn_a.complete_auth(&mut st, &valid_session(101, u1), vec![]);
    assert!(matches!(reply_a, AwspResponseMessage::Welcome));

    let mut conn_b = Ws::new(2);
    let reply_b = conn_b.complete_auth(&mut st, &valid_session(102, u2), vec![c1]);
    assert!(matches!(reply_b, AwspResponseMessage::Welcome));

    let action = conn_a.handle(Ok(AwspFrame::SendMessage { channel: c1, content: "hi".into() }));
    let (author, channel, content) = match action {
        FrameAction::Submit { author, channel, content } => (author, channel, content),
        _ => panic!("expected a submit action"),
    };
    assert_eq!(author, u1);
    assert_eq!(channel, c1);

    let persisted = ChatMessage { id: 900, author, channel, content, created_at: 5 };
    let (result, deliveries) = submit_message(&st, true, Ok(persisted));
    assert!(result.is_ok());
    assert_eq!(deliveries.len(), 1);
    assert_eq!(deliveries[0].to, 2);
    assert_eq!(deliveries[0].message.content, "hi");
    assert_eq!(deliveries[0].message.author, u1);
    assert_eq!(deliveries[0].message.channel, c1);
}

// Persist-before-broadcast: a failed persistence produces no deliveries.
#[test]
fn persistence_failure_prevents_fanout() {
    let mut st = AzumaState::new();
    let mut conn_b = Ws::new(2);
    conn_b.complete_auth(&mut st, &valid_session(102, 20), vec![700]);

    let (result, deliveries) =
        submit_message(&st, true, Err(AzumaError::InternalServerError));
    assert!(matches!(result, Err(AzumaError::InternalServerError)));
    assert!(deliveries.is_empty());
}

#[test]
fn unknown_channel_is_not_found_and_not_broadcast() {
    let st = AzumaState::new();
    let m = ChatMessage { id: 1, author: 1, channel: 5, content: "x".into(), created_at: 0 };
    let (result, deliveries) = submit_message(&st, false, Ok(m));
    assert!(matches!(result, Err(AzumaError::NotFound)));
    assert!(deliveries.is_empty());
}

// Abrupt disconnect of the user's last connection: presence flips to offline
// and the broker holds no entry for the connection.
#[test]
fn disconnect_clears_presence_and_subscriptions() {
    let mut st = AzumaState::new();
    let u1: u128 = 10;
    let c1: u128 = 700;
    let mut conn_a = Ws::new(1);
    conn_a.complete_auth(&mut st, &valid_session(101, u1), vec![c1]);
    assert_eq!(st.state.get_online_status(u1), OnlineStatus::Online);

    conn_a.stopped(&mut st);
    assert_eq!(st.state.get_online_status(u1), OnlineStatus::Offline);
    let m = ChatMessage { id: 1, author: u1, channel: c1, content: "x".into(), created_at: 0 };
    let (_, deliveries) = submit_message(&st, true, Ok(m));
    assert!(deliveries.is_empty());
}

#[test]
fn disconnect_of_one_of_two_connections_keeps_user_online() {
    let mut st = AzumaState::new();
    let u1: u128 = 10;
    let mut conn_a = Ws::new(1);
    let mut conn_b = Ws::new(2);
    conn_a.complete_auth(&mut st, &valid_session(101, u1), vec![]);
    conn_b.complete_auth(&mut st, &valid_session(101, u1), vec![]);
    conn_a.stopped(&mut st);
    assert_eq!(st.state.get_online_status(u1), OnlineStatus::Online);
    conn_b.stopped(&mut st);
    assert_eq!(st.state.get_online_status(u1), OnlineStatus::Offline);
}

#[test]
fn only_authenticated_connections_may_receive() {
    let mut ws = Ws::new(1);
    let mut st = AzumaState::new();
    assert!(!ws.may_receive());
    ws.complete_auth(&mut st, &valid_session(5, 42), vec![]);
    assert!(ws.may_receive());
}

#[test]
fn typing_frames_are_ignored() {
    let mut ws = Ws::new(1);
    let mut st = AzumaState::new();
    ws.complete_auth(&mut st, &valid_session(5, 42), vec![]);
    assert!(matches!(ws.handle(Ok(AwspFrame::SendTyping)), FrameAction::Ignore));
    assert!(matches!(ws.handle(Ok(AwspFrame::StopTyping)), FrameAction::Ignore));
}
