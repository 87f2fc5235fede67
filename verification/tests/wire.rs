use azumaneo::awsp::{
    decode_frame, get_content, message_sent_wrapper, parse_status, status_to_string,
    status_wrapper, welcome_wrapper, AwspErrorType, AwspFrame, AwspMessageTypex, AwspWrapper,
    DecodeError,
};
use azumaneo::error::AzumaError;
use azumaneo::message::ChatMessage;
use azumaneo::stateactor::OnlineStatus;

fn wrapper(msg_type: AwspMessageTypex, content: Vec<(&str, String)>) -> AwspWrapper {
    AwspWrapper {
        version: "0".to_string(),
        msg_type,
        content: content.into_iter().map(|(k, v)| (k.to_string(), v)).collect(),
    }
}

fn uuid_to_string(v: u128) -> String {
    uuid::Uuid::from_u128(v).to_string()
}

#[test]
fn uuid_round_trip_through_envelope_codec() {
    let v: u128 = 0x0123_4567_89ab_cdef_0123_4567_89ab_cdef;
    let w = welcome_wrapper("0", v);
    let rendered = get_content(&w.content, "userid").unwrap().clone();
    assert_eq!(rendered, uuid::Uuid::from_u128(v).to_string());
    let auth = wrapper(AwspMessageTypex::Auth, vec![("token", rendered)]);
    match decode_frame(&auth) {
        Ok(AwspFrame::Auth { token }) => assert_eq!(token, v),
        _ => panic!("expected the rendered identifier to parse back"),
    }
}

#[test]
fn decode_auth_frame() {
    let token: u128 = 42;
    let w = wrapper(AwspMessageTypex::Auth, vec![("token", uuid_to_string(token))]);
    match decode_frame(&w) {
        Ok(AwspFrame::Auth { token: t }) => assert_eq!(t, token),
        _ => panic!("expected an auth frame"),
    }
}

#[test]
fn auth_frame_with_bad_token_is_a_credential_failure() {
    let w = wrapper(AwspMessageTypex::Auth, vec![("token", "zzz".to_string())]);
    assert!(matches!(decode_frame(&w), Err(DecodeError::BadCredential)));
    let w2 = wrapper(AwspMessageTypex::Auth, vec![]);
    assert!(matches!(decode_frame(&w2), Err(DecodeError::BadCredential)));
}

#[test]
fn decode_send_message_frame() {
    let ch: u128 = 7;
    let w = wrapper(
        AwspMessageTypex::SendMessage,
        vec![("channel", uuid_to_string(ch)), ("content", "hello there".to_string())],
    );
    match decode_frame(&w) {
        Ok(AwspFrame::SendMessage { channel, content }) => {
            assert_eq!(channel, ch);
            assert_eq!(content, "hello there");
        }
        _ => panic!("expected a send-message frame"),
    }
}

#[test]
fn decode_change_status_frame() {
    let w = wrapper(AwspMessageTypex::ChangeOnlineStatus, vec![("status", "DND".to_string())]);
    match decode_frame(&w) {
        Ok(AwspFrame::ChangeOnlineStatus { status }) => assert_eq!(status, OnlineStatus::Dnd),
        _ => panic!("expected a status frame"),
    }
    let w2 = wrapper(AwspMessageTypex::ChangeOnlineStatus, vec![("status", "NAP".to_string())]);
    assert!(matches!(decode_frame(&w2), Err(DecodeError::BadFrame)));
}

#[test]
fn server_tags_are_rejected_from_clients() {
    for t in [AwspMessageTypex::Welcome, AwspMessageTypex::MessageSent, AwspMessageTypex::Error] {
        let w = wrapper(t, vec![]);
        assert!(matches!(decode_frame(&w), Err(DecodeError::BadFrame)));
    }
}

#[test]
fn offline_wire_string_maps_to_appear_as_offline() {
    assert_eq!(parse_status(&"OFFLINE".to_string()), Some(OnlineStatus::AppearAsOffline));
    assert_eq!(parse_status(&"APPEAR_AS_OFFLINE".to_string()), Some(OnlineStatus::AppearAsOffline));
    assert_eq!(parse_status(&"ONLINE".to_string()), Some(OnlineStatus::Online));
    assert_eq!(parse_status(&"AFK".to_string()), Some(OnlineStatus::Afk));
    assert_eq!(parse_status(&"offline".to_string()), None);
}

#[test]
fn offline_and_appear_as_offline_render_identically() {
    assert_eq!(status_to_string(OnlineStatus::Offline), "OFFLINE");
    assert_eq!(status_to_string(OnlineStatus::AppearAsOffline), "OFFLINE");
    assert_eq!(status_to_string(OnlineStatus::Online), "ONLINE");
}

#[test]
fn error_wrapper_carries_kind() {
    let w = AwspErrorType::Unauthorized.into_wrapper("0");
    assert!(matches!(w.msg_type, AwspMessageTypex::Error));
    let v = get_content(&w.content, "errortype").unwrap();
    assert_eq!(v, "Unauthorized");
}

#[test]
fn welcome_wrapper_carries_userid() {
    let u: u128 = 77;
    let w = welcome_wrapper("0", u);
    assert!(matches!(w.msg_type, AwspMessageTypex::Welcome));
    assert_eq!(get_content(&w.content, "userid").unwrap(), &uuid_to_string(u));
}

#[test]
fn message_sent_wrapper_carries_all_fields() {
    let m = ChatMessage {
        id: 1,
        author: 2,
        channel: 3,
        content: "hi".to_string(),
        created_at: 907,
    };
    let w = message_sent_wrapper("0", &m);
    assert!(matches!(w.msg_type, AwspMessageTypex::MessageSent));
    assert_eq!(get_content(&w.content, "author").unwrap(), &uuid_to_string(2));
    assert_eq!(get_content(&w.content, "content").unwrap(), "hi");
    assert_eq!(get_content(&w.content, "id").unwrap(), &uuid_to_string(1));
    assert_eq!(get_content(&w.content, "channel").unwrap(), &uuid_to_string(3));
    assert_eq!(get_content(&w.content, "timestamp").unwrap(), "907");
}

#[test]
fn message_sent_wrapper_renders_pre_epoch_timestamp() {
    let m = ChatMessage {
        id: 1,
        author: 2,
        channel: 3,
        content: "old".to_string(),
        created_at: -5,
    };
    let w = message_sent_wrapper("0", &m);
    assert_eq!(get_content(&w.content, "timestamp").unwrap(), "-5");
}

#[test]
fn status_wrapper_carries_status_and_user() {
    let w = status_wrapper("0", 5, OnlineStatus::Afk);
    assert!(matches!(w.msg_type, AwspMessageTypex::ChangeOnlineStatus));
    assert_eq!(get_content(&w.content, "status").unwrap(), "AFK");
    assert_eq!(get_content(&w.content, "user").unwrap(), &uuid_to_string(5));
}

#[test]
fn get_content_finds_first_match_only() {
    let content = vec![
        ("a".to_string(), "1".to_string()),
        ("b".to_string(), "2".to_string()),
    ];
    assert_eq!(get_content(&content, "a").unwrap(), "1");
    assert_eq!(get_content(&content, "b").unwrap(), "2");
    assert!(get_content(&content, "c").is_none());
}

#[test]
fn wire_kind_of_internal_errors() {
    assert!(matches!(
        AwspErrorType::of_azuma(&AzumaError::Forbidden),
        AwspErrorType::Unauthorized
    ));
    assert!(matches!(
        AwspErrorType::of_azuma(&AzumaError::AlreadyExists),
        AwspErrorType::AlreadyExists
    ));
    assert!(matches!(
        AwspErrorType::of_azuma(&AzumaError::NotFound),
        AwspErrorType::NotFound
    ));
    assert!(matches!(
        AwspErrorType::of_azuma(&AzumaError::InternalServerError),
        AwspErrorType::InternalServerError
    ));
}

#[test]
fn error_frame_content_via_into_hm() {
    let hm = AwspErrorType::NotFound.into_hm();
    assert_eq!(hm.len(), 1);
    assert_eq!(hm[0].0, "errortype");
    assert_eq!(hm[0].1, "NotFound");
}
