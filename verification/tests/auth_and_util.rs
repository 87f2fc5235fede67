use azumaneo::error::{from_db_error, handle_rejection, AzumaError, AzumaRejection};
use azumaneo::session::{parse_bearer_token, Session, SESSION_RENEWAL_SECS};
use azumaneo::textchannel::normalize_description;
use azumaneo::user::{hash_password, User};
use azumaneo::util::{i64_to_dec_string, prettyprint_option_string, u64_to_dec_string};

#[test]
fn password_hash_verifies_and_rejects() {
    let encoded = hash_password(b"hunter2", b"somesalt").unwrap();
    let user = User { id: 1, name: "anna".to_string(), password: encoded, created_at: 0 };
    assert!(user.verify_login(b"hunter2").is_ok());
    assert!(matches!(user.verify_login(b"hunter3"), Err(AzumaError::Forbidden)));
}

#[test]
fn too_short_salt_is_internal_error() {
    assert!(matches!(hash_password(b"pw", b"salt"), Err(AzumaError::InternalServerError)));
    assert!(hash_password(b"pw", b"12345678").is_ok());
}

#[test]
fn unusable_stored_hash_is_internal_error() {
    let user = User { id: 1, name: "anna".to_string(), password: "garbage".to_string(), created_at: 0 };
    assert!(matches!(user.verify_login(b"pw"), Err(AzumaError::InternalServerError)));
}

#[test]
fn session_renewal_slides_expiry() {
    let row = Session { token: 1, subject: 2, created_at: 0, expires_at: 50 };
    let renewed = Session::get_and_renew(Some(row), 40).unwrap();
    assert_eq!(renewed.expires_at, 40 + SESSION_RENEWAL_SECS);
    assert_eq!(renewed.subject, 2);
    assert_eq!(renewed.token, 1);
}

#[test]
fn expired_or_missing_session_is_not_found() {
    let row = Session { token: 1, subject: 2, created_at: 0, expires_at: 50 };
    assert!(matches!(Session::get_and_renew(Some(row), 50), Err(AzumaError::NotFound)));
    assert!(matches!(Session::get_and_renew(None, 0), Err(AzumaError::NotFound)));
}

#[test]
fn bearer_token_extraction() {
    let v: u128 = 99;
    let header = format!("Bearer {}", uuid::Uuid::from_u128(v));
    assert_eq!(parse_bearer_token(&header), Some(v));
    assert_eq!(parse_bearer_token(&uuid::Uuid::from_u128(v).to_string()), None);
    assert_eq!(parse_bearer_token("Bearer zzz"), None);
    assert_eq!(parse_bearer_token("Bear"), None);
}

#[test]
fn status_codes_match_error_kinds() {
    assert_eq!(AzumaError::AlreadyExists.status_code(), 409);
    assert_eq!(AzumaError::BadRequest.status_code(), 400);
    assert_eq!(AzumaError::Forbidden.status_code(), 403);
    assert_eq!(AzumaError::InternalServerError.status_code(), 500);
    assert_eq!(AzumaError::NotFound.status_code(), 404);
    assert_eq!(AzumaError::Unauthorized.status_code(), 401);
}

#[test]
fn error_messages_match_kinds() {
    assert_eq!(AzumaError::Unauthorized.message(), "UNAUTHORIZED");
    assert_eq!(AzumaError::AlreadyExists.message(), "ALREADY_EXISTS");
}

#[test]
fn rejections_map_to_codes_and_messages() {
    let r = handle_rejection(AzumaRejection::NotFound);
    assert_eq!((r.code, r.message.as_str()), (404, "NOT_FOUND"));
    let r = handle_rejection(AzumaRejection::AlreadyExists);
    assert_eq!((r.code, r.message.as_str()), (409, "ALREADY_EXISTS"));
    let r = handle_rejection(AzumaRejection::InternalServerError);
    assert_eq!((r.code, r.message.as_str()), (500, "INTERNAL_SERVER_ERROR"));
    let r = handle_rejection(AzumaRejection::Unauthorized);
    assert_eq!((r.code, r.message.as_str()), (401, "UNAUTHORIZED"));
    let r = handle_rejection(AzumaRejection::BadRequest);
    assert_eq!((r.code, r.message.as_str()), (400, "BAD_REQUEST"));
}

#[test]
fn db_errors_map_to_kinds() {
    assert!(matches!(from_db_error(true, false), AzumaError::AlreadyExists));
    assert!(matches!(from_db_error(false, true), AzumaError::NotFound));
    assert!(matches!(from_db_error(false, false), AzumaError::InternalServerError));
}

#[test]
fn option_string_pretty_print() {
    assert_eq!(prettyprint_option_string(Some("x".to_string())), "x");
    assert_eq!(prettyprint_option_string(None), "None");
}

#[test]
fn decimal_rendering() {
    assert_eq!(u64_to_dec_string(0), "0");
    assert_eq!(u64_to_dec_string(9), "9");
    assert_eq!(u64_to_dec_string(10), "10");
    assert_eq!(u64_to_dec_string(907), "907");
    assert_eq!(u64_to_dec_string(18446744073709551615), "18446744073709551615");
    assert_eq!(i64_to_dec_string(0), "0");
    assert_eq!(i64_to_dec_string(907), "907");
    assert_eq!(i64_to_dec_string(-907), "-907");
    assert_eq!(i64_to_dec_string(-9223372036854775808), "-9223372036854775808");
}

#[test]
fn every_channel_is_visible_until_permissions_exist() {
    let all: Vec<u128> = vec![1, 2, 3];
    assert_eq!(azumaneo::textchannel::visible_channels(9, all.clone()), all);
    let none: Vec<u128> = vec![];
    assert_eq!(azumaneo::textchannel::visible_channels(9, none.clone()), none);
}

#[test]
fn description_normalization() {
    assert_eq!(normalize_description(None), None);
    assert_eq!(normalize_description(Some("  \t\n".to_string())), None);
    assert_eq!(normalize_description(Some("".to_string())), None);
    assert_eq!(
        normalize_description(Some("  a channel ".to_string())),
        Some("  a channel ".to_string())
    );
}
