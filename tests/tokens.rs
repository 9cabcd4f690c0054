use mediavault_auth::error::AppError;
use mediavault_auth::ids::new_account_id;
use mediavault_auth::jwt::{
    create_token_pair, create_token_pair_at, decode_token, decode_token_at, encode_token, Claims,
};
use mediavault_auth::middleware::{extract_user, extract_user_at, strip_bearer, AuthenticatedUser, OptionalUser};

const SECRET: &str = "test-secret-key-for-testing-purposes-only";

fn is_invalid_token(e: &AppError) -> bool {
    matches!(e, AppError::Unauthorized(m) if m == "Invalid or expired token")
}

#[test]
fn test_claims_creation() {
    let claims = Claims::new(new_account_id(), "testuser".to_string(), false, 7);

    assert!(!claims.is_expired());
    assert_eq!(claims.username, "testuser");
    assert!(!claims.is_admin);
}

#[test]
fn test_token_roundtrip() {
    let user_id = new_account_id();
    let claims = Claims::new(user_id, "testuser".to_string(), true, 7);
    let token = encode_token(SECRET, &claims).unwrap();
    let decoded = decode_token(SECRET, &token).unwrap();

    assert_eq!(decoded.sub, user_id);
    assert_eq!(decoded.username, "testuser");
    assert!(decoded.is_admin);
}

#[test]
fn claims_expiry_is_issue_time_plus_days() {
    let c = Claims::new_at(5, "bob".to_string(), false, 7, 1_000_000);
    assert_eq!(c.iat, 1_000_000);
    assert_eq!(c.exp, 1_000_000 + 7 * 86400);
    assert!(!c.is_expired_at(c.exp - 1));
    assert!(c.is_expired_at(c.exp));
    assert!(c.is_expired_at(c.exp + 1));
}

#[test]
fn issued_token_validates_to_same_identity() {
    let id = 0x1234_5678_9abc_def0_1122_3344_5566_7788u128;
    let now = 1_700_000_000;
    let pair = create_token_pair_at(SECRET, 7, id, "Alice_01".to_string(), true, now).unwrap();
    assert_eq!(pair.token_type, "Bearer");
    assert_eq!(pair.expires_in, 7 * 86400);
    let c = decode_token_at(SECRET, &pair.access_token, now + 10).unwrap();
    assert_eq!(c.sub, id);
    assert_eq!(c.username, "Alice_01");
    assert!(c.is_admin);
    assert_eq!(c.iat, now);
    assert_eq!(c.exp, now + 7 * 86400);
}

#[test]
fn token_is_not_the_identity_unchanged() {
    let pair = create_token_pair_at(SECRET, 1, 42, "carol".to_string(), false, 1_700_000_000).unwrap();
    assert_eq!(pair.access_token.split('.').count(), 3);
    assert!(!pair.access_token.contains("carol"));
}

#[test]
fn token_with_zero_ttl_is_rejected_from_its_second() {
    let now = 1_700_000_000;
    let pair = create_token_pair_at(SECRET, 0, 9, "dave".to_string(), false, now).unwrap();
    assert_eq!(pair.expires_in, 0);
    let err = decode_token_at(SECRET, &pair.access_token, now + 1).unwrap_err();
    assert!(is_invalid_token(&err));
    let err = decode_token_at(SECRET, &pair.access_token, now).unwrap_err();
    assert!(is_invalid_token(&err));
    let header = format!("Bearer {}", pair.access_token);
    assert!(is_invalid_token(&extract_user_at(Some(&header), SECRET, now).unwrap_err()));
}

#[test]
fn token_with_past_expiry_is_rejected_now() {
    let claims = Claims { sub: 77, username: "erin".to_string(), is_admin: false, exp: 1_000, iat: 900 };
    let token = encode_token(SECRET, &claims).unwrap();
    let err = decode_token(SECRET, &token).unwrap_err();
    assert!(is_invalid_token(&err));
    assert!(is_invalid_token(&decode_token_at(SECRET, &token, 1_000).unwrap_err()));
    assert!(decode_token_at(SECRET, &token, 999).is_ok());
}

#[test]
fn token_signed_with_other_secret_is_rejected() {
    let pair = create_token_pair(SECRET, 7, 3, "frank".to_string(), false).unwrap();
    let err = decode_token("another-secret", &pair.access_token).unwrap_err();
    assert!(is_invalid_token(&err));
}

#[test]
fn malformed_token_is_rejected() {
    assert!(is_invalid_token(&decode_token(SECRET, "not-a-token").unwrap_err()));
    let pair = create_token_pair(SECRET, 7, 3, "frank".to_string(), false).unwrap();
    let mut tampered = pair.access_token.clone();
    tampered.push('x');
    assert!(is_invalid_token(&decode_token(SECRET, &tampered).unwrap_err()));
}

#[test]
fn token_lifetime_out_of_range_fails_to_issue() {
    let err = create_token_pair_at(SECRET, i64::MAX, 1, "gina".to_string(), false, 0).unwrap_err();
    assert!(matches!(err, AppError::Internal(m) if m == "Failed to generate token"));
    let before_epoch = create_token_pair_at(SECRET, -1, 1, "gina".to_string(), false, 1_000);
    assert!(matches!(before_epoch, Err(AppError::Internal(_))));
}

#[test]
fn test_missing_auth_header() {
    let result = extract_user(None, SECRET);

    assert!(matches!(result, Err(AppError::Unauthorized(_))));
}

#[test]
fn test_invalid_auth_header_format() {
    let result = extract_user(Some("Basic abc123"), SECRET);

    assert!(matches!(result, Err(AppError::Unauthorized(_))));
}

#[test]
fn missing_and_malformed_headers_have_distinct_messages() {
    let a = extract_user(None, SECRET).unwrap_err();
    let b = extract_user(Some("Basic abc123"), SECRET).unwrap_err();
    assert!(matches!(&a, AppError::Unauthorized(m) if m == "Missing Authorization header"));
    assert!(matches!(&b, AppError::Unauthorized(m) if m.starts_with("Invalid Authorization header format")));
    assert_eq!(a.status_code(), b.status_code());
}

#[test]
fn bearer_prefix_is_case_insensitive() {
    assert_eq!(strip_bearer("Bearer abc"), Some("abc"));
    assert_eq!(strip_bearer("bearer abc"), Some("abc"));
    assert_eq!(strip_bearer("BeArEr abc"), Some("abc"));
    assert_eq!(strip_bearer("Bearerabc"), None);
    assert_eq!(strip_bearer("Bear"), None);
}

#[test]
fn header_with_valid_token_yields_identity() {
    let now = 1_700_000_000;
    let pair = create_token_pair_at(SECRET, 7, 11, "hank".to_string(), true, now).unwrap();
    let header = format!("BEARER {}", pair.access_token);
    let user = extract_user_at(Some(&header), SECRET, now).unwrap();
    assert_eq!(user.id, 11);
    assert_eq!(user.username, "hank");
    assert!(user.is_admin);
    assert!(user.require_admin().is_ok());
}

#[test]
fn header_with_bad_token_gives_codec_error() {
    let err = extract_user(Some("Bearer garbage"), SECRET).unwrap_err();
    assert!(is_invalid_token(&err));
}

#[test]
fn non_admin_is_forbidden() {
    let u = AuthenticatedUser { id: 1, username: "ivy".to_string(), is_admin: false };
    assert!(matches!(u.require_admin(), Err(AppError::Forbidden(_))));
}

#[test]
fn optional_user_turns_failures_into_none() {
    assert!(OptionalUser::from_header(None, SECRET).0.is_none());
    assert!(OptionalUser::from_header(Some("Basic x"), SECRET).0.is_none());
    let now = 1_700_000_000;
    let pair = create_token_pair_at(SECRET, 7, 12, "jack".to_string(), false, now).unwrap();
    let header = format!("Bearer {}", pair.access_token);
    let u = OptionalUser::from_header_at(Some(&header), SECRET, now).0.unwrap();
    assert_eq!(u.id, 12);
    assert!(OptionalUser::from_header_at(Some(&header), SECRET, now + 8 * 86400).0.is_none());
}
