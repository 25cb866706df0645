//! Session lifetime, request authentication, CSRF checking, rate limiting
//! and ownership checks.

use cryptvault::csrf::generate_csrf_token;
use cryptvault::files::{default_limit, storage_info};
use cryptvault::quota::UserStorage;
use cryptvault::session::{
    authenticate_session, has_available_quota, login_rate_action, rate_limit_exceeded,
    retry_after_hours, retry_after_minutes, verify_csrf, verify_file_ownership, AccessDecision,
    AuthDecision, CsrfDecision, LoginRateAction, Session, CHANGE_PASSWORD_LIMIT,
    DOWNLOAD_ATTEMPT_LIMIT, LOGIN_ATTEMPT_LIMIT, REGISTER_ATTEMPT_LIMIT,
};

fn session_at(expires_at: i64) -> Session {
    Session { user_id: 1, dek: vec![0; 32], created_at: 0, expires_at }
}

#[test]
fn test_session_new_expiry() {
    let s = Session::new(9, vec![1; 32], 1_700_000_000, 7);
    assert_eq!(s.user_id, 9);
    assert_eq!(s.created_at, 1_700_000_000);
    assert_eq!(s.expires_at, 1_700_000_000 + 7 * 86400);
    assert!(!s.is_expired(s.expires_at));
    assert!(s.is_expired(s.expires_at + 1));
}

#[test]
fn test_authenticate_session_decisions() {
    assert!(matches!(authenticate_session(None, 0), AuthDecision::RejectMissing));
    let live = session_at(100);
    assert!(matches!(authenticate_session(Some(&live), 100), AuthDecision::Accepted));
    assert!(matches!(authenticate_session(Some(&live), 101), AuthDecision::RejectExpired));
}

#[test]
fn test_verify_csrf_decisions() {
    let token = "tok".to_string();
    let other = "other".to_string();
    assert!(matches!(verify_csrf(true, None, None, false), CsrfDecision::Exempt));
    assert!(matches!(verify_csrf(false, None, Some(&token), true), CsrfDecision::MissingCookie));
    assert!(matches!(verify_csrf(false, Some(&token), None, true), CsrfDecision::MissingHeader));
    assert!(matches!(
        verify_csrf(false, Some(&token), Some(&other), true),
        CsrfDecision::Mismatch
    ));
    assert!(matches!(
        verify_csrf(false, Some(&token), Some(&token), false),
        CsrfDecision::ExpiredToken
    ));
    assert!(matches!(verify_csrf(false, Some(&token), Some(&token), true), CsrfDecision::Valid));
}

#[test]
fn test_rate_limit_thresholds() {
    assert_eq!(REGISTER_ATTEMPT_LIMIT, 2);
    assert_eq!(LOGIN_ATTEMPT_LIMIT, 5);
    assert_eq!(CHANGE_PASSWORD_LIMIT, 2);
    assert_eq!(DOWNLOAD_ATTEMPT_LIMIT, 3);
    assert!(!rate_limit_exceeded(None, 2));
    assert!(!rate_limit_exceeded(Some(1), 2));
    assert!(rate_limit_exceeded(Some(2), 2));
    assert!(rate_limit_exceeded(Some(7), 5));
}

#[test]
fn test_retry_windows() {
    assert_eq!(retry_after_minutes(Some(3700)), 61);
    assert_eq!(retry_after_minutes(Some(59)), 0);
    assert_eq!(retry_after_minutes(Some(-5)), 0);
    assert_eq!(retry_after_minutes(None), 0);
    assert_eq!(retry_after_hours(Some(7200)), 2);
    assert_eq!(retry_after_hours(None), 0);
}

#[test]
fn test_login_rate_action_by_status() {
    assert!(matches!(login_rate_action(401), LoginRateAction::Penalize));
    assert!(matches!(login_rate_action(400), LoginRateAction::Penalize));
    assert!(matches!(login_rate_action(200), LoginRateAction::Reset));
    assert!(matches!(login_rate_action(500), LoginRateAction::Nothing));
    assert!(matches!(login_rate_action(302), LoginRateAction::Nothing));
}

#[test]
fn test_verify_file_ownership_decisions() {
    assert!(matches!(verify_file_ownership(None, 1), AccessDecision::RejectNotFound));
    assert!(matches!(verify_file_ownership(Some((1, true)), 1), AccessDecision::RejectNotFound));
    assert!(matches!(verify_file_ownership(Some((2, false)), 1), AccessDecision::RejectForbidden));
    assert!(matches!(verify_file_ownership(Some((1, false)), 1), AccessDecision::Proceed));
}

#[test]
fn test_generate_csrf_token_shape() {
    let t = generate_csrf_token().unwrap();
    assert_eq!(t.len(), 43);
    assert!(t
        .chars()
        .all(|c| c.is_ascii_alphanumeric() || c == '-' || c == '_'));
    let t2 = generate_csrf_token().unwrap();
    assert_ne!(t, t2);
}

#[test]
fn test_storage_info_summary() {
    let s = UserStorage { storage_quota_bytes: 1000, storage_used_bytes: 250 };
    let info = storage_info(&s);
    assert_eq!(info.storage_quota_bytes, 1000);
    assert_eq!(info.storage_used_bytes, 250);
    assert_eq!(info.available_bytes, 750);
    assert!(has_available_quota(&s));
    let full = UserStorage { storage_quota_bytes: 1000, storage_used_bytes: 1000 };
    assert!(!has_available_quota(&full));
}

#[test]
fn test_default_limit_is_50() {
    assert_eq!(default_limit(), 50);
}
