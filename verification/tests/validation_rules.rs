//! Boundary checks of the request validation rules and the startup master
//! key decoding.

use cryptvault::aes::SecureKey;
use cryptvault::config::parse_master_key;
use cryptvault::errors::AppError;
use cryptvault::files::sanitize_filename;
use cryptvault::validation::{validate_folder_name, validate_password, validate_username};

#[test]
fn test_validate_username_accepts_alice() {
    assert!(validate_username("alice").is_ok());
    assert!(validate_username("user_name-42").is_ok());
}

#[test]
fn test_validate_username_length_bounds() {
    assert!(validate_username("").is_err());
    assert!(validate_username("ab").is_err());
    assert!(validate_username("abc").is_ok());
    let long: String = std::iter::repeat('a').take(255).collect();
    assert!(validate_username(&long).is_ok());
    let too_long: String = std::iter::repeat('a').take(256).collect();
    assert!(validate_username(&too_long).is_err());
}

#[test]
fn test_validate_username_rejects_special_characters() {
    match validate_username("alice!") {
        Err(AppError::Validation(_)) => {}
        _ => panic!("expected a validation error"),
    }
    assert!(validate_username("al ice").is_err());
    assert!(validate_username("a@b.c").is_err());
}

#[test]
fn test_validate_password_length_bounds() {
    assert!(validate_password("1234567").is_err());
    assert!(validate_password("12345678").is_ok());
    let max: String = std::iter::repeat('x').take(128).collect();
    assert!(validate_password(&max).is_ok());
    let over: String = std::iter::repeat('x').take(129).collect();
    assert!(validate_password(&over).is_err());
}

#[test]
fn test_validate_folder_name_bounds() {
    assert!(validate_folder_name("").is_err());
    assert!(validate_folder_name("a").is_ok());
    let max: String = std::iter::repeat('n').take(500).collect();
    assert!(validate_folder_name(&max).is_ok());
    let over: String = std::iter::repeat('n').take(501).collect();
    assert!(validate_folder_name(&over).is_err());
}

#[test]
fn test_sanitize_filename_replaces_dangerous_characters() {
    assert_eq!(sanitize_filename("a\"b\\c\nd\re"), "a_b_c_d_e");
    assert_eq!(sanitize_filename("report (final).pdf"), "report (final).pdf");
    assert_eq!(sanitize_filename("tab\there"), "tab_here");
}

#[test]
fn test_parse_master_key_accepts_64_hex_chars() {
    let hex: String = std::iter::repeat("0f").take(32).collect();
    let key: SecureKey = parse_master_key(&hex).unwrap();
    assert_eq!(key.as_bytes().len(), 32);
    assert!(key.as_bytes().iter().all(|&b| b == 0x0f));
}

#[test]
fn test_parse_master_key_decodes_mixed_case() {
    let mut hex = String::from("aAbBcCdDeEfF");
    hex.push_str(&"00".repeat(26));
    let key = parse_master_key(&hex).unwrap();
    assert_eq!(&key.as_bytes()[..6], &[0xaa, 0xbb, 0xcc, 0xdd, 0xee, 0xff]);
}

#[test]
fn test_parse_master_key_rejects_wrong_length() {
    assert!(parse_master_key("").is_err());
    assert!(parse_master_key(&"0".repeat(63)).is_err());
    assert!(parse_master_key(&"0".repeat(65)).is_err());
}

#[test]
fn test_parse_master_key_rejects_non_hex() {
    let mut bad = String::from("g");
    bad.push_str(&"0".repeat(63));
    match parse_master_key(&bad) {
        Err(AppError::Validation(_)) => {}
        _ => panic!("expected a validation error"),
    }
}

#[test]
fn test_error_status_codes() {
    assert_eq!(AppError::Authentication("x".into()).status_code(), 401);
    assert_eq!(AppError::Unauthorized.status_code(), 403);
    assert_eq!(AppError::NotFound.status_code(), 404);
    assert_eq!(AppError::Validation("x".into()).status_code(), 400);
    assert_eq!(AppError::Encryption("x".into()).status_code(), 500);
    assert_eq!(AppError::Multipart("x".into()).status_code(), 400);
    assert_eq!(AppError::Internal("x".into()).status_code(), 500);
    assert_eq!(AppError::RateLimitExceeded("x".into()).status_code(), 429);
    assert_eq!(AppError::Database("x".into()).status_code(), 500);
    assert_eq!(AppError::Cache("x".into()).status_code(), 500);
    assert_eq!(AppError::Io("x".into()).status_code(), 500);
}

#[test]
fn test_error_client_messages() {
    assert_eq!(AppError::Validation("too big".into()).client_message(), "too big");
    assert_eq!(AppError::Unauthorized.client_message(), "Forbidden");
    assert_eq!(AppError::NotFound.client_message(), "Resource not found");
    assert_eq!(AppError::Encryption("detail".into()).client_message(), "Encryption error");
    assert_eq!(AppError::Internal("detail".into()).client_message(), "Internal server error");
    assert_eq!(AppError::Database("detail".into()).client_message(), "Database error");
    assert_eq!(AppError::Cache("detail".into()).client_message(), "Cache error");
    assert_eq!(AppError::Io("detail".into()).client_message(), "File system error");
}
