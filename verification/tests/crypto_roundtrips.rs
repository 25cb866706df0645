//! Round trips through the real cipher and KDF: sealing then opening always
//! returns the original bytes, and the DEK envelope survives wrapping,
//! unwrapping and password changes.

use cryptvault::aes;
use cryptvault::dek;
use cryptvault::errors::AppError;
use cryptvault::kdf;

fn key_of(byte: u8) -> Vec<u8> {
    std::iter::repeat(byte).take(32).collect()
}

#[test]
fn test_aes_encrypt_decrypt_roundtrip() {
    let key = key_of(7);
    let plaintext: Vec<u8> = b"attack at dawn".to_vec();
    let (ciphertext, nonce) = aes::encrypt(&key, &plaintext).unwrap();
    assert_eq!(nonce.len(), 12);
    assert_eq!(ciphertext.len(), plaintext.len() + 16);
    let opened = aes::decrypt(&key, &ciphertext, &nonce).unwrap();
    assert_eq!(opened, plaintext);
}

#[test]
fn test_aes_decrypt_rejects_tampering() {
    let key = key_of(7);
    let plaintext: Vec<u8> = b"attack at dawn".to_vec();
    let (mut ciphertext, nonce) = aes::encrypt(&key, &plaintext).unwrap();
    ciphertext[0] ^= 1;
    assert!(aes::decrypt(&key, &ciphertext, &nonce).is_err());
}

#[test]
fn test_aes_decrypt_rejects_wrong_key() {
    let key = key_of(7);
    let other = key_of(8);
    let plaintext: Vec<u8> = b"secret".to_vec();
    let (ciphertext, nonce) = aes::encrypt(&key, &plaintext).unwrap();
    assert!(aes::decrypt(&other, &ciphertext, &nonce).is_err());
}

#[test]
fn test_secure_key_accessors() {
    let key = aes::SecureKey::new(key_of(3));
    assert_eq!(key.as_bytes().len(), 32);
    assert_eq!(key.as_bytes()[0], 3);
    let inner = key.into_inner();
    assert_eq!(inner, key_of(3));
}

#[test]
fn test_generate_key_and_nonce_sizes() {
    assert_eq!(aes::generate_key().as_bytes().len(), 32);
    assert_eq!(aes::generate_nonce().len(), 12);
}

#[test]
fn test_dek_wrap_then_unwrap_returns_dek() {
    let dek_bytes = key_of(42);
    let (wrapped, salt) = dek::wrap_user_dek(&dek_bytes, "hunter2hunter2").unwrap();
    assert_eq!(salt.len(), 16);
    assert_eq!(wrapped.len(), 32 + 16 + 12);
    let unwrapped = dek::decrypt_user_dek(&wrapped, &salt, "hunter2hunter2").unwrap();
    assert_eq!(unwrapped, dek_bytes);
}

#[test]
fn test_create_user_dek_unwraps_to_32_bytes() {
    let (wrapped, salt) = dek::create_user_dek("SecurePass123!@#").unwrap();
    let unwrapped = dek::decrypt_user_dek(&wrapped, &salt, "SecurePass123!@#").unwrap();
    assert_eq!(unwrapped.len(), 32);
}

#[test]
fn test_unwrap_with_wrong_password_fails() {
    let (wrapped, salt) = dek::create_user_dek("correct horse").unwrap();
    match dek::decrypt_user_dek(&wrapped, &salt, "battery staple") {
        Err(AppError::Encryption(_)) => {}
        other => panic!("expected an encryption error, got {:?}", other.is_ok()),
    }
}

#[test]
fn test_unwrap_malformed_envelope_fails() {
    let short: Vec<u8> = vec![1, 2, 3];
    let salt: Vec<u8> = vec![0; 16];
    assert!(dek::decrypt_user_dek(&short, &salt, "whatever").is_err());
    let bad_salt: Vec<u8> = vec![0; 3];
    let (wrapped, _) = dek::create_user_dek("whateverpw").unwrap();
    assert!(dek::decrypt_user_dek(&wrapped, &bad_salt, "whateverpw").is_err());
}

#[test]
fn test_change_password_preserves_dek() {
    let (wrapped, salt) = dek::create_user_dek("old password").unwrap();
    let before = dek::decrypt_user_dek(&wrapped, &salt, "old password").unwrap();
    let (wrapped2, salt2) =
        dek::change_user_password_dek(&wrapped, &salt, "old password", "new password").unwrap();
    let after = dek::decrypt_user_dek(&wrapped2, &salt2, "new password").unwrap();
    assert_eq!(before, after);
    assert!(dek::decrypt_user_dek(&wrapped2, &salt2, "old password").is_err());
}

#[test]
fn test_change_password_wrong_old_password_fails() {
    let (wrapped, salt) = dek::create_user_dek("old password").unwrap();
    assert!(dek::change_user_password_dek(&wrapped, &salt, "not the one", "new password").is_err());
}

#[test]
fn test_derive_key_is_deterministic() {
    let salt: Vec<u8> = (0u8..16).collect();
    let a = kdf::derive_key("pass phrase", &salt).unwrap();
    let b = kdf::derive_key("pass phrase", &salt).unwrap();
    assert_eq!(a, b);
    assert_eq!(a.len(), 32);
    let other_salt: Vec<u8> = (1u8..17).collect();
    let c = kdf::derive_key("pass phrase", &other_salt).unwrap();
    assert_ne!(a, c);
}

#[test]
fn test_derive_key_rejects_short_salt() {
    let salt: Vec<u8> = vec![0; 4];
    assert!(kdf::derive_key("pass phrase", &salt).is_err());
}

#[test]
fn test_hash_password_verifies() {
    let hash = kdf::hash_password("SecurePass123!@#").unwrap();
    assert!(kdf::verify_password("SecurePass123!@#", &hash).unwrap());
    assert!(!kdf::verify_password("SomethingElse1!", &hash).unwrap());
}

#[test]
fn test_verify_password_rejects_garbage_hash() {
    assert!(kdf::verify_password("pw", "not a phc string").is_err());
}
