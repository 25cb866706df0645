//! Per-user data encryption key (DEK) envelope.
//!
//! A user's DEK is a random 32-byte key.  At rest it is sealed under a key
//! derived from the user's password and a random salt; the 12-byte nonce is
//! appended to the ciphertext, so the stored form is `ciphertext || nonce`.
//! [`spec_unwrap_dek`] is the mathematical content of that envelope: wrapping
//! then unwrapping with the same password and salt gives the DEK back, and
//! a password change preserves the underlying DEK.
//!
//! The salt is stored as its 16 raw bytes and handed back to the KDF
//! verbatim.  An equivalent convention stores the base64 text of those bytes
//! instead; either way derivation re-reads exactly what was stored, which is
//! all the round-trip laws rest on.

use vstd::prelude::*;
use vstd::string::StringExecFns;
use vstd::utf8::encode_utf8;
use crate::aes;
use crate::aes::{aead_open, AEAD_MAX_PLAINTEXT, KEY_SIZE, NONCE_SIZE, TAG_SIZE};
use crate::byteseq::{copy_range, wipe};
use crate::errors::VaultResult;
use crate::kdf;
use crate::kdf::{spec_derived_key, spec_salt_usable, SALT_SIZE};
use crate::rng::random_bytes;

verus! {

/// Whether the KDF can take the password: its UTF-8 form fits the 32-bit
/// length bound.
pub open spec fn spec_password_usable(password: Seq<char>) -> bool {
    encode_utf8(password).len() <= 0xFFFF_FFFF
}

/// The DEK that unwrapping `wrapped` with `salt` and `password` recovers,
/// or `None` when the envelope is malformed, the salt or password is one the
/// KDF cannot take, or the authentication tag does not verify (wrong password
/// or tampered data).
pub open spec fn spec_unwrap_dek(wrapped: Seq<u8>, salt: Seq<u8>, password: Seq<char>) -> Option<
    Seq<u8>,
> {
    if wrapped.len() < NONCE_SIZE || !spec_salt_usable(salt) || !spec_password_usable(password) {
        None
    } else {
        aead_open(
            spec_derived_key(password, salt),
            wrapped.subrange(wrapped.len() - NONCE_SIZE, wrapped.len() as int),
            wrapped.subrange(0, wrapped.len() - NONCE_SIZE),
        )
    }
}

/// Seals a given 32-byte DEK under a password, drawing a fresh random salt.
///
/// Returns `(ciphertext || nonce, salt)`.  Unwrapping the result with the
/// same password and salt yields the DEK again.
pub fn wrap_user_dek(dek: &Vec<u8>, password: &str) -> (r: VaultResult<(Vec<u8>, Vec<u8>)>)
    requires
        dek@.len() == KEY_SIZE,
    ensures
        r is Ok <==> spec_password_usable(password@),
        match r {
            Ok((wrapped, salt)) => {
                &&& salt@.len() == SALT_SIZE
                &&& wrapped@.len() == KEY_SIZE + TAG_SIZE + NONCE_SIZE
                &&& spec_unwrap_dek(wrapped@, salt@, password@) == Some(dek@)
            },
            Err(e) => e is Encryption,
        },
{
    let salt = random_bytes(SALT_SIZE);
    let mut key = kdf::derive_key(password, &salt)?;
    let sealed = aes::encrypt(&key, dek);
    wipe(&mut key);
    let (mut wrapped, mut nonce) = sealed?;
    let ghost ct = wrapped@;
    let ghost nonce_bytes = nonce@;
    wrapped.append(&mut nonce);
    proof {
        assert(wrapped@.subrange(wrapped@.len() - NONCE_SIZE, wrapped@.len() as int)
            =~= nonce_bytes);
        assert(wrapped@.subrange(0, wrapped@.len() - NONCE_SIZE) =~= ct);
    }
    Ok((wrapped, salt))
}

/// Creates a new user DEK: a random 32-byte key sealed under the password.
///
/// Returns `(ciphertext || nonce, salt)`; the unwrapped envelope is always a
/// 32-byte key.
pub fn create_user_dek(password: &str) -> (r: VaultResult<(Vec<u8>, Vec<u8>)>)
    ensures
        r is Ok <==> spec_password_usable(password@),
        match r {
            Ok((wrapped, salt)) => {
                &&& salt@.len() == SALT_SIZE
                &&& wrapped@.len() == KEY_SIZE + TAG_SIZE + NONCE_SIZE
                &&& exists|dek: Seq<u8>|
                    dek.len() == KEY_SIZE && spec_unwrap_dek(wrapped@, salt@, password@) == Some(
                        dek,
                    )
            },
            Err(e) => e is Encryption,
        },
{
    let dek = random_bytes(KEY_SIZE);
    wrap_user_dek(&dek, password)
}

/// Decrypts a user's DEK from its stored envelope.
///
/// Succeeds exactly when the envelope is well formed and the password matches:
/// this doubles as the effective password check on operations that need the
/// DEK.
pub fn decrypt_user_dek(
    encrypted_dek_with_nonce: &Vec<u8>,
    salt: &Vec<u8>,
    password: &str,
) -> (r: VaultResult<Vec<u8>>)
    ensures
        match r {
            Ok(dek) => {
                &&& spec_unwrap_dek(encrypted_dek_with_nonce@, salt@, password@) == Some(dek@)
                &&& dek@.len() + NONCE_SIZE + TAG_SIZE == encrypted_dek_with_nonce@.len()
            },
            Err(e) => {
                &&& spec_unwrap_dek(encrypted_dek_with_nonce@, salt@, password@) is None
                &&& e is Encryption
            },
        },
{
    let wrapped_len = encrypted_dek_with_nonce.len();
    if wrapped_len < NONCE_SIZE {
        return Err(
            crate::errors::AppError::Encryption(String::from_str("Malformed wrapped key")),
        );
    }
    if password.as_bytes().len() > 0xFFFF_FFFF {
        return Err(crate::errors::AppError::Encryption(String::from_str("Password too long")));
    }
    let mut key = kdf::derive_key(password, salt)?;
    let ciphertext = copy_range(encrypted_dek_with_nonce, 0, wrapped_len - NONCE_SIZE);
    let nonce = copy_range(encrypted_dek_with_nonce, wrapped_len - NONCE_SIZE, wrapped_len);
    let opened = aes::decrypt(&key, &ciphertext, &nonce);
    wipe(&mut key);
    opened
}

/// Re-seals a user's DEK under a new password after a password change.
///
/// The underlying DEK is preserved: unwrapping the new envelope with the new
/// password yields exactly what unwrapping the old envelope with the old
/// password yields.
pub fn change_user_password_dek(
    encrypted_dek_with_nonce: &Vec<u8>,
    salt: &Vec<u8>,
    old_password: &str,
    new_password: &str,
) -> (r: VaultResult<(Vec<u8>, Vec<u8>)>)
    ensures
        match r {
            Ok((wrapped, new_salt)) => {
                &&& new_salt@.len() == SALT_SIZE
                &&& encrypted_dek_with_nonce@.len() <= AEAD_MAX_PLAINTEXT + NONCE_SIZE + TAG_SIZE
                &&& spec_unwrap_dek(encrypted_dek_with_nonce@, salt@, old_password@) is Some
                &&& spec_unwrap_dek(wrapped@, new_salt@, new_password@) == spec_unwrap_dek(
                    encrypted_dek_with_nonce@,
                    salt@,
                    old_password@,
                )
            },
            Err(e) => e is Encryption && (spec_unwrap_dek(
                encrypted_dek_with_nonce@,
                salt@,
                old_password@,
            ) is None || encrypted_dek_with_nonce@.len() > AEAD_MAX_PLAINTEXT + NONCE_SIZE
                + TAG_SIZE || !spec_password_usable(new_password@)),
        },
{
    let mut dek = decrypt_user_dek(encrypted_dek_with_nonce, salt, old_password)?;
    let new_salt = random_bytes(SALT_SIZE);
    let mut new_key = kdf::derive_key(new_password, &new_salt)?;
    let sealed = aes::encrypt(&new_key, &dek);
    wipe(&mut new_key);
    wipe(&mut dek);
    let (mut wrapped, mut nonce) = sealed?;
    let ghost ct = wrapped@;
    let ghost nonce_bytes = nonce@;
    wrapped.append(&mut nonce);
    proof {
        assert(wrapped@.subrange(wrapped@.len() - NONCE_SIZE, wrapped@.len() as int)
            =~= nonce_bytes);
        assert(wrapped@.subrange(0, wrapped@.len() - NONCE_SIZE) =~= ct);
    }
    Ok((wrapped, new_salt))
}

} // verus!
