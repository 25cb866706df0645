//! Account flows: registration, login and password change.
//!
//! Registration hashes the password for storage and seals a fresh DEK under
//! it.  Login verifies the password against the stored hash, unwraps the DEK
//! and opens a session carrying it.  A password change re-seals the same DEK
//! under the new password.

use vstd::prelude::*;
use vstd::string::{StrSliceExecFns, StringExecFns};
use crate::aes::KEY_SIZE;
use crate::charprops::{char_is_whitespace, is_whitespace_char};
use crate::dek;
use crate::dek::spec_unwrap_dek;
use crate::errors::{AppError, VaultResult};
use crate::kdf;
use crate::kdf::{argon2_phc_parseable, argon2_phc_verifies};
use crate::kdf::SALT_SIZE;
use crate::session::Session;
use crate::validation::{
    spec_password_valid, spec_username_valid, validate_password, validate_username,
};

verus! {

/// The request payload for user registration.
pub struct RegisterRequest {
    /// The user's full name.
    pub name: String,
    /// The desired username.
    pub username: String,
    /// The password.
    pub password: String,
}

/// The request payload for user login.
pub struct LoginRequest {
    /// The username.
    pub username: String,
    /// The password.
    pub password: String,
}

/// The request payload for changing a user's password.
pub struct ChangePasswordRequest {
    /// The current password.
    pub old_password: String,
    /// The new password.
    pub new_password: String,
}

/// The response payload for authentication-related requests.
pub struct AuthResponse {
    /// Whether the operation succeeded.
    pub success: bool,
    /// A human-readable outcome.
    pub message: String,
}

/// A user account row.
#[derive(Clone)]
pub struct User {
    /// The unique identifier for the user.
    pub id: u128,
    /// The user's full name.
    pub name: String,
    /// The user's username.
    pub username: String,
    /// The user's email address.
    pub email: Option<String>,
    /// The user's password hash (a PHC string).
    pub password: String,
    /// The user's DEK sealed under a password-derived key, nonce appended.
    pub encrypted_dek: Option<Vec<u8>>,
    /// The salt of the password-derived key.
    pub dek_salt: Option<Vec<u8>>,
    /// The KEK version recorded for the account.
    pub dek_kek_version: i32,
    /// The user's storage ledger row.
    pub storage: crate::quota::UserStorage,
    /// When the account was created (Unix seconds).
    pub created_at: i64,
    /// When the account was last updated (Unix seconds).
    pub updated_at: i64,
    /// When the password was last changed, if ever (Unix seconds).
    pub last_password_change: Option<i64>,
    /// Whether the account is active.
    pub is_active: bool,
}

/// Whether a name is blank: empty or whitespace only.
pub open spec fn spec_name_blank(name: Seq<char>) -> bool {
    forall|i: int| 0 <= i < name.len() ==> char_is_whitespace(#[trigger] name[i])
}

/// Whether a name is blank (empty or whitespace only).
pub fn name_is_blank(name: &str) -> (r: bool)
    ensures
        r == spec_name_blank(name@),
{
    let n = name.unicode_len();
    let mut i: usize = 0;
    while i < n
        invariant
            n == name@.len(),
            i <= n,
            forall|j: int| 0 <= j < i ==> char_is_whitespace(#[trigger] name@[j]),
        decreases n - i,
    {
        if !is_whitespace_char(name.get_char(i)) {
            return false;
        }
        i = i + 1;
    }
    true
}

/// What registration stores for a new account: the password hash and the
/// sealed DEK with its salt.
pub struct NewUserRecord {
    /// The password hash (a PHC string).
    pub password_hash: String,
    /// The fresh DEK sealed under the password, nonce appended.
    pub encrypted_dek: Vec<u8>,
    /// The salt of the password-derived key.
    pub dek_salt: Vec<u8>,
}

/// Registers a new account: validates the inputs, hashes the password for
/// storage, and seals a fresh 32-byte DEK under it.
///
/// The stored hash verifies against the registration password, and the
/// sealed DEK unwraps under that password and the returned salt.
pub fn register_user(name: &str, username: &str, password: &str) -> (r: VaultResult<
    NewUserRecord,
>)
    ensures
        r is Ok <==> (spec_username_valid(username) && spec_password_valid(password)
            && !spec_name_blank(name@)),
        match r {
            Ok(rec) => {
                &&& argon2_phc_verifies(password@, rec.password_hash@)
                &&& argon2_phc_parseable(rec.password_hash@)
                &&& rec.dek_salt@.len() == SALT_SIZE
                &&& exists|dek_val: Seq<u8>|
                    dek_val.len() == KEY_SIZE && spec_unwrap_dek(
                        rec.encrypted_dek@,
                        rec.dek_salt@,
                        password@,
                    ) == Some(dek_val)
            },
            Err(e) => e is Validation,
        },
{
    validate_username(username)?;
    validate_password(password)?;
    if name_is_blank(name) {
        return Err(AppError::Validation(String::from_str("Name cannot be empty")));
    }
    let password_hash = kdf::hash_password(password)?;
    let (encrypted_dek, dek_salt) = dek::create_user_dek(password)?;
    Ok(NewUserRecord { password_hash, encrypted_dek, dek_salt })
}

/// Authenticates a user against their stored row: a missing account and a
/// wrong password are indistinguishable to the caller.
pub fn authenticate_user(user: Option<User>, password: &str) -> (r: VaultResult<User>)
    ensures
        r is Ok <==> (user matches Some(u) && argon2_phc_parseable(u.password@)
            && argon2_phc_verifies(password@, u.password@)),
        match r {
            Ok(u) => {
                &&& user matches Some(given) && u == given
                &&& argon2_phc_verifies(password@, u.password@)
            },
            Err(e) => e is Authentication || e is Encryption,
        },
        user is None ==> (r matches Err(e) && (e matches AppError::Authentication(m) && m@
            == "Invalid username or password"@)),
        (user matches Some(u) && argon2_phc_parseable(u.password@) && !argon2_phc_verifies(
            password@,
            u.password@,
        )) ==> (r matches Err(e) && (e matches AppError::Authentication(m) && m@
            == "Invalid username or password"@)),
        (user matches Some(u) && !argon2_phc_parseable(u.password@)) ==> (r matches Err(e)
            && e is Encryption),
{
    let u = match user {
        Some(u) => u,
        None => {
            return Err(AppError::Authentication(String::from_str("Invalid username or password")));
        },
    };
    let ok = kdf::verify_password(password, u.password.as_str())?;
    if !ok {
        return Err(AppError::Authentication(String::from_str("Invalid username or password")));
    }
    Ok(u)
}

/// Opens a session for an authenticated user: unwraps their DEK with the
/// password they just presented and stores the plaintext DEK in the session
/// record for its lifetime.
pub fn open_session(user: &User, password: &str, now: i64, duration_days: i64) -> (r: VaultResult<
    Session,
>)
    requires
        0 <= duration_days <= 36500,
        0 <= now <= 0x1_0000_0000_0000,
    ensures
        r is Ok <==> (user.encrypted_dek matches Some(w) && user.dek_salt matches Some(s) && (
        spec_unwrap_dek(w@, s@, password@) matches Some(d) && d.len() == KEY_SIZE)),
        match r {
            Ok(s) => {
                &&& s.wf()
                &&& s.user_id == user.id
                &&& user.encrypted_dek matches Some(wrapped) && user.dek_salt matches Some(salt)
                    && spec_unwrap_dek(wrapped@, salt@, password@) == Some(s.dek@)
                &&& s.created_at == now
                &&& s.expires_at == now + duration_days * 86400
            },
            Err(e) => e is Encryption,
        },
{
    let wrapped = match &user.encrypted_dek {
        Some(w) => w,
        None => {
            return Err(AppError::Encryption(String::from_str("Missing encrypted DEK")));
        },
    };
    let salt = match &user.dek_salt {
        Some(s) => s,
        None => {
            return Err(AppError::Encryption(String::from_str("Missing DEK salt")));
        },
    };
    let dek_bytes = dek::decrypt_user_dek(wrapped, salt, password)?;
    if dek_bytes.len() != KEY_SIZE {
        return Err(AppError::Encryption(String::from_str("Invalid DEK size")));
    }
    Ok(Session::new(user.id, dek_bytes, now, duration_days))
}

/// What a password change stores: the new hash and the DEK re-sealed under
/// the new password.
pub struct PasswordChange {
    /// The new password hash (a PHC string).
    pub password_hash: String,
    /// The DEK re-sealed under the new password, nonce appended.
    pub encrypted_dek: Vec<u8>,
    /// The salt of the new password-derived key.
    pub dek_salt: Vec<u8>,
}

/// Changes a user's password: verifies the current one, hashes the new one,
/// and re-seals the DEK so that the new envelope opens under the new
/// password to exactly what the old envelope opened to under the old one.
pub fn change_password(user: &User, old_password: &str, new_password: &str) -> (r: VaultResult<
    PasswordChange,
>)
    ensures
        r is Ok <==> (spec_password_valid(new_password) && argon2_phc_parseable(user.password@)
            && argon2_phc_verifies(old_password@, user.password@) && (user.encrypted_dek matches
        Some(w) && user.dek_salt matches Some(s) && spec_unwrap_dek(w@, s@, old_password@) is Some
            && w@.len() <= crate::aes::AEAD_MAX_PLAINTEXT + crate::aes::NONCE_SIZE
            + crate::aes::TAG_SIZE)),
        match r {
            Ok(ch) => {
                &&& spec_password_valid(new_password)
                &&& argon2_phc_verifies(old_password@, user.password@)
                &&& argon2_phc_verifies(new_password@, ch.password_hash@)
                &&& user.encrypted_dek matches Some(wrapped) && user.dek_salt matches Some(salt)
                    && spec_unwrap_dek(wrapped@, salt@, old_password@) is Some && spec_unwrap_dek(
                    ch.encrypted_dek@,
                    ch.dek_salt@,
                    new_password@,
                ) == spec_unwrap_dek(wrapped@, salt@, old_password@)
            },
            Err(e) => e is Validation || e is Authentication || e is Encryption,
        },
        !spec_password_valid(new_password) ==> (r matches Err(e) && e is Validation),
{
    validate_password(new_password)?;
    let ok = kdf::verify_password(old_password, user.password.as_str())?;
    if !ok {
        return Err(AppError::Authentication(String::from_str("Invalid current password")));
    }
    let wrapped = match &user.encrypted_dek {
        Some(w) => w,
        None => {
            return Err(AppError::Encryption(String::from_str("Missing encrypted DEK")));
        },
    };
    let salt = match &user.dek_salt {
        Some(s) => s,
        None => {
            return Err(AppError::Encryption(String::from_str("Missing DEK salt")));
        },
    };
    let password_hash = kdf::hash_password(new_password)?;
    let (encrypted_dek, dek_salt) = dek::change_user_password_dek(
        wrapped,
        salt,
        old_password,
        new_password,
    )?;
    Ok(PasswordChange { password_hash, encrypted_dek, dek_salt })
}

} // verus!
