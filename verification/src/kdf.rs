//! Password key derivation and password hashing (Argon2id).
//!
//! The derived key is a deterministic function of cost parameters, password
//! and salt, named by [`argon2id_key`].  Password hashes carry a random salt,
//! so what is stated of them is the verifying relation
//! [`argon2_phc_verifies`] and that a produced hash parses back
//! ([`argon2_phc_parseable`]).

use vstd::prelude::*;
use argon2::password_hash::{PasswordHash, PasswordHasher, PasswordVerifier, SaltString};
use argon2::{Argon2, Params};
use vstd::string::StringExecFns;
use vstd::utf8::encode_utf8;
use crate::errors::{AppError, VaultResult};

verus! {

/// Argon2id memory cost in KiB (19 MiB).
pub const ARGON2_MEMORY_KIB: u32 = 19456;

/// Argon2id iteration count.
pub const ARGON2_ITERATIONS: u32 = 3;

/// Argon2id parallelism factor.
pub const ARGON2_PARALLELISM: u32 = 6;

/// The size of a key-derivation salt in bytes.
pub const SALT_SIZE: usize = 16;

/// The 32-byte key that Argon2id derives from the given cost parameters,
/// password and salt.
pub uninterp spec fn argon2id_key(
    m_cost: u32,
    t_cost: u32,
    p_cost: u32,
    password: Seq<char>,
    salt: Seq<u8>,
) -> Seq<u8>;

/// Whether Argon2 verification of `password` against the PHC hash string
/// `phc` succeeds.
pub uninterp spec fn argon2_phc_verifies(password: Seq<char>, phc: Seq<char>) -> bool;

/// Whether the string parses as a PHC hash string, a property of the string
/// alone.
pub uninterp spec fn argon2_phc_parseable(phc: Seq<char>) -> bool;

/// The key that this library derives from a password and salt: Argon2id with
/// the fixed cost parameters above.
pub open spec fn spec_derived_key(password: Seq<char>, salt: Seq<u8>) -> Seq<u8> {
    argon2id_key(ARGON2_MEMORY_KIB, ARGON2_ITERATIONS, ARGON2_PARALLELISM, password, salt)
}

/// Whether a salt read from storage may be handed to the KDF.
pub open spec fn spec_salt_usable(salt: Seq<u8>) -> bool {
    8 <= salt.len() <= 0xFFFF_FFFF
}

/// Relies on argon2's `Argon2::hash_password_into`: derives 32 key bytes from
/// the password and salt with the given Argon2id cost parameters.  The result
/// depends on the arguments alone; the call accepts any salt of 8 bytes or
/// more (up to its 32-bit length bound).
#[verifier::external_body]
fn argon2id_derive(
    m_cost: u32,
    t_cost: u32,
    p_cost: u32,
    password: &str,
    salt: &Vec<u8>,
) -> (r: Vec<u8>)
    requires
        m_cost == ARGON2_MEMORY_KIB,
        t_cost == ARGON2_ITERATIONS,
        p_cost == ARGON2_PARALLELISM,
        spec_salt_usable(salt@),
        encode_utf8(password@).len() <= 0xFFFF_FFFF,
    ensures
        r@ == argon2id_key(m_cost, t_cost, p_cost, password@, salt@),
        r@.len() == 32,
{
    let params = Params::new(m_cost, t_cost, p_cost, Some(32)).unwrap();
    let argon2 = Argon2::new(argon2::Algorithm::Argon2id, argon2::Version::V0x13, params);
    let mut key = vec![0u8; 32];
    argon2.hash_password_into(password.as_bytes(), salt, &mut key).unwrap();
    key
}

/// Derives the 32-byte password key for a password and salt.
///
/// Rejects a salt that the KDF cannot take (shorter than 8 bytes), as happens
/// with a corrupted user record.
pub fn derive_key(password: &str, salt: &Vec<u8>) -> (r: VaultResult<Vec<u8>>)
    ensures
        match r {
            Ok(key) => {
                &&& spec_salt_usable(salt@)
                &&& encode_utf8(password@).len() <= 0xFFFF_FFFF
                &&& key@ == spec_derived_key(password@, salt@)
                &&& key@.len() == 32
            },
            Err(e) => {
                &&& (!spec_salt_usable(salt@) || encode_utf8(password@).len() > 0xFFFF_FFFF)
                &&& e is Encryption
            },
        },
{
    if salt.len() < 8 || salt.len() > 0xFFFF_FFFF {
        return Err(AppError::Encryption(String::from_str("Invalid salt")));
    }
    if password.as_bytes().len() > 0xFFFF_FFFF {
        return Err(AppError::Encryption(String::from_str("Password too long")));
    }
    Ok(argon2id_derive(ARGON2_MEMORY_KIB, ARGON2_ITERATIONS, ARGON2_PARALLELISM, password, salt))
}

/// Relies on argon2's `PasswordHasher::hash_password` (with password_hash's
/// `SaltString::encode_b64`): produces a PHC hash string for the password
/// under a fresh 16-byte salt and the given Argon2id cost parameters.  With a
/// 16-byte salt and these valid parameters it fails only for a password
/// beyond the 32-bit length bound.  The hash embeds its salt and parameters,
/// so it parses back and verification of the same password against it
/// succeeds.
#[verifier::external_body]
fn argon2id_hash_password(
    m_cost: u32,
    t_cost: u32,
    p_cost: u32,
    password: &str,
    salt: &Vec<u8>,
) -> (r: VaultResult<String>)
    requires
        m_cost == ARGON2_MEMORY_KIB,
        t_cost == ARGON2_ITERATIONS,
        p_cost == ARGON2_PARALLELISM,
        salt@.len() == SALT_SIZE,
    ensures
        r is Ok <==> encode_utf8(password@).len() <= 0xFFFF_FFFF,
        match r {
            Ok(h) => argon2_phc_verifies(password@, h@) && argon2_phc_parseable(h@),
            Err(e) => e is Encryption,
        },
{
    let salt_string = SaltString::encode_b64(salt).map_err(|e| {
        AppError::Encryption(format!("Salt encoding error: {}", e))
    })?;
    let params = Params::new(m_cost, t_cost, p_cost, None).map_err(|e| {
        AppError::Encryption(format!("Argon2 params: {}", e))
    })?;
    let argon2 = Argon2::new(argon2::Algorithm::Argon2id, argon2::Version::V0x13, params);
    match argon2.hash_password(password.as_bytes(), &salt_string) {
        Ok(h) => Ok(h.to_string()),
        Err(e) => Err(AppError::Encryption(format!("Argon2 hash error: {}", e))),
    }
}

/// Hashes a password for storage, drawing a fresh random salt.
///
/// Succeeds for every password the KDF can take; the stored hash parses back
/// and verifies against the same password.
pub fn hash_password(password: &str) -> (r: VaultResult<String>)
    ensures
        r is Ok <==> encode_utf8(password@).len() <= 0xFFFF_FFFF,
        match r {
            Ok(h) => argon2_phc_verifies(password@, h@) && argon2_phc_parseable(h@),
            Err(e) => e is Encryption,
        },
{
    let salt = crate::rng::random_bytes(SALT_SIZE);
    argon2id_hash_password(ARGON2_MEMORY_KIB, ARGON2_ITERATIONS, ARGON2_PARALLELISM, password, &salt)
}

/// Relies on argon2's `PasswordVerifier::verify_password` (with
/// password_hash's `PasswordHash::new`): checks a password against a stored
/// PHC hash string.  It errs exactly when the stored string cannot be parsed
/// as a PHC hash.
#[verifier::external_body]
pub fn verify_password(password: &str, hash: &str) -> (r: VaultResult<bool>)
    ensures
        r is Ok <==> argon2_phc_parseable(hash@),
        match r {
            Ok(b) => b == argon2_phc_verifies(password@, hash@),
            Err(e) => e is Encryption,
        },
{
    let parsed_hash = PasswordHash::new(hash).map_err(|e| {
        AppError::Encryption(format!("Hash parse error: {}", e))
    })?;
    Ok(Argon2::default().verify_password(password.as_bytes(), &parsed_hash).is_ok())
}

} // verus!
