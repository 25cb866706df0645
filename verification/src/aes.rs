//! Symmetric cipher primitive: AEAD encryption with 256-bit keys and 96-bit
//! random nonces.
//!
//! What the cipher computes is named by the two uninterpreted functions
//! [`aead_seal`] and [`aead_open`]; the trusted wrappers below tie them to
//! AES-256-GCM.  Sealing appends a 16-byte authentication tag, and opening
//! fails whenever the tag does not verify.
//!
//! Key hygiene: transient key buffers are blanked in place before they are
//! dropped (see `byteseq::wipe`), and cache eviction blanks cached key
//! plaintexts.  This is best-effort: copies left by moves, reallocations or
//! compiler optimization, and keys whose ownership passes to the caller (a
//! session's DEK, a returned KEK), are outside its reach.

use vstd::prelude::*;
use aes_gcm::aead::Aead;
use aes_gcm::{Aes256Gcm, Key, KeyInit, Nonce};
use crate::errors::{AppError, VaultResult};
use crate::rng::random_bytes;

verus! {

/// The size of the AES-256 key in bytes.
pub const KEY_SIZE: usize = 32;

/// The size of the AES-GCM nonce in bytes.
pub const NONCE_SIZE: usize = 12;

/// The size of the AES-GCM authentication tag in bytes.
pub const TAG_SIZE: usize = 16;

/// The largest plaintext AES-GCM accepts, in bytes.
pub const AEAD_MAX_PLAINTEXT: u64 = 0x10_0000_0000;

/// The ciphertext (with tag appended) that sealing `plain` under `key` and
/// `nonce` produces.
pub uninterp spec fn aead_seal(key: Seq<u8>, nonce: Seq<u8>, plain: Seq<u8>) -> Seq<u8>;

/// The plaintext that opening `ct` under `key` and `nonce` recovers, or
/// `None` when the authentication tag does not verify.
pub uninterp spec fn aead_open(key: Seq<u8>, nonce: Seq<u8>, ct: Seq<u8>) -> Option<Seq<u8>>;

/// A 32-byte symmetric key.
pub struct SecureKey {
    bytes: Vec<u8>,
}

impl View for SecureKey {
    type V = Seq<u8>;

    closed spec fn view(&self) -> Seq<u8> {
        self.bytes@
    }
}

impl SecureKey {
    /// Whether the key has the exact AES-256 size.
    pub open spec fn wf(&self) -> bool {
        self@.len() == KEY_SIZE
    }

    /// Creates a new `SecureKey` from 32 key bytes.
    pub fn new(key: Vec<u8>) -> (r: Self)
        requires
            key@.len() == KEY_SIZE,
        ensures
            r@ == key@,
            r.wf(),
    {
        SecureKey { bytes: key }
    }

    /// Returns the key as a byte slice.
    pub fn as_bytes(&self) -> (r: &Vec<u8>)
        ensures
            r@ == self@,
    {
        &self.bytes
    }

    /// Consumes the `SecureKey` and returns the inner key bytes.
    pub fn into_inner(self) -> (r: Vec<u8>)
        ensures
            r@ == self@,
    {
        self.bytes
    }
}

/// Generates a new random AES-256 key.
pub fn generate_key() -> (r: SecureKey)
    ensures
        r.wf(),
{
    SecureKey { bytes: random_bytes(KEY_SIZE) }
}

/// Generates a new random AES-GCM nonce.
pub fn generate_nonce() -> (r: Vec<u8>)
    ensures
        r@.len() == NONCE_SIZE,
{
    random_bytes(NONCE_SIZE)
}

/// Relies on aes_gcm's `Aes256Gcm::encrypt`: seals the plaintext under the
/// given key and nonce, appending the 16-byte tag.  The call is deterministic
/// in its arguments; it fails exactly when the plaintext exceeds the AES-GCM
/// length bound, and what it seals is what [`aead_open`] recovers.
#[verifier::external_body]
fn seal_with_nonce(key: &Vec<u8>, nonce: &Vec<u8>, plaintext: &Vec<u8>) -> (r: VaultResult<
    Vec<u8>,
>)
    requires
        key@.len() == KEY_SIZE,
        nonce@.len() == NONCE_SIZE,
    ensures
        match r {
            Ok(ct) => {
                &&& plaintext@.len() <= AEAD_MAX_PLAINTEXT
                &&& ct@ == aead_seal(key@, nonce@, plaintext@)
                &&& ct@.len() == plaintext@.len() + TAG_SIZE
                &&& aead_open(key@, nonce@, ct@) == Some(plaintext@)
            },
            Err(e) => {
                &&& plaintext@.len() > AEAD_MAX_PLAINTEXT
                &&& e is Encryption
            },
        },
{
    let cipher = Aes256Gcm::new(Key::<Aes256Gcm>::from_slice(key));
    cipher.encrypt(Nonce::from_slice(nonce), plaintext.as_slice()).map_err(|e| {
        AppError::Encryption(format!("Encryption failed: {}", e))
    })
}

/// Encrypts a plaintext using AES-256-GCM under a fresh random nonce.
///
/// Returns the ciphertext (tag appended) together with the nonce that was
/// drawn for it.
pub fn encrypt(key: &Vec<u8>, plaintext: &Vec<u8>) -> (r: VaultResult<(Vec<u8>, Vec<u8>)>)
    requires
        key@.len() == KEY_SIZE,
    ensures
        match r {
            Ok((ct, nonce)) => {
                &&& plaintext@.len() <= AEAD_MAX_PLAINTEXT
                &&& nonce@.len() == NONCE_SIZE
                &&& ct@ == aead_seal(key@, nonce@, plaintext@)
                &&& ct@.len() == plaintext@.len() + TAG_SIZE
                &&& aead_open(key@, nonce@, ct@) == Some(plaintext@)
            },
            Err(e) => {
                &&& plaintext@.len() > AEAD_MAX_PLAINTEXT
                &&& e is Encryption
            },
        },
{
    let nonce = generate_nonce();
    let ct = seal_with_nonce(key, &nonce, plaintext)?;
    Ok((ct, nonce))
}

/// Relies on aes_gcm's `Aes256Gcm::decrypt`: opens the ciphertext under the
/// given key and nonce.  It succeeds exactly when the authentication tag
/// verifies, and the recovered plaintext is 16 bytes shorter than the
/// ciphertext.
#[verifier::external_body]
pub fn decrypt(key: &Vec<u8>, ciphertext: &Vec<u8>, nonce: &Vec<u8>) -> (r: VaultResult<Vec<u8>>)
    requires
        key@.len() == KEY_SIZE,
        nonce@.len() == NONCE_SIZE,
    ensures
        match r {
            Ok(p) => {
                &&& aead_open(key@, nonce@, ciphertext@) == Some(p@)
                &&& p@.len() + TAG_SIZE == ciphertext@.len()
            },
            Err(e) => {
                &&& aead_open(key@, nonce@, ciphertext@) is None
                &&& e is Encryption
            },
        },
{
    let cipher = Aes256Gcm::new(Key::<Aes256Gcm>::from_slice(key));
    cipher.decrypt(Nonce::from_slice(nonce), ciphertext.as_slice()).map_err(|e| {
        AppError::Encryption(format!("Decryption failed: {}", e))
    })
}

} // verus!
