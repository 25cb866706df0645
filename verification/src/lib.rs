//! Core of an encrypted chunked-upload file vault.
//!
//! Files are split into fixed-size chunks, each encrypted independently under
//! a per-user data encryption key (DEK).  DEKs are wrapped under versioned key
//! encryption keys (KEKs), which are wrapped under a single operator master
//! key.  This crate holds the verified logic of that pipeline: the key
//! hierarchy, the three-phase upload protocol, the quota ledger, the chunk
//! table codec and the request-validation rules.  Network, database and disk
//! plumbing live outside and hand the library plain values.

pub mod aes;
pub mod auth;
pub mod byteseq;
pub mod charprops;
pub mod codec;
pub mod config;
pub mod csrf;
pub mod dek;
pub mod download;
pub mod errors;
pub mod files;
pub mod kdf;
pub mod kek;
pub mod quota;
pub mod rng;
pub mod session;
pub mod textenc;
pub mod upload;
pub mod validation;
