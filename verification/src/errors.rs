//! Error kinds surfaced to clients, and their mapping to HTTP status codes.
//!
//! Handlers return an `AppError`; the transport edge turns it into a status
//! and a client-visible body.  Detail strings on infrastructure errors are for
//! logs only: the client message of those kinds is generic.

use vstd::prelude::*;
use vstd::string::StringExecFns;

verus! {

/// The error type shared by every operation of the vault.
#[derive(Debug)]
pub enum AppError {
    /// Bad credentials, missing or expired session, CSRF mismatch (401).
    Authentication(String),
    /// Missing session cookie or ownership mismatch (403).
    Unauthorized,
    /// Unknown file or folder id (404).
    NotFound,
    /// Admission checks, schema violations, chunk index range, quota shortfall (400).
    Validation(String),
    /// AEAD or tag failure, wrong salt, malformed wrapped key (500).
    Encryption(String),
    /// Multipart field parse failure or upload timeout (400).
    Multipart(String),
    /// Serialization or invariant violation (500).
    Internal(String),
    /// Too many attempts (429).
    RateLimitExceeded(String),
    /// Relational store failure; carries log detail only (500).
    Database(String),
    /// Key-value store failure; carries log detail only (500).
    Cache(String),
    /// File system failure; carries log detail only (500).
    Io(String),
}

/// A `Result` whose error type is [`AppError`].
pub type VaultResult<T> = Result<T, AppError>;

/// The HTTP status that an error kind maps to.
pub open spec fn spec_status_code(e: &AppError) -> u16 {
    match e {
        AppError::Authentication(_) => 401,
        AppError::Unauthorized => 403,
        AppError::NotFound => 404,
        AppError::Validation(_) => 400,
        AppError::Encryption(_) => 500,
        AppError::Multipart(_) => 400,
        AppError::Internal(_) => 500,
        AppError::RateLimitExceeded(_) => 429,
        AppError::Database(_) => 500,
        AppError::Cache(_) => 500,
        AppError::Io(_) => 500,
    }
}

/// Whether the client-visible body repeats the error's own message, as opposed
/// to a fixed generic phrase.
pub open spec fn spec_message_is_detailed(e: &AppError) -> bool {
    match e {
        AppError::Authentication(_) => true,
        AppError::Validation(_) => true,
        AppError::Multipart(_) => true,
        AppError::RateLimitExceeded(_) => true,
        _ => false,
    }
}

impl AppError {
    /// The HTTP status code for this error.
    pub fn status_code(&self) -> (code: u16)
        ensures
            code == spec_status_code(self),
    {
        match self {
            AppError::Authentication(_) => 401,
            AppError::Unauthorized => 403,
            AppError::NotFound => 404,
            AppError::Validation(_) => 400,
            AppError::Encryption(_) => 500,
            AppError::Multipart(_) => 400,
            AppError::Internal(_) => 500,
            AppError::RateLimitExceeded(_) => 429,
            AppError::Database(_) => 500,
            AppError::Cache(_) => 500,
            AppError::Io(_) => 500,
        }
    }

    /// The body text shown to the client.  Detailed kinds repeat their own
    /// message; infrastructure and crypto kinds answer with a fixed phrase so
    /// that internals never leak.
    pub fn client_message(&self) -> (msg: String)
        ensures
            spec_message_is_detailed(self) ==> match self {
                AppError::Authentication(m) => msg@ == m@,
                AppError::Validation(m) => msg@ == m@,
                AppError::Multipart(m) => msg@ == m@,
                AppError::RateLimitExceeded(m) => msg@ == m@,
                _ => true,
            },
            !spec_message_is_detailed(self) ==> match self {
                AppError::Unauthorized => msg@ == "Forbidden"@,
                AppError::NotFound => msg@ == "Resource not found"@,
                AppError::Encryption(_) => msg@ == "Encryption error"@,
                AppError::Internal(_) => msg@ == "Internal server error"@,
                AppError::Database(_) => msg@ == "Database error"@,
                AppError::Cache(_) => msg@ == "Cache error"@,
                AppError::Io(_) => msg@ == "File system error"@,
                _ => true,
            },
    {
        match self {
            AppError::Authentication(m) => m.clone(),
            AppError::Unauthorized => String::from_str("Forbidden"),
            AppError::NotFound => String::from_str("Resource not found"),
            AppError::Validation(m) => m.clone(),
            AppError::Encryption(_) => String::from_str("Encryption error"),
            AppError::Multipart(m) => m.clone(),
            AppError::Internal(_) => String::from_str("Internal server error"),
            AppError::RateLimitExceeded(m) => m.clone(),
            AppError::Database(_) => String::from_str("Database error"),
            AppError::Cache(_) => String::from_str("Cache error"),
            AppError::Io(_) => String::from_str("File system error"),
        }
    }
}

} // verus!
