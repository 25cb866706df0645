//! Server-side sessions, request authentication, CSRF checking and the
//! rate-limit rules.
//!
//! A session record carries the user's unwrapped DEK for the session's
//! lifetime.  Requests authenticate by presenting a session id; unsafe
//! methods additionally present a CSRF token that must match both the cookie
//! and the header and still be present in the ephemeral store.

use vstd::prelude::*;
use crate::aes::KEY_SIZE;

verus! {

/// The default session lifetime in days.
pub const DEFAULT_SESSION_DURATION_DAYS: i64 = 7;

/// How many registrations one address may attempt per window.
pub const REGISTER_ATTEMPT_LIMIT: i32 = 2;

/// How many failed logins one username may accumulate per window.
pub const LOGIN_ATTEMPT_LIMIT: i32 = 5;

/// How many password changes one user may make per window.
pub const CHANGE_PASSWORD_LIMIT: i32 = 2;

/// How many downloads of one file one user may make per window.
pub const DOWNLOAD_ATTEMPT_LIMIT: i32 = 3;

/// A server-side session: the signed-in user and their unwrapped DEK.
pub struct Session {
    /// The ID of the user this session belongs to.
    pub user_id: u128,
    /// The user's unwrapped 32-byte DEK, held for the session's lifetime.
    pub dek: Vec<u8>,
    /// When the session was created (Unix seconds).
    pub created_at: i64,
    /// When the session expires (Unix seconds).
    pub expires_at: i64,
}

impl Session {
    /// A session carries a full-size DEK and does not expire before it was
    /// created.
    pub open spec fn wf(&self) -> bool {
        &&& self.dek@.len() == KEY_SIZE
        &&& self.created_at <= self.expires_at
    }

    /// Creates a session lasting `duration_days` from `now`.
    pub fn new(user_id: u128, dek: Vec<u8>, now: i64, duration_days: i64) -> (r: Session)
        requires
            dek@.len() == KEY_SIZE,
            0 <= duration_days <= 36500,
            0 <= now <= 0x1_0000_0000_0000,
        ensures
            r.wf(),
            r.user_id == user_id,
            r.dek@ == dek@,
            r.created_at == now,
            r.expires_at == now + duration_days * 86400,
    {
        Session { user_id, dek, created_at: now, expires_at: now + duration_days * 86400 }
    }

    /// Whether the session has expired at time `now`.
    pub fn is_expired(&self, now: i64) -> (r: bool)
        ensures
            r == (now > self.expires_at),
    {
        now > self.expires_at
    }
}

/// What request authentication decided.
pub enum AuthDecision {
    /// A live session was presented; proceed with it.
    Accepted,
    /// No session record matches the presented id; reject with 403.
    RejectMissing,
    /// The record exists but has expired; delete it and reject with 403.
    RejectExpired,
}

/// Authenticates a request from the session record its cookie points at (if
/// any): absent or expired sessions are rejected, and an expired record is
/// to be deleted.
pub fn authenticate_session(session: Option<&Session>, now: i64) -> (r: AuthDecision)
    ensures
        session is None <==> r is RejectMissing,
        match session {
            Some(s) => (now > s.expires_at <==> r is RejectExpired) && (now <= s.expires_at
                <==> r is Accepted),
            None => r is RejectMissing,
        },
{
    match session {
        None => AuthDecision::RejectMissing,
        Some(s) => {
            if s.is_expired(now) {
                AuthDecision::RejectExpired
            } else {
                AuthDecision::Accepted
            }
        },
    }
}

/// What the CSRF filter decided.
pub enum CsrfDecision {
    /// Safe method; no token required.
    Exempt,
    /// No `csrf_token` cookie was presented.
    MissingCookie,
    /// No CSRF header was presented.
    MissingHeader,
    /// Cookie and header disagree.
    Mismatch,
    /// The token is no longer in the ephemeral store.
    ExpiredToken,
    /// Cookie, header and store agree; proceed.
    Valid,
}

/// Checks a request's CSRF evidence: safe methods pass untouched; unsafe
/// methods need cookie and header to be present, equal, and still known to
/// the store.
pub fn verify_csrf(
    method_is_safe: bool,
    cookie: Option<&String>,
    header: Option<&String>,
    token_in_store: bool,
) -> (r: CsrfDecision)
    ensures
        method_is_safe ==> r is Exempt,
        !method_is_safe ==> match (cookie, header) {
            (None, _) => r is MissingCookie,
            (Some(_), None) => r is MissingHeader,
            (Some(c), Some(h)) => {
                &&& (c@ != h@ <==> r is Mismatch)
                &&& (c@ == h@ && !token_in_store <==> r is ExpiredToken)
                &&& (c@ == h@ && token_in_store <==> r is Valid)
            },
        },
{
    if method_is_safe {
        return CsrfDecision::Exempt;
    }
    match (cookie, header) {
        (None, _) => CsrfDecision::MissingCookie,
        (Some(_), None) => CsrfDecision::MissingHeader,
        (Some(c), Some(h)) => {
            if !c.eq(h) {
                CsrfDecision::Mismatch
            } else if !token_in_store {
                CsrfDecision::ExpiredToken
            } else {
                CsrfDecision::Valid
            }
        },
    }
}

/// Whether a counter read from the store has reached a rate limit.
pub fn rate_limit_exceeded(count: Option<i32>, limit: i32) -> (r: bool)
    ensures
        r == (count matches Some(c) && c >= limit),
{
    match count {
        Some(c) => c >= limit,
        None => false,
    }
}

/// The whole minutes left until a limit window closes, given the key's
/// remaining lifetime; unknown or negative lifetimes count as zero.
pub fn retry_after_minutes(ttl: Option<i32>) -> (r: i32)
    ensures
        match ttl {
            Some(t) => t >= 0 ==> r == t / 60,
            None => r == 0,
        },
        (ttl is None || (ttl matches Some(t) && t < 0)) ==> r == 0,
{
    match ttl {
        Some(t) => if t >= 0 {
            t / 60
        } else {
            0
        },
        None => 0,
    }
}

/// The whole hours left until a limit window closes, given the key's
/// remaining lifetime; unknown or negative lifetimes count as zero.
pub fn retry_after_hours(ttl: Option<i32>) -> (r: i32)
    ensures
        match ttl {
            Some(t) => t >= 0 ==> r == t / 3600,
            None => r == 0,
        },
        (ttl is None || (ttl matches Some(t) && t < 0)) ==> r == 0,
{
    match ttl {
        Some(t) => if t >= 0 {
            t / 3600
        } else {
            0
        },
        None => 0,
    }
}

/// What the login rate limiter does with its counter after the handler
/// answered.
pub enum LoginRateAction {
    /// A client error: count the failed attempt and refresh the window.
    Penalize,
    /// A success: clear the counter.
    Reset,
    /// Anything else: leave the counter alone.
    Nothing,
}

/// Decides the counter action from the response status: client errors
/// (400-499) penalize, successes (200-299) reset.
pub fn login_rate_action(status: u16) -> (r: LoginRateAction)
    ensures
        400 <= status < 500 <==> r is Penalize,
        200 <= status < 300 <==> r is Reset,
        !(400 <= status < 500) && !(200 <= status < 300) <==> r is Nothing,
{
    if 400 <= status && status < 500 {
        LoginRateAction::Penalize
    } else if 200 <= status && status < 300 {
        LoginRateAction::Reset
    } else {
        LoginRateAction::Nothing
    }
}

/// What a per-file access check decided.
pub enum AccessDecision {
    /// The record exists, is live, and belongs to the caller.
    Proceed,
    /// No live record: answer 404.
    RejectNotFound,
    /// The record belongs to someone else: answer 403.
    RejectForbidden,
}

/// Verifies that the caller owns the requested live file.  `file` carries
/// the record's owner and deleted flag, when a record exists.
pub fn verify_file_ownership(file: Option<(u128, bool)>, user_id: u128) -> (r: AccessDecision)
    ensures
        match file {
            None => r is RejectNotFound,
            Some((owner, is_deleted)) => {
                &&& (is_deleted ==> r is RejectNotFound)
                &&& (!is_deleted && owner != user_id ==> r is RejectForbidden)
                &&& (!is_deleted && owner == user_id ==> r is Proceed)
            },
        },
{
    match file {
        None => AccessDecision::RejectNotFound,
        Some((owner, is_deleted)) => {
            if is_deleted {
                AccessDecision::RejectNotFound
            } else if owner != user_id {
                AccessDecision::RejectForbidden
            } else {
                AccessDecision::Proceed
            }
        },
    }
}

/// Whether an upload may start at all: the account must have free space.
pub fn has_available_quota(storage: &crate::quota::UserStorage) -> (r: bool)
    requires
        crate::quota::storage_wf(*storage),
    ensures
        r == (storage.storage_quota_bytes - storage.storage_used_bytes > 0),
{
    storage.storage_quota_bytes - storage.storage_used_bytes > 0
}

} // verus!
