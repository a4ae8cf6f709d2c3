//! Login sessions and their lifetimes.
use vstd::prelude::*;

use argon2::password_hash::rand_core::{OsRng, RngCore};

use crate::cookie::Cookie;
use crate::crypto_manager::{self, CryptoManager};

verus! {

/// Seconds since the Unix epoch of the last instant `chrono` can represent
/// (the end of year 262142).
pub const LATEST_SECS: i64 = 8210266876799;

/// Length of a fresh session, in seconds (one hour).
pub const SESSION_SECS: i64 = 3600;

/// How far a resumed session is extended, in seconds (seven days).
pub const RENEWAL_SECS: i64 = 604800;

/// An instant: seconds since the Unix epoch and the nanoseconds within that
/// second, as `chrono::DateTime<Utc>` holds it.
#[derive(Clone, Copy, Debug, PartialEq, Eq, Structural)]
pub struct Timestamp {
    pub secs: i64,
    pub nanos: u32,
}

impl Timestamp {
    /// A well-formed instant: fewer than a billion nanoseconds.
    pub open spec fn wf(self) -> bool {
        self.nanos < 1_000_000_000
    }

    /// Whether this instant comes strictly after `other`.
    pub open spec fn after(self, other: Timestamp) -> bool {
        self.secs > other.secs || (self.secs == other.secs && self.nanos > other.nanos)
    }

    /// The instant `secs` seconds later.
    pub open spec fn plus_secs(self, secs: i64) -> Timestamp {
        Timestamp { secs: (self.secs + secs) as i64, nanos: self.nanos }
    }

    /// Whether this instant comes strictly after `other`.
    pub fn is_after(&self, other: &Timestamp) -> (res: bool)
        ensures
            res == self.after(*other),
    {
        self.secs > other.secs || (self.secs == other.secs && self.nanos > other.nanos)
    }

    /// The instant `secs` seconds later, as adding a whole number of seconds
    /// to a `DateTime<Utc>` gives it; that addition panics past the last
    /// instant `chrono` represents, so the result must not lie beyond it.
    pub fn add_secs(&self, secs: i64) -> (res: Timestamp)
        requires
            0 <= secs,
            self.secs + secs <= LATEST_SECS,
        ensures
            res == self.plus_secs(secs),
    {
        Timestamp { secs: self.secs + secs, nanos: self.nanos }
    }

    /// The current time.
    pub fn now() -> (res: Timestamp)
        ensures
            res.wf(),
            0 <= res.secs <= LATEST_SECS,
    {
        let (secs, nanos) = clock_now();
        Timestamp { secs, nanos }
    }
}

/// Reads the system clock with `chrono::Utc::now`, which takes the time
/// since the Unix epoch from `SystemTime` (whole seconds and the nanoseconds
/// within the second) and panics for a clock set before the epoch.
#[verifier::external_body]
fn clock_now() -> (res: (i64, u32))
    ensures
        res.1 < 1_000_000_000,
        0 <= res.0 <= LATEST_SECS,
{
    let now = chrono::Utc::now();
    (now.timestamp(), now.timestamp_subsec_nanos())
}

/// A login session of a user.
#[derive(Debug)]
pub struct Session {
    pub user_id: Vec<u8>,
    pub created_at: Timestamp,
    pub expires_at: Timestamp,
}

impl Session {
    /// A session created at `created_at` that runs one hour from `start`.
    /// (A new session reads the clock twice: once for its creation time and
    /// once for the start of its hour.)
    pub fn starting(user_id: Vec<u8>, created_at: Timestamp, start: Timestamp) -> (res: Session)
        requires
            start.secs + SESSION_SECS <= LATEST_SECS,
        ensures
            res.user_id@ == user_id@,
            res.created_at == created_at,
            res.expires_at == start.plus_secs(SESSION_SECS),
    {
        Session { user_id, created_at, expires_at: start.add_secs(SESSION_SECS) }
    }

    /// A new session of the user, created now and expiring one hour after
    /// a second reading of the clock. (Within an hour of the last instant
    /// `chrono` represents, the expiry is that last instant.)
    pub fn new(user_id: Vec<u8>) -> (res: Session)
        ensures
            res.user_id@ == user_id@,
            res.created_at.wf(),
            res.expires_at.wf(),
            res.expires_at.secs >= SESSION_SECS,
            res.expires_at.secs <= LATEST_SECS,
    {
        let created_at = Timestamp::now();
        let start = Timestamp::now();
        if start.secs > LATEST_SECS - SESSION_SECS {
            return Session {
                user_id,
                created_at,
                expires_at: Timestamp { secs: LATEST_SECS, nanos: 999_999_999 },
            };
        }
        Session::starting(user_id, created_at, start)
    }

    /// Whether the session has expired at `now`: the session middleware
    /// refuses a session whose expiry lies strictly before the current
    /// time.
    pub fn is_expired_at(&self, now: &Timestamp) -> (res: bool)
        ensures
            res == now.after(self.expires_at),
    {
        now.is_after(&self.expires_at)
    }

    /// Whether the session can be resumed at `now`: resuming asks for an
    /// expiry strictly after the current time.
    pub fn is_resumable_at(&self, now: &Timestamp) -> (res: bool)
        ensures
            res == self.expires_at.after(*now),
    {
        self.expires_at.is_after(now)
    }
}

/// The expiry a resumed session gets: seven days from now.
pub fn renewed_expiry(now: &Timestamp) -> (res: Timestamp)
    requires
        now.secs + RENEWAL_SECS <= LATEST_SECS,
    ensures
        res == now.plus_secs(RENEWAL_SECS),
{
    now.add_secs(RENEWAL_SECS)
}

/// What resuming a session does, given the user of the stored session that
/// matches the cookie and has not expired (`Ok(None)` when there is none,
/// `Err(())` when the lookup failed): the user is signed in and the session
/// extended to seven days from now; otherwise the request fails.
pub fn resume_session(found: Result<Option<u128>, ()>, now: &Timestamp) -> (res: (
    AuthResponse,
    Option<(u128, Timestamp)>,
))
    requires
        found matches Ok(Some(_)) ==> now.secs + RENEWAL_SECS <= LATEST_SECS,
    ensures
        found matches Ok(Some(u)) ==> res == (AuthResponse::Success, Some((u, now.plus_secs(RENEWAL_SECS)))),
        !(found matches Ok(Some(_))) ==> res == (AuthResponse::Failed, None::<(u128, Timestamp)>),
{
    match found {
        Ok(Some(u)) => (AuthResponse::Success, Some((u, renewed_expiry(now)))),
        _ => (AuthResponse::Failed, None),
    }
}

/// A session that can be resumed at some instant has not expired then, and
/// a resumed session can be resumed until its new expiry.
pub proof fn lemma_resumable_not_expired(s: Session, now: Timestamp)
    requires
        now.wf(),
        now.secs + RENEWAL_SECS <= LATEST_SECS,
    ensures
        s.expires_at.after(now) ==> !now.after(s.expires_at),
        now.plus_secs(RENEWAL_SECS).after(now),
{
}

/// Draws 16 random bytes for a session id from the operating system's
/// random number generator (`RngCore::fill_bytes` on `OsRng`).
#[verifier::external_body]
fn random_session_id() -> [u8; 16] {
    let mut bytes = [0u8; 16];
    OsRng.fill_bytes(&mut bytes);
    bytes
}

/// A fresh random session id for a login.
pub fn new_session_id() -> [u8; 16] {
    random_session_id()
}

/// Why the session middleware refuses a connection (a database failure
/// aside): no cookie, a cookie or session that does not check, or an
/// expired session.
#[derive(Clone, Copy, Debug, PartialEq, Eq, Structural)]
pub enum SessionRefusal {
    Missing,
    Invalid,
    Expired,
}

/// Whether a cookie carries the signature of its session id under the
/// secret.
pub open spec fn cookie_is_signed(secret: Option<Seq<char>>, c: Cookie) -> bool {
    match secret {
        None => false,
        Some(s) => crypto_manager::session_signature_valid(
            vstd::utf8::encode_utf8(s),
            c.session_id@,
            c.signature@,
        ),
    }
}

/// The middleware's first step: a cookie must be presented and carry the
/// signature of its session id. Gives the session id to look up.
pub fn check_presented_cookie(secret: Option<&str>, cookie: Option<&Cookie>) -> (res: Result<
    [u8; 16],
    SessionRefusal,
>)
    ensures
        cookie is None ==> res == Err::<[u8; 16], SessionRefusal>(SessionRefusal::Missing),
        cookie matches Some(c) ==> (cookie_is_signed(
            match secret {
                None => None,
                Some(s) => Some(s@),
            },
            *c,
        ) ==> res == Ok::<[u8; 16], SessionRefusal>(c.session_id)),
        cookie matches Some(c) ==> (!cookie_is_signed(
            match secret {
                None => None,
                Some(s) => Some(s@),
            },
            *c,
        ) ==> res == Err::<[u8; 16], SessionRefusal>(SessionRefusal::Invalid)),
{
    let c = match cookie {
        None => return Err(SessionRefusal::Missing),
        Some(c) => c,
    };
    if !CryptoManager::verify(secret, &c.session_id, &c.signature) {
        return Err(SessionRefusal::Invalid);
    }
    Ok(c.session_id)
}

/// The middleware's second step, given the stored session for the id (if
/// any) and the current time: no session is invalid, an expired one is
/// refused; otherwise the connection belongs to the session's user.
pub fn session_user(session: Option<Session>, now: &Timestamp) -> (res: Result<
    Vec<u8>,
    SessionRefusal,
>)
    ensures
        session is None ==> res == Err::<Vec<u8>, SessionRefusal>(SessionRefusal::Invalid),
        session matches Some(s) ==> (now.after(s.expires_at) ==> res == Err::<
            Vec<u8>,
            SessionRefusal,
        >(SessionRefusal::Expired)),
        session matches Some(s) ==> (!now.after(s.expires_at) ==> (res matches Ok(u) && u@
            == s.user_id@)),
{
    let s = match session {
        None => return Err(SessionRefusal::Invalid),
        Some(s) => s,
    };
    if s.is_expired_at(now) {
        return Err(SessionRefusal::Expired);
    }
    Ok(s.user_id)
}

/// The answer to a request to resume a session.
#[derive(Clone, Copy, Debug, PartialEq, Eq, Structural)]
pub enum AuthResponse {
    Success,
    Failed,
}

} // verus!
