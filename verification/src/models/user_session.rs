//! Browser sessions.
use vstd::prelude::*;
use crate::utils::clock::{format_instant, rfc3339_text, shifted, system_now, Instant};
use crate::utils::ids::new_id;

verus! {

/// A session row.
#[derive(Debug, Clone, PartialEq, Eq)]
pub struct UserSession {
    pub id: String,
    pub username: Option<String>,
    pub server_preferences: Option<String>,
    pub last_activity: String,
    pub created_at: String,
    pub expires_at: String,
}

/// Seconds for which a session is kept: thirty days.
pub const SESSION_LIFETIME_SECONDS: i64 = 2_592_000;

/// The expiry time, as text, of a session that starts at `now`.
pub open spec fn session_expiry_text(now: Instant) -> Seq<char> {
    let later = shifted(now, SESSION_LIFETIME_SECONDS);
    rfc3339_text(later.secs, later.nanos)
}

impl UserSession {
    /// A new session that starts now, with a fresh identifier.
    pub fn new(username: Option<String>) -> (s: UserSession)
        ensures
            s.username == username,
            s.server_preferences is None,
            s.last_activity@ == s.created_at@,
            exists|now: Instant|
                s.created_at@ == rfc3339_text(now.secs, now.nanos) && s.expires_at@
                    == session_expiry_text(now),
    {
        UserSession::started_at(system_now(), new_id(), username)
    }

    /// A new session with identifier `id` that starts at `now`; it expires
    /// thirty days later.
    pub fn started_at(now: Instant, id: String, username: Option<String>) -> (s: UserSession)
        ensures
            s.id == id,
            s.username == username,
            s.server_preferences is None,
            s.last_activity@ == rfc3339_text(now.secs, now.nanos),
            s.created_at@ == rfc3339_text(now.secs, now.nanos),
            s.expires_at@ == session_expiry_text(now),
    {
        let expires = now.plus_seconds(SESSION_LIFETIME_SECONDS);
        UserSession {
            id,
            username,
            server_preferences: None,
            last_activity: format_instant(now),
            created_at: format_instant(now),
            expires_at: format_instant(expires),
        }
    }
}

} // verus!
