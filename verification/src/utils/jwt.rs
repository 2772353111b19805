//! The claims of a session token.
use vstd::prelude::*;
use crate::text::concat_str;
use crate::utils::clock::{shifted, Instant};
use crate::utils::error::{AppError, ErrorKind, Rejection};

verus! {

/// What a session token states: whom it was issued to, when, and until when
/// it holds.
#[derive(Debug, Clone, PartialEq, Eq)]
pub struct Claims {
    pub sub: String,
    pub exp: i64,
    pub iat: i64,
    pub username: String,
}

/// Seconds for which a session token holds: 36500 days.
pub const TOKEN_LIFETIME_SECONDS: i64 = 3_153_600_000;

impl Claims {
    /// The claims of a token issued to `username` at `now`.
    pub fn issue(username: &str, now: Instant) -> (c: Claims)
        ensures
            c.sub@ == username@,
            c.username@ == username@,
            c.iat == now.secs,
            c.exp == shifted(now, TOKEN_LIFETIME_SECONDS).secs,
    {
        Claims {
            sub: username.to_string(),
            exp: now.plus_seconds(TOKEN_LIFETIME_SECONDS).secs,
            iat: now.secs,
            username: username.to_string(),
        }
    }

    /// The identity that the token was issued to.
    pub fn extract_username(self) -> (s: String)
        ensures
            s == self.username,
    {
        self.username
    }
}

/// The error for a token that cannot be issued; `description` says why.
pub fn token_not_issued(description: &str) -> (e: AppError)
    ensures
        e@ == (Rejection {
            kind: ErrorKind::Internal,
            text: "Failed to generate token: "@ + description@,
        }),
{
    AppError::Internal(concat_str("Failed to generate token: ", description))
}

/// The error for a token that does not verify; `description` says why.
pub fn token_rejected(description: &str) -> (e: AppError)
    ensures
        e@ == (Rejection { kind: ErrorKind::Auth, text: "Invalid token: "@ + description@ }),
{
    AppError::Auth(concat_str("Invalid token: ", description))
}

} // verus!
