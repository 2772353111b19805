//! The log of login attempts.
use vstd::prelude::*;
use crate::utils::clock::now_rfc3339;
use crate::utils::ids::new_id;

verus! {

/// One login attempt. `success` is 1 for a successful attempt, else 0.
#[derive(Debug, Clone, PartialEq, Eq)]
pub struct LoginAttempt {
    pub id: String,
    pub username: String,
    pub ip_address: String,
    pub success: i64,
    pub timestamp: String,
    pub attempted_username: Option<String>,
    pub failure_reason: Option<String>,
}

impl LoginAttempt {
    /// A record of an attempt made now, with a fresh identifier.
    pub fn new(
        username: String,
        ip_address: String,
        success: bool,
        attempted_username: Option<String>,
        failure_reason: Option<String>,
    ) -> (a: LoginAttempt)
        ensures
            a.username == username,
            a.ip_address == ip_address,
            a.success == (if success { 1i64 } else { 0i64 }),
            a.attempted_username == attempted_username,
            a.failure_reason == failure_reason,
    {
        LoginAttempt::at(
            now_rfc3339(),
            username,
            ip_address,
            success,
            attempted_username,
            failure_reason,
        )
    }

    /// A record of an attempt made at the time written in `timestamp`, with a
    /// fresh identifier.
    pub fn at(
        timestamp: String,
        username: String,
        ip_address: String,
        success: bool,
        attempted_username: Option<String>,
        failure_reason: Option<String>,
    ) -> (a: LoginAttempt)
        ensures
            a.timestamp == timestamp,
            a.username == username,
            a.ip_address == ip_address,
            a.success == (if success { 1i64 } else { 0i64 }),
            a.attempted_username == attempted_username,
            a.failure_reason == failure_reason,
    {
        LoginAttempt {
            id: new_id(),
            username,
            ip_address,
            success: if success { 1 } else { 0 },
            timestamp,
            attempted_username,
            failure_reason,
        }
    }
}

} // verus!
