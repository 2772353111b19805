//! Requests without credentials.
use vstd::prelude::*;

verus! {

/// Whether a request comes from a guest: it carries no authorization.
pub fn is_guest_user(auth_header: Option<&str>) -> (r: bool)
    ensures
        r == (auth_header is None),
{
    auth_header.is_none()
}

/// The prefix of an authorization that carries a token.
pub const BEARER_PREFIX: &'static str = "Bearer ";

} // verus!
