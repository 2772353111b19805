//! Who a new connection belongs to.
use vstd::prelude::*;
use crate::middleware::auth::{bearer_token, token_in};
use crate::models::user::opt_text;
use crate::websocket::connection::GUEST;

verus! {

/// The query of a connection request.
#[derive(Debug, Clone, PartialEq, Eq)]
pub struct WsQuery {
    pub token: Option<String>,
}

/// The token that a connection request presents: the one in its query, or
/// failing that the one in its authorization.
pub open spec fn presented_token(query: Option<Seq<char>>, header: Option<Seq<char>>) -> Option<
    Seq<char>,
> {
    match query {
        Some(t) => Some(t),
        None => match header {
            Some(h) => token_in(h),
            None => None,
        },
    }
}

/// The token that a connection request presents, if any.
pub fn token_of(query: WsQuery, header: Option<&str>) -> (r: Option<String>)
    ensures
        opt_text(r) == presented_token(
            opt_text(query.token),
            crate::services::messaging::opt_str_text(header),
        ),
{
    match query.token {
        Some(t) => Some(t),
        None => match header {
            Some(h) => match bearer_token(h) {
                Some(t) => Some(t.to_string()),
                None => None,
            },
            None => None,
        },
    }
}

/// The identity of a connection: the one that its token names, or the
/// guest identity where it has no token that verifies.
pub fn identity_of(verified: Option<String>) -> (name: String)
    ensures
        name@ == (match verified {
            Some(n) => n@,
            None => GUEST@,
        }),
{
    match verified {
        Some(n) => n,
        None => GUEST.to_string(),
    }
}

} // verus!
