//! The check that every protected request passes: it carries a token, and
//! the identity that the token names still exists.
use vstd::prelude::*;
use crate::database::query::{user_is, UserIs};
use crate::database::table::{any, exists_where};
use crate::database::Store;
use crate::middleware::guest::BEARER_PREFIX;
use crate::text::concat_str;
use crate::utils::error::{
    label_of, rejected_as, rejection, AppError, AppResult, ErrorKind, Rejection,
};
use vstd::string::StrSliceExecFns;

verus! {

/// The header under which the identity of a request is passed on.
pub const AUTH_USERNAME_HEADER: &'static str = "x-username";

/// The token that an authorization carries: what follows the word
/// "Bearer" and a space.
pub open spec fn token_in(header: Seq<char>) -> Option<Seq<char>> {
    if header.len() >= BEARER_PREFIX@.len() && header.take(BEARER_PREFIX@.len() as int)
        == BEARER_PREFIX@ {
        Some(header.skip(BEARER_PREFIX@.len() as int))
    } else {
        None
    }
}

/// The token that an authorization carries, if it carries one.
pub fn bearer_token(header: &str) -> (r: Option<&str>)
    ensures
        crate::services::messaging::opt_str_text(r) == token_in(header@),
{
    proof {
        reveal_strlit("Bearer ");
    }
    let n = header.unicode_len();
    if n < 7 {
        return None;
    }
    let head = header.substring_char(0, 7);
    if !crate::text::str_eq(head, BEARER_PREFIX) {
        assert(header@.take(7) =~= header@.subrange(0, 7));
        return None;
    }
    proof {
        assert(header@.take(7) =~= header@.subrange(0, 7));
        assert(header@.skip(7) =~= header@.subrange(7, n as int));
    }
    Some(header.substring_char(7, n))
}

/// The token of a request, or the refusal of a request without one.
pub fn required_token(header: Option<&str>) -> (res: AppResult<&str>)
    ensures
        match header {
            Some(h) => match token_in(h@) {
                Some(t) => res matches Ok(token) && token@ == t,
                None => rejected_as(
                    res,
                    rejection(ErrorKind::Auth, "Missing or invalid authorization header"),
                ),
            },
            None => rejected_as(
                res,
                rejection(ErrorKind::Auth, "Missing or invalid authorization header"),
            ),
        },
{
    let token = match header {
        Some(h) => bearer_token(h),
        None => None,
    };
    match token {
        Some(t) => Ok(t),
        None => Err(AppError::Auth("Missing or invalid authorization header".to_string())),
    }
}

/// The refusal of a request whose token did not verify; `cause` is the
/// error that verifying it gave.
pub fn invalid_token(cause: &AppError) -> (e: AppError)
    ensures
        e@ == (Rejection {
            kind: ErrorKind::Auth,
            text: "Invalid token: "@ + (label_of(cause@.kind) + cause@.text),
        }),
{
    let described = cause.to_string();
    AppError::Auth(concat_str("Invalid token: ", described.as_str()))
}

/// Lets a request in the name of `username` pass if an identity with exactly
/// that name exists: an identity that was banned since its token was issued
/// is refused.
pub fn let_in(pool: &Store, username: &str) -> (res: AppResult<()>)
    ensures
        if any(pool.users@, user_is(username@)) {
            res is Ok
        } else {
            rejected_as(res, rejection(ErrorKind::Auth, "User no longer exists"))
        },
{
    if !exists_where(&pool.users, &UserIs(username)) {
        return Err(AppError::Auth("User no longer exists".to_string()));
    }
    Ok(())
}

} // verus!
