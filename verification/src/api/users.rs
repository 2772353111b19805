//! The identities of the site, as an administrator sees them.
use vstd::prelude::*;
use crate::api::admin::{admin_only, ban_handled, check_admin, query_text, search_pattern};
use crate::api::unified_messages::acting;
use crate::api::{limit_or_default, offset_or_zero, page_limit, page_offset, Handled};
use crate::database::counters::{clip, to_counter};
use crate::database::listing::{newest_user_first, NewestUserFirst};
use crate::database::order::{is_sorting, page, select_where, sort_by, take_page};
use crate::database::query::{
    both, except, user_is, user_matches, Both, Except, UserIs, UserMatches,
};
use crate::database::Store;
use crate::models::user::User;
use crate::services::auth::SYSTEM_USER;
use crate::text::containing;
use crate::utils::error::{rejected_as, AppResult};
use crate::utils::helpers::acting_username;

verus! {

/// What an administrator sees of an identity.
#[derive(Debug, Clone, PartialEq, Eq)]
pub struct UserSummary {
    pub username: String,
    pub is_admin: i64,
    pub created_at: String,
}

/// A page of identities and the number of all that the search finds.
#[derive(Debug, Clone, PartialEq, Eq)]
pub struct UserListing {
    pub users: Vec<UserSummary>,
    pub total: i64,
}

/// Handles the request to ban an identity from the site.
pub fn ban_user_handler(pool: &mut Store, requester: Option<String>, username: String) -> (h:
    Handled<()>)
    ensures
        ban_handled(*old(pool), *final(pool), acting(requester), username@, h),
{
    crate::api::admin::ban_user_handler(pool, requester, username)
}

/// What an administrator sees of the identity `u`.
pub open spec fn summary_of() -> spec_fn(User) -> UserSummary {
    |u: User| UserSummary { username: u.username, is_admin: u.is_admin, created_at: u.created_at }
}

/// The identities that a search finds, in table order: all but the
/// service's own.
pub open spec fn found_users(s: Store, q: Seq<char>) -> Seq<User> {
    s.users@.filter(both(except(user_is(SYSTEM_USER@)), user_matches(containing(q))))
}

/// What the listing of identities shows: a page of the identities that the
/// search finds, registered last first, each summed up, and the number of
/// all that it finds.
pub open spec fn is_user_listing(
    s: Store,
    q: Seq<char>,
    limit: i64,
    offset: i64,
    listing: UserListing,
) -> bool {
    &&& listing.total == clip(found_users(s, q).len())
    &&& exists|listed: Seq<User>|
        #[trigger] is_sorting(found_users(s, q), listed, newest_user_first()) && listing.users@
            == page(listed, limit, offset).map_values(summary_of())
}

/// Handles the request of an administrator to list the identities whose
/// name contains the text searched for.
pub fn list_users_handler(
    pool: &Store,
    username: Option<String>,
    limit: Option<i64>,
    offset: Option<i64>,
    q: Option<String>,
) -> (res: AppResult<UserListing>)
    ensures
        match admin_only(*pool, acting(username)) {
            Some(r) => rejected_as(res, r),
            None => res matches Ok(listing) && is_user_listing(
                *pool,
                query_text(q),
                limit_or_default(limit),
                offset_or_zero(offset),
                listing,
            ),
        },
{
    let user = acting_username(username);
    match check_admin(pool, user.as_str()) {
        Err(e) => {
            return Err(e);
        },
        Ok(_) => {},
    }
    let pattern = search_pattern(&q);
    let rows = select_where(
        &pool.users,
        &Both(Except(UserIs(SYSTEM_USER)), UserMatches(&pattern)),
    );
    let total = to_counter(rows.len());
    let listed = sort_by(rows, &NewestUserFirst);
    let ghost listed_rows = listed@;
    let shown = take_page(listed, page_limit(limit), page_offset(offset));
    let mut users: Vec<UserSummary> = Vec::new();
    let mut i: usize = 0;
    while i < shown.len()
        invariant
            i <= shown@.len(),
            users@ == shown@.take(i as int).map_values(summary_of()),
        decreases shown@.len() - i,
    {
        users.push(
            UserSummary {
                username: shown[i].username.clone(),
                is_admin: shown[i].is_admin,
                created_at: shown[i].created_at.clone(),
            },
        );
        proof {
            assert(users@ =~= shown@.take(i + 1).map_values(summary_of()));
        }
        i += 1;
    }
    proof {
        assert(shown@.take(shown@.len() as int) =~= shown@);
        assert(is_sorting(found_users(*pool, query_text(q)), listed_rows, newest_user_first()));
    }
    Ok(UserListing { users, total })
}

} // verus!
