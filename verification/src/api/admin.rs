//! What only a site administrator may do: look over all communities and
//! bans, ban an identity from the site, and lift such a ban.
use vstd::prelude::*;
use crate::api::unified_messages::acting;
use crate::api::{limit_or_default, offset_or_zero, page_limit, page_offset, Handled};
use crate::database::counters::{clip, to_counter};
use crate::database::listing::{
    latest_ban_first, newest_server_first, LatestBanFirst, NewestServerFirst,
};
use crate::database::order::{is_sorting, page, select_where, sort_by, take_page};
use crate::database::query::{
    both, id_is, live, server_is, server_matches, user_is, user_matches, Both, HasId, HasUser,
    Live, ServerIs, ServerMatches, UserIs, UserMatches,
};
use crate::database::table::{any, delete_where, without};
use crate::database::{SiteBan, Store};
use crate::models::server::Server;
use crate::services::user_moderation::{site_ban_rejection, site_ban_user, site_banned};
use crate::text::{containing, pattern_containing, str_eq};
use crate::utils::error::{rejected_as, rejection, AppError, AppResult, ErrorKind, Rejection};
use crate::utils::helpers::acting_username;
use crate::websocket::events::ServerMessage;

verus! {

/// What an administrator sees of a community.
#[derive(Debug, Clone, PartialEq, Eq)]
pub struct ServerSummary {
    pub name: String,
    pub creator_username: String,
    pub created_at: String,
    pub member_count: i64,
    pub channel_count: i64,
}

/// A page of communities and the number of all that the search finds.
#[derive(Debug, Clone, PartialEq, Eq)]
pub struct ServerListing {
    pub servers: Vec<ServerSummary>,
    pub total: i64,
}

/// A page of site bans and the number of all that the search finds.
#[derive(Debug, Clone, PartialEq, Eq)]
pub struct BanListing {
    pub banned_users: Vec<SiteBan>,
    pub total: i64,
}

/// Why `user` may not do what only a site administrator may, if they may
/// not.
pub open spec fn admin_only(s: Store, user: Seq<char>) -> Option<Rejection> {
    if s.site_admin(user) {
        None
    } else {
        Some(rejection(ErrorKind::Unauthorized, "Site admin privileges required"))
    }
}

/// Checks that `username` is a site administrator.
pub fn check_admin(pool: &Store, username: &str) -> (res: AppResult<()>)
    ensures
        crate::utils::validation::decided(res, admin_only(*pool, username@)),
{
    if !pool.is_site_admin(username) {
        return Err(AppError::Unauthorized("Site admin privileges required".to_string()));
    }
    Ok(())
}

/// The text that a search looks for: the one given, or nothing in
/// particular.
pub open spec fn query_text(q: Option<String>) -> Seq<char> {
    match q {
        Some(t) => t@,
        None => Seq::empty(),
    }
}

/// The pattern of a search.
pub fn search_pattern(q: &Option<String>) -> (r: Vec<char>)
    ensures
        r@ == containing(query_text(*q)),
{
    proof {
        reveal_strlit("");
    }
    match q {
        Some(t) => pattern_containing(t.as_str()),
        None => {
            assert(""@ =~= Seq::<char>::empty());
            pattern_containing("")
        },
    }
}

/// The number of different identities that the rows name.
pub open spec fn distinct_users<T: HasUser>(rows: Seq<T>) -> nat
    decreases rows.len(),
{
    if rows.len() == 0 {
        0
    } else {
        distinct_users(rows.drop_last()) + if any(
            rows.drop_last(),
            user_is(rows.last().user()),
        ) {
            0nat
        } else {
            1nat
        }
    }
}

/// The number of different identifiers that the rows have.
pub open spec fn distinct_ids<T: HasId>(rows: Seq<T>) -> nat
    decreases rows.len(),
{
    if rows.len() == 0 {
        0
    } else {
        distinct_ids(rows.drop_last()) + if any(rows.drop_last(), id_is(rows.last().ident())) {
            0nat
        } else {
            1nat
        }
    }
}

/// The number of different identities that the rows name.
pub fn count_distinct_users<T: HasUser>(rows: &Vec<T>) -> (n: usize)
    ensures
        n == distinct_users(rows@),
{
    let mut n: usize = 0;
    let mut i: usize = 0;
    while i < rows.len()
        invariant
            i <= rows@.len(),
            n <= i,
            n == distinct_users(rows@.take(i as int)),
        decreases rows@.len() - i,
    {
        let mut seen = false;
        let mut j: usize = 0;
        while j < i
            invariant
                j <= i,
                i < rows@.len(),
                seen == any(rows@.take(j as int), user_is(rows@[i as int].user())),
            decreases i - j,
        {
            if str_eq(rows[j].user_str(), rows[i].user_str()) {
                seen = true;
            }
            proof {
                let p = user_is::<T>(rows@[i as int].user());
                let shorter = rows@.take(j as int);
                let longer = rows@.take(j + 1);
                assert(longer[j as int] == rows@[j as int]);
                if any(shorter, p) {
                    let w = choose|w: int| 0 <= w < shorter.len() && p(#[trigger] shorter[w]);
                    assert(p(longer[w]));
                }
                if any(longer, p) && !p(rows@[j as int]) {
                    let w = choose|w: int| 0 <= w < longer.len() && p(#[trigger] longer[w]);
                    assert(p(shorter[w]));
                }
            }
            j += 1;
        }
        proof {
            assert(rows@.take(i + 1).drop_last() =~= rows@.take(i as int));
        }
        if !seen {
            n += 1;
        }
        i += 1;
    }
    proof {
        assert(rows@.take(rows@.len() as int) =~= rows@);
    }
    n
}

/// The number of different identifiers that the rows have.
pub fn count_distinct_ids<T: HasId>(rows: &Vec<T>) -> (n: usize)
    ensures
        n == distinct_ids(rows@),
{
    let mut n: usize = 0;
    let mut i: usize = 0;
    while i < rows.len()
        invariant
            i <= rows@.len(),
            n <= i,
            n == distinct_ids(rows@.take(i as int)),
        decreases rows@.len() - i,
    {
        let mut seen = false;
        let mut j: usize = 0;
        while j < i
            invariant
                j <= i,
                i < rows@.len(),
                seen == any(rows@.take(j as int), id_is(rows@[i as int].ident())),
            decreases i - j,
        {
            if str_eq(rows[j].id_str(), rows[i].id_str()) {
                seen = true;
            }
            proof {
                let p = id_is::<T>(rows@[i as int].ident());
                let shorter = rows@.take(j as int);
                let longer = rows@.take(j + 1);
                assert(longer[j as int] == rows@[j as int]);
                if any(shorter, p) {
                    let w = choose|w: int| 0 <= w < shorter.len() && p(#[trigger] shorter[w]);
                    assert(p(longer[w]));
                }
                if any(longer, p) && !p(rows@[j as int]) {
                    let w = choose|w: int| 0 <= w < longer.len() && p(#[trigger] longer[w]);
                    assert(p(shorter[w]));
                }
            }
            j += 1;
        }
        proof {
            assert(rows@.take(i + 1).drop_last() =~= rows@.take(i as int));
        }
        if !seen {
            n += 1;
        }
        i += 1;
    }
    proof {
        assert(rows@.take(rows@.len() as int) =~= rows@);
    }
    n
}

/// What an administrator sees of the community `row`: its name, creator
/// and creation time, the number of different members it has and the
/// number of different live channels.
pub open spec fn summary_of(s: Store) -> spec_fn(Server) -> ServerSummary {
    |row: Server|
        ServerSummary {
            name: row.name,
            creator_username: row.creator_username,
            created_at: row.created_at,
            member_count: clip(distinct_users(s.server_members@.filter(server_is(row.name@)))),
            channel_count: clip(distinct_ids(s.channels@.filter(both(server_is(row.name@), live())))),
        }
}

/// The live communities that a search finds, in table order.
pub open spec fn found_servers(s: Store, q: Seq<char>) -> Seq<Server> {
    s.servers@.filter(both(live(), server_matches(containing(q))))
}

/// What the listing of all communities shows: a page of the communities
/// that the search finds, created last first, each summed up, and the
/// number of all that it finds.
pub open spec fn is_server_listing(
    s: Store,
    q: Seq<char>,
    limit: i64,
    offset: i64,
    listing: ServerListing,
) -> bool {
    &&& listing.total == clip(found_servers(s, q).len())
    &&& exists|listed: Seq<Server>|
        #[trigger] is_sorting(found_servers(s, q), listed, newest_server_first())
            && listing.servers@ == page(listed, limit, offset).map_values(summary_of(s))
}

/// Handles the request of an administrator to list all communities whose
/// name contains the text searched for.
pub fn list_all_servers(
    pool: &Store,
    username: Option<String>,
    limit: Option<i64>,
    offset: Option<i64>,
    q: Option<String>,
) -> (res: AppResult<ServerListing>)
    ensures
        match admin_only(*pool, acting(username)) {
            Some(r) => rejected_as(res, r),
            None => res matches Ok(listing) && is_server_listing(
                *pool,
                query_text(q),
                limit_or_default(limit),
                offset_or_zero(offset),
                listing,
            ),
        },
{
    let user = acting_username(username);
    match check_admin(pool, user.as_str()) {
        Err(e) => {
            return Err(e);
        },
        Ok(_) => {},
    }
    let pattern = search_pattern(&q);
    let rows = select_where(&pool.servers, &Both(Live, ServerMatches(&pattern)));
    let total = to_counter(rows.len());
    let listed = sort_by(rows, &NewestServerFirst);
    let ghost listed_rows = listed@;
    let lim = page_limit(limit);
    let off = page_offset(offset);
    let shown = take_page(listed, lim, off);
    let mut servers: Vec<ServerSummary> = Vec::new();
    let mut i: usize = 0;
    while i < shown.len()
        invariant
            i <= shown@.len(),
            servers@ == shown@.take(i as int).map_values(summary_of(*pool)),
        decreases shown@.len() - i,
    {
        let row = &shown[i];
        let members = select_where(&pool.server_members, &ServerIs(row.name.as_str()));
        let channels = select_where(&pool.channels, &Both(ServerIs(row.name.as_str()), Live));
        servers.push(
            ServerSummary {
                name: row.name.clone(),
                creator_username: row.creator_username.clone(),
                created_at: row.created_at.clone(),
                member_count: to_counter(count_distinct_users(&members)),
                channel_count: to_counter(count_distinct_ids(&channels)),
            },
        );
        proof {
            assert(servers@ =~= shown@.take(i + 1).map_values(summary_of(*pool)));
        }
        i += 1;
    }
    proof {
        assert(shown@.take(shown@.len() as int) =~= shown@);
        assert(is_sorting(
            found_servers(*pool, query_text(q)),
            listed_rows,
            newest_server_first(),
        ));
    }
    Ok(ServerListing { servers, total })
}

/// The site bans that a search finds, in table order.
pub open spec fn found_bans(s: Store, q: Seq<char>) -> Seq<SiteBan> {
    s.banned_usernames@.filter(user_matches(containing(q)))
}

/// What the listing of site bans shows: a page of the bans that the search
/// finds, latest first, and the number of all that it finds.
pub open spec fn is_ban_listing(
    s: Store,
    q: Seq<char>,
    limit: i64,
    offset: i64,
    listing: BanListing,
) -> bool {
    &&& listing.total == clip(found_bans(s, q).len())
    &&& exists|listed: Seq<SiteBan>|
        #[trigger] is_sorting(found_bans(s, q), listed, latest_ban_first())
            && listing.banned_users@ == page(listed, limit, offset)
}

/// Handles the request of an administrator to list the site bans of the
/// names that contain the text searched for.
pub fn get_banned_users(
    pool: &Store,
    username: Option<String>,
    limit: Option<i64>,
    offset: Option<i64>,
    q: Option<String>,
) -> (res: AppResult<BanListing>)
    ensures
        match admin_only(*pool, acting(username)) {
            Some(r) => rejected_as(res, r),
            None => res matches Ok(listing) && is_ban_listing(
                *pool,
                query_text(q),
                limit_or_default(limit),
                offset_or_zero(offset),
                listing,
            ),
        },
{
    let user = acting_username(username);
    match check_admin(pool, user.as_str()) {
        Err(e) => {
            return Err(e);
        },
        Ok(_) => {},
    }
    let pattern = search_pattern(&q);
    let rows = select_where(&pool.banned_usernames, &UserMatches(&pattern));
    let total = to_counter(rows.len());
    let listed = sort_by(rows, &LatestBanFirst);
    let ghost listed_rows = listed@;
    let banned_users = take_page(listed, page_limit(limit), page_offset(offset));
    proof {
        assert(is_sorting(found_bans(*pool, query_text(q)), listed_rows, latest_ban_first()));
    }
    Ok(BanListing { banned_users, total })
}

/// Handles the request of an administrator to lift the site ban of exactly
/// the name `username`: the entries of that name leave the ban log and
/// nothing else changes. Nothing is published.
pub fn unban_user_handler(pool: &mut Store, requester: Option<String>, username: &str) -> (res:
    AppResult<()>)
    ensures
        match admin_only(*old(pool), acting(requester)) {
            Some(r) => rejected_as(res, r) && *final(pool) == *old(pool),
            None => {
                &&& res is Ok
                &&& final(pool).banned_usernames@ == without(
                    old(pool).banned_usernames@,
                    user_is(username@),
                )
                &&& *final(pool) == (Store {
                    banned_usernames: final(pool).banned_usernames,
                    ..*old(pool)
                })
            },
        },
{
    let requester_username = acting_username(requester);
    match check_admin(pool, requester_username.as_str()) {
        Err(e) => {
            return Err(e);
        },
        Ok(_) => {},
    }
    delete_where(&mut pool.banned_usernames, &UserIs(username));
    Ok(())
}

/// What the request to ban an identity from the site does: the identity
/// is banned on behalf of the acting identity. A refusal is the answer and
/// nothing is published. Otherwise exactly one event tells of the ban,
/// after everything that the identity left behind is gone.
pub open spec fn ban_handled(
    pre: Store,
    post: Store,
    requester: Seq<char>,
    target: Seq<char>,
    h: Handled<()>,
) -> bool {
    match site_ban_rejection(pre, target, requester) {
        Some(r) => rejected_as(h.result, r) && post == pre && h.events@.len() == 0,
        None => {
            &&& h.result is Ok
            &&& site_banned(pre, post, target, requester)
            &&& h.events@.len() == 1
            &&& h.events@[0] matches ServerMessage::UserBanned { username } && username@ == target
        },
    }
}

/// Handles the request to ban an identity from the site.
pub fn ban_user_handler(pool: &mut Store, requester: Option<String>, username: String) -> (h:
    Handled<()>)
    ensures
        ban_handled(*old(pool), *final(pool), acting(requester), username@, h),
{
    let requester_username = acting_username(requester);
    match site_ban_user(pool, username.as_str(), requester_username.as_str()) {
        Ok(_) => {},
        Err(e) => {
            return Handled { events: Vec::new(), result: Err(e) };
        },
    }
    let mut events: Vec<ServerMessage> = Vec::new();
    events.push(ServerMessage::UserBanned { username });
    Handled { events, result: Ok(()) }
}

} // verus!
