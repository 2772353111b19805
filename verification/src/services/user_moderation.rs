//! Bans: from the whole site, with the purge of everything the banned
//! identity left behind, and from a single community.
use vstd::prelude::*;
use crate::database::counters::{recount_all, with_all_counts};
use crate::database::query::{user_like, UserLike};
use crate::database::table::{any, delete_where, exists_where, first, position_where, without, Matcher};
use crate::database::{ServerBan, SiteBan, Store};
use crate::database::query::{server_is, ServerIs};
use crate::models::direct_message::DirectMessage;
use crate::models::user::opt_text;
use crate::services::server::{
    admin_rejection, drop_member, member_removed, require_server_admin, DEFAULT_SERVER,
};
use crate::text::{eq_ignore_case, same_name, str_eq};
use crate::utils::clock::now_rfc3339;
use crate::utils::error::{rejected_as, rejection, AppError, AppResult, ErrorKind, Rejection};

verus! {

/// The reason recorded with every site ban.
pub const SITE_BAN_REASON: &'static str = "Site ban";

/// Selects the conversations in which an identity takes part, whatever the
/// case of the letters of its name.
pub struct Involving<'a>(pub &'a str);

/// Conversations in which the identity `name` takes part.
pub open spec fn involving(name: Seq<char>) -> spec_fn(DirectMessage) -> bool {
    |d: DirectMessage| same_name(d.username1@, name) || same_name(d.username2@, name)
}

impl<'a> Matcher<DirectMessage> for Involving<'a> {
    open spec fn pred(&self) -> spec_fn(DirectMessage) -> bool {
        involving(self.0@)
    }

    fn test(&self, row: &DirectMessage) -> (r: bool) {
        eq_ignore_case(row.username1.as_str(), self.0) || eq_ignore_case(
            row.username2.as_str(),
            self.0,
        )
    }
}

/// Whether the identity named `user`, whatever the case of its letters, has
/// a row with a non-zero administrator flag.
pub open spec fn may_site_ban(s: Store, user: Seq<char>) -> bool {
    match first(s.users@, user_like(user)) {
        Some(u) => u.is_admin != 0,
        None => false,
    }
}

/// Why `target` cannot be banned from the site by `requester`, if it
/// cannot: the requester is no site administrator; the target has no
/// identity row; or the target is the requester.
pub open spec fn site_ban_rejection(s: Store, target: Seq<char>, requester: Seq<char>) -> Option<
    Rejection,
> {
    if !may_site_ban(s, requester) {
        Some(rejection(ErrorKind::Forbidden, "Only site admins can site-ban users"))
    } else if !any(s.users@, user_like(target)) {
        Some(rejection(ErrorKind::NotFound, "User not found"))
    } else if same_name(target, requester) {
        Some(rejection(ErrorKind::BadRequest, "Cannot ban yourself"))
    } else {
        None
    }
}

/// What a site ban does. The ban is the new last entry of the ban log. Gone
/// are, each selected by the banned name whatever the case of its letters:
/// the messages it sent, its memberships, the conversations it took part
/// in, the files it uploaded, and its identity row. The counters of every
/// community are recomputed. Nothing else changes.
pub open spec fn site_banned(pre: Store, post: Store, target: Seq<char>, requester: Seq<char>) -> bool {
    let entry = post.banned_usernames@.last();
    &&& post.banned_usernames@.len() == pre.banned_usernames@.len() + 1
    &&& post.banned_usernames@.drop_last() =~= pre.banned_usernames@
    &&& entry.username@ == target
    &&& entry.banned_by@ == requester
    &&& entry.reason@ == SITE_BAN_REASON@
    &&& post.messages@ == without(pre.messages@, user_like(target))
    &&& post.server_members@ == without(pre.server_members@, user_like(target))
    &&& post.direct_messages@ == without(pre.direct_messages@, involving(target))
    &&& post.files@ == without(pre.files@, user_like(target))
    &&& post.users@ == without(pre.users@, user_like(target))
    &&& post.servers@ == with_all_counts(Store { server_members: post.server_members, ..pre })
    &&& post == (Store {
        banned_usernames: post.banned_usernames,
        messages: post.messages,
        server_members: post.server_members,
        direct_messages: post.direct_messages,
        files: post.files,
        users: post.users,
        servers: post.servers,
        ..pre
    })
}

/// Bans an identity from the site and purges what it left behind.
///
/// Only a site administrator may, and not themselves. The steps run in a
/// fixed order: log the ban, then delete the target's messages,
/// memberships, conversations, files and identity row.
pub fn site_ban_user(pool: &mut Store, target_username: &str, requester_username: &str) -> (res:
    AppResult<()>)
    ensures
        match site_ban_rejection(*old(pool), target_username@, requester_username@) {
            Some(r) => rejected_as(res, r) && *final(pool) == *old(pool),
            None => res is Ok && site_banned(
                *old(pool),
                *final(pool),
                target_username@,
                requester_username@,
            ),
        },
{
    let requester_is_admin = match position_where(&pool.users, &UserLike(requester_username)) {
        Some(i) => pool.users[i].is_admin,
        None => 0,
    };
    if requester_is_admin == 0 {
        return Err(AppError::Forbidden("Only site admins can site-ban users".to_string()));
    }
    if !exists_where(&pool.users, &UserLike(target_username)) {
        return Err(AppError::NotFound("User not found".to_string()));
    }
    if eq_ignore_case(target_username, requester_username) {
        return Err(AppError::BadRequest("Cannot ban yourself".to_string()));
    }
    pool.banned_usernames.push(
        SiteBan {
            username: target_username.to_string(),
            banned_by: requester_username.to_string(),
            reason: SITE_BAN_REASON.to_string(),
            banned_at: now_rfc3339(),
        },
    );
    delete_where(&mut pool.messages, &UserLike(target_username));
    delete_where(&mut pool.server_members, &UserLike(target_username));
    delete_where(&mut pool.direct_messages, &Involving(target_username));
    delete_where(&mut pool.files, &UserLike(target_username));
    delete_where(&mut pool.users, &UserLike(target_username));
    recount_all(pool);
    Ok(())
}

/// Why `target` cannot be banned from the community `server` by
/// `requester`, if it cannot: the community is the default one; it does not
/// exist; the target is its creator; the requester is no administrator; or
/// the target is banned already.
pub open spec fn server_ban_rejection(
    s: Store,
    server: Seq<char>,
    target: Seq<char>,
    requester: Seq<char>,
) -> Option<Rejection> {
    if server == DEFAULT_SERVER@ {
        Some(rejection(ErrorKind::BadRequest, "Cannot ban users from RChat server"))
    } else {
        match first(s.servers@, server_is(server)) {
            None => Some(rejection(ErrorKind::NotFound, "Server not found")),
            Some(row) => if row.creator_username@ == target {
                Some(rejection(ErrorKind::BadRequest, "Cannot ban server owner"))
            } else if admin_rejection(s, server, requester, "Server admin privileges required"@)
                is Some {
                admin_rejection(s, server, requester, "Server admin privileges required"@)
            } else if s.server_banned(server, target) {
                Some(rejection(ErrorKind::Conflict, "User is already banned"))
            } else {
                None
            },
        }
    }
}

/// What a community ban does: the ban is the new last row of the bans; the
/// target's membership in that community, and no other, is removed and the
/// community's counters are recomputed; nothing else changes.
pub open spec fn server_banned(
    pre: Store,
    post: Store,
    server: Seq<char>,
    target: Seq<char>,
    requester: Seq<char>,
    reason: Option<Seq<char>>,
) -> bool {
    let ban = post.server_bans@.last();
    &&& post.server_bans@.len() == pre.server_bans@.len() + 1
    &&& post.server_bans@.drop_last() =~= pre.server_bans@
    &&& ban.server_name@ == server
    &&& ban.username@ == target
    &&& ban.banned_by@ == requester
    &&& opt_text(ban.reason) == reason
    &&& member_removed(Store { server_bans: post.server_bans, ..pre }, post, server, target)
}

/// Bans an identity from a community and removes its membership there.
///
/// Only a site administrator or an administrator of the community may.
/// Nobody can be banned from the default community, the creator of a
/// community cannot be banned from it, and nobody can be banned twice.
pub fn server_ban_user(
    pool: &mut Store,
    server_name: &str,
    target_username: &str,
    requester_username: &str,
    reason: Option<String>,
) -> (res: AppResult<()>)
    ensures
        match server_ban_rejection(
            *old(pool),
            server_name@,
            target_username@,
            requester_username@,
        ) {
            Some(r) => rejected_as(res, r) && *final(pool) == *old(pool),
            None => res is Ok && server_banned(
                *old(pool),
                *final(pool),
                server_name@,
                target_username@,
                requester_username@,
                opt_text(reason),
            ),
        },
{
    if str_eq(server_name, DEFAULT_SERVER) {
        return Err(AppError::BadRequest("Cannot ban users from RChat server".to_string()));
    }
    let idx = match position_where(&pool.servers, &ServerIs(server_name)) {
        Some(i) => i,
        None => {
            return Err(AppError::NotFound("Server not found".to_string()));
        },
    };
    if str_eq(pool.servers[idx].creator_username.as_str(), target_username) {
        return Err(AppError::BadRequest("Cannot ban server owner".to_string()));
    }
    match require_server_admin(
        pool,
        server_name,
        requester_username,
        "Server admin privileges required",
    ) {
        Err(e) => {
            return Err(e);
        },
        Ok(_) => {},
    }
    if pool.is_server_banned(server_name, target_username) {
        return Err(AppError::Conflict("User is already banned".to_string()));
    }
    pool.server_bans.push(
        ServerBan {
            server_name: server_name.to_string(),
            username: target_username.to_string(),
            banned_by: requester_username.to_string(),
            reason,
            banned_at: now_rfc3339(),
        },
    );
    drop_member(pool, server_name, target_username);
    Ok(())
}

/// An identity on the ban list of a community is refused when it tries to
/// join that community under any spelling of the community's name,
/// whatever else has happened since the ban.
pub proof fn lemma_ban_blocks_join(s: Store, name: Seq<char>, user: Seq<char>)
    requires
        first(s.servers@, crate::database::query::server_like(name)) matches Some(row)
            && s.server_banned(row.name@, user),
    ensures
        crate::services::server::join_rejection(s, name, user) == Some(
            rejection(ErrorKind::Forbidden, "You are banned from this server"),
        ),
{
}

/// After a community ban, the banned identity is on the ban list of the
/// community and is no member of it.
pub proof fn lemma_server_ban_holds(
    pre: Store,
    post: Store,
    server: Seq<char>,
    target: Seq<char>,
    requester: Seq<char>,
    reason: Option<Seq<char>>,
)
    requires
        server_banned(pre, post, server, target, requester, reason),
    ensures
        post.server_banned(server, target),
        !post.member(server, target),
{
    let n = post.server_bans@.len() - 1;
    assert(crate::database::query::both(server_is(server), crate::database::query::user_is(target))(
        post.server_bans@[n],
    ));
    crate::database::table::lemma_without(
        pre.server_members@,
        crate::database::query::both(server_is(server), crate::database::query::user_is(target)),
    );
}

/// Once banned from a community, an identity cannot join it: the join that
/// follows the ban is refused.
pub proof fn lemma_banned_cannot_join(
    pre: Store,
    post: Store,
    server: Seq<char>,
    target: Seq<char>,
    requester: Seq<char>,
    reason: Option<Seq<char>>,
    name: Seq<char>,
)
    requires
        server_banned(pre, post, server, target, requester, reason),
        first(post.servers@, crate::database::query::server_like(name)) matches Some(row)
            && row.name@ == server,
    ensures
        crate::services::server::join_rejection(post, name, target) == Some(
            rejection(ErrorKind::Forbidden, "You are banned from this server"),
        ),
{
    lemma_server_ban_holds(pre, post, server, target, requester, reason);
}

/// After a site ban nothing is left of the banned identity: no message that
/// it sent, no membership, no conversation, no file, no identity row,
/// under any spelling of its name.
pub proof fn lemma_site_ban_purges(
    pre: Store,
    post: Store,
    target: Seq<char>,
    requester: Seq<char>,
    spelling: Seq<char>,
)
    requires
        site_banned(pre, post, target, requester),
        same_name(spelling, target),
    ensures
        !any(post.messages@, user_like(spelling)),
        !any(post.server_members@, user_like(spelling)),
        !any(post.direct_messages@, involving(spelling)),
        !any(post.files@, user_like(spelling)),
        !any(post.users@, user_like(spelling)),
        post.site_banned(spelling),
{
    crate::database::table::lemma_without(pre.messages@, user_like(target));
    crate::database::table::lemma_without(pre.server_members@, user_like(target));
    crate::database::table::lemma_without(pre.direct_messages@, involving(target));
    crate::database::table::lemma_without(pre.files@, user_like(target));
    crate::database::table::lemma_without(pre.users@, user_like(target));
    assert forall|i: int| 0 <= i < post.messages@.len() implies !user_like(spelling)(
        #[trigger] post.messages@[i],
    ) by {
        assert(!user_like(target)(post.messages@[i]));
    }
    assert forall|i: int| 0 <= i < post.server_members@.len() implies !user_like(spelling)(
        #[trigger] post.server_members@[i],
    ) by {
        assert(!user_like(target)(post.server_members@[i]));
    }
    assert forall|i: int| 0 <= i < post.direct_messages@.len() implies !involving(spelling)(
        #[trigger] post.direct_messages@[i],
    ) by {
        assert(!involving(target)(post.direct_messages@[i]));
    }
    assert forall|i: int| 0 <= i < post.files@.len() implies !user_like(spelling)(
        #[trigger] post.files@[i],
    ) by {
        assert(!user_like(target)(post.files@[i]));
    }
    assert forall|i: int| 0 <= i < post.users@.len() implies !user_like(spelling)(
        #[trigger] post.users@[i],
    ) by {
        assert(!user_like(target)(post.users@[i]));
    }
    let n = post.banned_usernames@.len() - 1;
    assert(user_like(spelling)(post.banned_usernames@[n]));
}

/// After a site ban, no identity can register under the banned name, in
/// any spelling: the registration is refused.
pub proof fn lemma_banned_name_cannot_register(
    pre: Store,
    post: Store,
    target: Seq<char>,
    requester: Seq<char>,
    req: crate::models::user::CreateUserRequest,
)
    requires
        site_banned(pre, post, target, requester),
        same_name(req.username@, target),
    ensures
        crate::services::auth::registration_rejection(post, req) is Some,
        crate::services::auth::new_username_rejection(post, req.username@) is Some,
{
    lemma_site_ban_purges(pre, post, target, requester, req.username@);
}

/// Nobody is banned from the default community, and the creator of a
/// community is never banned from it, whoever asks.
pub proof fn lemma_who_cannot_be_banned(
    s: Store,
    server: Seq<char>,
    target: Seq<char>,
    requester: Seq<char>,
)
    requires
        server == DEFAULT_SERVER@ || (first(s.servers@, server_is(server)) matches Some(row)
            && row.creator_username@ == target),
    ensures
        server_ban_rejection(s, server, target, requester) is Some,
{
}

} // verus!
