//! Communities and their memberships: creating, joining, leaving, roles,
//! ownership, and the recomputation of the cached counters.
use vstd::prelude::*;
use crate::database::counters::{recount_all, recount_server, with_all_counts, with_counts_of};
use crate::database::query::{
    both, id_is, server_is, server_like, user_is, Both, IdIs, ServerIs, ServerLike, UserIs,
};
use crate::database::table::{
    any, delete_where, exists_where, first, position_where, rewrite_where, rewritten,
    update_where, updated, without, Matcher, Patch, Rewrite,
};
use crate::database::Store;
use crate::models::channel::Channel;
use crate::models::message::Message;
use crate::models::server::Server;
use crate::models::server_member::{role_text, ServerMember, ServerRole};
use crate::services::channel::add_channel;
use crate::text::{lemma_same_name_reflexive, str_eq};
use crate::utils::error::{rejected_as, rejection, AppError, AppResult, ErrorKind, Rejection};
use crate::utils::validation::{name_rejection, validate_server_name, NameKind};

verus! {

/// The community that every identity belongs to and nobody can leave.
pub const DEFAULT_SERVER: &'static str = "RChat";

/// The name of the channel that every community starts with.
pub const DEFAULT_CHANNEL: &'static str = "general";

/// The largest online flag among the memberships of `user`; `None` if `user`
/// has no membership.
pub open spec fn max_online(members: Seq<ServerMember>, user: Seq<char>) -> Option<i64>
    decreases members.len(),
{
    if members.len() == 0 {
        None
    } else {
        let rest = max_online(members.drop_last(), user);
        let m = members.last();
        if m.username@ != user {
            rest
        } else {
            match rest {
                Some(best) => if m.is_online > best {
                    Some(m.is_online)
                } else {
                    rest
                },
                None => Some(m.is_online),
            }
        }
    }
}

/// The online flag that a new membership of `user` starts with: that of the
/// identity's other memberships, offline if there are none.
pub open spec fn inherited_online(members: Seq<ServerMember>, user: Seq<char>) -> i64 {
    match max_online(members, user) {
        Some(flag) => flag,
        None => 0,
    }
}

/// The online flag that a new membership of `user` starts with.
pub fn online_flag_for(members: &Vec<ServerMember>, user: &str) -> (flag: i64)
    ensures
        flag == inherited_online(members@, user@),
{
    let mut best: Option<i64> = None;
    let mut i: usize = 0;
    while i < members.len()
        invariant
            i <= members@.len(),
            best == max_online(members@.take(i as int), user@),
        decreases members@.len() - i,
    {
        proof {
            assert(members@.take(i + 1).drop_last() =~= members@.take(i as int));
        }
        if str_eq(members[i].username.as_str(), user) {
            best = match best {
                Some(m) => if members[i].is_online > m {
                    Some(members[i].is_online)
                } else {
                    best
                },
                None => Some(members[i].is_online),
            };
        }
        i += 1;
    }
    proof {
        assert(members@.take(members@.len() as int) =~= members@);
    }
    match best {
        Some(flag) => flag,
        None => 0,
    }
}

/// What adding a membership does: the new membership of `user` in `server`
/// with the given role, at position zero and with the online flag of the
/// identity's other memberships, is the new last row of the memberships; the
/// counters of the community are recomputed; nothing else changes.
pub open spec fn member_added(
    pre: Store,
    post: Store,
    server: Seq<char>,
    user: Seq<char>,
    role: ServerRole,
) -> bool {
    let m = post.server_members@.last();
    &&& post.server_members@.len() == pre.server_members@.len() + 1
    &&& post.server_members@.drop_last() =~= pre.server_members@
    &&& m.server_name@ == server
    &&& m.username@ == user
    &&& m.role@ == role_text(role)
    &&& m.is_online == inherited_online(pre.server_members@, user)
    &&& m.position == 0
    &&& m.profile_type is None
    &&& m.avatar_color is None
    &&& m.joined_at == m.last_seen
    &&& post.servers@ == with_counts_of(Store { server_members: post.server_members, ..pre }, server)
    &&& post == (Store { server_members: post.server_members, servers: post.servers, ..pre })
}

/// Adds a membership of `user` in the community `server` with the given
/// role, without checking anything.
pub fn add_member(pool: &mut Store, server: String, user: String, role: ServerRole)
    ensures
        member_added(*old(pool), *final(pool), server@, user@, role),
{
    let flag = online_flag_for(&pool.server_members, user.as_str());
    let mut member = ServerMember::new(server, user, role);
    member.is_online = flag;
    let name = member.server_name.clone();
    pool.server_members.push(member);
    recount_server(pool, name.as_str());
}

/// Why a community named `name` cannot be created, if it cannot: the name
/// breaks the rules for community names, or a community with that name,
/// whatever the case of its letters, exists.
pub open spec fn create_server_rejection(s: Store, name: Seq<char>) -> Option<Rejection> {
    if name_rejection(NameKind::Server, name) is Some {
        name_rejection(NameKind::Server, name)
    } else if any(s.servers@, server_like(name)) {
        Some(rejection(ErrorKind::Conflict, "Server name already exists"))
    } else {
        None
    }
}

/// What creating a community does. A refused request changes nothing. An
/// accepted one appends the community, the creator's membership with the
/// role "admin", and a first channel named "general"; the counters of the
/// new community count that membership and that channel; nothing else
/// changes. The returned row is the community as it was made, before
/// anything was counted.
pub open spec fn server_created(
    pre: Store,
    post: Store,
    name: Seq<char>,
    creator: Seq<char>,
    res: AppResult<Server>,
) -> bool {
    match create_server_rejection(pre, name) {
        Some(r) => rejected_as(res, r) && post == pre,
        None => {
            let row = post.servers@.last();
            let m = post.server_members@.last();
            let c = post.channels@.last();
            &&& post.servers@.len() == pre.servers@.len() + 1
            &&& post.servers@.drop_last() =~= pre.servers@
            &&& row.name@ == name
            &&& row.creator_username@ == creator
            &&& row.is_active == 1
            &&& crate::database::counters::counts_agree(row, post.server_members@, post.channels@)
            &&& post.server_members@.len() == pre.server_members@.len() + 1
            &&& post.server_members@.drop_last() =~= pre.server_members@
            &&& m.server_name@ == name
            &&& m.username@ == creator
            &&& m.role@ == role_text(ServerRole::Admin)
            &&& m.is_online == inherited_online(pre.server_members@, creator)
            &&& m.position == 0
            &&& post.channels@.len() == pre.channels@.len() + 1
            &&& post.channels@.drop_last() =~= pre.channels@
            &&& c.server_name@ == name
            &&& c.name@ == DEFAULT_CHANNEL@
            &&& c.is_active == 1
            &&& c.position == crate::services::channel::next_position(pre.channels@, name)
            &&& post == (Store {
                servers: post.servers,
                server_members: post.server_members,
                channels: post.channels,
                ..pre
            })
            &&& res matches Ok(made) && made.name@ == name && made.creator_username@ == creator
                && made.is_active == 1 && made.member_count == 0 && made.channel_count == 0
                && made.created_at == row.created_at
        },
    }
}

/// Creates a community with `creator_username` as its creator and first
/// administrator, and with a first channel.
pub fn create_server(pool: &mut Store, name: String, creator_username: String) -> (res: AppResult<
    Server,
>)
    ensures
        server_created(*old(pool), *final(pool), name@, creator_username@, res),
{
    match validate_server_name(name.as_str()) {
        Err(e) => {
            return Err(e);
        },
        Ok(_) => {},
    }
    if exists_where(&pool.servers, &ServerLike(name.as_str())) {
        return Err(AppError::Conflict("Server name already exists".to_string()));
    }
    let ghost pre = *pool;
    let server = Server::new(name, creator_username.clone());
    let mut row = server.duplicate();
    row.member_count = 1;
    pool.servers.push(row);
    let ghost s1 = *pool;
    add_member(pool, server.name.clone(), creator_username, ServerRole::Admin);
    let ghost s2 = *pool;
    add_channel(pool, server.name.clone(), DEFAULT_CHANNEL.to_string());
    proof {
        let n = pre.servers@.len() as int;
        let p = server_is::<Server>(server.name@);
        assert forall|i: int| 0 <= i < n implies !p(#[trigger] pre.servers@[i]) by {
            lemma_same_name_reflexive(server.name@);
            assert(!server_like::<Server>(server.name@)(pre.servers@[i]));
        }
        assert(s1.servers@.len() == n + 1);
        assert forall|i: int| 0 <= i < n implies #[trigger] s2.servers@[i] == pre.servers@[i] by {
            assert(s1.servers@[i] == pre.servers@[i]);
            assert(!p(s1.servers@[i]));
        }
        assert forall|i: int| 0 <= i < n implies #[trigger] pool.servers@[i] == pre.servers@[i] by {
            assert(s2.servers@[i] == pre.servers@[i]);
            assert(!p(s2.servers@[i]));
        }
        assert(p(s1.servers@[n]));
        assert(p(s2.servers@[n]));
        assert(pool.servers@.drop_last() =~= pre.servers@);
    }
    Ok(server)
}

/// Why `user` cannot join the community named `name`, if they cannot: there
/// is no such community, whatever the case of its letters, or `user` is
/// banned from it.
pub open spec fn join_rejection(s: Store, name: Seq<char>, user: Seq<char>) -> Option<Rejection> {
    match first(s.servers@, server_like(name)) {
        None => Some(rejection(ErrorKind::NotFound, "Server not found")),
        Some(server) => if s.server_banned(server.name@, user) {
            Some(rejection(ErrorKind::Forbidden, "You are banned from this server"))
        } else {
            None
        },
    }
}

/// The change that an accepted request to join makes: none if the identity
/// was a member already, else a membership with the role "member" is added.
pub open spec fn joined_state(pre: Store, post: Store, name: Seq<char>, user: Seq<char>) -> bool {
    first(pre.servers@, server_like(name)) matches Some(server) && if pre.member(
        server.name@,
        user,
    ) {
        post == pre
    } else {
        member_added(pre, post, server.name@, user, ServerRole::Member)
    }
}

/// What joining does. A refused request changes nothing. An accepted one
/// returns the community as it was before; if the identity was a member
/// already nothing changes, and else a membership with the role "member" is
/// added.
pub open spec fn joined(
    pre: Store,
    post: Store,
    name: Seq<char>,
    user: Seq<char>,
    res: AppResult<Server>,
) -> bool {
    match join_rejection(pre, name, user) {
        Some(r) => rejected_as(res, r) && post == pre,
        None => {
            &&& first(pre.servers@, server_like(name)) matches Some(server) && res == Ok::<
                Server,
                AppError,
            >(server)
            &&& joined_state(pre, post, name, user)
        },
    }
}

/// Makes `username` a member of the community named `server_name`, unless
/// they are banned from it.
pub fn join_server(pool: &mut Store, server_name: String, username: String) -> (res: AppResult<
    Server,
>)
    ensures
        joined(*old(pool), *final(pool), server_name@, username@, res),
{
    let idx = match position_where(&pool.servers, &ServerLike(server_name.as_str())) {
        Some(i) => i,
        None => {
            return Err(AppError::NotFound("Server not found".to_string()));
        },
    };
    let server = pool.servers[idx].duplicate();
    if pool.is_server_banned(server.name.as_str(), username.as_str()) {
        return Err(AppError::Forbidden("You are banned from this server".to_string()));
    }
    if pool.is_member(server.name.as_str(), username.as_str()) {
        return Ok(server);
    }
    add_member(pool, server.name.clone(), username, ServerRole::Member);
    Ok(server)
}

/// Why `requester` may not act as an administrator of the community
/// `server`, if they may not. A site administrator may; otherwise the
/// requester must be a member, and their role must be "admin". The two
/// failures are told apart by their texts.
pub open spec fn admin_rejection(
    s: Store,
    server: Seq<char>,
    requester: Seq<char>,
    not_admin: Seq<char>,
) -> Option<Rejection> {
    if s.site_admin(requester) {
        None
    } else {
        match s.role_of(server, requester) {
            None => Some(rejection(ErrorKind::Unauthorized, "Not a member of this server")),
            Some(role) => if role != "admin"@ {
                Some(Rejection { kind: ErrorKind::Unauthorized, text: not_admin })
            } else {
                None
            },
        }
    }
}

/// Checks that `requester` may act as an administrator of the community
/// `server`; `not_admin` is the text for a member who is no administrator.
pub fn require_server_admin(pool: &Store, server: &str, requester: &str, not_admin: &str) -> (res:
    AppResult<()>)
    ensures
        crate::utils::validation::decided(
            res,
            admin_rejection(*pool, server@, requester@, not_admin@),
        ),
{
    if pool.is_site_admin(requester) {
        return Ok(());
    }
    match position_where(&pool.server_members, &Both(ServerIs(server), UserIs(requester))) {
        None => Err(AppError::Unauthorized("Not a member of this server".to_string())),
        Some(i) => if !str_eq(pool.server_members[i].role.as_str(), "admin") {
            Err(AppError::Unauthorized(not_admin.to_string()))
        } else {
            Ok(())
        },
    }
}

/// Why `username` cannot be removed from the community `server` by
/// `requester`, if they cannot: the community is the default one; the
/// requester removes someone else without being an administrator; the
/// community does not exist; or `username` is its creator.
pub open spec fn remove_member_rejection(
    s: Store,
    server: Seq<char>,
    username: Seq<char>,
    requester: Seq<char>,
) -> Option<Rejection> {
    if server == DEFAULT_SERVER@ {
        Some(
            rejection(
                ErrorKind::BadRequest,
                "Cannot leave the RChat server - all users must remain in RChat",
            ),
        )
    } else if username != requester && admin_rejection(
        s,
        server,
        requester,
        "Admin privileges required to remove other members"@,
    ) is Some {
        admin_rejection(s, server, requester, "Admin privileges required to remove other members"@)
    } else {
        match first(s.servers@, server_is(server)) {
            None => Some(rejection(ErrorKind::NotFound, "Server not found")),
            Some(row) => if row.creator_username@ == username {
                Some(rejection(ErrorKind::BadRequest, "Cannot remove server creator"))
            } else {
                None
            },
        }
    }
}

/// What removing the memberships of `user` in `server` does: those rows are
/// gone, the counters of the community are recomputed, nothing else changes.
pub open spec fn member_removed(pre: Store, post: Store, server: Seq<char>, user: Seq<char>) -> bool {
    &&& post.server_members@ == without(
        pre.server_members@,
        both(server_is(server), user_is(user)),
    )
    &&& post.servers@ == with_counts_of(Store { server_members: post.server_members, ..pre }, server)
    &&& post == (Store { server_members: post.server_members, servers: post.servers, ..pre })
}

/// Removes the memberships of `user` in `server` and recomputes the
/// community's counters.
pub fn drop_member(pool: &mut Store, server: &str, user: &str)
    ensures
        member_removed(*old(pool), *final(pool), server@, user@),
{
    delete_where(&mut pool.server_members, &Both(ServerIs(server), UserIs(user)));
    recount_server(pool, server);
}

/// Removes a member from a community, on their own behalf or on that of an
/// administrator. Nobody leaves the default community, and the creator of a
/// community cannot be removed.
pub fn remove_member(pool: &mut Store, server_name: &str, username: &str, requester_username: &str) -> (res:
    AppResult<()>)
    ensures
        match remove_member_rejection(
            *old(pool),
            server_name@,
            username@,
            requester_username@,
        ) {
            Some(r) => rejected_as(res, r) && *final(pool) == *old(pool),
            None => res is Ok && member_removed(*old(pool), *final(pool), server_name@, username@),
        },
{
    if str_eq(server_name, DEFAULT_SERVER) {
        return Err(
            AppError::BadRequest(
                "Cannot leave the RChat server - all users must remain in RChat".to_string(),
            ),
        );
    }
    if !str_eq(username, requester_username) {
        match require_server_admin(
            pool,
            server_name,
            requester_username,
            "Admin privileges required to remove other members",
        ) {
            Err(e) => {
                return Err(e);
            },
            Ok(_) => {},
        }
    }
    let idx = match position_where(&pool.servers, &ServerIs(server_name)) {
        Some(i) => i,
        None => {
            return Err(AppError::NotFound("Server not found".to_string()));
        },
    };
    if str_eq(pool.servers[idx].creator_username.as_str(), username) {
        return Err(AppError::BadRequest("Cannot remove server creator".to_string()));
    }
    drop_member(pool, server_name, username);
    Ok(())
}

/// Gives a membership a role.
pub struct SetRole<'a>(pub &'a str);

/// Whether `after` is `before` with the role `role`.
pub open spec fn with_role(role: Seq<char>) -> spec_fn(ServerMember, ServerMember) -> bool {
    |before: ServerMember, after: ServerMember|
        after.role@ == role && after == (ServerMember { role: after.role, ..before })
}

impl<'a> Rewrite<ServerMember> for SetRole<'a> {
    open spec fn relates(&self) -> spec_fn(ServerMember, ServerMember) -> bool {
        with_role(self.0@)
    }

    fn rewrite(&self, row: &mut ServerMember) {
        row.role = self.0.to_string();
    }
}

/// Why the role of `username` in `server` cannot be set to `new_role` by
/// `requester`, if it cannot: the role is neither "member" nor "admin"; the
/// requester is no administrator; the community does not exist; or
/// `username` is its creator.
pub open spec fn update_role_rejection(
    s: Store,
    server: Seq<char>,
    username: Seq<char>,
    new_role: Seq<char>,
    requester: Seq<char>,
) -> Option<Rejection> {
    if new_role != "member"@ && new_role != "admin"@ {
        Some(rejection(ErrorKind::BadRequest, "Invalid role"))
    } else if admin_rejection(s, server, requester, "Admin privileges required"@) is Some {
        admin_rejection(s, server, requester, "Admin privileges required"@)
    } else {
        match first(s.servers@, server_is(server)) {
            None => Some(rejection(ErrorKind::NotFound, "Server not found")),
            Some(row) => if row.creator_username@ == username {
                Some(rejection(ErrorKind::BadRequest, "Cannot modify creator role"))
            } else {
                None
            },
        }
    }
}

/// Sets the role of a member of a community. Only an administrator may, and
/// the role of the community's creator cannot be changed.
pub fn update_member_role(
    pool: &mut Store,
    server_name: &str,
    username: &str,
    new_role: &str,
    requester_username: &str,
) -> (res: AppResult<()>)
    ensures
        match update_role_rejection(
            *old(pool),
            server_name@,
            username@,
            new_role@,
            requester_username@,
        ) {
            Some(r) => rejected_as(res, r) && *final(pool) == *old(pool),
            None => {
                &&& res is Ok
                &&& rewritten(
                    old(pool).server_members@,
                    final(pool).server_members@,
                    both(server_is(server_name@), user_is(username@)),
                    with_role(new_role@),
                )
                &&& *final(pool) == (Store {
                    server_members: final(pool).server_members,
                    ..*old(pool)
                })
            },
        },
{
    if !str_eq(new_role, "member") && !str_eq(new_role, "admin") {
        return Err(AppError::BadRequest("Invalid role".to_string()));
    }
    match require_server_admin(pool, server_name, requester_username, "Admin privileges required") {
        Err(e) => {
            return Err(e);
        },
        Ok(_) => {},
    }
    let idx = match position_where(&pool.servers, &ServerIs(server_name)) {
        Some(i) => i,
        None => {
            return Err(AppError::NotFound("Server not found".to_string()));
        },
    };
    if str_eq(pool.servers[idx].creator_username.as_str(), username) {
        return Err(AppError::BadRequest("Cannot modify creator role".to_string()));
    }
    rewrite_where(
        &mut pool.server_members,
        &Both(ServerIs(server_name), UserIs(username)),
        &SetRole(new_role),
    );
    Ok(())
}

/// Selects the messages posted in a channel of one community.
pub struct InChannelsOf<'a> {
    pub channels: &'a Vec<Channel>,
    pub server: &'a str,
}

/// Messages posted in a channel of the community `server`.
pub open spec fn in_channels_of(channels: Seq<Channel>, server: Seq<char>) -> spec_fn(
    Message,
) -> bool {
    |m: Message|
        match m.channel_id {
            Some(id) => any(channels, both(id_is(id@), server_is(server))),
            None => false,
        }
}

impl<'a> Matcher<Message> for InChannelsOf<'a> {
    open spec fn pred(&self) -> spec_fn(Message) -> bool {
        in_channels_of(self.channels@, self.server@)
    }

    fn test(&self, row: &Message) -> (r: bool) {
        match &row.channel_id {
            Some(id) => exists_where(self.channels, &Both(IdIs(id.as_str()), ServerIs(self.server))),
            None => false,
        }
    }
}

/// Why the community `server` cannot be deleted by `requester`, if it
/// cannot: it is the default community; it does not exist; or the requester
/// is neither its creator nor a site administrator.
pub open spec fn delete_server_rejection(s: Store, server: Seq<char>, requester: Seq<char>) -> Option<
    Rejection,
> {
    if server == DEFAULT_SERVER@ {
        Some(rejection(ErrorKind::BadRequest, "Cannot delete the RChat server"))
    } else {
        match first(s.servers@, server_is(server)) {
            None => Some(rejection(ErrorKind::NotFound, "Server not found")),
            Some(row) => if !s.site_admin(requester) && row.creator_username@ != requester {
                Some(
                    rejection(
                        ErrorKind::Unauthorized,
                        "Only server creator or site admin can delete server",
                    ),
                )
            } else {
                None
            },
        }
    }
}

/// What deleting a community removes: the community, its channels, the
/// messages in those channels, its memberships and its bans. Nothing else
/// changes.
pub open spec fn server_deleted(pre: Store, post: Store, server: Seq<char>) -> bool {
    &&& post.servers@ == without(pre.servers@, server_is(server))
    &&& post.messages@ == without(pre.messages@, in_channels_of(pre.channels@, server))
    &&& post.channels@ == without(pre.channels@, server_is(server))
    &&& post.server_members@ == without(pre.server_members@, server_is(server))
    &&& post.server_bans@ == without(pre.server_bans@, server_is(server))
    &&& post == (Store {
        servers: post.servers,
        messages: post.messages,
        channels: post.channels,
        server_members: post.server_members,
        server_bans: post.server_bans,
        ..pre
    })
}

/// Deletes a community and all that belongs to it. Only its creator or a
/// site administrator may; the default community cannot be deleted.
pub fn delete_server(pool: &mut Store, server_name: &str, requester_username: &str) -> (res:
    AppResult<()>)
    ensures
        match delete_server_rejection(*old(pool), server_name@, requester_username@) {
            Some(r) => rejected_as(res, r) && *final(pool) == *old(pool),
            None => res is Ok && server_deleted(*old(pool), *final(pool), server_name@),
        },
{
    if str_eq(server_name, DEFAULT_SERVER) {
        return Err(AppError::BadRequest("Cannot delete the RChat server".to_string()));
    }
    let idx = match position_where(&pool.servers, &ServerIs(server_name)) {
        Some(i) => i,
        None => {
            return Err(AppError::NotFound("Server not found".to_string()));
        },
    };
    if !pool.is_site_admin(requester_username) && !str_eq(
        pool.servers[idx].creator_username.as_str(),
        requester_username,
    ) {
        return Err(
            AppError::Unauthorized(
                "Only server creator or site admin can delete server".to_string(),
            ),
        );
    }
    delete_where(&mut pool.servers, &ServerIs(server_name));
    delete_where(
        &mut pool.messages,
        &InChannelsOf { channels: &pool.channels, server: server_name },
    );
    delete_where(&mut pool.channels, &ServerIs(server_name));
    delete_where(&mut pool.server_members, &ServerIs(server_name));
    delete_where(&mut pool.server_bans, &ServerIs(server_name));
    Ok(())
}

/// Recomputes the member and channel counters of every community from the
/// membership rows and the live channels. Nothing else changes.
pub fn sync_server_counts(pool: &mut Store) -> (res: AppResult<()>)
    ensures
        res is Ok,
        final(pool).servers@ == with_all_counts(*old(pool)),
        *final(pool) == (Store { servers: final(pool).servers, ..*old(pool) }),
{
    recount_all(pool);
    Ok(())
}

/// Puts a membership at a position.
pub struct SetPosition(pub i64);

/// A membership at position `position`.
pub open spec fn positioned(position: i64) -> spec_fn(ServerMember) -> ServerMember {
    |m: ServerMember| ServerMember { position, ..m }
}

impl Patch<ServerMember> for SetPosition {
    open spec fn change(&self) -> spec_fn(ServerMember) -> ServerMember {
        positioned(self.0)
    }

    fn apply(&self, row: &mut ServerMember) {
        row.position = self.0;
    }
}

/// The memberships after `user` has put the communities `names` in order:
/// for each name in turn, the identity's membership in that community gets
/// the place of the name in the list as its position.
pub open spec fn reordered(members: Seq<ServerMember>, user: Seq<char>, names: Seq<String>) -> Seq<
    ServerMember,
>
    decreases names.len(),
{
    if names.len() == 0 {
        members
    } else {
        updated(
            reordered(members, user, names.drop_last()),
            both(user_is(user), server_is(names.last()@)),
            positioned(crate::database::counters::clip((names.len() - 1) as nat)),
        )
    }
}

/// Sets the order in which `username` sees their communities.
pub fn reorder_servers(pool: &mut Store, username: &str, server_names: Vec<String>) -> (res:
    AppResult<()>)
    ensures
        res is Ok,
        final(pool).server_members@ == reordered(
            old(pool).server_members@,
            username@,
            server_names@,
        ),
        *final(pool) == (Store { server_members: final(pool).server_members, ..*old(pool) }),
{
    let mut index: usize = 0;
    while index < server_names.len()
        invariant
            index <= server_names@.len(),
            pool.server_members@ == reordered(
                old(pool).server_members@,
                username@,
                server_names@.take(index as int),
            ),
            *pool == (Store { server_members: pool.server_members, ..*old(pool) }),
        decreases server_names@.len() - index,
    {
        proof {
            assert(server_names@.take(index + 1).drop_last() =~= server_names@.take(index as int));
        }
        update_where(
            &mut pool.server_members,
            &Both(UserIs(username), ServerIs(server_names[index].as_str())),
            &SetPosition(crate::database::counters::to_counter(index)),
        );
        index += 1;
    }
    proof {
        assert(server_names@.take(server_names@.len() as int) =~= server_names@);
    }
    Ok(())
}

/// Makes an identity the creator of a community.
pub struct SetCreator<'a>(pub &'a str);

/// Whether `after` is `before` with the creator `creator`.
pub open spec fn with_creator(creator: Seq<char>) -> spec_fn(Server, Server) -> bool {
    |before: Server, after: Server|
        after.creator_username@ == creator && after == (Server {
            creator_username: after.creator_username,
            ..before
        })
}

impl<'a> Rewrite<Server> for SetCreator<'a> {
    open spec fn relates(&self) -> spec_fn(Server, Server) -> bool {
        with_creator(self.0@)
    }

    fn rewrite(&self, row: &mut Server) {
        row.creator_username = self.0.to_string();
    }
}

/// Why the community `server` cannot be handed over to `new_owner` by
/// `requester`, if it cannot: it does not exist; the requester is not its
/// creator; the new owner is the requester; or the new owner is no member.
pub open spec fn transfer_rejection(
    s: Store,
    server: Seq<char>,
    new_owner: Seq<char>,
    requester: Seq<char>,
) -> Option<Rejection> {
    match first(s.servers@, server_is(server)) {
        None => Some(rejection(ErrorKind::NotFound, "Server not found")),
        Some(row) => if row.creator_username@ != requester {
            Some(
                rejection(ErrorKind::Unauthorized, "Only the server creator can transfer ownership"),
            )
        } else if new_owner == requester {
            Some(rejection(ErrorKind::BadRequest, "Cannot transfer ownership to yourself"))
        } else if !s.member(server, new_owner) {
            Some(rejection(ErrorKind::BadRequest, "New owner must be a member of the server"))
        } else {
            None
        },
    }
}

/// Whether `after` is the membership `before` after the community `server`
/// has passed from `old_owner` to `new_owner`: the new owner's membership
/// has the role "admin", the old owner's the role "member", every other
/// membership is as it was.
pub open spec fn handed_over(
    before: ServerMember,
    after: ServerMember,
    server: Seq<char>,
    new_owner: Seq<char>,
    old_owner: Seq<char>,
) -> bool {
    if before.server_name@ == server && before.username@ == old_owner {
        with_role("member"@)(before, after)
    } else if before.server_name@ == server && before.username@ == new_owner {
        with_role("admin"@)(before, after)
    } else {
        after == before
    }
}

/// What a transfer of ownership does: the community gets its new creator,
/// the roles of the two identities are exchanged as [`handed_over`] says,
/// nothing else changes.
pub open spec fn ownership_transferred(
    pre: Store,
    post: Store,
    server: Seq<char>,
    new_owner: Seq<char>,
    old_owner: Seq<char>,
) -> bool {
    &&& rewritten(pre.servers@, post.servers@, server_is(server), with_creator(new_owner))
    &&& post.server_members@.len() == pre.server_members@.len()
    &&& forall|i: int|
        0 <= i < pre.server_members@.len() ==> handed_over(
            pre.server_members@[i],
            #[trigger] post.server_members@[i],
            server,
            new_owner,
            old_owner,
        )
    &&& post == (Store { servers: post.servers, server_members: post.server_members, ..pre })
}

/// Hands a community over from its creator to another member. The new owner
/// becomes an administrator and the old one an ordinary member.
pub fn transfer_ownership(
    pool: &mut Store,
    server_name: &str,
    new_owner_username: &str,
    requester_username: &str,
) -> (res: AppResult<()>)
    ensures
        match transfer_rejection(
            *old(pool),
            server_name@,
            new_owner_username@,
            requester_username@,
        ) {
            Some(r) => rejected_as(res, r) && *final(pool) == *old(pool),
            None => res is Ok && ownership_transferred(
                *old(pool),
                *final(pool),
                server_name@,
                new_owner_username@,
                requester_username@,
            ),
        },
{
    let idx = match position_where(&pool.servers, &ServerIs(server_name)) {
        Some(i) => i,
        None => {
            return Err(AppError::NotFound("Server not found".to_string()));
        },
    };
    if !str_eq(pool.servers[idx].creator_username.as_str(), requester_username) {
        return Err(
            AppError::Unauthorized("Only the server creator can transfer ownership".to_string()),
        );
    }
    if str_eq(new_owner_username, requester_username) {
        return Err(AppError::BadRequest("Cannot transfer ownership to yourself".to_string()));
    }
    if !pool.is_member(server_name, new_owner_username) {
        return Err(AppError::BadRequest("New owner must be a member of the server".to_string()));
    }
    rewrite_where(&mut pool.servers, &ServerIs(server_name), &SetCreator(new_owner_username));
    let ghost before = pool.server_members@;
    rewrite_where(
        &mut pool.server_members,
        &Both(ServerIs(server_name), UserIs(new_owner_username)),
        &SetRole("admin"),
    );
    let ghost between = pool.server_members@;
    rewrite_where(
        &mut pool.server_members,
        &Both(ServerIs(server_name), UserIs(requester_username)),
        &SetRole("member"),
    );
    proof {
        assert forall|i: int| 0 <= i < before.len() implies handed_over(
            before[i],
            #[trigger] pool.server_members@[i],
            server_name@,
            new_owner_username@,
            requester_username@,
        ) by {
            let a = before[i];
            let b = between[i];
            let c = pool.server_members@[i];
            assert(b.server_name == a.server_name && b.username == a.username);
        }
    }
    Ok(())
}

/// A community as one of its members sees it in their list: the community
/// and the position that the member gave it.
#[derive(Debug, Clone, PartialEq, Eq)]
pub struct ServerEntry {
    pub position: i64,
    pub server: Server,
}

/// Community entries by position, lowest first; at one position, the
/// community created last first.
pub struct ByPlace;

/// Whether entry `a` may be listed before entry `b`.
pub open spec fn by_place() -> spec_fn(ServerEntry, ServerEntry) -> bool {
    |a: ServerEntry, b: ServerEntry|
        a.position < b.position || (a.position == b.position && crate::text::name_le(
            b.server.created_at@,
            a.server.created_at@,
        ))
}

impl crate::database::order::Order<ServerEntry> for ByPlace {
    open spec fn before(&self) -> spec_fn(ServerEntry, ServerEntry) -> bool {
        by_place()
    }

    proof fn total(&self, a: ServerEntry, b: ServerEntry) {
        crate::text::lemma_name_le_total(a.server.created_at@, b.server.created_at@);
    }

    proof fn transitive(&self, a: ServerEntry, b: ServerEntry, c: ServerEntry) {
        if a.position == b.position && b.position == c.position {
            crate::text::lemma_name_le_transitive(
                c.server.created_at@,
                b.server.created_at@,
                a.server.created_at@,
            );
        }
    }

    fn precedes(&self, a: &ServerEntry, b: &ServerEntry) -> (r: bool) {
        a.position < b.position || (a.position == b.position && !crate::text::str_lt(
            a.server.created_at.as_str(),
            b.server.created_at.as_str(),
        ))
    }
}

/// A community row with its counters set for a listing: the number of its
/// membership rows and the number of its live channels.
pub open spec fn counted_for_listing(s: Store, row: Server) -> Server {
    Server {
        member_count: crate::database::counters::clip(
            crate::database::table::count(s.server_members@, server_is(row.name@)),
        ),
        channel_count: crate::database::counters::clip(
            crate::database::counters::live_channels_of(s.channels@, row.name@),
        ),
        ..row
    }
}

/// The entry that a membership of `user` contributes to the identity's list
/// of communities: its live community, if there is one.
pub open spec fn entry_of(s: Store, user: Seq<char>) -> spec_fn(ServerMember) -> Option<
    ServerEntry,
> {
    |m: ServerMember|
        if m.username@ != user {
            None
        } else {
            match first(
                s.servers@,
                both(server_is(m.server_name@), crate::database::query::live()),
            ) {
                Some(row) => Some(
                    ServerEntry { position: m.position, server: counted_for_listing(s, row) },
                ),
                None => None,
            }
        }
}

/// The communities of an identity, in the order of its memberships.
pub open spec fn entries_of(s: Store, user: Seq<char>) -> Seq<ServerEntry> {
    s.server_members@.filter_map(entry_of(s, user))
}

/// The communities of the entries, in the same order.
pub open spec fn servers_of(entries: Seq<ServerEntry>) -> Seq<Server> {
    entries.map_values(|e: ServerEntry| e.server)
}

/// The live communities of which `username` is a member, in the order the
/// identity gave them, with their counters set by enumeration.
pub fn get_user_servers(pool: &Store, username: &str) -> (res: AppResult<Vec<Server>>)
    ensures
        res matches Ok(list) && exists|listed: Seq<ServerEntry>|
            crate::database::order::is_sorting(entries_of(*pool, username@), listed, by_place())
                && list@ == servers_of(listed),
{
    let mut entries: Vec<ServerEntry> = Vec::new();
    let mut i: usize = 0;
    while i < pool.server_members.len()
        invariant
            i <= pool.server_members@.len(),
            entries@ == pool.server_members@.take(i as int).filter_map(entry_of(*pool, username@)),
        decreases pool.server_members@.len() - i,
    {
        proof {
            assert(pool.server_members@.take(i + 1).drop_last() =~= pool.server_members@.take(
                i as int,
            ));
        }
        let ghost before = entries@;
        let m = &pool.server_members[i];
        if str_eq(m.username.as_str(), username) {
            match position_where(
                &pool.servers,
                &Both(ServerIs(m.server_name.as_str()), crate::database::query::Live),
            ) {
                Some(k) => {
                    let mut server = pool.servers[k].duplicate();
                    server.member_count = crate::database::counters::to_counter(
                        crate::database::table::count_where(
                            &pool.server_members,
                            &ServerIs(server.name.as_str()),
                        ),
                    );
                    server.channel_count = crate::database::counters::to_counter(
                        crate::database::table::count_where(
                            &pool.channels,
                            &Both(ServerIs(server.name.as_str()), crate::database::query::Live),
                        ),
                    );
                    entries.push(ServerEntry { position: m.position, server });
                    proof {
                        assert(entries@ =~= before + seq![entries@.last()]);
                    }
                },
                None => {},
            }
        }
        i += 1;
    }
    proof {
        assert(pool.server_members@.take(pool.server_members@.len() as int)
            =~= pool.server_members@);
    }
    let listed = crate::database::order::sort_by(entries, &ByPlace);
    let mut list: Vec<Server> = Vec::new();
    let mut j: usize = 0;
    while j < listed.len()
        invariant
            j <= listed@.len(),
            list@ == servers_of(listed@.take(j as int)),
        decreases listed@.len() - j,
    {
        list.push(listed[j].server.duplicate());
        proof {
            assert(list@ =~= servers_of(listed@.take(j + 1)));
        }
        j += 1;
    }
    proof {
        assert(listed@.take(listed@.len() as int) =~= listed@);
    }
    Ok(list)
}

/// A membership with the display attributes of its member filled in from
/// the member's identity row.
pub open spec fn with_profile(s: Store) -> spec_fn(ServerMember) -> ServerMember {
    |m: ServerMember|
        match first(s.users@, user_is(m.username@)) {
            Some(u) => ServerMember {
                profile_type: Some(u.profile_type),
                avatar_color: u.avatar_color,
                ..m
            },
            None => m,
        }
}

/// The memberships of the community `server` whose member has an identity
/// row, in table order.
pub open spec fn known_members(s: Store, server: Seq<char>) -> Seq<ServerMember> {
    s.server_members@.filter(both(server_is(server), crate::database::query::known(s.users@)))
}

/// Fills in the display attributes of each membership from the identity
/// rows.
pub fn fill_profiles(pool: &Store, members: Vec<ServerMember>) -> (r: Vec<ServerMember>)
    ensures
        r@ == members@.map_values(with_profile(*pool)),
{
    let mut members = members;
    let ghost orig = members@;
    let mut i: usize = 0;
    while i < members.len()
        invariant
            members@.len() == orig.len(),
            i <= members@.len(),
            forall|j: int| 0 <= j < i ==> #[trigger] members@[j] == with_profile(*pool)(orig[j]),
            forall|j: int| i <= j < orig.len() ==> #[trigger] members@[j] == orig[j],
        decreases members@.len() - i,
    {
        match position_where(&pool.users, &UserIs(members[i].username.as_str())) {
            Some(k) => {
                members[i].profile_type = Some(pool.users[k].profile_type.clone());
                members[i].avatar_color = pool.users[k].avatar_color.clone();
            },
            None => {},
        }
        i += 1;
    }
    proof {
        assert(members@ =~= orig.map_values(with_profile(*pool)));
    }
    members
}

/// The members of a community with their display attributes, in the order
/// in which they joined.
pub fn get_server_members(pool: &Store, server_name: &str) -> (res: AppResult<Vec<ServerMember>>)
    ensures
        res matches Ok(list) && exists|listed: Seq<ServerMember>|
            crate::database::order::is_sorting(
                known_members(*pool, server_name@),
                listed,
                crate::database::listing::by_join_time(),
            ) && list@ == listed.map_values(with_profile(*pool)),
{
    let rows = crate::database::order::select_where(
        &pool.server_members,
        &Both(ServerIs(server_name), crate::database::query::Known(&pool.users)),
    );
    let listed = crate::database::order::sort_by(rows, &crate::database::listing::ByJoinTime);
    Ok(fill_profiles(pool, listed))
}

/// Nobody leaves the default community and nobody deletes it, whoever
/// asks.
pub proof fn lemma_default_community_is_kept(s: Store, username: Seq<char>, requester: Seq<char>)
    ensures
        remove_member_rejection(s, DEFAULT_SERVER@, username, requester) is Some,
        delete_server_rejection(s, DEFAULT_SERVER@, requester) is Some,
{
}

/// The membership of the creator of a community is never removed and its
/// role is never set by a request to remove a member or to set a role,
/// whoever asks: only a transfer of ownership changes it.
pub proof fn lemma_creator_membership_is_kept(
    s: Store,
    server: Seq<char>,
    creator: Seq<char>,
    new_role: Seq<char>,
    requester: Seq<char>,
)
    requires
        first(s.servers@, server_is(server)) matches Some(row) && row.creator_username@ == creator,
    ensures
        remove_member_rejection(s, server, creator, requester) is Some,
        update_role_rejection(s, server, creator, new_role, requester) is Some,
{
}

/// After a membership was added or removed, the counters of the community
/// concerned are what enumerating its membership rows and its live
/// channels gives.
pub proof fn lemma_counters_follow_members(
    pre: Store,
    post: Store,
    server: Seq<char>,
    user: Seq<char>,
    role: ServerRole,
    i: int,
)
    requires
        member_added(pre, post, server, user, role) || member_removed(pre, post, server, user),
        0 <= i < post.servers@.len(),
        post.servers@[i].name@ == server,
    ensures
        crate::database::counters::counts_agree(
            post.servers@[i],
            post.server_members@,
            post.channels@,
        ),
{
    crate::database::counters::lemma_recount_of_agrees(
        Store { server_members: post.server_members, ..pre },
        server,
    );
}

} // verus!
