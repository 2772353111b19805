//! Communities and their members.
use vstd::prelude::*;
use crate::api::unified_messages::acting;
use crate::api::{stats_event, tells_stats, Handled};
use crate::database::query::server_like;
use crate::database::table::first;
use crate::database::Store;
use crate::models::server::Server;
use crate::models::server_member::ServerMember;
use crate::services::server::{
    create_server, delete_server, delete_server_rejection, get_server_members, get_user_servers,
    join_server, joined, ownership_transferred, reorder_servers, reordered, server_created,
    server_deleted, transfer_ownership, transfer_rejection, update_member_role,
    update_role_rejection, with_role,
};
use crate::services::user_moderation::{server_ban_rejection, server_ban_user, server_banned};
use crate::utils::error::{rejected_as, AppError, AppResult};
use crate::utils::helpers::acting_username;
use crate::websocket::events::ServerMessage;

verus! {

/// What the request to create a community does: it creates the community
/// for the acting identity. A refusal is the answer and nothing is
/// published. Otherwise the answer is the community and exactly one event
/// tells of its creation and its owner.
pub open spec fn create_handled(
    pre: Store,
    post: Store,
    user: Seq<char>,
    name: Seq<char>,
    h: Handled<Server>,
) -> bool {
    &&& server_created(pre, post, name, user, h.result)
    &&& match h.result {
        Err(_) => h.events@.len() == 0,
        Ok(server) => h.events@.len() == 1 && (h.events@[0] matches ServerMessage::ServerCreated {
            server_name,
            owner_username,
        } && server_name == server.name && owner_username@ == user),
    }
}

/// Handles the request to create a community.
pub fn create(pool: &mut Store, username: Option<String>, name: String) -> (h: Handled<Server>)
    ensures
        create_handled(*old(pool), *final(pool), acting(username), name@, h),
{
    let creator_username = acting_username(username);
    let server = match create_server(pool, name, creator_username.clone()) {
        Ok(s) => s,
        Err(e) => {
            return Handled { events: Vec::new(), result: Err(e) };
        },
    };
    let mut events: Vec<ServerMessage> = Vec::new();
    events.push(
        ServerMessage::ServerCreated {
            server_name: server.name.clone(),
            owner_username: creator_username,
        },
    );
    Handled { events, result: Ok(server) }
}

/// What is published after the members of a community have changed, and
/// what the answer is: first the event `change`, then the event that tells
/// the community's counters. If the counters cannot be had, only the first
/// event is published and the answer is the persistence error.
pub open spec fn told_with_stats<T>(
    post: Store,
    server: Seq<char>,
    h: Handled<T>,
    change: spec_fn(ServerMessage) -> bool,
) -> bool {
    &&& h.events@.len() >= 1
    &&& change(h.events@[0])
    &&& match first(post.servers@, crate::database::query::server_is(server)) {
        Some(_) => h.result is Ok && h.events@.len() == 2 && tells_stats(
            h.events@[1],
            post,
            server,
        ),
        None => h.events@.len() == 1 && crate::utils::error::fails_with(
            h.result,
            crate::utils::error::ErrorKind::Database,
            crate::database::ROW_NOT_FOUND,
        ),
    }
}

/// Events that tell that `user` joined the community `server`.
pub open spec fn tells_joined(server: Seq<char>, user: Seq<char>) -> spec_fn(ServerMessage) -> bool {
    |e: ServerMessage|
        e matches ServerMessage::ServerMemberJoined { server_name, username } && server_name@
            == server && username@ == user
}

/// Events that tell that `user` left the community `server`.
pub open spec fn tells_left(server: Seq<char>, user: Seq<char>) -> spec_fn(ServerMessage) -> bool {
    |e: ServerMessage|
        e matches ServerMessage::ServerMemberLeft { server_name, username } && server_name@
            == server && username@ == user
}

/// What the request to join a community does: the acting identity joins.
/// A refusal is the answer and nothing is published. Otherwise one event
/// tells that the identity joined and a second tells the community's
/// counters, and the answer is the community.
pub open spec fn join_handled(
    pre: Store,
    post: Store,
    user: Seq<char>,
    name: Seq<char>,
    h: Handled<Server>,
) -> bool {
    match crate::services::server::join_rejection(pre, name, user) {
        Some(r) => rejected_as(h.result, r) && post == pre && h.events@.len() == 0,
        None => first(pre.servers@, server_like(name)) matches Some(server) && {
            &&& crate::services::server::joined_state(pre, post, name, user)
            &&& told_with_stats(post, server.name@, h, tells_joined(server.name@, user))
            &&& h.result is Ok ==> h.result == Ok::<Server, AppError>(server)
        },
    }
}

/// Publishes `change` and then the counters of a community; answers with
/// `answer`.
pub fn tell_with_stats<T>(pool: &Store, server_name: &str, change: ServerMessage, answer: T) -> (h:
    Handled<T>)
    ensures
        h.events@.len() >= 1,
        h.events@[0] == change,
        match first(pool.servers@, crate::database::query::server_is(server_name@)) {
            Some(_) => h.result == Ok::<T, AppError>(answer) && h.events@.len() == 2 && tells_stats(
                h.events@[1],
                *pool,
                server_name@,
            ),
            None => h.events@.len() == 1 && crate::utils::error::fails_with(
                h.result,
                crate::utils::error::ErrorKind::Database,
                crate::database::ROW_NOT_FOUND,
            ),
        },
{
    let mut events: Vec<ServerMessage> = Vec::new();
    events.push(change);
    match stats_event(pool, server_name) {
        Ok(stats) => {
            events.push(stats);
            Handled { events, result: Ok(answer) }
        },
        Err(e) => Handled { events, result: Err(e) },
    }
}

/// Handles the request to join a community.
pub fn join(pool: &mut Store, username: Option<String>, server_name: String) -> (h: Handled<Server>)
    ensures
        join_handled(*old(pool), *final(pool), acting(username), server_name@, h),
{
    let user = acting_username(username);
    let server = match join_server(pool, server_name, user.clone()) {
        Ok(s) => s,
        Err(e) => {
            return Handled { events: Vec::new(), result: Err(e) };
        },
    };
    let change = ServerMessage::ServerMemberJoined {
        server_name: server.name.clone(),
        username: user,
    };
    let name = server.name.clone();
    tell_with_stats(pool, name.as_str(), change, server)
}

/// Handles the request to list the communities of the acting identity.
pub fn list_servers(pool: &Store, username: Option<String>) -> (res: AppResult<Vec<Server>>)
    ensures
        res matches Ok(list) && exists|listed: Seq<crate::services::server::ServerEntry>|
            crate::database::order::is_sorting(
                crate::services::server::entries_of(*pool, acting(username)),
                listed,
                crate::services::server::by_place(),
            ) && list@ == crate::services::server::servers_of(listed),
{
    let user = acting_username(username);
    get_user_servers(pool, user.as_str())
}

/// Handles the request to list the members of a community.
pub fn list_members(pool: &Store, server_name: &str) -> (res: AppResult<Vec<ServerMember>>)
    ensures
        res matches Ok(list) && exists|listed: Seq<ServerMember>|
            crate::database::order::is_sorting(
                crate::services::server::known_members(*pool, server_name@),
                listed,
                crate::database::listing::by_join_time(),
            ) && list@ == listed.map_values(crate::services::server::with_profile(*pool)),
{
    get_server_members(pool, server_name)
}

/// What the request to remove a member from a community does: the member
/// is banned from the community on behalf of the acting identity. A
/// refusal is the answer and nothing is published. Otherwise one event
/// tells that the member left and a second tells the community's counters.
pub open spec fn remove_handled(
    pre: Store,
    post: Store,
    requester: Seq<char>,
    server: Seq<char>,
    user: Seq<char>,
    h: Handled<()>,
) -> bool {
    match server_ban_rejection(pre, server, user, requester) {
        Some(r) => rejected_as(h.result, r) && post == pre && h.events@.len() == 0,
        None => server_banned(pre, post, server, user, requester, None) && told_with_stats(
            post,
            server,
            h,
            tells_left(server, user),
        ),
    }
}

/// Handles the request to remove a member from a community.
pub fn remove_server_member(
    pool: &mut Store,
    requester: Option<String>,
    server_name: &str,
    username: &str,
) -> (h: Handled<()>)
    ensures
        remove_handled(*old(pool), *final(pool), acting(requester), server_name@, username@, h),
{
    let requester_username = acting_username(requester);
    match server_ban_user(pool, server_name, username, requester_username.as_str(), None) {
        Ok(_) => {},
        Err(e) => {
            return Handled { events: Vec::new(), result: Err(e) };
        },
    }
    let change = ServerMessage::ServerMemberLeft {
        server_name: server_name.to_string(),
        username: username.to_string(),
    };
    tell_with_stats(pool, server_name, change, ())
}

/// `e` tells that `user` has the role `role` in the community `server`.
pub open spec fn tells_role(e: ServerMessage, server: Seq<char>, user: Seq<char>, role: Seq<char>) -> bool {
    e matches ServerMessage::ServerMemberRoleUpdated { server_name, username, new_role }
        && server_name@ == server && username@ == user && new_role@ == role
}

/// What the request to set the role of a member does: the role is set on
/// behalf of the acting identity. A refusal is the answer and nothing is
/// published. Otherwise exactly one event tells the new role.
pub open spec fn role_handled(
    pre: Store,
    post: Store,
    requester: Seq<char>,
    server: Seq<char>,
    user: Seq<char>,
    role: Seq<char>,
    h: Handled<()>,
) -> bool {
    match update_role_rejection(pre, server, user, role, requester) {
        Some(r) => rejected_as(h.result, r) && post == pre && h.events@.len() == 0,
        None => {
            &&& h.result is Ok
            &&& crate::database::table::rewritten(
                pre.server_members@,
                post.server_members@,
                crate::database::query::both(
                    crate::database::query::server_is(server),
                    crate::database::query::user_is(user),
                ),
                with_role(role),
            )
            &&& post == (Store { server_members: post.server_members, ..pre })
            &&& h.events@.len() == 1
            &&& tells_role(h.events@[0], server, user, role)
        },
    }
}

/// Handles the request to set the role of a member.
pub fn update_member(
    pool: &mut Store,
    requester: Option<String>,
    server_name: &str,
    username: &str,
    role: String,
) -> (h: Handled<()>)
    ensures
        role_handled(
            *old(pool),
            *final(pool),
            acting(requester),
            server_name@,
            username@,
            role@,
            h,
        ),
{
    let requester_username = acting_username(requester);
    match update_member_role(
        pool,
        server_name,
        username,
        role.as_str(),
        requester_username.as_str(),
    ) {
        Ok(_) => {},
        Err(e) => {
            return Handled { events: Vec::new(), result: Err(e) };
        },
    }
    let mut events: Vec<ServerMessage> = Vec::new();
    events.push(
        ServerMessage::ServerMemberRoleUpdated {
            server_name: server_name.to_string(),
            username: username.to_string(),
            new_role: role,
        },
    );
    Handled { events, result: Ok(()) }
}

/// Handles the request of the acting identity to put its communities in
/// order. Nothing is published.
pub fn reorder(pool: &mut Store, username: Option<String>, server_names: Vec<String>) -> (res:
    AppResult<()>)
    ensures
        res is Ok,
        final(pool).server_members@ == reordered(
            old(pool).server_members@,
            acting(username),
            server_names@,
        ),
        *final(pool) == (Store { server_members: final(pool).server_members, ..*old(pool) }),
{
    let user = acting_username(username);
    reorder_servers(pool, user.as_str(), server_names)
}

/// What the request to delete a community does: the community is deleted
/// on behalf of the acting identity. A refusal is the answer and nothing is
/// published. Otherwise exactly one event tells that the community is gone.
pub open spec fn server_delete_handled(
    pre: Store,
    post: Store,
    requester: Seq<char>,
    server: Seq<char>,
    h: Handled<()>,
) -> bool {
    match delete_server_rejection(pre, server, requester) {
        Some(r) => rejected_as(h.result, r) && post == pre && h.events@.len() == 0,
        None => {
            &&& h.result is Ok
            &&& server_deleted(pre, post, server)
            &&& h.events@.len() == 1
            &&& h.events@[0] matches ServerMessage::ServerDeleted { server_name } && server_name@
                == server
        },
    }
}

/// Handles the request to delete a community.
pub fn delete_server_handler(pool: &mut Store, requester: Option<String>, server_name: &str) -> (h:
    Handled<()>)
    ensures
        server_delete_handled(*old(pool), *final(pool), acting(requester), server_name@, h),
{
    let requester_username = acting_username(requester);
    match delete_server(pool, server_name, requester_username.as_str()) {
        Ok(_) => {},
        Err(e) => {
            return Handled { events: Vec::new(), result: Err(e) };
        },
    }
    let mut events: Vec<ServerMessage> = Vec::new();
    events.push(ServerMessage::ServerDeleted { server_name: server_name.to_string() });
    Handled { events, result: Ok(()) }
}

/// What the request to hand a community over does: the community passes
/// from the acting identity to the new owner. A refusal is the answer and
/// nothing is published. Otherwise two events tell the new roles: first
/// that the new owner is an administrator, then that the old owner is an
/// ordinary member.
pub open spec fn transfer_handled(
    pre: Store,
    post: Store,
    requester: Seq<char>,
    server: Seq<char>,
    new_owner: Seq<char>,
    h: Handled<()>,
) -> bool {
    match transfer_rejection(pre, server, new_owner, requester) {
        Some(r) => rejected_as(h.result, r) && post == pre && h.events@.len() == 0,
        None => {
            &&& h.result is Ok
            &&& ownership_transferred(pre, post, server, new_owner, requester)
            &&& h.events@.len() == 2
            &&& tells_role(h.events@[0], server, new_owner, "admin"@)
            &&& tells_role(h.events@[1], server, requester, "member"@)
        },
    }
}

/// Handles the request to hand a community over to another member.
pub fn transfer_ownership_handler(
    pool: &mut Store,
    requester: Option<String>,
    server_name: &str,
    new_owner: String,
) -> (h: Handled<()>)
    ensures
        transfer_handled(
            *old(pool),
            *final(pool),
            acting(requester),
            server_name@,
            new_owner@,
            h,
        ),
{
    let requester_username = acting_username(requester);
    match transfer_ownership(
        pool,
        server_name,
        new_owner.as_str(),
        requester_username.as_str(),
    ) {
        Ok(_) => {},
        Err(e) => {
            return Handled { events: Vec::new(), result: Err(e) };
        },
    }
    let mut events: Vec<ServerMessage> = Vec::new();
    events.push(
        ServerMessage::ServerMemberRoleUpdated {
            server_name: server_name.to_string(),
            username: new_owner,
            new_role: "admin".to_string(),
        },
    );
    events.push(
        ServerMessage::ServerMemberRoleUpdated {
            server_name: server_name.to_string(),
            username: requester_username,
            new_role: "member".to_string(),
        },
    );
    Handled { events, result: Ok(()) }
}

} // verus!
