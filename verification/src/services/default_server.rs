//! The identities and the community that the service cannot do without: the
//! service's own identity, the configured administrator, and the default
//! community with its first channel.
use vstd::prelude::*;
use crate::database::query::{both, server_is, user_is, Both, ServerIs, UserIs};
use crate::database::table::{any, exists_where, first, position_where, Matcher};
use crate::database::Store;
use crate::models::channel::Channel;
use crate::models::server::Server;
use crate::models::user::{opt_text, User};
use crate::services::auth::SYSTEM_USER;
use crate::services::server::{
    join_rejection, join_server, joined_state, DEFAULT_CHANNEL, DEFAULT_SERVER,
};
use crate::text::{concat_str, str_eq};
use crate::utils::clock::now_rfc3339;
use crate::utils::crypto::{argon2_hash, hashed};
use crate::utils::error::{rejected_as, AppError, AppResult, ErrorKind, Rejection};

verus! {

/// The colour of the picture of an internal identity.
pub const INTERNAL_AVATAR_COLOR: &'static str = "#808080";

/// Selects the channels with one name.
pub struct Named<'a>(pub &'a str);

/// Channels with the name `name`.
pub open spec fn named(name: Seq<char>) -> spec_fn(Channel) -> bool {
    |c: Channel| c.name@ == name
}

impl<'a> Matcher<Channel> for Named<'a> {
    open spec fn pred(&self) -> spec_fn(Channel) -> bool {
        named(self.0@)
    }

    fn test(&self, row: &Channel) -> (r: bool) {
        str_eq(row.name.as_str(), self.0)
    }
}

/// The secret of an internal identity; nobody logs in with it.
pub open spec fn internal_secret(name: Seq<char>) -> Seq<char> {
    name + "-internal-only"@
}

/// `u` is the row of the internal identity `name`.
pub open spec fn is_internal_user(u: User, name: Seq<char>, hash: String, admin: bool) -> bool {
    &&& u.username@ == name
    &&& u.password_hash == hash
    &&& u.password_type@ == "text"@
    &&& u.word_sequence is None
    &&& u.profile_type@ == "identicon"@
    &&& opt_text(u.avatar_color) == Some(INTERNAL_AVATAR_COLOR@)
    &&& u.last_login is None
    &&& u.login_attempts == 0
    &&& u.account_locked == 0
    &&& u.lock_until is None
    &&& u.is_admin == (if admin {
        1i64
    } else {
        0i64
    })
}

/// What adding an internal identity does, given the outcome of hashing its
/// secret: if hashing failed, nothing changes and an internal error reports
/// it; otherwise the identity is the new last row of the identities and
/// nothing else changes.
pub open spec fn internal_user_added(
    pre: Store,
    post: Store,
    name: Seq<char>,
    admin: bool,
    hashing: Result<String, String>,
    res: AppResult<()>,
) -> bool {
    match hashing {
        Err(m) => post == pre && rejected_as(
            res,
            Rejection { kind: ErrorKind::Internal, text: "Failed to hash password: "@ + m@ },
        ),
        Ok(hash) => {
            &&& res is Ok
            &&& post.users@.len() == pre.users@.len() + 1
            &&& post.users@.drop_last() =~= pre.users@
            &&& is_internal_user(post.users@.last(), name, hash, admin)
            &&& post == (Store { users: post.users, ..pre })
        },
    }
}

/// Adds the internal identity `username`, given the outcome of hashing its
/// secret.
pub fn add_internal_user(
    pool: &mut Store,
    username: &str,
    is_admin: bool,
    hashing: Result<String, String>,
) -> (res: AppResult<()>)
    ensures
        internal_user_added(*old(pool), *final(pool), username@, is_admin, hashing, res),
{
    let password_hash = match hashed(hashing) {
        Ok(h) => h,
        Err(e) => {
            return Err(e);
        },
    };
    let user = User {
        username: username.to_string(),
        password_hash,
        password_type: "text".to_string(),
        word_sequence: None,
        profile_type: "identicon".to_string(),
        avatar_color: Some(INTERNAL_AVATAR_COLOR.to_string()),
        created_at: now_rfc3339(),
        last_login: None,
        login_attempts: 0,
        account_locked: 0,
        lock_until: None,
        is_admin: if is_admin {
            1
        } else {
            0
        },
    };
    pool.users.push(user);
    Ok(())
}

/// What making sure of an internal identity does: nothing if an identity
/// with exactly that name exists; otherwise either the identity is added,
/// or, if its secret cannot be hashed, nothing changes and the request
/// fails.
pub open spec fn internal_user_ensured(
    pre: Store,
    post: Store,
    name: Seq<char>,
    admin: bool,
    res: AppResult<()>,
) -> bool {
    if any(pre.users@, user_is(name)) {
        post == pre && res is Ok
    } else {
        exists|hashing: Result<String, String>|
            internal_user_added(pre, post, name, admin, hashing, res)
    }
}

/// Makes sure that the internal identity `username` exists.
pub fn ensure_internal_user(pool: &mut Store, username: &str, is_admin: bool) -> (res: AppResult<
    (),
>)
    ensures
        internal_user_ensured(*old(pool), *final(pool), username@, is_admin, res),
{
    if exists_where(&pool.users, &UserIs(username)) {
        return Ok(());
    }
    let secret = concat_str(username, "-internal-only");
    let hashing = argon2_hash(secret.as_str());
    add_internal_user(pool, username, is_admin, hashing)
}

/// Makes sure that the service's own identity exists.
pub fn ensure_system_user(pool: &mut Store) -> (res: AppResult<()>)
    ensures
        internal_user_ensured(*old(pool), *final(pool), SYSTEM_USER@, false, res),
{
    ensure_internal_user(pool, SYSTEM_USER, false)
}

/// What making sure of the configured administrator does. The identity is
/// made sure of as an internal identity with the administrator flag. If
/// that succeeds and the identity is no member of the default community, it
/// joins where it can; that it cannot is no failure.
pub open spec fn admin_ensured(pre: Store, post: Store, name: Seq<char>, res: AppResult<()>) -> bool {
    let with_user = Store { users: post.users, ..pre };
    &&& internal_user_ensured(pre, with_user, name, true, res)
    &&& if res is Err || with_user.member(DEFAULT_SERVER@, name) || join_rejection(
        with_user,
        DEFAULT_SERVER@,
        name,
    ) is Some {
        post == with_user
    } else {
        joined_state(with_user, post, DEFAULT_SERVER@, name)
    }
}

/// Makes sure that the configured administrator exists and, where
/// possible, is a member of the default community.
pub fn ensure_admin_user(pool: &mut Store, admin_user: &str) -> (res: AppResult<()>)
    ensures
        admin_ensured(*old(pool), *final(pool), admin_user@, res),
{
    let made = ensure_internal_user(pool, admin_user, true);
    if made.is_err() {
        return made;
    }
    let ghost with_user = *pool;
    if !pool.is_member(DEFAULT_SERVER, admin_user) {
        let _ = join_server(pool, DEFAULT_SERVER.to_string(), admin_user.to_string());
    }
    proof {
        assert(with_user == (Store { users: pool.users, ..*old(pool) }));
    }
    made
}

/// The condition that selects the first channel of the default community.
pub open spec fn default_channel() -> spec_fn(Channel) -> bool {
    both(server_is(DEFAULT_SERVER@), named(DEFAULT_CHANNEL@))
}

/// What making sure of the default community does. If no community has
/// exactly its name, the community, owned by the service's own identity and
/// with both counters at zero, is the new last row of the communities. If
/// it has no channel with the name of the first channel, that channel, at
/// position zero, is the new last row of the channels. Nothing else
/// changes. The result names the community and its first channel.
pub open spec fn community_ensured(pre: Store, post: Store, res: (String, String)) -> bool {
    &&& res.0@ == DEFAULT_SERVER@
    &&& if any(pre.servers@, server_is(DEFAULT_SERVER@)) {
        post.servers == pre.servers
    } else {
        let row = post.servers@.last();
        &&& post.servers@.len() == pre.servers@.len() + 1
        &&& post.servers@.drop_last() =~= pre.servers@
        &&& row.name@ == DEFAULT_SERVER@
        &&& row.creator_username@ == SYSTEM_USER@
        &&& row.is_active == 1
        &&& row.member_count == 0
        &&& row.channel_count == 0
    }
    &&& match first(pre.channels@, default_channel()) {
        Some(c) => post.channels == pre.channels && res.1@ == c.id@,
        None => {
            let c = post.channels@.last();
            &&& post.channels@.len() == pre.channels@.len() + 1
            &&& post.channels@.drop_last() =~= pre.channels@
            &&& c.server_name@ == DEFAULT_SERVER@
            &&& c.name@ == DEFAULT_CHANNEL@
            &&& c.position == 0
            &&& c.is_active == 1
            &&& c.message_count == 0
            &&& res.1@ == c.id@
        },
    }
    &&& post == (Store { servers: post.servers, channels: post.channels, ..pre })
}

/// Makes sure that the default community and its first channel exist.
pub fn ensure_default_community(pool: &mut Store) -> (res: (String, String))
    ensures
        community_ensured(*old(pool), *final(pool), res),
{
    let server_name = if !exists_where(&pool.servers, &ServerIs(DEFAULT_SERVER)) {
        let server = Server::new(DEFAULT_SERVER.to_string(), SYSTEM_USER.to_string());
        let name = server.name.clone();
        pool.servers.push(server);
        name
    } else {
        DEFAULT_SERVER.to_string()
    };
    let channel_id = match position_where(
        &pool.channels,
        &Both(ServerIs(server_name.as_str()), Named(DEFAULT_CHANNEL)),
    ) {
        Some(i) => pool.channels[i].id.clone(),
        None => {
            let channel = Channel::new(server_name.clone(), DEFAULT_CHANNEL.to_string(), 0);
            let id = channel.id.clone();
            pool.channels.push(channel);
            id
        },
    };
    (server_name, channel_id)
}

/// The steps of setting up what the service cannot do without, with the
/// states `s1` and `s2` between them and the results `r1` and `r2` of the
/// first two: first the service's own identity, then the configured
/// administrator, then the default community. A failure of one step ends
/// the setup with that failure.
pub open spec fn setup_steps(
    pre: Store,
    s1: Store,
    s2: Store,
    post: Store,
    admin: Option<Seq<char>>,
    r1: AppResult<()>,
    r2: AppResult<()>,
    res: AppResult<(String, String)>,
) -> bool {
    &&& internal_user_ensured(pre, s1, SYSTEM_USER@, false, r1)
    &&& match r1 {
        Err(e) => res == Err::<(String, String), AppError>(e) && post == s1,
        Ok(_) => {
            &&& match admin {
                Some(a) => admin_ensured(s1, s2, a, r2),
                None => s2 == s1 && r2 is Ok,
            }
            &&& match r2 {
                Err(e) => res == Err::<(String, String), AppError>(e) && post == s2,
                Ok(_) => res matches Ok(names) && community_ensured(s2, post, names),
            }
        },
    }
}

/// What setting up does: its steps, one after the other.
pub open spec fn default_server_ensured(
    pre: Store,
    post: Store,
    admin: Option<Seq<char>>,
    res: AppResult<(String, String)>,
) -> bool {
    exists|s1: Store, s2: Store, r1: AppResult<()>, r2: AppResult<()>|
        #[trigger] setup_steps(pre, s1, s2, post, admin, r1, r2, res)
}

/// Sets up what the service cannot do without: its own identity, the
/// administrator named in the configuration if there is one, and the
/// default community with its first channel. Returns the name of the
/// community and the identifier of the channel.
pub fn ensure_default_server(pool: &mut Store, admin_user: Option<&str>) -> (res: AppResult<
    (String, String),
>)
    ensures
        default_server_ensured(
            *old(pool),
            *final(pool),
            crate::services::messaging::opt_str_text(admin_user),
            res,
        ),
{
    let ghost admin = crate::services::messaging::opt_str_text(admin_user);
    let r1 = ensure_system_user(pool);
    let ghost s1 = *pool;
    match r1 {
        Err(e) => {
            proof {
                assert(setup_steps(*old(pool), s1, s1, *pool, admin, r1, r1, Err(e)));
            }
            return Err(e);
        },
        Ok(_) => {},
    }
    let r2 = match admin_user {
        Some(a) => ensure_admin_user(pool, a),
        None => Ok(()),
    };
    let ghost s2 = *pool;
    match r2 {
        Err(e) => {
            proof {
                assert(setup_steps(*old(pool), s1, s2, *pool, admin, r1, r2, Err(e)));
            }
            return Err(e);
        },
        Ok(_) => {},
    }
    let names = ensure_default_community(pool);
    proof {
        assert(setup_steps(*old(pool), s1, s2, *pool, admin, r1, r2, Ok(names)));
    }
    Ok(names)
}

} // verus!
