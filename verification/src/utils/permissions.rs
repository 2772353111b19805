//! Who may act as an administrator: of the site, of a community, or of the
//! community that owns a channel.
use vstd::prelude::*;
use crate::database::query::{both, id_is, server_is, user_is, Both, IdIs, ServerIs, UserIs};
use crate::database::table::{any, exists_where, first, position_where, Matcher};
use crate::database::Store;
use crate::models::channel::Channel;
use crate::models::server_member::ServerMember;
use crate::services::server::{admin_rejection, require_server_admin};
use crate::text::str_eq;
use crate::utils::error::{rejection, AppError, ErrorKind, Rejection};
use crate::utils::validation::decided;

verus! {

/// Selects the memberships with one role.
pub struct RoleIs<'a>(pub &'a str);

/// Memberships with the role `role`.
pub open spec fn role_is(role: Seq<char>) -> spec_fn(ServerMember) -> bool {
    |m: ServerMember| m.role@ == role
}

impl<'a> Matcher<ServerMember> for RoleIs<'a> {
    open spec fn pred(&self) -> spec_fn(ServerMember) -> bool {
        role_is(self.0@)
    }

    fn test(&self, row: &ServerMember) -> (r: bool) {
        str_eq(row.role.as_str(), self.0)
    }
}

/// Memberships that make `user` an administrator of the community `server`.
pub open spec fn admin_membership(server: Seq<char>, user: Seq<char>) -> spec_fn(ServerMember) -> bool {
    both(both(server_is(server), user_is(user)), role_is("admin"@))
}

/// Whether `user` has a membership with the role "admin" in `server`.
pub open spec fn administers(s: Store, server: Seq<char>, user: Seq<char>) -> bool {
    any(s.server_members@, admin_membership(server, user))
}

/// Selects the channels whose community has a given administrator.
pub struct AdministeredBy<'a> {
    pub members: &'a Vec<ServerMember>,
    pub user: &'a str,
}

/// Channels whose community has `user` as an administrator.
pub open spec fn administered_by(members: Seq<ServerMember>, user: Seq<char>) -> spec_fn(
    Channel,
) -> bool {
    |c: Channel| any(members, admin_membership(c.server_name@, user))
}

impl<'a> Matcher<Channel> for AdministeredBy<'a> {
    open spec fn pred(&self) -> spec_fn(Channel) -> bool {
        administered_by(self.members@, self.user@)
    }

    fn test(&self, row: &Channel) -> (r: bool) {
        exists_where(
            self.members,
            &Both(Both(ServerIs(row.server_name.as_str()), UserIs(self.user)), RoleIs("admin")),
        )
    }
}

/// Whether `user` is an administrator of the community that owns the
/// channel `channel_id`.
pub open spec fn administers_channel(s: Store, channel_id: Seq<char>, user: Seq<char>) -> bool {
    any(s.channels@, both(id_is(channel_id), administered_by(s.server_members@, user)))
}

/// Whether `username` holds the site-wide administrator flag.
pub fn check_site_admin(pool: &Store, username: &str) -> (res: Result<bool, AppError>)
    ensures
        res == Ok::<bool, AppError>(pool.site_admin(username@)),
{
    Ok(pool.is_site_admin(username))
}

/// Whether `username` is an administrator of the community `server_name`.
pub fn check_server_admin(pool: &Store, username: &str, server_name: &str) -> (res: Result<
    bool,
    AppError,
>)
    ensures
        res == Ok::<bool, AppError>(administers(*pool, server_name@, username@)),
{
    Ok(
        exists_where(
            &pool.server_members,
            &Both(Both(ServerIs(server_name), UserIs(username)), RoleIs("admin")),
        ),
    )
}

/// Whether `username` is an administrator of the community that owns the
/// channel `channel_id`.
pub fn check_channel_admin(pool: &Store, username: &str, channel_id: &str) -> (res: Result<
    bool,
    AppError,
>)
    ensures
        res == Ok::<bool, AppError>(administers_channel(*pool, channel_id@, username@)),
{
    Ok(
        exists_where(
            &pool.channels,
            &Both(IdIs(channel_id), AdministeredBy { members: &pool.server_members, user: username }),
        ),
    )
}

/// Why `user` may not act as an administrator in the given scope, if they
/// may not.
///
/// A site administrator may act in any scope. Anybody else is judged by
/// their membership in the community of the scope: the community that is
/// named or, where only a channel is named, the community that owns the
/// channel. Having no membership there is one failure; having a membership
/// with another role than "admin" is another, told apart by its text. Where
/// the channel does not exist there is no community to be a member of, and
/// the identity lacks the role. Where neither a community nor a channel is
/// named, only a site administrator may act.
pub open spec fn scope_rejection(
    s: Store,
    user: Seq<char>,
    server: Option<Seq<char>>,
    channel: Option<Seq<char>>,
) -> Option<Rejection> {
    if s.site_admin(user) {
        None
    } else {
        match (server, channel) {
            (Some(name), _) => admin_rejection(s, name, user, "Server admin privileges required"@),
            (None, Some(id)) => match first(s.channels@, id_is(id)) {
                Some(c) => admin_rejection(
                    s,
                    c.server_name@,
                    user,
                    "Channel admin privileges required"@,
                ),
                None => Some(rejection(ErrorKind::Unauthorized, "Channel admin privileges required")),
            },
            (None, None) => Some(
                rejection(ErrorKind::Unauthorized, "Site admin privileges required"),
            ),
        }
    }
}

/// Checks that `username` may act as an administrator in the given scope.
/// The error for an identity that is no member of the community differs
/// from the error for a member who is no administrator.
pub fn require_admin(
    pool: &Store,
    username: &str,
    server_name: Option<&str>,
    channel_id: Option<&str>,
) -> (res: Result<(), AppError>)
    ensures
        decided(
            res,
            scope_rejection(
                *pool,
                username@,
                crate::services::messaging::opt_str_text(server_name),
                crate::services::messaging::opt_str_text(channel_id),
            ),
        ),
{
    if pool.is_site_admin(username) {
        return Ok(());
    }
    match (server_name, channel_id) {
        (Some(server), _) => require_server_admin(
            pool,
            server,
            username,
            "Server admin privileges required",
        ),
        (None, Some(channel)) => match position_where(&pool.channels, &IdIs(channel)) {
            Some(i) => require_server_admin(
                pool,
                pool.channels[i].server_name.as_str(),
                username,
                "Channel admin privileges required",
            ),
            None => Err(AppError::Unauthorized("Channel admin privileges required".to_string())),
        },
        (None, None) => Err(AppError::Unauthorized("Site admin privileges required".to_string())),
    }
}

/// An identity that is no site administrator and no member of a community
/// is refused as no member; a member whose role is not "admin" is refused
/// for want of the role; the two refusals differ. A site administrator is
/// let through in every scope.
pub proof fn lemma_no_member_is_not_no_admin(
    s: Store,
    user: Seq<char>,
    server: Seq<char>,
    channel: Option<Seq<char>>,
)
    ensures
        s.site_admin(user) ==> scope_rejection(s, user, Some(server), channel) is None,
        s.site_admin(user) ==> scope_rejection(s, user, None, channel) is None,
        !s.site_admin(user) && s.role_of(server, user) is None ==> scope_rejection(
            s,
            user,
            Some(server),
            channel,
        ) == Some(rejection(ErrorKind::Unauthorized, "Not a member of this server")),
        !s.site_admin(user) && s.role_of(server, user) is Some && s.role_of(server, user)
            != Some("admin"@) ==> scope_rejection(s, user, Some(server), channel) == Some(
            rejection(ErrorKind::Unauthorized, "Server admin privileges required"),
        ),
        !s.site_admin(user) && s.role_of(server, user) == Some("admin"@) ==> scope_rejection(
            s,
            user,
            Some(server),
            channel,
        ) is None,
        rejection(ErrorKind::Unauthorized, "Not a member of this server") != rejection(
            ErrorKind::Unauthorized,
            "Server admin privileges required",
        ),
        rejection(ErrorKind::Unauthorized, "Not a member of this server") != rejection(
            ErrorKind::Unauthorized,
            "Channel admin privileges required",
        ),
{
    reveal_strlit("Not a member of this server");
    reveal_strlit("Server admin privileges required");
    reveal_strlit("Channel admin privileges required");
    assert("Not a member of this server"@.len() != "Server admin privileges required"@.len());
    assert("Not a member of this server"@.len() != "Channel admin privileges required"@.len());
}

/// The standing of an identity towards a community, highest first.
#[derive(Debug, Clone, Copy, PartialEq, Eq, Structural)]
pub enum Standing {
    /// The identity holds the site-wide administrator flag.
    SiteAdmin,
    /// The identity is a member of the community with the role "admin".
    CommunityAdmin,
    /// The identity is a member of the community with another role.
    Member,
    /// The identity is no member of the community.
    Stranger,
}

/// The standing of `user` towards the community `server`.
pub open spec fn standing_of(s: Store, server: Seq<char>, user: Seq<char>) -> Standing {
    if s.site_admin(user) {
        Standing::SiteAdmin
    } else {
        match s.role_of(server, user) {
            None => Standing::Stranger,
            Some(role) => if role == "admin"@ {
                Standing::CommunityAdmin
            } else {
                Standing::Member
            },
        }
    }
}

/// Resolves the standing of `username` towards the community
/// `server_name`, so that a caller can tell somebody who is no member from
/// a member who lacks the role without reading an error's text.
pub fn standing(pool: &Store, server_name: &str, username: &str) -> (r: Standing)
    ensures
        r == standing_of(*pool, server_name@, username@),
{
    if pool.is_site_admin(username) {
        return Standing::SiteAdmin;
    }
    match position_where(&pool.server_members, &Both(ServerIs(server_name), UserIs(username))) {
        None => Standing::Stranger,
        Some(i) => if str_eq(pool.server_members[i].role.as_str(), "admin") {
            Standing::CommunityAdmin
        } else {
            Standing::Member
        },
    }
}

/// Whoever asks to act as an administrator of a community is judged by
/// standing: administrators of the site and of the community pass, a
/// stranger is refused as no member, and a member is refused for want of
/// the role, with the text that the request gives for it.
pub proof fn lemma_admin_rejection_by_standing(
    s: Store,
    server: Seq<char>,
    user: Seq<char>,
    not_admin: Seq<char>,
)
    ensures
        admin_rejection(s, server, user, not_admin) == (match standing_of(s, server, user) {
            Standing::SiteAdmin => None,
            Standing::CommunityAdmin => None,
            Standing::Member => Some(Rejection { kind: ErrorKind::Unauthorized, text: not_admin }),
            Standing::Stranger => Some(
                rejection(ErrorKind::Unauthorized, "Not a member of this server"),
            ),
        }),
{
}

} // verus!
