//! The state behind the services: one table per kind of row, each a sequence
//! in insertion order. Queries select rows with [`table::Matcher`]s built
//! from the conditions in [`query`].
use vstd::prelude::*;
use crate::models::channel::Channel;
use crate::models::direct_message::DirectMessage;
use crate::models::file::{File, FileAttachment};
use crate::models::login_attempt::LoginAttempt;
use crate::models::message::Message;
use crate::models::server::Server;
use crate::models::server_member::ServerMember;
use crate::models::user::User;

use crate::database::query::{
    both, server_is, user_is, user_like, Both, ServerIs, UserIs, UserLike,
};
use crate::database::table::{any, exists_where, first, position_where};
use crate::text::str_eq;

pub mod counters;
pub mod listing;
pub mod order;
pub mod query;
pub mod table;

verus! {

/// An entry of the log of site bans: the banned name, who banned it, why and
/// when.
#[derive(Debug, Clone, PartialEq, Eq)]
pub struct SiteBan {
    pub username: String,
    pub banned_by: String,
    pub reason: String,
    pub banned_at: String,
}

/// A ban of an identity from one community.
#[derive(Debug, Clone, PartialEq, Eq)]
pub struct ServerBan {
    pub server_name: String,
    pub username: String,
    pub banned_by: String,
    pub reason: Option<String>,
    pub banned_at: String,
}

/// All durable state of the service.
#[derive(Debug, Clone, PartialEq, Eq)]
pub struct Store {
    pub users: Vec<User>,
    pub servers: Vec<Server>,
    pub server_members: Vec<ServerMember>,
    pub channels: Vec<Channel>,
    pub direct_messages: Vec<DirectMessage>,
    pub messages: Vec<Message>,
    pub files: Vec<File>,
    pub file_attachments: Vec<FileAttachment>,
    pub banned_usernames: Vec<SiteBan>,
    pub server_bans: Vec<ServerBan>,
    pub login_attempts: Vec<LoginAttempt>,
}

/// What the persistence layer reports when a query that needs a row finds
/// none.
pub const ROW_NOT_FOUND: &'static str =
    "no rows returned by a query that expected to return at least one row";

impl Store {
    /// Whether `user` holds the site-wide administrator flag. An identity
    /// without a row holds no flag.
    pub open spec fn site_admin(self, user: Seq<char>) -> bool {
        match first(self.users@, user_is(user)) {
            Some(u) => u.is_admin == 1,
            None => false,
        }
    }

    /// Whether `user` has a membership in the community `server`.
    pub open spec fn member(self, server: Seq<char>, user: Seq<char>) -> bool {
        any(self.server_members@, both(server_is(server), user_is(user)))
    }

    /// The role that `user` holds in the community `server`, if `user` is a
    /// member of it.
    pub open spec fn role_of(self, server: Seq<char>, user: Seq<char>) -> Option<Seq<char>> {
        match first(self.server_members@, both(server_is(server), user_is(user))) {
            Some(m) => Some(m.role@),
            None => None,
        }
    }

    /// Whether `user` is a member of the community `server` with the role
    /// "admin".
    pub open spec fn server_admin(self, server: Seq<char>, user: Seq<char>) -> bool {
        self.role_of(server, user) == Some("admin"@)
    }

    /// Whether `user` is on the ban list of the community `server`.
    pub open spec fn server_banned(self, server: Seq<char>, user: Seq<char>) -> bool {
        any(self.server_bans@, both(server_is(server), user_is(user)))
    }

    /// Whether the name `user`, whatever the case of its letters, is in the
    /// log of site bans.
    pub open spec fn site_banned(self, user: Seq<char>) -> bool {
        any(self.banned_usernames@, user_like(user))
    }

    /// Whether `user` is on the ban list of the community `server`.
    pub fn is_server_banned(&self, server: &str, user: &str) -> (r: bool)
        ensures
            r == self.server_banned(server@, user@),
    {
        exists_where(&self.server_bans, &Both(ServerIs(server), UserIs(user)))
    }

    /// Whether the name `user`, whatever the case of its letters, is in the
    /// log of site bans.
    pub fn is_site_banned(&self, user: &str) -> (r: bool)
        ensures
            r == self.site_banned(user@),
    {
        exists_where(&self.banned_usernames, &UserLike(user))
    }

    /// Whether `user` holds the site-wide administrator flag.
    pub fn is_site_admin(&self, user: &str) -> (r: bool)
        ensures
            r == self.site_admin(user@),
    {
        match position_where(&self.users, &UserIs(user)) {
            Some(i) => self.users[i].is_admin == 1,
            None => false,
        }
    }

    /// Whether `user` has a membership in the community `server`.
    pub fn is_member(&self, server: &str, user: &str) -> (r: bool)
        ensures
            r == self.member(server@, user@),
    {
        position_where(&self.server_members, &Both(ServerIs(server), UserIs(user))).is_some()
    }

    /// Whether `user` is a member of the community `server` with the role
    /// "admin".
    pub fn is_server_admin(&self, server: &str, user: &str) -> (r: bool)
        ensures
            r == self.server_admin(server@, user@),
    {
        match position_where(&self.server_members, &Both(ServerIs(server), UserIs(user))) {
            Some(i) => str_eq(self.server_members[i].role.as_str(), "admin"),
            None => false,
        }
    }

    /// A store in which every table is empty.
    pub fn new() -> (s: Store)
        ensures
            s.users@.len() == 0,
            s.servers@.len() == 0,
            s.server_members@.len() == 0,
            s.channels@.len() == 0,
            s.direct_messages@.len() == 0,
            s.messages@.len() == 0,
            s.files@.len() == 0,
            s.file_attachments@.len() == 0,
            s.banned_usernames@.len() == 0,
            s.server_bans@.len() == 0,
            s.login_attempts@.len() == 0,
    {
        Store {
            users: Vec::new(),
            servers: Vec::new(),
            server_members: Vec::new(),
            channels: Vec::new(),
            direct_messages: Vec::new(),
            messages: Vec::new(),
            files: Vec::new(),
            file_attachments: Vec::new(),
            banned_usernames: Vec::new(),
            server_bans: Vec::new(),
            login_attempts: Vec::new(),
        }
    }
}

} // verus!
