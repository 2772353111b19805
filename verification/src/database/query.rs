//! The conditions that queries put on rows: on the identity a row names, on
//! the community it belongs to, on its identifier, on whether it is live, and
//! combinations of these.
use vstd::prelude::*;
use crate::database::table::Matcher;
use crate::database::{ServerBan, SiteBan};
use crate::models::channel::Channel;
use crate::models::direct_message::DirectMessage;
use crate::models::file::File;
use crate::models::login_attempt::LoginAttempt;
use crate::models::message::Message;
use crate::models::server::Server;
use crate::models::server_member::ServerMember;
use crate::models::user::User;
use crate::text::{eq_ignore_case, same_name, str_eq};

verus! {

/// A row that names one identity: the identity itself, a member, a sender, an
/// uploader, a banned name.
pub trait HasUser {
    spec fn user(&self) -> Seq<char>;

    fn user_str(&self) -> (s: &str)
        ensures
            s@ == self.user(),
    ;
}

/// A row that belongs to one community; for a community, the row itself.
pub trait HasServer {
    spec fn server(&self) -> Seq<char>;

    fn server_str(&self) -> (s: &str)
        ensures
            s@ == self.server(),
    ;
}

/// A row with a generated identifier.
pub trait HasId {
    spec fn ident(&self) -> Seq<char>;

    fn id_str(&self) -> (s: &str)
        ensures
            s@ == self.ident(),
    ;
}

/// A row that can be switched off without being removed.
pub trait Liveness {
    spec fn live(&self) -> bool;

    fn is_live(&self) -> (r: bool)
        ensures
            r == self.live(),
    ;
}

impl HasUser for User {
    open spec fn user(&self) -> Seq<char> {
        self.username@
    }

    fn user_str(&self) -> (s: &str) {
        self.username.as_str()
    }
}

impl HasUser for ServerMember {
    open spec fn user(&self) -> Seq<char> {
        self.username@
    }

    fn user_str(&self) -> (s: &str) {
        self.username.as_str()
    }
}

impl HasUser for Message {
    open spec fn user(&self) -> Seq<char> {
        self.sender_username@
    }

    fn user_str(&self) -> (s: &str) {
        self.sender_username.as_str()
    }
}

impl HasUser for File {
    open spec fn user(&self) -> Seq<char> {
        self.uploader_username@
    }

    fn user_str(&self) -> (s: &str) {
        self.uploader_username.as_str()
    }
}

impl HasUser for SiteBan {
    open spec fn user(&self) -> Seq<char> {
        self.username@
    }

    fn user_str(&self) -> (s: &str) {
        self.username.as_str()
    }
}

impl HasUser for ServerBan {
    open spec fn user(&self) -> Seq<char> {
        self.username@
    }

    fn user_str(&self) -> (s: &str) {
        self.username.as_str()
    }
}

impl HasUser for LoginAttempt {
    open spec fn user(&self) -> Seq<char> {
        self.username@
    }

    fn user_str(&self) -> (s: &str) {
        self.username.as_str()
    }
}

impl HasServer for Server {
    open spec fn server(&self) -> Seq<char> {
        self.name@
    }

    fn server_str(&self) -> (s: &str) {
        self.name.as_str()
    }
}

impl HasServer for ServerMember {
    open spec fn server(&self) -> Seq<char> {
        self.server_name@
    }

    fn server_str(&self) -> (s: &str) {
        self.server_name.as_str()
    }
}

impl HasServer for Channel {
    open spec fn server(&self) -> Seq<char> {
        self.server_name@
    }

    fn server_str(&self) -> (s: &str) {
        self.server_name.as_str()
    }
}

impl HasServer for ServerBan {
    open spec fn server(&self) -> Seq<char> {
        self.server_name@
    }

    fn server_str(&self) -> (s: &str) {
        self.server_name.as_str()
    }
}

impl HasId for Channel {
    open spec fn ident(&self) -> Seq<char> {
        self.id@
    }

    fn id_str(&self) -> (s: &str) {
        self.id.as_str()
    }
}

impl HasId for DirectMessage {
    open spec fn ident(&self) -> Seq<char> {
        self.id@
    }

    fn id_str(&self) -> (s: &str) {
        self.id.as_str()
    }
}

impl HasId for Message {
    open spec fn ident(&self) -> Seq<char> {
        self.id@
    }

    fn id_str(&self) -> (s: &str) {
        self.id.as_str()
    }
}

impl HasId for File {
    open spec fn ident(&self) -> Seq<char> {
        self.id@
    }

    fn id_str(&self) -> (s: &str) {
        self.id.as_str()
    }
}

impl Liveness for Server {
    open spec fn live(&self) -> bool {
        self.is_active == 1
    }

    fn is_live(&self) -> (r: bool) {
        self.is_active == 1
    }
}

impl Liveness for Channel {
    open spec fn live(&self) -> bool {
        self.is_active == 1
    }

    fn is_live(&self) -> (r: bool) {
        self.is_active == 1
    }
}

impl Liveness for DirectMessage {
    open spec fn live(&self) -> bool {
        self.is_active == 1
    }

    fn is_live(&self) -> (r: bool) {
        self.is_active == 1
    }
}

impl Liveness for Message {
    open spec fn live(&self) -> bool {
        self.is_deleted == 0
    }

    fn is_live(&self) -> (r: bool) {
        self.is_deleted == 0
    }
}

impl Liveness for File {
    open spec fn live(&self) -> bool {
        self.is_deleted == 0
    }

    fn is_live(&self) -> (r: bool) {
        self.is_deleted == 0
    }
}

/// Rows that name exactly the identity `name`.
pub open spec fn user_is<T: HasUser>(name: Seq<char>) -> spec_fn(T) -> bool {
    |row: T| row.user() == name
}

/// Rows that name the identity `name`, whatever the case of its letters.
pub open spec fn user_like<T: HasUser>(name: Seq<char>) -> spec_fn(T) -> bool {
    |row: T| same_name(row.user(), name)
}

/// Rows of exactly the community `name`.
pub open spec fn server_is<T: HasServer>(name: Seq<char>) -> spec_fn(T) -> bool {
    |row: T| row.server() == name
}

/// Rows of the community `name`, whatever the case of its letters.
pub open spec fn server_like<T: HasServer>(name: Seq<char>) -> spec_fn(T) -> bool {
    |row: T| same_name(row.server(), name)
}

/// Rows with the identifier `id`.
pub open spec fn id_is<T: HasId>(id: Seq<char>) -> spec_fn(T) -> bool {
    |row: T| row.ident() == id
}

/// Rows that are live.
pub open spec fn live<T: Liveness>() -> spec_fn(T) -> bool {
    |row: T| row.live()
}

/// Every row.
pub open spec fn all<T>() -> spec_fn(T) -> bool {
    |row: T| true
}

/// Rows that meet both `p` and `q`.
pub open spec fn both<T>(p: spec_fn(T) -> bool, q: spec_fn(T) -> bool) -> spec_fn(T) -> bool {
    |row: T| p(row) && q(row)
}

/// Rows that meet `p` or `q`.
pub open spec fn either<T>(p: spec_fn(T) -> bool, q: spec_fn(T) -> bool) -> spec_fn(T) -> bool {
    |row: T| p(row) || q(row)
}

/// Rows that do not meet `p`.
pub open spec fn except<T>(p: spec_fn(T) -> bool) -> spec_fn(T) -> bool {
    |row: T| !p(row)
}

/// Selects the rows that name exactly one identity.
pub struct UserIs<'a>(pub &'a str);

/// Selects the rows that name one identity, whatever the case of its letters.
pub struct UserLike<'a>(pub &'a str);

/// Selects the rows of exactly one community.
pub struct ServerIs<'a>(pub &'a str);

/// Selects the rows of one community, whatever the case of its letters.
pub struct ServerLike<'a>(pub &'a str);

/// Selects the rows with one identifier.
pub struct IdIs<'a>(pub &'a str);

/// Selects the live rows.
pub struct Live;

/// Selects every row.
pub struct All;

/// Selects the rows that both conditions select.
pub struct Both<A, B>(pub A, pub B);

/// Selects the rows that either condition selects.
pub struct Either<A, B>(pub A, pub B);

/// Selects the rows that the condition does not select.
pub struct Except<A>(pub A);

impl<'a, T: HasUser> Matcher<T> for UserIs<'a> {
    open spec fn pred(&self) -> spec_fn(T) -> bool {
        user_is(self.0@)
    }

    fn test(&self, row: &T) -> (r: bool) {
        str_eq(row.user_str(), self.0)
    }
}

impl<'a, T: HasUser> Matcher<T> for UserLike<'a> {
    open spec fn pred(&self) -> spec_fn(T) -> bool {
        user_like(self.0@)
    }

    fn test(&self, row: &T) -> (r: bool) {
        eq_ignore_case(row.user_str(), self.0)
    }
}

impl<'a, T: HasServer> Matcher<T> for ServerIs<'a> {
    open spec fn pred(&self) -> spec_fn(T) -> bool {
        server_is(self.0@)
    }

    fn test(&self, row: &T) -> (r: bool) {
        str_eq(row.server_str(), self.0)
    }
}

impl<'a, T: HasServer> Matcher<T> for ServerLike<'a> {
    open spec fn pred(&self) -> spec_fn(T) -> bool {
        server_like(self.0@)
    }

    fn test(&self, row: &T) -> (r: bool) {
        eq_ignore_case(row.server_str(), self.0)
    }
}

impl<'a, T: HasId> Matcher<T> for IdIs<'a> {
    open spec fn pred(&self) -> spec_fn(T) -> bool {
        id_is(self.0@)
    }

    fn test(&self, row: &T) -> (r: bool) {
        str_eq(row.id_str(), self.0)
    }
}

impl<T: Liveness> Matcher<T> for Live {
    open spec fn pred(&self) -> spec_fn(T) -> bool {
        live()
    }

    fn test(&self, row: &T) -> (r: bool) {
        row.is_live()
    }
}

impl<T> Matcher<T> for All {
    open spec fn pred(&self) -> spec_fn(T) -> bool {
        all()
    }

    fn test(&self, row: &T) -> (r: bool) {
        true
    }
}

impl<T, A: Matcher<T>, B: Matcher<T>> Matcher<T> for Both<A, B> {
    open spec fn pred(&self) -> spec_fn(T) -> bool {
        both(self.0.pred(), self.1.pred())
    }

    fn test(&self, row: &T) -> (r: bool) {
        self.0.test(row) && self.1.test(row)
    }
}

impl<T, A: Matcher<T>, B: Matcher<T>> Matcher<T> for Either<A, B> {
    open spec fn pred(&self) -> spec_fn(T) -> bool {
        either(self.0.pred(), self.1.pred())
    }

    fn test(&self, row: &T) -> (r: bool) {
        self.0.test(row) || self.1.test(row)
    }
}

impl<T, A: Matcher<T>> Matcher<T> for Except<A> {
    open spec fn pred(&self) -> spec_fn(T) -> bool {
        except(self.0.pred())
    }

    fn test(&self, row: &T) -> (r: bool) {
        !self.0.test(row)
    }
}

/// Selects the rows whose identity has an identity row.
pub struct Known<'a>(pub &'a Vec<User>);

/// Rows that name an identity with a row in `users`.
pub open spec fn known<T: HasUser>(users: Seq<User>) -> spec_fn(T) -> bool {
    |row: T| crate::database::table::any(users, user_is(row.user()))
}

impl<'a, T: HasUser> Matcher<T> for Known<'a> {
    open spec fn pred(&self) -> spec_fn(T) -> bool {
        known(self.0@)
    }

    fn test(&self, row: &T) -> (r: bool) {
        crate::database::table::exists_where(self.0, &UserIs(row.user_str()))
    }
}

/// Selects the rows whose identity matches a search pattern.
pub struct UserMatches<'a>(pub &'a Vec<char>);

/// Selects the rows whose community matches a search pattern.
pub struct ServerMatches<'a>(pub &'a Vec<char>);

/// Rows whose identity matches the search pattern `pattern`.
pub open spec fn user_matches<T: HasUser>(pattern: Seq<char>) -> spec_fn(T) -> bool {
    |row: T| crate::text::like(pattern, row.user())
}

/// Rows whose community matches the search pattern `pattern`.
pub open spec fn server_matches<T: HasServer>(pattern: Seq<char>) -> spec_fn(T) -> bool {
    |row: T| crate::text::like(pattern, row.server())
}

impl<'a, T: HasUser> Matcher<T> for UserMatches<'a> {
    open spec fn pred(&self) -> spec_fn(T) -> bool {
        user_matches(self.0@)
    }

    fn test(&self, row: &T) -> (r: bool) {
        crate::text::matches_pattern(self.0, row.user_str())
    }
}

impl<'a, T: HasServer> Matcher<T> for ServerMatches<'a> {
    open spec fn pred(&self) -> spec_fn(T) -> bool {
        server_matches(self.0@)
    }

    fn test(&self, row: &T) -> (r: bool) {
        crate::text::matches_pattern(self.0, row.server_str())
    }
}

} // verus!
