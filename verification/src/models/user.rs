//! Identities and the requests that create them.
use vstd::prelude::*;
use crate::text::str_eq;
use crate::utils::clock::{
    instant_lt, now_rfc3339, parse_instant, rfc3339_instant, system_now, Instant,
};

verus! {

/// An identity row. `is_admin` is 1 for a site administrator;
/// `account_locked` is 1 while `lock_until` has not passed.
#[derive(Debug, Clone, PartialEq, Eq)]
pub struct User {
    pub username: String,
    pub password_hash: String,
    pub password_type: String,
    pub word_sequence: Option<String>,
    pub profile_type: String,
    pub avatar_color: Option<String>,
    pub created_at: String,
    pub last_login: Option<String>,
    pub login_attempts: i64,
    pub account_locked: i64,
    pub lock_until: Option<String>,
    pub is_admin: i64,
}

/// How an identity proves itself.
#[derive(Debug, Clone, Copy, PartialEq, Eq, Structural)]
pub enum PasswordType {
    Text,
    WordSequence,
}

/// How an identity is shown: a generated picture with its seed, or a person
/// icon with its colour.
#[derive(Debug, Clone, PartialEq, Eq)]
pub enum ProfileType {
    Identicon(String),
    Person(String),
}

/// A request to register an identity.
#[derive(Debug, Clone, PartialEq, Eq)]
pub struct CreateUserRequest {
    pub username: String,
    pub password: Option<String>,
    pub word_sequence: Option<Vec<String>>,
    pub profile_type: ProfileType,
}

/// What is shown of an identity to its owner and to others.
#[derive(Debug, Clone, PartialEq, Eq)]
pub struct UserResponse {
    pub username: String,
    pub profile_type: String,
    pub avatar_color: Option<String>,
    pub created_at: String,
    pub is_admin: bool,
}

/// The text of a password type.
pub open spec fn password_type_text(t: PasswordType) -> Seq<char> {
    match t {
        PasswordType::Text => "text"@,
        PasswordType::WordSequence => "word_sequence"@,
    }
}

/// The password type that a text names, if any.
pub open spec fn password_type_named(s: Seq<char>) -> Option<PasswordType> {
    if s == "text"@ {
        Some(PasswordType::Text)
    } else if s == "word_sequence"@ {
        Some(PasswordType::WordSequence)
    } else {
        None
    }
}

/// The views of a sequence of strings.
pub open spec fn texts(words: Seq<String>) -> Seq<Seq<char>> {
    words.map_values(|w: String| w@)
}

/// The JSON text that `serde_json` writes for an array of strings.
pub uninterp spec fn json_array_text(words: Seq<Seq<char>>) -> Seq<char>;

/// The JSON text of an array of strings.
///
/// Calls `serde_json::to_string` on the list; the result is the value named
/// [`json_array_text`]. Writing a list of strings to a string has no error
/// case; the empty string stands for it.
#[verifier::external_body]
pub(crate) fn words_to_json(words: &Vec<String>) -> (r: String)
    ensures
        r@ == json_array_text(texts(words@)),
{
    match serde_json::to_string(words) {
        Ok(s) => s,
        Err(_) => String::new(),
    }
}

impl PasswordType {
    /// The text of this password type.
    pub fn as_str(&self) -> (s: &'static str)
        ensures
            s@ == password_type_text(*self),
    {
        match self {
            PasswordType::Text => "text",
            PasswordType::WordSequence => "word_sequence",
        }
    }

    /// The password type named by `s`, if any.
    pub fn parse(s: &str) -> (r: Option<PasswordType>)
        ensures
            r == password_type_named(s@),
    {
        if str_eq(s, "text") {
            Some(PasswordType::Text)
        } else if str_eq(s, "word_sequence") {
            Some(PasswordType::WordSequence)
        } else {
            None
        }
    }
}

/// The text of the kind of a profile.
pub open spec fn profile_type_text(p: ProfileType) -> Seq<char> {
    match p {
        ProfileType::Identicon(_) => "identicon"@,
        ProfileType::Person(_) => "person"@,
    }
}

/// The seed or colour that a profile carries.
pub open spec fn profile_data(p: ProfileType) -> Seq<char> {
    match p {
        ProfileType::Identicon(d) => d@,
        ProfileType::Person(d) => d@,
    }
}

/// The colour of a profile that has one.
pub open spec fn profile_color(p: ProfileType) -> Option<Seq<char>> {
    match p {
        ProfileType::Identicon(_) => None,
        ProfileType::Person(d) => Some(d@),
    }
}

/// The text of an optional string; the empty text where there is none.
pub open spec fn text_or_empty(s: Option<String>) -> Seq<char> {
    match s {
        Some(t) => t@,
        None => Seq::empty(),
    }
}

/// The view of an optional string.
pub open spec fn opt_text(s: Option<String>) -> Option<Seq<char>> {
    match s {
        Some(t) => Some(t@),
        None => None,
    }
}

impl ProfileType {
    /// The text of the kind of this profile.
    pub fn as_str(&self) -> (s: &'static str)
        ensures
            s@ == profile_type_text(*self),
    {
        match self {
            ProfileType::Identicon(_) => "identicon",
            ProfileType::Person(_) => "person",
        }
    }

    /// The profile of the kind that `type_str` names, carrying `data` (or
    /// nothing, if there is none); `None` if `type_str` names no kind.
    pub fn from_str_with_data(type_str: &str, data: Option<String>) -> (r: Option<ProfileType>)
        ensures
            match r {
                Some(ProfileType::Identicon(d)) => type_str@ == "identicon"@ && d@ == text_or_empty(
                    data,
                ),
                Some(ProfileType::Person(d)) => type_str@ != "identicon"@ && type_str@ == "person"@
                    && d@ == text_or_empty(data),
                None => type_str@ != "identicon"@ && type_str@ != "person"@,
            },
    {
        let payload = match data {
            Some(d) => d,
            None => String::new(),
        };
        if str_eq(type_str, "identicon") {
            Some(ProfileType::Identicon(payload))
        } else if str_eq(type_str, "person") {
            Some(ProfileType::Person(payload))
        } else {
            None
        }
    }

    /// The seed or colour that this profile carries.
    pub fn data(&self) -> (s: &str)
        ensures
            s@ == profile_data(*self),
    {
        match self {
            ProfileType::Identicon(data) => data.as_str(),
            ProfileType::Person(data) => data.as_str(),
        }
    }
}

impl UserResponse {
    /// What is shown of `user`.
    pub fn from(user: User) -> (r: UserResponse)
        ensures
            r.username == user.username,
            r.profile_type == user.profile_type,
            r.avatar_color == user.avatar_color,
            r.created_at == user.created_at,
            r.is_admin == (user.is_admin == 1),
    {
        UserResponse {
            username: user.username,
            profile_type: user.profile_type,
            avatar_color: user.avatar_color,
            created_at: user.created_at,
            is_admin: user.is_admin == 1,
        }
    }
}

impl User {
    /// A new identity created now: never logged in, not locked, with no
    /// failed attempts. A word sequence is stored as a JSON array.
    pub fn new(
        username: String,
        password_hash: String,
        password_type: PasswordType,
        word_sequence: Option<Vec<String>>,
        profile_type: ProfileType,
        is_admin: bool,
    ) -> (u: User)
        ensures
            u.username == username,
            u.password_hash == password_hash,
            u.password_type@ == password_type_text(password_type),
            opt_text(u.word_sequence) == (match word_sequence {
                Some(ws) => Some(json_array_text(texts(ws@))),
                None => None,
            }),
            u.profile_type@ == profile_type_text(profile_type),
            opt_text(u.avatar_color) == profile_color(profile_type),
            u.last_login is None,
            u.login_attempts == 0,
            u.account_locked == 0,
            u.lock_until is None,
            u.is_admin == (if is_admin { 1i64 } else { 0i64 }),
    {
        let word_seq_json = match &word_sequence {
            Some(ws) => Some(words_to_json(ws)),
            None => None,
        };
        let kind = profile_type.as_str().to_string();
        let avatar_color = match profile_type {
            ProfileType::Person(color) => Some(color),
            ProfileType::Identicon(_) => None,
        };
        User {
            username,
            password_hash,
            password_type: password_type.as_str().to_string(),
            word_sequence: word_seq_json,
            profile_type: kind,
            avatar_color,
            created_at: now_rfc3339(),
            last_login: None,
            login_attempts: 0,
            account_locked: 0,
            lock_until: None,
            is_admin: if is_admin { 1 } else { 0 },
        }
    }

    /// Whether the account is locked at `now`: it is marked as locked and its
    /// lock time is a valid time that `now` has not reached.
    pub open spec fn locked_at(self, now: Instant) -> bool {
        self.account_locked != 0 && (match self.lock_until {
            Some(text) => match rfc3339_instant(text@) {
                Some((secs, nanos)) => instant_lt(now, Instant { secs, nanos }),
                None => false,
            },
            None => false,
        })
    }

    /// Whether the account is locked at `now`.
    pub fn is_locked_at(&self, now: Instant) -> (r: bool)
        ensures
            r == self.locked_at(now),
    {
        if self.account_locked == 0 {
            return false;
        }
        match &self.lock_until {
            Some(text) => match parse_instant(text.as_str()) {
                Some(lock_time) => now.is_before(&lock_time),
                None => false,
            },
            None => false,
        }
    }

    /// Whether the account is locked now.
    pub fn is_locked(&self) -> (r: bool)
        ensures
            exists|now: Instant| r == self.locked_at(now),
            self.account_locked == 0 ==> !r,
            self.lock_until is None ==> !r,
    {
        self.is_locked_at(system_now())
    }

    /// A copy of this row.
    pub fn duplicate(&self) -> (u: User)
        ensures
            u == *self,
    {
        User {
            username: self.username.clone(),
            password_hash: self.password_hash.clone(),
            password_type: self.password_type.clone(),
            word_sequence: self.word_sequence.clone(),
            profile_type: self.profile_type.clone(),
            avatar_color: self.avatar_color.clone(),
            created_at: self.created_at.clone(),
            last_login: self.last_login.clone(),
            login_attempts: self.login_attempts,
            account_locked: self.account_locked,
            lock_until: self.lock_until.clone(),
            is_admin: self.is_admin,
        }
    }
}

} // verus!
