//! Memberships: the relationship that binds an identity to a community.
use vstd::prelude::*;
use crate::utils::clock::now_rfc3339;

verus! {

/// A membership row. `role` is the text of a [`ServerRole`]; `is_online` is 1
/// while the identity has a live connection.
#[derive(Debug, Clone, PartialEq, Eq)]
pub struct ServerMember {
    pub server_name: String,
    pub username: String,
    pub role: String,
    pub joined_at: String,
    pub last_seen: String,
    pub is_online: i64,
    pub position: i64,
    pub profile_type: Option<String>,
    pub avatar_color: Option<String>,
}

/// The role that a membership carries.
#[derive(Debug, Clone, Copy, PartialEq, Eq, Structural)]
pub enum ServerRole {
    Member,
    Admin,
}

/// The text of a role.
pub open spec fn role_text(role: ServerRole) -> Seq<char> {
    match role {
        ServerRole::Member => "member"@,
        ServerRole::Admin => "admin"@,
    }
}

impl ServerRole {
    /// The text of this role.
    pub fn as_str(&self) -> (s: &'static str)
        ensures
            s@ == role_text(*self),
    {
        match self {
            ServerRole::Member => "member",
            ServerRole::Admin => "admin",
        }
    }
}

impl ServerMember {
    /// A new membership that starts now: offline, at position zero, without
    /// profile attributes.
    pub fn new(server_name: String, username: String, role: ServerRole) -> (m: ServerMember)
        ensures
            m.server_name == server_name,
            m.username == username,
            m.role@ == role_text(role),
            m.joined_at == m.last_seen,
            m.is_online == 0,
            m.position == 0,
            m.profile_type is None,
            m.avatar_color is None,
    {
        let now = now_rfc3339();
        ServerMember {
            server_name,
            username,
            role: role.as_str().to_string(),
            joined_at: now.clone(),
            last_seen: now,
            is_online: 0,
            position: 0,
            profile_type: None,
            avatar_color: None,
        }
    }

    /// A copy of this row.
    pub fn duplicate(&self) -> (m: ServerMember)
        ensures
            m == *self,
    {
        ServerMember {
            server_name: self.server_name.clone(),
            username: self.username.clone(),
            role: self.role.clone(),
            joined_at: self.joined_at.clone(),
            last_seen: self.last_seen.clone(),
            is_online: self.is_online,
            position: self.position,
            profile_type: self.profile_type.clone(),
            avatar_color: self.avatar_color.clone(),
        }
    }
}

} // verus!
