//! Communities.
use vstd::prelude::*;
use crate::utils::clock::now_rfc3339;

verus! {

/// A community row. `member_count` and `channel_count` cache the number of
/// membership rows and of live channels of the community.
#[derive(Debug, Clone, PartialEq, Eq)]
pub struct Server {
    pub name: String,
    pub creator_username: String,
    pub created_at: String,
    pub is_active: i64,
    pub member_count: i64,
    pub channel_count: i64,
}

impl Server {
    /// A new active community created now, with both counters at zero.
    pub fn new(name: String, creator_username: String) -> (s: Server)
        ensures
            s.name == name,
            s.creator_username == creator_username,
            s.is_active == 1,
            s.member_count == 0,
            s.channel_count == 0,
    {
        Server {
            name,
            creator_username,
            created_at: now_rfc3339(),
            is_active: 1,
            member_count: 0,
            channel_count: 0,
        }
    }

    /// A copy of this row.
    pub fn duplicate(&self) -> (s: Server)
        ensures
            s == *self,
    {
        Server {
            name: self.name.clone(),
            creator_username: self.creator_username.clone(),
            created_at: self.created_at.clone(),
            is_active: self.is_active,
            member_count: self.member_count,
            channel_count: self.channel_count,
        }
    }
}

} // verus!
