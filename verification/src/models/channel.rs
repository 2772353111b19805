//! Channels: the ordered sub-spaces of a community in which messages are
//! posted.
use vstd::prelude::*;
use crate::utils::clock::now_rfc3339;
use crate::utils::ids::new_id;

verus! {

/// A channel row. `is_active` is 1 for a live channel and 0 for a deleted one.
#[derive(Debug, Clone, PartialEq, Eq)]
pub struct Channel {
    pub id: String,
    pub server_name: String,
    pub name: String,
    pub created_at: String,
    pub is_active: i64,
    pub message_count: i64,
    pub position: i64,
}

impl Channel {
    /// A new live channel without messages, with a fresh identifier and the
    /// current time as its creation time.
    pub fn new(server_name: String, name: String, position: i64) -> (c: Channel)
        ensures
            c.server_name == server_name,
            c.name == name,
            c.is_active == 1,
            c.message_count == 0,
            c.position == position,
    {
        Channel {
            id: new_id(),
            server_name,
            name,
            created_at: now_rfc3339(),
            is_active: 1,
            message_count: 0,
            position,
        }
    }

    /// A copy of this row.
    pub fn duplicate(&self) -> (c: Channel)
        ensures
            c == *self,
    {
        Channel {
            id: self.id.clone(),
            server_name: self.server_name.clone(),
            name: self.name.clone(),
            created_at: self.created_at.clone(),
            is_active: self.is_active,
            message_count: self.message_count,
            position: self.position,
        }
    }
}

} // verus!
