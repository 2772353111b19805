//! Messages, in channels and in direct conversations.
use vstd::prelude::*;
use crate::utils::clock::now_rfc3339;
use crate::utils::ids::new_id;

verus! {

/// A message row. Exactly one of `channel_id` and `dm_id` names its target.
/// `filtered_content` holds the censored copy of a message whose
/// `filter_status` is `"filtered"`. `is_deleted` is 1 once the message has
/// been deleted; the row and its content stay.
#[derive(Debug, Clone, PartialEq, Eq)]
pub struct Message {
    pub id: String,
    pub channel_id: Option<String>,
    pub dm_id: Option<String>,
    pub sender_username: String,
    pub content: String,
    pub filtered_content: Option<String>,
    pub content_type: String,
    pub created_at: String,
    pub edited_at: Option<String>,
    pub is_deleted: i64,
    pub filter_status: String,
}

/// A message together with the display attributes of its sender.
#[derive(Debug, Clone, PartialEq, Eq)]
pub struct MessageWithSender {
    pub message: Message,
    pub sender_profile_type: String,
    pub sender_avatar_color: Option<String>,
}

/// How the content of a message is to be read.
#[derive(Debug, Clone, Copy, PartialEq, Eq, Structural)]
pub enum ContentType {
    Text,
    Markdown,
    FileAttachment,
}

/// What the censor found in a message.
#[derive(Debug, Clone, Copy, PartialEq, Eq, Structural)]
pub enum FilterStatus {
    Clean,
    Filtered,
    Warning,
}

/// The text of a content type.
pub open spec fn content_type_text(t: ContentType) -> Seq<char> {
    match t {
        ContentType::Text => "text"@,
        ContentType::Markdown => "markdown"@,
        ContentType::FileAttachment => "file_attachment"@,
    }
}

/// The text of a filter status.
pub open spec fn filter_status_text(s: FilterStatus) -> Seq<char> {
    match s {
        FilterStatus::Clean => "clean"@,
        FilterStatus::Filtered => "filtered"@,
        FilterStatus::Warning => "warning"@,
    }
}

impl ContentType {
    /// The text of this content type.
    pub fn as_str(&self) -> (s: &'static str)
        ensures
            s@ == content_type_text(*self),
    {
        match self {
            ContentType::Text => "text",
            ContentType::Markdown => "markdown",
            ContentType::FileAttachment => "file_attachment",
        }
    }
}

impl FilterStatus {
    /// The text of this filter status.
    pub fn as_str(&self) -> (s: &'static str)
        ensures
            s@ == filter_status_text(*self),
    {
        match self {
            FilterStatus::Clean => "clean",
            FilterStatus::Filtered => "filtered",
            FilterStatus::Warning => "warning",
        }
    }
}

impl Message {
    /// A new message sent now, not deleted and never edited, with a fresh
    /// identifier.
    pub fn new(
        channel_id: Option<String>,
        dm_id: Option<String>,
        sender_username: String,
        content: String,
        content_type: ContentType,
        filter_status: FilterStatus,
        filtered_content: Option<String>,
    ) -> (m: Message)
        ensures
            m.channel_id == channel_id,
            m.dm_id == dm_id,
            m.sender_username == sender_username,
            m.content == content,
            m.filtered_content == filtered_content,
            m.content_type@ == content_type_text(content_type),
            m.edited_at is None,
            m.is_deleted == 0,
            m.filter_status@ == filter_status_text(filter_status),
    {
        Message {
            id: new_id(),
            channel_id,
            dm_id,
            sender_username,
            content,
            filtered_content,
            content_type: content_type.as_str().to_string(),
            created_at: now_rfc3339(),
            edited_at: None,
            is_deleted: 0,
            filter_status: filter_status.as_str().to_string(),
        }
    }

    /// A copy of this row.
    pub fn duplicate(&self) -> (m: Message)
        ensures
            m == *self,
    {
        Message {
            id: self.id.clone(),
            channel_id: self.channel_id.clone(),
            dm_id: self.dm_id.clone(),
            sender_username: self.sender_username.clone(),
            content: self.content.clone(),
            filtered_content: self.filtered_content.clone(),
            content_type: self.content_type.clone(),
            created_at: self.created_at.clone(),
            edited_at: self.edited_at.clone(),
            is_deleted: self.is_deleted,
            filter_status: self.filter_status.clone(),
        }
    }
}

impl MessageWithSender {
    /// A copy of this value.
    pub fn duplicate(&self) -> (m: MessageWithSender)
        ensures
            m == *self,
    {
        MessageWithSender {
            message: self.message.duplicate(),
            sender_profile_type: self.sender_profile_type.clone(),
            sender_avatar_color: self.sender_avatar_color.clone(),
        }
    }
}

} // verus!
