//! Uploaded files and their attachment to messages.
use vstd::prelude::*;
use crate::utils::clock::{format_instant, rfc3339_text, shifted, system_now, Instant};
use crate::utils::ids::new_id;

verus! {

/// A file row. `is_deleted` is 0 for a live file.
#[derive(Debug, Clone, PartialEq, Eq)]
pub struct File {
    pub id: String,
    pub original_name: String,
    pub file_name: String,
    pub content_type: String,
    pub size: i64,
    pub file_hash: String,
    pub upload_time: String,
    pub expires_at: String,
    pub download_count: i64,
    pub uploader_username: String,
    pub is_deleted: i64,
}

/// The link between a file and a message that shows it.
#[derive(Debug, Clone, PartialEq, Eq)]
pub struct FileAttachment {
    pub file_id: String,
    pub message_id: String,
    pub position: i64,
}

/// What a message shows of an attached file.
#[derive(Debug, Clone, PartialEq, Eq)]
pub struct Attachment {
    pub file_id: String,
    pub original_name: String,
    pub content_type: String,
    pub size: i64,
    pub download_count: i64,
}

/// Seconds for which an uploaded file is kept.
pub const FILE_LIFETIME_SECONDS: i64 = 86_400;

impl File {
    /// A new live file uploaded now, with a fresh identifier.
    pub fn new(
        original_name: String,
        file_name: String,
        content_type: String,
        size: i64,
        file_hash: String,
        uploader_username: String,
    ) -> (f: File)
        ensures
            f.original_name == original_name,
            f.file_name == file_name,
            f.content_type == content_type,
            f.size == size,
            f.file_hash == file_hash,
            f.uploader_username == uploader_username,
            f.download_count == 0,
            f.is_deleted == 0,
            exists|now: Instant|
                f.upload_time@ == rfc3339_text(now.secs, now.nanos) && f.expires_at@ == expiry_text(
                    now,
                ),
    {
        File::uploaded_at(
            system_now(),
            new_id(),
            original_name,
            file_name,
            content_type,
            size,
            file_hash,
            uploader_username,
        )
    }

    /// A new live file with identifier `id` uploaded at `now`; it expires one
    /// day later.
    pub fn uploaded_at(
        now: Instant,
        id: String,
        original_name: String,
        file_name: String,
        content_type: String,
        size: i64,
        file_hash: String,
        uploader_username: String,
    ) -> (f: File)
        ensures
            f.id == id,
            f.original_name == original_name,
            f.file_name == file_name,
            f.content_type == content_type,
            f.size == size,
            f.file_hash == file_hash,
            f.uploader_username == uploader_username,
            f.download_count == 0,
            f.is_deleted == 0,
            f.upload_time@ == rfc3339_text(now.secs, now.nanos),
            f.expires_at@ == expiry_text(now),
    {
        let expires = now.plus_seconds(FILE_LIFETIME_SECONDS);
        File {
            id,
            original_name,
            file_name,
            content_type,
            size,
            file_hash,
            upload_time: format_instant(now),
            expires_at: format_instant(expires),
            download_count: 0,
            uploader_username,
            is_deleted: 0,
        }
    }

    /// A copy of this row.
    pub fn duplicate(&self) -> (f: File)
        ensures
            f == *self,
    {
        File {
            id: self.id.clone(),
            original_name: self.original_name.clone(),
            file_name: self.file_name.clone(),
            content_type: self.content_type.clone(),
            size: self.size,
            file_hash: self.file_hash.clone(),
            upload_time: self.upload_time.clone(),
            expires_at: self.expires_at.clone(),
            download_count: self.download_count,
            uploader_username: self.uploader_username.clone(),
            is_deleted: self.is_deleted,
        }
    }
}

/// The expiry time, as text, of a file uploaded at `now`.
pub open spec fn expiry_text(now: Instant) -> Seq<char> {
    let later = shifted(now, FILE_LIFETIME_SECONDS);
    rfc3339_text(later.secs, later.nanos)
}

impl Attachment {
    /// A copy of this value.
    pub fn duplicate(&self) -> (a: Attachment)
        ensures
            a == *self,
    {
        Attachment {
            file_id: self.file_id.clone(),
            original_name: self.original_name.clone(),
            content_type: self.content_type.clone(),
            size: self.size,
            download_count: self.download_count,
        }
    }
}

} // verus!
