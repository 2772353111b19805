//! The orders in which rows are listed, and the copying of rows.
use vstd::prelude::*;
use crate::database::order::{Order, Row};
use crate::database::{ServerBan, SiteBan};
use crate::models::channel::Channel;
use crate::models::direct_message::DirectMessage;
use crate::models::file::{File, FileAttachment};
use crate::models::message::Message;
use crate::models::server::Server;
use crate::models::server_member::ServerMember;
use crate::models::user::{opt_text, User};
use crate::text::{lemma_name_le_total, lemma_name_le_transitive, name_le, str_lt};

verus! {

impl Row for Channel {
    fn copy(&self) -> (r: Channel) {
        self.duplicate()
    }
}

impl Row for DirectMessage {
    fn copy(&self) -> (r: DirectMessage) {
        self.duplicate()
    }
}

impl Row for File {
    fn copy(&self) -> (r: File) {
        self.duplicate()
    }
}

impl Row for Message {
    fn copy(&self) -> (r: Message) {
        self.duplicate()
    }
}

impl Row for Server {
    fn copy(&self) -> (r: Server) {
        self.duplicate()
    }
}

impl Row for ServerMember {
    fn copy(&self) -> (r: ServerMember) {
        self.duplicate()
    }
}

impl Row for User {
    fn copy(&self) -> (r: User) {
        self.duplicate()
    }
}

impl Row for FileAttachment {
    fn copy(&self) -> (r: FileAttachment) {
        FileAttachment {
            file_id: self.file_id.clone(),
            message_id: self.message_id.clone(),
            position: self.position,
        }
    }
}

impl Row for SiteBan {
    fn copy(&self) -> (r: SiteBan) {
        SiteBan {
            username: self.username.clone(),
            banned_by: self.banned_by.clone(),
            reason: self.reason.clone(),
            banned_at: self.banned_at.clone(),
        }
    }
}

impl Row for ServerBan {
    fn copy(&self) -> (r: ServerBan) {
        ServerBan {
            server_name: self.server_name.clone(),
            username: self.username.clone(),
            banned_by: self.banned_by.clone(),
            reason: self.reason.clone(),
            banned_at: self.banned_at.clone(),
        }
    }
}

/// Channels by position, lowest first.
pub struct ByPosition;

/// Messages by creation time, latest first.
pub struct NewestFirst;

/// Memberships by the time of joining, earliest first.
pub struct ByJoinTime;

/// Memberships by the name of the member.
pub struct ByMemberName;

/// Files by upload time, latest first.
pub struct LatestUploadFirst;

/// Conversations by the time of their last message, latest first;
/// conversations without a message come last.
pub struct LastActiveFirst;

/// Whether a channel at position `a` may be listed before one at `b`.
pub open spec fn by_position() -> spec_fn(Channel, Channel) -> bool {
    |a: Channel, b: Channel| a.position <= b.position
}

/// Whether message `a` may be listed before `b`: it is not older.
pub open spec fn newest_first() -> spec_fn(Message, Message) -> bool {
    |a: Message, b: Message| name_le(b.created_at@, a.created_at@)
}

/// Whether membership `a` may be listed before `b`: it did not start later.
pub open spec fn by_join_time() -> spec_fn(ServerMember, ServerMember) -> bool {
    |a: ServerMember, b: ServerMember| name_le(a.joined_at@, b.joined_at@)
}

/// Whether membership `a` may be listed before `b`: its member's name does
/// not come later.
pub open spec fn by_member_name() -> spec_fn(ServerMember, ServerMember) -> bool {
    |a: ServerMember, b: ServerMember| name_le(a.username@, b.username@)
}

/// Whether file `a` may be listed before `b`: it was not uploaded earlier.
pub open spec fn latest_upload_first() -> spec_fn(File, File) -> bool {
    |a: File, b: File| name_le(b.upload_time@, a.upload_time@)
}

/// Whether a conversation last active at `a` may be listed before one last
/// active at `b`.
pub open spec fn not_less_active(a: Option<Seq<char>>, b: Option<Seq<char>>) -> bool {
    match (a, b) {
        (_, None) => true,
        (None, Some(_)) => false,
        (Some(x), Some(y)) => name_le(y, x),
    }
}

/// Whether conversation `a` may be listed before `b`.
pub open spec fn last_active_first() -> spec_fn(DirectMessage, DirectMessage) -> bool {
    |a: DirectMessage, b: DirectMessage|
        not_less_active(opt_text(a.last_message_at), opt_text(b.last_message_at))
}

impl Order<Channel> for ByPosition {
    open spec fn before(&self) -> spec_fn(Channel, Channel) -> bool {
        by_position()
    }

    proof fn total(&self, a: Channel, b: Channel) {
    }

    proof fn transitive(&self, a: Channel, b: Channel, c: Channel) {
    }

    fn precedes(&self, a: &Channel, b: &Channel) -> (r: bool) {
        a.position <= b.position
    }
}

impl Order<Message> for NewestFirst {
    open spec fn before(&self) -> spec_fn(Message, Message) -> bool {
        newest_first()
    }

    proof fn total(&self, a: Message, b: Message) {
        lemma_name_le_total(a.created_at@, b.created_at@);
    }

    proof fn transitive(&self, a: Message, b: Message, c: Message) {
        lemma_name_le_transitive(c.created_at@, b.created_at@, a.created_at@);
    }

    fn precedes(&self, a: &Message, b: &Message) -> (r: bool) {
        !str_lt(a.created_at.as_str(), b.created_at.as_str())
    }
}

impl Order<ServerMember> for ByJoinTime {
    open spec fn before(&self) -> spec_fn(ServerMember, ServerMember) -> bool {
        by_join_time()
    }

    proof fn total(&self, a: ServerMember, b: ServerMember) {
        lemma_name_le_total(a.joined_at@, b.joined_at@);
    }

    proof fn transitive(&self, a: ServerMember, b: ServerMember, c: ServerMember) {
        lemma_name_le_transitive(a.joined_at@, b.joined_at@, c.joined_at@);
    }

    fn precedes(&self, a: &ServerMember, b: &ServerMember) -> (r: bool) {
        !str_lt(b.joined_at.as_str(), a.joined_at.as_str())
    }
}

impl Order<ServerMember> for ByMemberName {
    open spec fn before(&self) -> spec_fn(ServerMember, ServerMember) -> bool {
        by_member_name()
    }

    proof fn total(&self, a: ServerMember, b: ServerMember) {
        lemma_name_le_total(a.username@, b.username@);
    }

    proof fn transitive(&self, a: ServerMember, b: ServerMember, c: ServerMember) {
        lemma_name_le_transitive(a.username@, b.username@, c.username@);
    }

    fn precedes(&self, a: &ServerMember, b: &ServerMember) -> (r: bool) {
        !str_lt(b.username.as_str(), a.username.as_str())
    }
}

impl Order<File> for LatestUploadFirst {
    open spec fn before(&self) -> spec_fn(File, File) -> bool {
        latest_upload_first()
    }

    proof fn total(&self, a: File, b: File) {
        lemma_name_le_total(a.upload_time@, b.upload_time@);
    }

    proof fn transitive(&self, a: File, b: File, c: File) {
        lemma_name_le_transitive(c.upload_time@, b.upload_time@, a.upload_time@);
    }

    fn precedes(&self, a: &File, b: &File) -> (r: bool) {
        !str_lt(a.upload_time.as_str(), b.upload_time.as_str())
    }
}

impl Order<DirectMessage> for LastActiveFirst {
    open spec fn before(&self) -> spec_fn(DirectMessage, DirectMessage) -> bool {
        last_active_first()
    }

    proof fn total(&self, a: DirectMessage, b: DirectMessage) {
        match (a.last_message_at, b.last_message_at) {
            (Some(x), Some(y)) => {
                lemma_name_le_total(x@, y@);
            },
            _ => {},
        }
    }

    proof fn transitive(&self, a: DirectMessage, b: DirectMessage, c: DirectMessage) {
        match (a.last_message_at, b.last_message_at, c.last_message_at) {
            (Some(x), Some(y), Some(z)) => {
                lemma_name_le_transitive(z@, y@, x@);
            },
            _ => {},
        }
    }

    fn precedes(&self, a: &DirectMessage, b: &DirectMessage) -> (r: bool) {
        match (&a.last_message_at, &b.last_message_at) {
            (_, None) => true,
            (None, Some(_)) => false,
            (Some(x), Some(y)) => !str_lt(x.as_str(), y.as_str()),
        }
    }
}

/// Communities by creation time, latest first.
pub struct NewestServerFirst;

/// Identities by creation time, latest first.
pub struct NewestUserFirst;

/// Site bans by the time of the ban, latest first.
pub struct LatestBanFirst;

/// Links between files and messages by position, lowest first.
pub struct LinksByPosition;

/// Whether community `a` may be listed before `b`: it is not older.
pub open spec fn newest_server_first() -> spec_fn(Server, Server) -> bool {
    |a: Server, b: Server| name_le(b.created_at@, a.created_at@)
}

/// Whether identity `a` may be listed before `b`: it is not older.
pub open spec fn newest_user_first() -> spec_fn(User, User) -> bool {
    |a: User, b: User| name_le(b.created_at@, a.created_at@)
}

/// Whether ban `a` may be listed before `b`: it is not older.
pub open spec fn latest_ban_first() -> spec_fn(SiteBan, SiteBan) -> bool {
    |a: SiteBan, b: SiteBan| name_le(b.banned_at@, a.banned_at@)
}

/// Whether link `a` may be listed before `b`: its position is not higher.
pub open spec fn links_by_position() -> spec_fn(FileAttachment, FileAttachment) -> bool {
    |a: FileAttachment, b: FileAttachment| a.position <= b.position
}

impl Order<Server> for NewestServerFirst {
    open spec fn before(&self) -> spec_fn(Server, Server) -> bool {
        newest_server_first()
    }

    proof fn total(&self, a: Server, b: Server) {
        lemma_name_le_total(a.created_at@, b.created_at@);
    }

    proof fn transitive(&self, a: Server, b: Server, c: Server) {
        lemma_name_le_transitive(c.created_at@, b.created_at@, a.created_at@);
    }

    fn precedes(&self, a: &Server, b: &Server) -> (r: bool) {
        !str_lt(a.created_at.as_str(), b.created_at.as_str())
    }
}

impl Order<User> for NewestUserFirst {
    open spec fn before(&self) -> spec_fn(User, User) -> bool {
        newest_user_first()
    }

    proof fn total(&self, a: User, b: User) {
        lemma_name_le_total(a.created_at@, b.created_at@);
    }

    proof fn transitive(&self, a: User, b: User, c: User) {
        lemma_name_le_transitive(c.created_at@, b.created_at@, a.created_at@);
    }

    fn precedes(&self, a: &User, b: &User) -> (r: bool) {
        !str_lt(a.created_at.as_str(), b.created_at.as_str())
    }
}

impl Order<SiteBan> for LatestBanFirst {
    open spec fn before(&self) -> spec_fn(SiteBan, SiteBan) -> bool {
        latest_ban_first()
    }

    proof fn total(&self, a: SiteBan, b: SiteBan) {
        lemma_name_le_total(a.banned_at@, b.banned_at@);
    }

    proof fn transitive(&self, a: SiteBan, b: SiteBan, c: SiteBan) {
        lemma_name_le_transitive(c.banned_at@, b.banned_at@, a.banned_at@);
    }

    fn precedes(&self, a: &SiteBan, b: &SiteBan) -> (r: bool) {
        !str_lt(a.banned_at.as_str(), b.banned_at.as_str())
    }
}

impl Order<FileAttachment> for LinksByPosition {
    open spec fn before(&self) -> spec_fn(FileAttachment, FileAttachment) -> bool {
        links_by_position()
    }

    proof fn total(&self, a: FileAttachment, b: FileAttachment) {
    }

    proof fn transitive(&self, a: FileAttachment, b: FileAttachment, c: FileAttachment) {
    }

    fn precedes(&self, a: &FileAttachment, b: &FileAttachment) -> (r: bool) {
        a.position <= b.position
    }
}

} // verus!
