//! The messages that travel over a live connection: the few that a client
//! sends, and the events that the service publishes to every connection.
use vstd::prelude::*;
use crate::models::file::Attachment;
use crate::models::message::{Message, MessageWithSender};

use crate::services::messaging::MessageTarget;

verus! {

/// What a client sends.
#[derive(Debug, Clone, PartialEq, Eq)]
pub enum ClientMessage {
    Subscribe { channel_id: String },
    Unsubscribe { channel_id: String },
    SendMessage { channel_id: String, content: String },
    Typing { channel_id: String },
    Heartbeat,
}

/// What the service publishes. Every event carries what a client needs to
/// decide whether the event concerns it and to show it without asking
/// again.
#[derive(Debug, Clone, PartialEq, Eq)]
pub enum ServerMessage {
    Connected { username: String },
    NewMessage {
        message_id: String,
        channel_id: String,
        sender_username: String,
        content: String,
        filtered_content: Option<String>,
        content_type: String,
        filter_status: String,
        created_at: String,
        sender_profile_type: Option<String>,
        sender_avatar_color: Option<String>,
        attachments: Option<Vec<Attachment>>,
    },
    MessageDeleted { message_id: String, channel_id: Option<String>, dm_id: Option<String> },
    UserJoined { username: String, channel_id: String },
    UserLeft { username: String, channel_id: String },
    UserTyping { username: String, channel_id: String },
    ServerCreated { server_name: String, owner_username: String },
    ServerDeleted { server_name: String },
    ServerMemberJoined { server_name: String, username: String },
    ServerMemberLeft { server_name: String, username: String },
    ServerMemberRoleUpdated { server_name: String, username: String, new_role: String },
    UserOnlineStatusChanged { server_name: String, username: String, is_online: bool },
    ChannelCreated { server_name: String, channel_id: String, channel_name: String },
    ChannelDeleted { server_name: String, channel_id: String },
    ChannelRenamed { server_name: String, channel_id: String, new_name: String },
    UserBanned { username: String },
    NewDmMessage {
        message_id: String,
        dm_id: String,
        sender_username: String,
        content: String,
        filtered_content: Option<String>,
        content_type: String,
        filter_status: String,
        created_at: String,
        sender_profile_type: Option<String>,
        sender_avatar_color: Option<String>,
        attachments: Option<Vec<Attachment>>,
    },
    DmCreated { dm_id: String, username1: String, username2: String },
    ServerStatsUpdated { server_name: String, member_count: i64, channel_count: i64 },
    FileDownloaded { file_id: String, download_count: i64 },
    Error { message: String },
    Pong,
}

/// The answer that a message from a client gets at once, if any: a
/// heartbeat is acknowledged; nothing else is answered.
pub open spec fn answer_to(msg: ClientMessage) -> Option<ServerMessage> {
    match msg {
        ClientMessage::Heartbeat => Some(ServerMessage::Pong),
        _ => None,
    }
}

/// The answer that a message from a client gets at once, if any.
pub fn reply_to(msg: &ClientMessage) -> (r: Option<ServerMessage>)
    ensures
        r == answer_to(*msg),
{
    match msg {
        ClientMessage::Heartbeat => Some(ServerMessage::Pong),
        _ => None,
    }
}

/// A copy of a list of attachments.
pub fn copy_attachments(list: &Vec<Attachment>) -> (r: Vec<Attachment>)
    ensures
        r@ == list@,
{
    let mut out: Vec<Attachment> = Vec::new();
    let mut i: usize = 0;
    while i < list.len()
        invariant
            i <= list@.len(),
            out@ == list@.take(i as int),
        decreases list@.len() - i,
    {
        out.push(list[i].duplicate());
        proof {
            assert(list@.take(i + 1) =~= list@.take(i as int).push(list@[i as int]));
        }
        i += 1;
    }
    proof {
        assert(list@.take(list@.len() as int) =~= list@);
    }
    out
}

/// The text of an optional string, or the empty text.
pub open spec fn text_or_default(s: Option<String>) -> Seq<char> {
    match s {
        Some(t) => t@,
        None => Seq::empty(),
    }
}

/// `e` announces the message `m` with the attachments `attachments` to the
/// readers of a target of the given kind.
pub open spec fn announces(
    e: ServerMessage,
    target: MessageTarget,
    m: MessageWithSender,
    attachments: Seq<Attachment>,
) -> bool {
    match target {
        MessageTarget::Channel => e matches ServerMessage::NewMessage {
            message_id,
            channel_id,
            sender_username,
            content,
            filtered_content,
            content_type,
            filter_status,
            created_at,
            sender_profile_type,
            sender_avatar_color,
            attachments: shown,
        } && {
            &&& message_id == m.message.id
            &&& channel_id@ == text_or_default(m.message.channel_id)
            &&& sender_username == m.message.sender_username
            &&& content == m.message.content
            &&& filtered_content == m.message.filtered_content
            &&& content_type == m.message.content_type
            &&& filter_status == m.message.filter_status
            &&& created_at == m.message.created_at
            &&& sender_profile_type == Some(m.sender_profile_type)
            &&& sender_avatar_color == m.sender_avatar_color
            &&& shown matches Some(list) && list@ == attachments
        },
        MessageTarget::DirectMessage => e matches ServerMessage::NewDmMessage {
            message_id,
            dm_id,
            sender_username,
            content,
            filtered_content,
            content_type,
            filter_status,
            created_at,
            sender_profile_type,
            sender_avatar_color,
            attachments: shown,
        } && {
            &&& message_id == m.message.id
            &&& dm_id@ == text_or_default(m.message.dm_id)
            &&& sender_username == m.message.sender_username
            &&& content == m.message.content
            &&& filtered_content == m.message.filtered_content
            &&& content_type == m.message.content_type
            &&& filter_status == m.message.filter_status
            &&& created_at == m.message.created_at
            &&& sender_profile_type == Some(m.sender_profile_type)
            &&& sender_avatar_color == m.sender_avatar_color
            &&& shown matches Some(list) && list@ == attachments
        },
    }
}

/// The event that announces a new message to the readers of its target.
pub fn new_message_event(target: MessageTarget, m: &MessageWithSender, attachments: &Vec<Attachment>) -> (e:
    ServerMessage)
    ensures
        announces(e, target, *m, attachments@),
{
    let message = &m.message;
    match target {
        MessageTarget::Channel => ServerMessage::NewMessage {
            message_id: message.id.clone(),
            channel_id: match &message.channel_id {
                Some(c) => c.clone(),
                None => String::new(),
            },
            sender_username: message.sender_username.clone(),
            content: message.content.clone(),
            filtered_content: message.filtered_content.clone(),
            content_type: message.content_type.clone(),
            filter_status: message.filter_status.clone(),
            created_at: message.created_at.clone(),
            sender_profile_type: Some(m.sender_profile_type.clone()),
            sender_avatar_color: m.sender_avatar_color.clone(),
            attachments: Some(copy_attachments(attachments)),
        },
        MessageTarget::DirectMessage => ServerMessage::NewDmMessage {
            message_id: message.id.clone(),
            dm_id: match &message.dm_id {
                Some(d) => d.clone(),
                None => String::new(),
            },
            sender_username: message.sender_username.clone(),
            content: message.content.clone(),
            filtered_content: message.filtered_content.clone(),
            content_type: message.content_type.clone(),
            filter_status: message.filter_status.clone(),
            created_at: message.created_at.clone(),
            sender_profile_type: Some(m.sender_profile_type.clone()),
            sender_avatar_color: m.sender_avatar_color.clone(),
            attachments: Some(copy_attachments(attachments)),
        },
    }
}

/// The event that tells the readers of a message that it was deleted.
pub fn message_deleted_event(m: Message) -> (e: ServerMessage)
    ensures
        e == (ServerMessage::MessageDeleted {
            message_id: m.id,
            channel_id: m.channel_id,
            dm_id: m.dm_id,
        }),
{
    ServerMessage::MessageDeleted { message_id: m.id, channel_id: m.channel_id, dm_id: m.dm_id }
}

/// What happens to the task that writes events to the socket of one
/// connection.
#[derive(Debug, Clone, PartialEq, Eq)]
pub enum WriterEvent {
    /// The bus delivered an event.
    Received(ServerMessage),
    /// The connection fell behind and the bus dropped this many of its
    /// oldest undelivered events.
    Lagged(u64),
    /// The bus is closed.
    Closed,
    /// The event could not be put into the form in which it is sent.
    NotSerialized,
    /// The event was written to the socket.
    Written,
    /// Writing to the socket failed.
    WriteFailed,
}

/// What the writing task of a connection does next.
#[derive(Debug, Clone, PartialEq, Eq)]
pub enum WriterAction {
    /// Write this event to the socket.
    Write(ServerMessage),
    /// Wait for the next event from the bus.
    Receive,
    /// End the task, and with it the connection.
    Stop,
}

/// What the writing task does after `event`: an event from the bus is
/// written; dropped events and an event that cannot be sent are passed
/// over; a closed bus and a failed write end the task. A failed write ends
/// this connection only: the bus and the other connections are not
/// touched.
pub open spec fn writer_action(event: WriterEvent) -> WriterAction {
    match event {
        WriterEvent::Received(e) => WriterAction::Write(e),
        WriterEvent::Lagged(_) => WriterAction::Receive,
        WriterEvent::Closed => WriterAction::Stop,
        WriterEvent::NotSerialized => WriterAction::Receive,
        WriterEvent::Written => WriterAction::Receive,
        WriterEvent::WriteFailed => WriterAction::Stop,
    }
}

/// What the writing task of a connection does after `event`.
pub fn writer_step(event: WriterEvent) -> (action: WriterAction)
    ensures
        action == writer_action(event),
{
    match event {
        WriterEvent::Received(e) => WriterAction::Write(e),
        WriterEvent::Lagged(_) => WriterAction::Receive,
        WriterEvent::Closed => WriterAction::Stop,
        WriterEvent::NotSerialized => WriterAction::Receive,
        WriterEvent::Written => WriterAction::Receive,
        WriterEvent::WriteFailed => WriterAction::Stop,
    }
}

} // verus!
