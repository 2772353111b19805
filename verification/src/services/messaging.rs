//! Sending and deleting messages, in channels and in direct conversations.
use vstd::prelude::*;
use crate::database::query::{both, id_is, user_is, Both, IdIs, UserIs};
use crate::database::table::{any, count, first, position_where, update_where, updated, Patch};
use crate::database::{Store, ROW_NOT_FOUND};
use crate::models::file::FileAttachment;
use crate::models::message::{Message, MessageWithSender};
use crate::models::user::opt_text;
use crate::services::profanity::{filter_profanity, filtered};
use crate::text::str_eq;
use crate::utils::clock::now_rfc3339;
use crate::utils::error::{
    fails_with, rejected_as, rejection, AppError, AppResult, ErrorKind, Rejection,
};
use crate::utils::ids::new_id;
use crate::utils::validation::{content_rejection, validate_message_content};

verus! {

/// Where a message goes: into a channel or into a direct conversation.
#[derive(Debug, Clone, Copy, PartialEq, Eq, Structural)]
pub enum MessageTarget {
    Channel,
    DirectMessage,
}

/// A request to send a message.
#[derive(Debug, Clone, PartialEq, Eq)]
pub struct SendMessageRequest {
    pub target_type: MessageTarget,
    pub target_id: String,
    pub content: String,
    pub content_type: String,
    pub file_id: Option<String>,
}

/// The filter status and the censored copy that a message gets.
pub struct Censorship {
    pub status: Seq<char>,
    pub copy: Option<Seq<char>>,
}

/// What the censor's verdict means for a message: flagged content is
/// "filtered" and keeps its censored copy, other content is "clean" and keeps
/// none.
pub open spec fn censorship_of(shown: Seq<char>, flagged: bool) -> Censorship {
    if flagged {
        Censorship { status: "filtered"@, copy: Some(shown) }
    } else {
        Censorship { status: "clean"@, copy: None }
    }
}

/// The filter status and censored copy of a message with the given content
/// for the given kind of target. Only channel messages are censored.
pub open spec fn censorship_for(target: MessageTarget, content: Seq<char>) -> Censorship {
    match target {
        MessageTarget::Channel => censorship_of(filtered(content).0, filtered(content).1),
        MessageTarget::DirectMessage => Censorship { status: "clean"@, copy: None },
    }
}

/// Turns the censor's verdict into the filter status and the censored copy of
/// a message.
pub fn classify(shown: String, flagged: bool) -> (r: (&'static str, Option<String>))
    ensures
        r.0@ == censorship_of(shown@, flagged).status,
        opt_text(r.1) == censorship_of(shown@, flagged).copy,
{
    if flagged {
        ("filtered", Some(shown))
    } else {
        ("clean", None)
    }
}

/// Why a message cannot be sent into the channel `channel_id`, if it cannot:
/// first because the channel does not exist; then because the sender is not
/// a member of its community; last for its content, which must not be empty
/// nor longer than 4000 bytes. Somebody without standing learns nothing
/// about the content.
pub open spec fn channel_send_rejection(
    s: Store,
    channel_id: Seq<char>,
    sender: Seq<char>,
    content: Seq<char>,
) -> Option<Rejection> {
    match first(s.channels@, id_is(channel_id)) {
        None => Some(rejection(ErrorKind::NotFound, "Channel not found")),
        Some(channel) => if !s.member(channel.server_name@, sender) {
            Some(
                rejection(
                    ErrorKind::Unauthorized,
                    "You must be a member of the server to send messages",
                ),
            )
        } else {
            content_rejection(content)
        },
    }
}

/// Why a message cannot be sent into the conversation `dm_id`, if it
/// cannot: first because the conversation does not exist; then because the
/// sender is neither of its two participants; last for its content, which
/// must not be empty nor longer than 4000 bytes.
pub open spec fn dm_send_rejection(
    s: Store,
    dm_id: Seq<char>,
    sender: Seq<char>,
    content: Seq<char>,
) -> Option<Rejection> {
    match first(s.direct_messages@, id_is(dm_id)) {
        None => Some(rejection(ErrorKind::NotFound, "Direct message conversation not found")),
        Some(dm) => if sender != dm.username1@ && sender != dm.username2@ {
            Some(rejection(ErrorKind::Unauthorized, "You are not part of this conversation"))
        } else {
            content_rejection(content)
        },
    }
}

/// Checks that `sender_username` may send `content` into the channel
/// `channel_id`.
pub fn check_channel_send(pool: &Store, channel_id: &str, sender_username: &str, content: &str) -> (res:
    AppResult<()>)
    ensures
        crate::utils::validation::decided(
            res,
            channel_send_rejection(*pool, channel_id@, sender_username@, content@),
        ),
{
    let idx = match position_where(&pool.channels, &IdIs(channel_id)) {
        Some(i) => i,
        None => {
            return Err(AppError::NotFound("Channel not found".to_string()));
        },
    };
    if !pool.is_member(pool.channels[idx].server_name.as_str(), sender_username) {
        return Err(
            AppError::Unauthorized(
                "You must be a member of the server to send messages".to_string(),
            ),
        );
    }
    validate_message_content(content)
}

/// Checks that `sender_username` may send `content` into the conversation
/// `dm_id`.
pub fn check_dm_send(pool: &Store, dm_id: &str, sender_username: &str, content: &str) -> (res:
    AppResult<()>)
    ensures
        crate::utils::validation::decided(
            res,
            dm_send_rejection(*pool, dm_id@, sender_username@, content@),
        ),
{
    let idx = match position_where(&pool.direct_messages, &IdIs(dm_id)) {
        Some(i) => i,
        None => {
            return Err(
                AppError::NotFound("Direct message conversation not found".to_string()),
            );
        },
    };
    if !str_eq(sender_username, pool.direct_messages[idx].username1.as_str()) && !str_eq(
        sender_username,
        pool.direct_messages[idx].username2.as_str(),
    ) {
        return Err(AppError::Unauthorized("You are not part of this conversation".to_string()));
    }
    validate_message_content(content)
}

/// Why a request to send is refused, if it is: first for its target, then
/// for the sender's standing in the target, then for its content.
pub open spec fn send_rejection(s: Store, req: SendMessageRequest, sender: Seq<char>) -> Option<
    Rejection,
> {
    match req.target_type {
        MessageTarget::Channel => channel_send_rejection(s, req.target_id@, sender, req.content@),
        MessageTarget::DirectMessage => dm_send_rejection(s, req.target_id@, sender, req.content@),
    }
}

/// `m` is the row of a message just sent: it targets exactly the requested
/// channel or conversation, carries the sender, the content and the content
/// type as given, is neither deleted nor edited, and is censored as its
/// target demands.
pub open spec fn is_sent(
    m: Message,
    target: MessageTarget,
    target_id: Seq<char>,
    sender: Seq<char>,
    content: Seq<char>,
    content_type: Seq<char>,
) -> bool {
    &&& match target {
        MessageTarget::Channel => opt_text(m.channel_id) == Some(target_id) && m.dm_id is None,
        MessageTarget::DirectMessage => opt_text(m.dm_id) == Some(target_id) && m.channel_id
            is None,
    }
    &&& m.sender_username@ == sender
    &&& m.content@ == content
    &&& m.content_type@ == content_type
    &&& m.edited_at is None
    &&& m.is_deleted == 0
    &&& m.filter_status@ == censorship_for(target, content).status
    &&& opt_text(m.filtered_content) == censorship_for(target, content).copy
}

/// The change that storing a sent message makes: the message is the new last
/// row of the messages; if a file came with it, a link from the file to the
/// message is the new last row of the attachments; nothing else changes. The
/// result is the message with the sender's display attributes, or a
/// persistence error if the sender has no identity row.
pub open spec fn stored(
    pre: Store,
    post: Store,
    file_id: Option<Seq<char>>,
    sender: Seq<char>,
    res: AppResult<MessageWithSender>,
) -> bool {
    let m = post.messages@.last();
    &&& post.messages@.len() == pre.messages@.len() + 1
    &&& post.messages@.drop_last() =~= pre.messages@
    &&& match file_id {
        Some(f) => {
            let a = post.file_attachments@.last();
            &&& post.file_attachments@.len() == pre.file_attachments@.len() + 1
            &&& post.file_attachments@.drop_last() =~= pre.file_attachments@
            &&& a.file_id@ == f
            &&& a.message_id@ == m.id@
            &&& a.position == 0
        },
        None => post.file_attachments == pre.file_attachments,
    }
    &&& post == (Store { messages: post.messages, file_attachments: post.file_attachments, ..pre })
    &&& match first(pre.users@, user_is(sender)) {
        Some(u) => res == Ok::<MessageWithSender, AppError>(
            MessageWithSender {
                message: m,
                sender_profile_type: u.profile_type,
                sender_avatar_color: u.avatar_color,
            },
        ),
        None => fails_with(res, ErrorKind::Database, ROW_NOT_FOUND),
    }
}

/// What sending does: a refused request changes nothing and reports why; an
/// accepted one stores the message.
pub open spec fn sent(
    pre: Store,
    post: Store,
    req: SendMessageRequest,
    sender: Seq<char>,
    res: AppResult<MessageWithSender>,
) -> bool {
    match send_rejection(pre, req, sender) {
        Some(r) => rejected_as(res, r) && post == pre,
        None => {
            &&& stored(pre, post, opt_text(req.file_id), sender, res)
            &&& is_sent(
                post.messages@.last(),
                req.target_type,
                req.target_id@,
                sender,
                req.content@,
                req.content_type@,
            )
        },
    }
}

/// Sends a message to a channel or a direct conversation.
///
/// The target must exist, the sender must be a member of the channel's
/// community or a participant of the conversation, and the content must be
/// non-empty and at most 4000 bytes long; a request that fails several of
/// these is refused for the first. Channel messages are run through the
/// censor; direct messages are not.
pub fn send_message(pool: &mut Store, request: SendMessageRequest, sender_username: &str) -> (res:
    AppResult<MessageWithSender>)
    ensures
        sent(*old(pool), *final(pool), request, sender_username@, res),
{
    let file_id: Option<&str> = match &request.file_id {
        Some(f) => Some(f.as_str()),
        None => None,
    };
    match request.target_type {
        MessageTarget::Channel => send_channel_message(
            pool,
            request.target_id.as_str(),
            sender_username,
            request.content.as_str(),
            request.content_type.as_str(),
            file_id,
        ),
        MessageTarget::DirectMessage => send_dm_message(
            pool,
            request.target_id.as_str(),
            sender_username,
            request.content.as_str(),
            request.content_type.as_str(),
            file_id,
        ),
    }
}

/// The view of an optional string slice.
pub open spec fn opt_str_text(s: Option<&str>) -> Option<Seq<char>> {
    match s {
        Some(t) => Some(t@),
        None => None,
    }
}

/// Sends a message into the channel `channel_id`: checks channel,
/// membership and content, and stores the message, censored.
pub fn send_channel_message(
    pool: &mut Store,
    channel_id: &str,
    sender_username: &str,
    content: &str,
    content_type: &str,
    file_id: Option<&str>,
) -> (res: AppResult<MessageWithSender>)
    ensures
        match channel_send_rejection(*old(pool), channel_id@, sender_username@, content@) {
            Some(r) => rejected_as(res, r) && *final(pool) == *old(pool),
            None => {
                &&& stored(*old(pool), *final(pool), opt_str_text(file_id), sender_username@, res)
                &&& is_sent(
                    final(pool).messages@.last(),
                    MessageTarget::Channel,
                    channel_id@,
                    sender_username@,
                    content@,
                    content_type@,
                )
            },
        },
{
    match check_channel_send(pool, channel_id, sender_username, content) {
        Err(e) => {
            return Err(e);
        },
        Ok(_) => {},
    }
    let (censored_text, has_profanity) = filter_profanity(content);
    let (filter_status, filtered_content) = classify(censored_text, has_profanity);
    let message = Message {
        id: new_id(),
        channel_id: Some(channel_id.to_string()),
        dm_id: None,
        sender_username: sender_username.to_string(),
        content: content.to_string(),
        filtered_content,
        content_type: content_type.to_string(),
        created_at: now_rfc3339(),
        edited_at: None,
        is_deleted: 0,
        filter_status: filter_status.to_string(),
    };
    store_message(pool, message, file_id, sender_username)
}

/// Sends a message into the conversation `dm_id`: checks conversation,
/// participation and content, and stores the message, uncensored.
pub fn send_dm_message(
    pool: &mut Store,
    dm_id: &str,
    sender_username: &str,
    content: &str,
    content_type: &str,
    file_id: Option<&str>,
) -> (res: AppResult<MessageWithSender>)
    ensures
        match dm_send_rejection(*old(pool), dm_id@, sender_username@, content@) {
            Some(r) => rejected_as(res, r) && *final(pool) == *old(pool),
            None => {
                &&& stored(*old(pool), *final(pool), opt_str_text(file_id), sender_username@, res)
                &&& is_sent(
                    final(pool).messages@.last(),
                    MessageTarget::DirectMessage,
                    dm_id@,
                    sender_username@,
                    content@,
                    content_type@,
                )
            },
        },
{
    match check_dm_send(pool, dm_id, sender_username, content) {
        Err(e) => {
            return Err(e);
        },
        Ok(_) => {},
    }
    let message = Message {
        id: new_id(),
        channel_id: None,
        dm_id: Some(dm_id.to_string()),
        sender_username: sender_username.to_string(),
        content: content.to_string(),
        filtered_content: None,
        content_type: content_type.to_string(),
        created_at: now_rfc3339(),
        edited_at: None,
        is_deleted: 0,
        filter_status: "clean".to_string(),
    };
    store_message(pool, message, file_id, sender_username)
}

/// Appends `message` to the messages, links the file to it if there is one,
/// and returns the message with the sender's display attributes.
fn store_message(
    pool: &mut Store,
    message: Message,
    file_id: Option<&str>,
    sender_username: &str,
) -> (res: AppResult<MessageWithSender>)
    ensures
        stored(*old(pool), *final(pool), opt_str_text(file_id), sender_username@, res),
        final(pool).messages@.last() == message,
{
    pool.messages.push(message.duplicate());
    match file_id {
        Some(fid) => {
            pool.file_attachments.push(
                FileAttachment {
                    file_id: fid.to_string(),
                    message_id: message.id.clone(),
                    position: 0,
                },
            );
        },
        None => {},
    }
    match position_where(&pool.users, &UserIs(sender_username)) {
        Some(i) => Ok(
            MessageWithSender {
                message,
                sender_profile_type: pool.users[i].profile_type.clone(),
                sender_avatar_color: pool.users[i].avatar_color.clone(),
            },
        ),
        None => Err(AppError::Database(ROW_NOT_FOUND.to_string())),
    }
}

/// Marks a message as deleted.
pub struct MarkDeleted;

/// A message marked as deleted; its content stays.
pub open spec fn marked_deleted() -> spec_fn(Message) -> Message {
    |m: Message| Message { is_deleted: 1, ..m }
}

impl Patch<Message> for MarkDeleted {
    open spec fn change(&self) -> spec_fn(Message) -> Message {
        marked_deleted()
    }

    fn apply(&self, row: &mut Message) {
        row.is_deleted = 1;
    }
}

/// Whether message `m` belongs to the stated target.
pub open spec fn belongs_to(m: Message, target: MessageTarget, target_id: Seq<char>) -> bool {
    match target {
        MessageTarget::Channel => opt_text(m.channel_id) == Some(target_id),
        MessageTarget::DirectMessage => opt_text(m.dm_id) == Some(target_id),
    }
}

/// Why `requester` may not delete message `m` of the stated target, if they
/// may not. The sender may; a site administrator may; for a channel message,
/// an administrator of the channel's community may. Nobody else may.
pub open spec fn delete_authorization(
    s: Store,
    target: MessageTarget,
    target_id: Seq<char>,
    m: Message,
    requester: Seq<char>,
) -> Option<Rejection> {
    if m.sender_username@ == requester {
        None
    } else if s.site_admin(requester) {
        None
    } else {
        match target {
            MessageTarget::Channel => match first(s.channels@, id_is(target_id)) {
                None => Some(rejection(ErrorKind::NotFound, "Channel not found")),
                Some(channel) => if s.server_admin(channel.server_name@, requester) {
                    None
                } else {
                    Some(
                        rejection(
                            ErrorKind::Unauthorized,
                            "You do not have permission to delete this message",
                        ),
                    )
                },
            },
            MessageTarget::DirectMessage => Some(
                rejection(
                    ErrorKind::Unauthorized,
                    "You do not have permission to delete this message",
                ),
            ),
        }
    }
}

/// Why a request to delete is refused, if it is: the message does not exist,
/// it does not belong to the stated target, or the requester may not delete
/// it.
pub open spec fn delete_rejection(
    s: Store,
    target: MessageTarget,
    target_id: Seq<char>,
    message_id: Seq<char>,
    requester: Seq<char>,
) -> Option<Rejection> {
    match first(s.messages@, id_is(message_id)) {
        None => Some(rejection(ErrorKind::NotFound, "Message not found")),
        Some(m) => if !belongs_to(m, target, target_id) {
            match target {
                MessageTarget::Channel => Some(
                    rejection(ErrorKind::BadRequest, "Message does not belong to this channel"),
                ),
                MessageTarget::DirectMessage => Some(
                    rejection(ErrorKind::BadRequest, "Message does not belong to this DM"),
                ),
            }
        } else {
            delete_authorization(s, target, target_id, m, requester)
        },
    }
}

/// What deleting does: a refused request changes nothing and reports why; an
/// accepted one marks every row with the message's identifier as deleted,
/// changes nothing else, and returns the message as it was.
pub open spec fn deleted(
    pre: Store,
    post: Store,
    target: MessageTarget,
    target_id: Seq<char>,
    message_id: Seq<char>,
    requester: Seq<char>,
    res: AppResult<Message>,
) -> bool {
    match delete_rejection(pre, target, target_id, message_id, requester) {
        Some(r) => rejected_as(res, r) && post == pre,
        None => {
            &&& post.messages@ == updated(pre.messages@, id_is(message_id), marked_deleted())
            &&& post == (Store { messages: post.messages, ..pre })
            &&& first(pre.messages@, id_is(message_id)) matches Some(m) && res == Ok::<
                Message,
                AppError,
            >(m)
        },
    }
}

/// Deletes a message on behalf of `requester_username`.
///
/// The message must exist and belong to the stated channel or conversation.
/// Its sender may delete it, and so may a site administrator; a channel
/// message may also be deleted by an administrator of the channel's
/// community. The row stays, marked as deleted.
pub fn delete_message(
    pool: &mut Store,
    target_type: MessageTarget,
    target_id: &str,
    message_id: &str,
    requester_username: &str,
) -> (res: AppResult<Message>)
    ensures
        deleted(
            *old(pool),
            *final(pool),
            target_type,
            target_id@,
            message_id@,
            requester_username@,
            res,
        ),
{
    let idx = match position_where(&pool.messages, &IdIs(message_id)) {
        Some(i) => i,
        None => {
            return Err(AppError::NotFound("Message not found".to_string()));
        },
    };
    let message = pool.messages[idx].duplicate();
    match target_type {
        MessageTarget::Channel => {
            let matches = match &message.channel_id {
                Some(c) => str_eq(c.as_str(), target_id),
                None => false,
            };
            if !matches {
                return Err(
                    AppError::BadRequest("Message does not belong to this channel".to_string()),
                );
            }
        },
        MessageTarget::DirectMessage => {
            let matches = match &message.dm_id {
                Some(d) => str_eq(d.as_str(), target_id),
                None => false,
            };
            if !matches {
                return Err(AppError::BadRequest("Message does not belong to this DM".to_string()));
            }
        },
    }
    let mut authorized = false;
    if str_eq(message.sender_username.as_str(), requester_username) {
        authorized = true;
    } else if pool.is_site_admin(requester_username) {
        authorized = true;
    } else if let MessageTarget::Channel = target_type {
        let channel = match position_where(&pool.channels, &IdIs(target_id)) {
            Some(i) => i,
            None => {
                return Err(AppError::NotFound("Channel not found".to_string()));
            },
        };
        if pool.is_server_admin(pool.channels[channel].server_name.as_str(), requester_username) {
            authorized = true;
        }
    }
    if authorized {
        update_where(&mut pool.messages, &IdIs(message_id), &MarkDeleted);
        return Ok(message);
    }
    Err(AppError::Unauthorized("You do not have permission to delete this message".to_string()))
}

/// A message as a reader gets it: with the display attributes of its sender
/// and with what is shown of its attached files.
#[derive(Debug, Clone, PartialEq, Eq)]
pub struct EnrichedMessage {
    pub message: MessageWithSender,
    pub attachments: Vec<crate::models::file::Attachment>,
}

/// What is shown of a file.
pub open spec fn shown_file(f: crate::models::file::File) -> crate::models::file::Attachment {
    crate::models::file::Attachment {
        file_id: f.id,
        original_name: f.original_name,
        content_type: f.content_type,
        size: f.size,
        download_count: f.download_count,
    }
}

/// What a link between a file and a message contributes to the attachments
/// of the message `message_id`: the linked file, if the link is to that
/// message and the file is live.
pub open spec fn attachment_of(s: Store, message_id: Seq<char>) -> spec_fn(FileAttachment) -> Option<
    crate::models::file::Attachment,
> {
    |link: FileAttachment|
        if link.message_id@ != message_id {
            None
        } else {
            match first(
                s.files@,
                both(id_is(link.file_id@), crate::database::query::live()),
            ) {
                Some(f) => Some(shown_file(f)),
                None => None,
            }
        }
}

/// The attachments of the message `message_id`, in the order of their
/// links.
pub open spec fn attachments_of(s: Store, message_id: Seq<char>) -> Seq<
    crate::models::file::Attachment,
> {
    s.file_attachments@.filter_map(attachment_of(s, message_id))
}

/// The attachments of a message.
pub fn attachments_for(pool: &Store, message_id: &str) -> (r: Vec<crate::models::file::Attachment>)
    ensures
        r@ == attachments_of(*pool, message_id@),
{
    let mut out: Vec<crate::models::file::Attachment> = Vec::new();
    let mut i: usize = 0;
    while i < pool.file_attachments.len()
        invariant
            i <= pool.file_attachments@.len(),
            out@ == pool.file_attachments@.take(i as int).filter_map(
                attachment_of(*pool, message_id@),
            ),
        decreases pool.file_attachments@.len() - i,
    {
        proof {
            assert(pool.file_attachments@.take(i + 1).drop_last()
                =~= pool.file_attachments@.take(i as int));
        }
        let ghost before = out@;
        let link = &pool.file_attachments[i];
        if str_eq(link.message_id.as_str(), message_id) {
            match position_where(
                &pool.files,
                &Both(IdIs(link.file_id.as_str()), crate::database::query::Live),
            ) {
                Some(k) => {
                    let f = &pool.files[k];
                    out.push(
                        crate::models::file::Attachment {
                            file_id: f.id.clone(),
                            original_name: f.original_name.clone(),
                            content_type: f.content_type.clone(),
                            size: f.size,
                            download_count: f.download_count,
                        },
                    );
                    proof {
                        assert(out@ =~= before + seq![out@.last()]);
                    }
                },
                None => {},
            }
        }
        i += 1;
    }
    proof {
        assert(pool.file_attachments@.take(pool.file_attachments@.len() as int)
            =~= pool.file_attachments@);
    }
    out
}

/// Whether `e` is the message `m` as a reader gets it.
pub open spec fn is_enriched(s: Store, m: Message, e: EnrichedMessage) -> bool {
    &&& e.message.message == m
    &&& first(s.users@, user_is(m.sender_username@)) matches Some(u)
        && e.message.sender_profile_type == u.profile_type && e.message.sender_avatar_color
        == u.avatar_color
    &&& e.attachments@ == attachments_of(s, m.id@)
}

/// The messages of a target that a reader gets: those that are not deleted
/// and whose sender has an identity row, in table order.
pub open spec fn readable(s: Store, target: MessageTarget, target_id: Seq<char>) -> Seq<Message> {
    s.messages@.filter(is_readable(s, target, target_id))
}

/// The condition that selects the messages of a target that a reader gets.
pub open spec fn is_readable(s: Store, target: MessageTarget, target_id: Seq<char>) -> spec_fn(
    Message,
) -> bool {
    let of_target = match target {
        MessageTarget::Channel => crate::services::chat::in_channel(target_id),
        MessageTarget::DirectMessage => crate::services::chat::in_conversation(target_id),
    };
    both(both(of_target, crate::database::query::live()), crate::database::query::known(s.users@))
}

/// `list` holds the messages `shown`, in order, each enriched.
pub open spec fn all_enriched(s: Store, shown: Seq<Message>, list: Seq<EnrichedMessage>) -> bool {
    &&& list.len() == shown.len()
    &&& forall|i: int| 0 <= i < shown.len() ==> is_enriched(s, shown[i], #[trigger] list[i])
}

/// What reading returns: a page of the readable messages of the target,
/// latest first, each enriched.
pub open spec fn is_reading(
    s: Store,
    target: MessageTarget,
    target_id: Seq<char>,
    limit: i64,
    offset: i64,
    list: Seq<EnrichedMessage>,
) -> bool {
    exists|listed: Seq<Message>|
        #[trigger] crate::database::order::is_sorting(
            readable(s, target, target_id),
            listed,
            crate::database::listing::newest_first(),
        ) && all_enriched(s, crate::database::order::page(listed, limit, offset), list)
}

/// The messages of a channel or conversation that are not deleted, latest
/// first, with their senders' display attributes and their attachments, as
/// the page that skips `offset` messages and holds at most `limit`.
pub fn get_messages(
    pool: &Store,
    target_type: MessageTarget,
    target_id: &str,
    limit: i64,
    offset: i64,
) -> (res: AppResult<Vec<EnrichedMessage>>)
    ensures
        res matches Ok(list) && is_reading(*pool, target_type, target_id@, limit, offset, list@),
{
    let rows = match target_type {
        MessageTarget::Channel => crate::database::order::select_where(
            &pool.messages,
            &Both(
                Both(crate::services::chat::InChannel(target_id), crate::database::query::Live),
                crate::database::query::Known(&pool.users),
            ),
        ),
        MessageTarget::DirectMessage => crate::database::order::select_where(
            &pool.messages,
            &Both(
                Both(
                    crate::services::chat::InConversation(target_id),
                    crate::database::query::Live,
                ),
                crate::database::query::Known(&pool.users),
            ),
        ),
    };
    let ghost selected = rows@;
    let ghost p = is_readable(*pool, target_type, target_id@);
    assert(selected == pool.messages@.filter(p));
    let listed = crate::database::order::sort_by(rows, &crate::database::listing::NewestFirst);
    let ghost listed_rows = listed@;
    let shown = crate::database::order::take_page(listed, limit, offset);
    proof {
        assert forall|i: int| 0 <= i < shown@.len() implies any(
            pool.users@,
            user_is(#[trigger] shown@[i].sender_username@),
        ) by {
            let m = shown@[i];
            assert(listed_rows.contains(m));
            listed_rows.to_multiset_ensures();
            selected.to_multiset_ensures();
            assert(listed_rows.to_multiset().count(m) > 0);
            assert(selected.to_multiset().count(m) > 0);
            assert(selected.contains(m));
            let k = choose|k: int| 0 <= k < selected.len() && selected[k] == m;
            pool.messages@.lemma_filter_pred(p, k);
            assert(p(m));
        }
    }
    let mut out: Vec<EnrichedMessage> = Vec::new();
    let mut i: usize = 0;
    while i < shown.len()
        invariant
            i <= shown@.len(),
            out@.len() == i,
            crate::database::order::is_sorting(
                readable(*pool, target_type, target_id@),
                listed_rows,
                crate::database::listing::newest_first(),
            ),
            shown@ == crate::database::order::page(listed_rows, limit, offset),
            forall|j: int| 0 <= j < shown@.len() ==> any(
                pool.users@,
                user_is(#[trigger] shown@[j].sender_username@),
            ),
            forall|j: int| 0 <= j < i ==> is_enriched(*pool, shown@[j], #[trigger] out@[j]),
        decreases shown@.len() - i,
    {
        let message = shown[i].duplicate();
        let attachments = attachments_for(pool, message.id.as_str());
        assert(any(pool.users@, user_is(shown@[i as int].sender_username@)));
        match position_where(&pool.users, &UserIs(message.sender_username.as_str())) {
            Some(k) => {
                out.push(
                    EnrichedMessage {
                        message: MessageWithSender {
                            message,
                            sender_profile_type: pool.users[k].profile_type.clone(),
                            sender_avatar_color: pool.users[k].avatar_color.clone(),
                        },
                        attachments,
                    },
                );
            },
            None => {
                assert(false);
            },
        }
        i += 1;
    }
    Ok(out)
}

/// The sender of a message may always delete it, whatever their role.
pub proof fn lemma_sender_may_delete(
    s: Store,
    target: MessageTarget,
    target_id: Seq<char>,
    message_id: Seq<char>,
    requester: Seq<char>,
)
    requires
        first(s.messages@, id_is(message_id)) matches Some(m) && belongs_to(m, target, target_id)
            && m.sender_username@ == requester,
    ensures
        delete_rejection(s, target, target_id, message_id, requester) is None,
{
}

/// Somebody who is neither the sender of a message, nor a site
/// administrator, nor a member of the community that owns the message's
/// channel is refused for want of authorization. For a message in a
/// conversation the same holds of everybody who is neither the sender nor a
/// site administrator.
pub proof fn lemma_stranger_may_not_delete(
    s: Store,
    target: MessageTarget,
    target_id: Seq<char>,
    message_id: Seq<char>,
    requester: Seq<char>,
)
    requires
        first(s.messages@, id_is(message_id)) matches Some(m) && belongs_to(m, target, target_id)
            && m.sender_username@ != requester,
        !s.site_admin(requester),
        target == MessageTarget::Channel ==> (first(s.channels@, id_is(target_id)) matches Some(
            channel,
        ) && !s.member(channel.server_name@, requester)),
    ensures
        delete_rejection(s, target, target_id, message_id, requester) == Some(
            rejection(ErrorKind::Unauthorized, "You do not have permission to delete this message"),
        ),
{
}

/// An administrator of a community may delete the messages in its
/// channels, but has no say over messages in conversations: there, being an
/// administrator of any community changes nothing.
pub proof fn lemma_community_admin_may_delete_in_channels_only(
    s: Store,
    target: MessageTarget,
    target_id: Seq<char>,
    message_id: Seq<char>,
    requester: Seq<char>,
)
    requires
        first(s.messages@, id_is(message_id)) matches Some(m) && belongs_to(m, target, target_id)
            && m.sender_username@ != requester,
        !s.site_admin(requester),
        target == MessageTarget::Channel ==> (first(s.channels@, id_is(target_id)) matches Some(
            channel,
        ) && s.server_admin(channel.server_name@, requester)),
    ensures
        target == MessageTarget::Channel ==> delete_rejection(
            s,
            target,
            target_id,
            message_id,
            requester,
        ) is None,
        target == MessageTarget::DirectMessage ==> delete_rejection(
            s,
            target,
            target_id,
            message_id,
            requester,
        ) == Some(
            rejection(ErrorKind::Unauthorized, "You do not have permission to delete this message"),
        ),
{
}

/// A message to a conversation is never censored: it is stored as clean and
/// without a censored copy, whatever its content.
pub proof fn lemma_conversations_are_not_censored(content: Seq<char>)
    ensures
        censorship_for(MessageTarget::DirectMessage, content).status == "clean"@,
        censorship_for(MessageTarget::DirectMessage, content).copy is None,
{
}

/// A message to a channel whose content the censor flags is stored as
/// filtered, with the censored form of its content as its copy; one whose
/// content the censor passes is stored as clean, without a copy.
pub proof fn lemma_channels_are_censored(content: Seq<char>)
    ensures
        crate::services::profanity::is_inappropriate(content) ==> censorship_for(
            MessageTarget::Channel,
            content,
        ).status == "filtered"@ && censorship_for(MessageTarget::Channel, content).copy == Some(
            crate::services::profanity::censored(content),
        ),
        !crate::services::profanity::is_inappropriate(content) ==> censorship_for(
            MessageTarget::Channel,
            content,
        ).status == "clean"@ && censorship_for(MessageTarget::Channel, content).copy is None,
{
}

/// Somebody without standing in the target of a message is refused for
/// that, whatever the content: a sender who is no member of the channel's
/// community, or no participant of the conversation, gets the authorization
/// failure, and a target that does not exist is reported as not found.
pub proof fn lemma_standing_before_content(
    s: Store,
    target_id: Seq<char>,
    sender: Seq<char>,
    content: Seq<char>,
)
    ensures
        first(s.channels@, id_is(target_id)) is None ==> channel_send_rejection(
            s,
            target_id,
            sender,
            content,
        ) == Some(rejection(ErrorKind::NotFound, "Channel not found")),
        first(s.channels@, id_is(target_id)) is Some && !s.member(
            first(s.channels@, id_is(target_id))->Some_0.server_name@,
            sender,
        ) ==> channel_send_rejection(s, target_id, sender, content) == Some(
            rejection(
                ErrorKind::Unauthorized,
                "You must be a member of the server to send messages",
            ),
        ),
        first(s.direct_messages@, id_is(target_id)) is None ==> dm_send_rejection(
            s,
            target_id,
            sender,
            content,
        ) == Some(rejection(ErrorKind::NotFound, "Direct message conversation not found")),
        first(s.direct_messages@, id_is(target_id)) is Some && sender != first(
            s.direct_messages@,
            id_is(target_id),
        )->Some_0.username1@ && sender != first(
            s.direct_messages@,
            id_is(target_id),
        )->Some_0.username2@ ==> dm_send_rejection(s, target_id, sender, content) == Some(
            rejection(ErrorKind::Unauthorized, "You are not part of this conversation"),
        ),
{
}

} // verus!
