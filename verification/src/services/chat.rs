//! Storing and reading messages without regard to who asks: the checks on
//! the sender's standing are made by `messaging`.
use vstd::prelude::*;
use vstd::utf8::encode_utf8;
use crate::database::listing::{newest_first, NewestFirst};
use crate::database::order::{is_sorting, page, select_where, sort_by, take_page};
use crate::database::query::{both, id_is, live, user_is, Both, IdIs, Live, UserIs};
use crate::database::table::{
    any, exists_where, rewrite_where, rewritten, update_where, updated, Matcher, Patch, Rewrite,
};
use crate::database::Store;
use crate::models::channel::Channel;
use crate::models::direct_message::DirectMessage;
use crate::models::message::{
    content_type_text, filter_status_text, ContentType, FilterStatus, Message,
};
use crate::models::user::opt_text;
use crate::services::auth::bumped;
use crate::services::messaging::{marked_deleted, MarkDeleted};
use crate::services::profanity::{filter_profanity, filtered};
use crate::text::{str_eq, trim, trimmed};
use crate::utils::error::{rejected_as, rejection, AppError, AppResult, ErrorKind, Rejection};
use crate::utils::validation::{byte_len, MAX_CONTENT_LENGTH};

verus! {

/// Selects the messages of one channel.
pub struct InChannel<'a>(pub &'a str);

/// Selects the messages of one conversation.
pub struct InConversation<'a>(pub &'a str);

/// Messages of the channel `id`.
pub open spec fn in_channel(id: Seq<char>) -> spec_fn(Message) -> bool {
    |m: Message| opt_text(m.channel_id) == Some(id)
}

/// Messages of the conversation `id`.
pub open spec fn in_conversation(id: Seq<char>) -> spec_fn(Message) -> bool {
    |m: Message| opt_text(m.dm_id) == Some(id)
}

impl<'a> Matcher<Message> for InChannel<'a> {
    open spec fn pred(&self) -> spec_fn(Message) -> bool {
        in_channel(self.0@)
    }

    fn test(&self, row: &Message) -> (r: bool) {
        match &row.channel_id {
            Some(c) => str_eq(c.as_str(), self.0),
            None => false,
        }
    }
}

impl<'a> Matcher<Message> for InConversation<'a> {
    open spec fn pred(&self) -> spec_fn(Message) -> bool {
        in_conversation(self.0@)
    }

    fn test(&self, row: &Message) -> (r: bool) {
        match &row.dm_id {
            Some(d) => str_eq(d.as_str(), self.0),
            None => false,
        }
    }
}

/// Counts one more message in a channel.
pub struct CountMessage;

/// A channel with one more message counted.
pub open spec fn message_counted() -> spec_fn(Channel) -> Channel {
    |c: Channel| Channel { message_count: bumped(c.message_count), ..c }
}

impl Patch<Channel> for CountMessage {
    open spec fn change(&self) -> spec_fn(Channel) -> Channel {
        message_counted()
    }

    fn apply(&self, row: &mut Channel) {
        if row.message_count < i64::MAX {
            row.message_count = row.message_count + 1;
        }
    }
}

/// Counts one more message in a conversation and notes its time.
pub struct NoteMessage<'a> {
    pub at: &'a str,
}

/// Whether `after` is the conversation `before` with one more message
/// counted and `at` as the time of its last message.
pub open spec fn message_noted(at: Seq<char>) -> spec_fn(DirectMessage, DirectMessage) -> bool {
    |before: DirectMessage, after: DirectMessage|
        {
            &&& after.message_count == bumped(before.message_count)
            &&& opt_text(after.last_message_at) == Some(at)
            &&& after == (DirectMessage {
                message_count: after.message_count,
                last_message_at: after.last_message_at,
                ..before
            })
        }
}

impl<'a> Rewrite<DirectMessage> for NoteMessage<'a> {
    open spec fn relates(&self) -> spec_fn(DirectMessage, DirectMessage) -> bool {
        message_noted(self.at@)
    }

    fn rewrite(&self, row: &mut DirectMessage) {
        if row.message_count < i64::MAX {
            row.message_count = row.message_count + 1;
        }
        row.last_message_at = Some(self.at.to_string());
    }
}

/// Why a content cannot be stored, if it cannot: it is blank, or longer
/// than 4000 bytes.
pub open spec fn storable_rejection(content: Seq<char>) -> Option<Rejection> {
    if trimmed(content).len() == 0 {
        Some(rejection(ErrorKind::Validation, "Message content cannot be empty"))
    } else if encode_utf8(content).len() > MAX_CONTENT_LENGTH {
        Some(rejection(ErrorKind::Validation, "Message content too long (max 4000 chars)"))
    } else {
        None
    }
}

/// The filter status of a stored message: "filtered" for a message to a
/// channel whose content the censor flags, "clean" otherwise.
pub open spec fn stored_status(to_channel: bool, content: Seq<char>) -> FilterStatus {
    if to_channel && filtered(content).1 {
        FilterStatus::Filtered
    } else {
        FilterStatus::Clean
    }
}

/// The censored copy of a stored message: that of a message to a channel
/// whose content the censor flags, none otherwise.
pub open spec fn stored_copy(to_channel: bool, content: Seq<char>) -> Option<Seq<char>> {
    if to_channel && filtered(content).1 {
        Some(filtered(content).0)
    } else {
        None
    }
}

/// What storing a message does. A refused content changes nothing.
/// Otherwise the message is the new last row of the messages; the channel
/// it names, if any, counts one more message; the conversation it names, if
/// any, counts one more message and notes the message's time; nothing else
/// changes. The message is returned.
pub open spec fn message_created(
    pre: Store,
    post: Store,
    channel_id: Option<String>,
    dm_id: Option<String>,
    sender: String,
    content: String,
    content_type: ContentType,
    res: AppResult<Message>,
) -> bool {
    match storable_rejection(content@) {
        Some(r) => rejected_as(res, r) && post == pre,
        None => {
            let m = post.messages@.last();
            &&& res == Ok::<Message, AppError>(m)
            &&& post.messages@.len() == pre.messages@.len() + 1
            &&& post.messages@.drop_last() =~= pre.messages@
            &&& m.channel_id == channel_id
            &&& m.dm_id == dm_id
            &&& m.sender_username == sender
            &&& m.content == content
            &&& m.content_type@ == content_type_text(content_type)
            &&& m.edited_at is None
            &&& m.is_deleted == 0
            &&& m.filter_status@ == filter_status_text(stored_status(channel_id is Some, content@))
            &&& opt_text(m.filtered_content) == stored_copy(channel_id is Some, content@)
            &&& match channel_id {
                Some(id) => post.channels@ == updated(
                    pre.channels@,
                    id_is(id@),
                    message_counted(),
                ),
                None => post.channels == pre.channels,
            }
            &&& match dm_id {
                Some(id) => rewritten(
                    pre.direct_messages@,
                    post.direct_messages@,
                    id_is(id@),
                    message_noted(m.created_at@),
                ),
                None => post.direct_messages == pre.direct_messages,
            }
            &&& post == (Store {
                messages: post.messages,
                channels: post.channels,
                direct_messages: post.direct_messages,
                ..pre
            })
        },
    }
}

/// Stores a message. Blank content and content of more than 4000 bytes are
/// refused. A message to a channel is run through the censor.
pub fn create_message(
    pool: &mut Store,
    channel_id: Option<String>,
    dm_id: Option<String>,
    sender_username: String,
    content: String,
    content_type: ContentType,
) -> (res: AppResult<Message>)
    ensures
        message_created(
            *old(pool),
            *final(pool),
            channel_id,
            dm_id,
            sender_username,
            content,
            content_type,
            res,
        ),
{
    if trim(content.as_str()).is_empty() {
        return Err(AppError::Validation("Message content cannot be empty".to_string()));
    }
    if byte_len(content.as_str()) > MAX_CONTENT_LENGTH {
        return Err(AppError::Validation("Message content too long (max 4000 chars)".to_string()));
    }
    let (filtered_content, has_profanity) = if channel_id.is_some() {
        filter_profanity(content.as_str())
    } else {
        (content.clone(), false)
    };
    let filter_status = if has_profanity {
        FilterStatus::Filtered
    } else {
        FilterStatus::Clean
    };
    let final_filtered = if has_profanity {
        Some(filtered_content)
    } else {
        None
    };
    let message = Message::new(
        channel_id,
        dm_id,
        sender_username,
        content,
        content_type,
        filter_status,
        final_filtered,
    );
    pool.messages.push(message.duplicate());
    match &message.channel_id {
        Some(cid) => {
            update_where(&mut pool.channels, &IdIs(cid.as_str()), &CountMessage);
        },
        None => {},
    }
    match &message.dm_id {
        Some(did) => {
            rewrite_where(
                &mut pool.direct_messages,
                &IdIs(did.as_str()),
                &NoteMessage { at: message.created_at.as_str() },
            );
        },
        None => {},
    }
    Ok(message)
}

/// The live messages of the channel `channel_id`, in table order.
pub open spec fn live_in_channel(s: Store, channel_id: Seq<char>) -> Seq<Message> {
    s.messages@.filter(both(in_channel(channel_id), live()))
}

/// The live messages of the conversation `dm_id`, in table order.
pub open spec fn live_in_conversation(s: Store, dm_id: Seq<char>) -> Seq<Message> {
    s.messages@.filter(both(in_conversation(dm_id), live()))
}

/// `list` is a page of `rows` listed latest first: the page that skips
/// `offset` rows and holds at most `limit`.
pub open spec fn is_page_of_latest(rows: Seq<Message>, list: Seq<Message>, limit: i64, offset: i64) -> bool {
    exists|listed: Seq<Message>|
        is_sorting(rows, listed, newest_first()) && list == page(listed, limit, offset)
}

/// The messages of a channel that are not deleted, latest first, as the
/// page that skips `offset` messages and holds at most `limit`.
pub fn get_channel_messages(pool: &Store, channel_id: &str, limit: i64, offset: i64) -> (res:
    AppResult<Vec<Message>>)
    ensures
        res matches Ok(list) && is_page_of_latest(
            live_in_channel(*pool, channel_id@),
            list@,
            limit,
            offset,
        ),
{
    let rows = select_where(&pool.messages, &Both(InChannel(channel_id), Live));
    let listed = sort_by(rows, &NewestFirst);
    Ok(take_page(listed, limit, offset))
}

/// Whether an identity has exactly the name `username`.
pub fn verify_username_exists(pool: &Store, username: &str) -> (res: AppResult<bool>)
    ensures
        res == Ok::<bool, AppError>(any(pool.users@, user_is(username@))),
{
    Ok(exists_where(&pool.users, &UserIs(username)))
}

/// Marks every message with the identifier `message_id` as deleted, without
/// asking who wants it.
pub fn delete_message(pool: &mut Store, message_id: &str) -> (res: AppResult<()>)
    ensures
        res is Ok,
        final(pool).messages@ == updated(old(pool).messages@, id_is(message_id@), marked_deleted()),
        *final(pool) == (Store { messages: final(pool).messages, ..*old(pool) }),
{
    update_where(&mut pool.messages, &IdIs(message_id), &MarkDeleted);
    Ok(())
}

} // verus!
