//! Sending, reading and deleting messages.
use vstd::prelude::*;
use crate::api::{page_limit, page_offset, limit_or_default, offset_or_zero, Handled};
use crate::database::Store;
use crate::models::message::MessageWithSender;
use crate::services::messaging::{
    attachments_for, attachments_of, delete_message, deleted, get_messages, is_reading,
    send_message, sent, EnrichedMessage, MessageTarget, SendMessageRequest,
};
use crate::text::str_eq;
use crate::utils::error::{rejected_as, rejection, AppError, AppResult, ErrorKind};
use crate::utils::helpers::acting_username;
use crate::websocket::events::{
    announces, message_deleted_event, new_message_event, ServerMessage,
};

verus! {

/// The name of the identity on whose behalf a request is handled.
pub open spec fn acting(named: Option<String>) -> Seq<char> {
    match named {
        Some(n) => n@,
        None => "system"@,
    }
}

/// The outcome of sending that an answer shows.
pub open spec fn sending_shown(res: AppResult<EnrichedMessage>) -> AppResult<MessageWithSender> {
    match res {
        Ok(e) => Ok(e.message),
        Err(e) => Err(e),
    }
}

/// What the request to send a message does: it sends the message on behalf
/// of the acting identity. A refusal is the answer and nothing is
/// published. Otherwise the answer is the message with its sender's display
/// attributes and its attachments, and exactly one event announces it with
/// the same content.
pub open spec fn send_handled(
    pre: Store,
    post: Store,
    user: Seq<char>,
    req: SendMessageRequest,
    h: Handled<EnrichedMessage>,
) -> bool {
    &&& sent(pre, post, req, user, sending_shown(h.result))
    &&& match h.result {
        Err(_) => h.events@.len() == 0,
        Ok(e) => {
            &&& e.attachments@ == attachments_of(post, e.message.message.id@)
            &&& h.events@.len() == 1
            &&& announces(h.events@[0], req.target_type, e.message, e.attachments@)
        },
    }
}

/// Handles the request to send a message.
pub fn send_message_handler(pool: &mut Store, username: Option<String>, req: SendMessageRequest) -> (h:
    Handled<EnrichedMessage>)
    ensures
        send_handled(*old(pool), *final(pool), acting(username), req, h),
{
    let user = acting_username(username);
    let target = req.target_type;
    let message_result = match send_message(pool, req, user.as_str()) {
        Ok(m) => m,
        Err(e) => {
            return Handled { events: Vec::new(), result: Err(e) };
        },
    };
    let attachments = attachments_for(pool, message_result.message.id.as_str());
    let event = new_message_event(target, &message_result, &attachments);
    let mut events: Vec<ServerMessage> = Vec::new();
    events.push(event);
    Handled { events, result: Ok(EnrichedMessage { message: message_result, attachments }) }
}

/// The kind of target that a text names.
pub open spec fn target_named(text: Seq<char>) -> Option<MessageTarget> {
    if text == "channel"@ {
        Some(MessageTarget::Channel)
    } else if text == "dm"@ || text == "direct_message"@ {
        Some(MessageTarget::DirectMessage)
    } else {
        None
    }
}

/// The kind of target that `text` names, if it names one.
pub fn parse_target(text: &str) -> (r: Option<MessageTarget>)
    ensures
        r == target_named(text@),
{
    if str_eq(text, "channel") {
        Some(MessageTarget::Channel)
    } else if str_eq(text, "dm") || str_eq(text, "direct_message") {
        Some(MessageTarget::DirectMessage)
    } else {
        None
    }
}

/// Handles the request to read the messages of a target: fifty messages
/// from the latest on, unless the request says otherwise.
pub fn get_messages_handler(
    pool: &Store,
    target_type: &str,
    target_id: &str,
    limit: Option<i64>,
    offset: Option<i64>,
) -> (res: AppResult<Vec<EnrichedMessage>>)
    ensures
        match target_named(target_type@) {
            None => rejected_as(
                res,
                rejection(ErrorKind::BadRequest, "Invalid target_type. Must be 'channel' or 'dm'"),
            ),
            Some(target) => res matches Ok(list) && is_reading(
                *pool,
                target,
                target_id@,
                limit_or_default(limit),
                offset_or_zero(offset),
                list@,
            ),
        },
{
    let target = match parse_target(target_type) {
        Some(t) => t,
        None => {
            return Err(
                AppError::BadRequest("Invalid target_type. Must be 'channel' or 'dm'".to_string()),
            );
        },
    };
    get_messages(pool, target, target_id, page_limit(limit), page_offset(offset))
}

/// What the request to delete a message does: it deletes the message on
/// behalf of the acting identity. A refusal is the answer and nothing is
/// published. Otherwise exactly one event tells that the message was
/// deleted, naming the message and its target.
pub open spec fn delete_handled(
    pre: Store,
    post: Store,
    target: MessageTarget,
    target_id: Seq<char>,
    message_id: Seq<char>,
    user: Seq<char>,
    h: Handled<()>,
) -> bool {
    match h.result {
        Err(e) => h.events@.len() == 0 && deleted(
            pre,
            post,
            target,
            target_id,
            message_id,
            user,
            Err(e),
        ),
        Ok(_) => crate::database::table::first(
            pre.messages@,
            crate::database::query::id_is(message_id),
        ) matches Some(m) && deleted(pre, post, target, target_id, message_id, user, Ok(m))
            && h.events@ == seq![
            ServerMessage::MessageDeleted {
                message_id: m.id,
                channel_id: m.channel_id,
                dm_id: m.dm_id,
            },
        ],
    }
}

/// Deletes a message of a target and tells about it.
pub fn delete_and_tell(
    pool: &mut Store,
    target: MessageTarget,
    target_id: &str,
    message_id: &str,
    username: Option<String>,
) -> (h: Handled<()>)
    ensures
        delete_handled(
            *old(pool),
            *final(pool),
            target,
            target_id@,
            message_id@,
            acting(username),
            h,
        ),
{
    let user = acting_username(username);
    let message = match delete_message(pool, target, target_id, message_id, user.as_str()) {
        Ok(m) => m,
        Err(e) => {
            return Handled { events: Vec::new(), result: Err(e) };
        },
    };
    let mut events: Vec<ServerMessage> = Vec::new();
    events.push(message_deleted_event(message));
    Handled { events, result: Ok(()) }
}

/// Handles the request to delete a message of a channel.
pub fn delete_channel_message(
    pool: &mut Store,
    username: Option<String>,
    channel_id: &str,
    message_id: &str,
) -> (h: Handled<()>)
    ensures
        delete_handled(
            *old(pool),
            *final(pool),
            MessageTarget::Channel,
            channel_id@,
            message_id@,
            acting(username),
            h,
        ),
{
    delete_and_tell(pool, MessageTarget::Channel, channel_id, message_id, username)
}

/// Handles the request to delete a message of a conversation.
pub fn delete_dm_message(
    pool: &mut Store,
    username: Option<String>,
    dm_id: &str,
    message_id: &str,
) -> (h: Handled<()>)
    ensures
        delete_handled(
            *old(pool),
            *final(pool),
            MessageTarget::DirectMessage,
            dm_id@,
            message_id@,
            acting(username),
            h,
        ),
{
    delete_and_tell(pool, MessageTarget::DirectMessage, dm_id, message_id, username)
}

} // verus!
