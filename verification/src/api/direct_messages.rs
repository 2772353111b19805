//! Direct conversations.
use vstd::prelude::*;
use crate::api::unified_messages::acting;
use crate::api::{capped_limit, offset_or_zero, page_offset, public_page_limit, Handled};
use crate::database::query::{user_is, UserIs};
use crate::database::table::{first, position_where};
use crate::database::{Store, ROW_NOT_FOUND};
use crate::models::direct_message::DirectMessage;
use crate::models::message::{ContentType, Message};
use crate::services::chat::{
    create_message, is_page_of_latest, live_in_conversation, message_created, InConversation,
};
use crate::services::direct_message::{
    active_conversations, conversation_opened, get_or_create_dm, get_user_dms,
};
use crate::text::str_eq;
use crate::utils::error::{fails_with, AppError, AppResult, ErrorKind};
use crate::utils::helpers::acting_username;
use crate::websocket::events::ServerMessage;

verus! {

/// What the request to open a conversation does: the conversation of the
/// acting identity and the other is found or opened. A refusal is the
/// answer and nothing is published. Otherwise the answer is the
/// conversation, and exactly one event names it and the two identities as
/// the request named them.
pub open spec fn open_handled(
    pre: Store,
    post: Store,
    user: Seq<char>,
    other: Seq<char>,
    h: Handled<DirectMessage>,
) -> bool {
    &&& conversation_opened(pre, post, user, other, h.result)
    &&& match h.result {
        Err(_) => h.events@.len() == 0,
        Ok(dm) => h.events@.len() == 1 && (h.events@[0] matches ServerMessage::DmCreated {
            dm_id,
            username1,
            username2,
        } && dm_id == dm.id && username1@ == user && username2@ == other),
    }
}

/// Handles the request to open a conversation with another identity.
pub fn create_or_get_dm(pool: &mut Store, username: Option<String>, other_username: String) -> (h:
    Handled<DirectMessage>)
    ensures
        open_handled(*old(pool), *final(pool), acting(username), other_username@, h),
{
    let user = acting_username(username);
    let dm = match get_or_create_dm(pool, user.clone(), other_username.clone()) {
        Ok(d) => d,
        Err(e) => {
            return Handled { events: Vec::new(), result: Err(e) };
        },
    };
    let mut events: Vec<ServerMessage> = Vec::new();
    events.push(
        ServerMessage::DmCreated {
            dm_id: dm.id.clone(),
            username1: user,
            username2: other_username,
        },
    );
    Handled { events, result: Ok(dm) }
}

/// Handles the request to list the conversations of the acting identity.
pub fn list_dms(pool: &Store, username: Option<String>) -> (res: AppResult<Vec<DirectMessage>>)
    ensures
        res matches Ok(list) && crate::database::order::is_sorting(
            active_conversations(*pool, acting(username)),
            list@,
            crate::database::listing::last_active_first(),
        ),
{
    let user = acting_username(username);
    get_user_dms(pool, user.as_str())
}

/// The content type that a request names: markdown if it says so, plain
/// text otherwise.
pub open spec fn content_type_named(name: Option<Seq<char>>) -> ContentType {
    if name == Some("markdown"@) {
        ContentType::Markdown
    } else {
        ContentType::Text
    }
}

/// The content type that a request names.
pub fn parse_content_type(name: Option<&str>) -> (t: ContentType)
    ensures
        t == content_type_named(crate::services::messaging::opt_str_text(name)),
{
    match name {
        Some(n) => if str_eq(n, "markdown") {
            ContentType::Markdown
        } else {
            ContentType::Text
        },
        None => ContentType::Text,
    }
}

/// `e` announces the message `m` to the readers of the conversation
/// `dm_id`, with the display attributes of the identity row `u`.
pub open spec fn announces_dm(
    e: ServerMessage,
    m: Message,
    dm_id: Seq<char>,
    sender: Seq<char>,
    u: crate::models::user::User,
) -> bool {
    e matches ServerMessage::NewDmMessage {
        message_id,
        dm_id: id,
        sender_username,
        content,
        filtered_content,
        content_type,
        filter_status,
        created_at,
        sender_profile_type,
        sender_avatar_color,
        attachments,
    } && {
        &&& message_id == m.id
        &&& id@ == dm_id
        &&& sender_username@ == sender
        &&& content == m.content
        &&& filtered_content == m.filtered_content
        &&& content_type == m.content_type
        &&& filter_status == m.filter_status
        &&& created_at == m.created_at
        &&& sender_profile_type == Some(u.profile_type)
        &&& sender_avatar_color == u.avatar_color
        &&& attachments is None
    }
}

/// What the request to post into a conversation does. The request is
/// refused, and nothing changes, for a conversation that does not exist,
/// for a sender who is neither of its two participants, and for content
/// that is empty or too long, in this order. Otherwise the message is stored for the sender,
/// uncensored, unless its content is blank. If the sender has no identity
/// row the message stays stored and the answer is a persistence error.
/// Whenever the answer is an error nothing is published. Otherwise the
/// answer is the message and exactly one event announces it.
pub open spec fn post_handled(
    pre: Store,
    post: Store,
    sender: String,
    dm_id: String,
    content: String,
    content_type: ContentType,
    h: Handled<Message>,
    stored: AppResult<Message>,
) -> bool {
    match crate::services::messaging::dm_send_rejection(pre, dm_id@, sender@, content@) {
        Some(r) => crate::utils::error::rejected_as(h.result, r) && post == pre && h.events@.len()
            == 0,
        None => {
            &&& message_created(pre, post, None, Some(dm_id), sender, content, content_type, stored)
            &&& match stored {
                Err(e) => h.result == Err::<Message, AppError>(e) && h.events@.len() == 0,
                Ok(m) => match first(pre.users@, user_is(sender@)) {
                    None => fails_with(h.result, ErrorKind::Database, ROW_NOT_FOUND)
                        && h.events@.len() == 0,
                    Some(u) => h.result == Ok::<Message, AppError>(m) && h.events@.len() == 1
                        && announces_dm(h.events@[0], m, dm_id@, sender@, u),
                },
            }
        },
    }
}

/// Posts a message of `sender` into a conversation and announces it.
pub fn post_to_dm(
    pool: &mut Store,
    sender: String,
    dm_id: String,
    content: String,
    content_type: ContentType,
) -> (h: Handled<Message>)
    ensures
        exists|stored: AppResult<Message>|
            post_handled(
                *old(pool),
                *final(pool),
                sender,
                dm_id,
                content,
                content_type,
                h,
                stored,
            ),
{
    match crate::services::messaging::check_dm_send(
        pool,
        dm_id.as_str(),
        sender.as_str(),
        content.as_str(),
    ) {
        Err(e) => {
            let h = Handled { events: Vec::new(), result: Err(e) };
            assert(post_handled(
                *old(pool),
                *pool,
                sender,
                dm_id,
                content,
                content_type,
                h,
                Err(e),
            ));
            return h;
        },
        Ok(_) => {},
    }
    let stored = create_message(
        pool,
        None,
        Some(dm_id.clone()),
        sender.clone(),
        content,
        content_type,
    );
    let message = match stored {
        Ok(m) => m,
        Err(e) => {
            let h = Handled { events: Vec::new(), result: Err(e) };
            assert(post_handled(
                *old(pool),
                *pool,
                sender,
                dm_id,
                content,
                content_type,
                h,
                stored,
            ));
            return h;
        },
    };
    let h = match position_where(&pool.users, &UserIs(sender.as_str())) {
        None => Handled {
            events: Vec::new(),
            result: Err(AppError::Database(ROW_NOT_FOUND.to_string())),
        },
        Some(i) => {
            let mut events: Vec<ServerMessage> = Vec::new();
            events.push(
                ServerMessage::NewDmMessage {
                    message_id: message.id.clone(),
                    dm_id: dm_id.clone(),
                    sender_username: sender.clone(),
                    content: message.content.clone(),
                    filtered_content: message.filtered_content.clone(),
                    content_type: message.content_type.clone(),
                    filter_status: message.filter_status.clone(),
                    created_at: message.created_at.clone(),
                    sender_profile_type: Some(pool.users[i].profile_type.clone()),
                    sender_avatar_color: pool.users[i].avatar_color.clone(),
                    attachments: None,
                },
            );
            Handled { events, result: Ok(message) }
        },
    };
    assert(post_handled(*old(pool), *pool, sender, dm_id, content, content_type, h, stored));
    h
}

/// Handles the request to post into a conversation.
pub fn send_dm_message(
    pool: &mut Store,
    username: Option<String>,
    dm_id: String,
    content: String,
    content_type: Option<&str>,
) -> (h: Handled<Message>)
    ensures
        exists|stored: AppResult<Message>, sender: String|
            sender@ == acting(username) && #[trigger] post_handled(
                *old(pool),
                *final(pool),
                sender,
                dm_id,
                content,
                content_type_named(crate::services::messaging::opt_str_text(content_type)),
                h,
                stored,
            ),
{
    let sender = acting_username(username);
    post_to_dm(pool, sender, dm_id, content, parse_content_type(content_type))
}

/// Handles the request to read a conversation: the messages that are not
/// deleted, latest first, fifty of them unless the request says otherwise,
/// and never more than a hundred.
pub fn get_dm_messages(pool: &Store, dm_id: &str, limit: Option<i64>, offset: Option<i64>) -> (res:
    AppResult<Vec<Message>>)
    ensures
        res matches Ok(list) && is_page_of_latest(
            live_in_conversation(*pool, dm_id@),
            list@,
            capped_limit(limit),
            offset_or_zero(offset),
        ),
{
    let rows = crate::database::order::select_where(
        &pool.messages,
        &crate::database::query::Both(InConversation(dm_id), crate::database::query::Live),
    );
    let listed = crate::database::order::sort_by(rows, &crate::database::listing::NewestFirst);
    Ok(crate::database::order::take_page(listed, public_page_limit(limit), page_offset(offset)))
}

} // verus!
