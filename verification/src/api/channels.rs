//! The channels of a community.
use vstd::prelude::*;
use crate::api::servers::{tell_with_stats, told_with_stats};
use crate::api::Handled;
use crate::database::Store;
use crate::models::channel::Channel;
use crate::services::channel::{
    channel_added, channel_deleted, channel_renamed, create_channel, delete_channel,
    get_server_channels, live_channels, rename_channel,
};
use crate::utils::error::{rejected_as, AppError, AppResult};
use crate::utils::validation::{name_rejection, NameKind};
use crate::websocket::events::ServerMessage;

verus! {

/// Events that tell that the channel `c` was created.
pub open spec fn tells_channel(c: Channel, server: Seq<char>) -> spec_fn(ServerMessage) -> bool {
    |e: ServerMessage|
        e matches ServerMessage::ChannelCreated { server_name, channel_id, channel_name }
            && server_name@ == server && channel_id == c.id && channel_name == c.name
}

/// Events that tell that the channel `channel_id` was deleted.
pub open spec fn tells_channel_gone(server: Seq<char>, channel_id: Seq<char>) -> spec_fn(
    ServerMessage,
) -> bool {
    |e: ServerMessage|
        e matches ServerMessage::ChannelDeleted { server_name, channel_id: id } && server_name@
            == server && id@ == channel_id
}

/// What the request to create a channel does. A refusal is the answer and
/// nothing is published. Otherwise one event tells of the new channel and
/// a second tells the community's counters, and the answer is the channel.
pub open spec fn create_handled(
    pre: Store,
    post: Store,
    server: Seq<char>,
    name: Seq<char>,
    h: Handled<Channel>,
) -> bool {
    match name_rejection(NameKind::Channel, name) {
        Some(r) => rejected_as(h.result, r) && post == pre && h.events@.len() == 0,
        None => {
            let c = post.channels@.last();
            &&& channel_added(pre, post, server, name, c)
            &&& told_with_stats(post, server, h, tells_channel(c, server))
            &&& h.result is Ok ==> h.result == Ok::<Channel, AppError>(c)
        },
    }
}

/// Handles the request to create a channel in a community.
pub fn create(pool: &mut Store, server_name: String, name: String) -> (h: Handled<Channel>)
    ensures
        create_handled(*old(pool), *final(pool), server_name@, name@, h),
{
    let server = server_name.clone();
    let channel = match create_channel(pool, server_name, name) {
        Ok(c) => c,
        Err(e) => {
            return Handled { events: Vec::new(), result: Err(e) };
        },
    };
    let change = ServerMessage::ChannelCreated {
        server_name: server.clone(),
        channel_id: channel.id.clone(),
        channel_name: channel.name.clone(),
    };
    tell_with_stats(pool, server.as_str(), change, channel)
}

/// Handles the request to list the live channels of a community.
pub fn list(pool: &Store, server_name: &str) -> (res: AppResult<Vec<Channel>>)
    ensures
        res matches Ok(list) && crate::database::order::is_sorting(
            live_channels(*pool, server_name@),
            list@,
            crate::database::listing::by_position(),
        ),
{
    get_server_channels(pool, server_name)
}

/// What the request to delete a channel does. A refusal is the answer and
/// nothing is published. Otherwise one event tells that the channel is
/// gone and a second tells the community's counters.
pub open spec fn remove_handled(
    pre: Store,
    post: Store,
    server: Seq<char>,
    channel_id: Seq<char>,
    h: Handled<()>,
) -> bool {
    if crate::services::channel::delete_channel_rejection(pre, channel_id, server) is Some {
        channel_deleted(pre, post, channel_id, server, h.result) && h.events@.len() == 0
    } else {
        channel_deleted(pre, post, channel_id, server, Ok(())) && told_with_stats(
            post,
            server,
            h,
            tells_channel_gone(server, channel_id),
        )
    }
}

/// Handles the request to delete a channel of a community.
pub fn remove(pool: &mut Store, server_name: &str, channel_id: String) -> (h: Handled<()>)
    ensures
        remove_handled(*old(pool), *final(pool), server_name@, channel_id@, h),
{
    match delete_channel(pool, channel_id.as_str(), server_name) {
        Ok(_) => {},
        Err(e) => {
            return Handled { events: Vec::new(), result: Err(e) };
        },
    }
    let change = ServerMessage::ChannelDeleted {
        server_name: server_name.to_string(),
        channel_id,
    };
    tell_with_stats(pool, server_name, change, ())
}

/// What the request to rename a channel does. A refusal is the answer and
/// nothing is published. Otherwise the answer is the channel and exactly
/// one event tells its new name.
pub open spec fn rename_handled(
    pre: Store,
    post: Store,
    server: Seq<char>,
    channel_id: Seq<char>,
    name: Seq<char>,
    h: Handled<Channel>,
) -> bool {
    &&& channel_renamed(pre, post, channel_id, name, h.result)
    &&& match h.result {
        Err(_) => h.events@.len() == 0,
        Ok(_) => h.events@.len() == 1 && (h.events@[0] matches ServerMessage::ChannelRenamed {
            server_name,
            channel_id: id,
            new_name,
        } && server_name@ == server && id@ == channel_id && new_name@ == name),
    }
}

/// Handles the request to rename a channel.
pub fn rename(pool: &mut Store, server_name: String, channel_id: String, name: String) -> (h:
    Handled<Channel>)
    ensures
        rename_handled(*old(pool), *final(pool), server_name@, channel_id@, name@, h),
{
    let channel = match rename_channel(pool, channel_id.as_str(), name.clone()) {
        Ok(c) => c,
        Err(e) => {
            return Handled { events: Vec::new(), result: Err(e) };
        },
    };
    let mut events: Vec<ServerMessage> = Vec::new();
    events.push(ServerMessage::ChannelRenamed { server_name, channel_id, new_name: name });
    Handled { events, result: Ok(channel) }
}

} // verus!
