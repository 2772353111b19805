//! What anybody may read without logging in.
use vstd::prelude::*;
use crate::api::{capped_limit, offset_or_zero, page_offset, public_page_limit};
use crate::database::counters::{clip, to_counter};
use crate::database::listing::{
    by_member_name, by_position, links_by_position, newest_first, ByMemberName, ByPosition,
    LinksByPosition, NewestFirst,
};
use crate::database::order::{is_sorting, page, select_where, sort_by, take_page};
use crate::database::query::{
    both, id_is, live, server_is, server_like, user_is, Both, IdIs, Known, Live, ServerIs, ServerLike, UserIs,
};
use crate::database::table::{any, count, count_where, first, position_where};
use crate::database::Store;
use crate::models::channel::Channel;
use crate::models::file::{Attachment, FileAttachment};
use crate::models::message::{Message, MessageWithSender};
use crate::models::server_member::ServerMember;
use crate::services::messaging::{is_readable, readable, shown_file, EnrichedMessage, MessageTarget};
use crate::services::server::{fill_profiles, known_members, with_profile};
use crate::tasks::cleanup::{to_message, ToMessage};
use crate::utils::error::{rejected_as, rejection, AppError, AppResult, ErrorKind};

verus! {

/// What is shown of a community to somebody who looks it up.
#[derive(Debug, Clone, PartialEq, Eq)]
pub struct ServerInfo {
    pub name: String,
    pub creator_username: String,
    pub created_at: String,
    pub member_count: i64,
    pub channel_count: i64,
}

/// Handles the request to look a community up by its name, whatever the
/// case of its letters. The counters shown are those that enumeration
/// gives: the community's membership rows and its live channels.
pub fn lookup_server(pool: &Store, server_name: &str) -> (res: AppResult<ServerInfo>)
    ensures
        match first(pool.servers@, both(server_like(server_name@), live())) {
            None => rejected_as(res, rejection(ErrorKind::NotFound, "Server not found")),
            Some(row) => res == Ok::<ServerInfo, AppError>(
                ServerInfo {
                    name: row.name,
                    creator_username: row.creator_username,
                    created_at: row.created_at,
                    member_count: clip(count(pool.server_members@, server_is(row.name@))),
                    channel_count: clip(
                        crate::database::counters::live_channels_of(pool.channels@, row.name@),
                    ),
                },
            ),
        },
{
    let i = match position_where(&pool.servers, &Both(ServerLike(server_name), Live)) {
        Some(i) => i,
        None => {
            return Err(AppError::NotFound("Server not found".to_string()));
        },
    };
    let server = &pool.servers[i];
    let member_count = count_where(&pool.server_members, &ServerIs(server.name.as_str()));
    let channel_count = count_where(&pool.channels, &Both(ServerIs(server.name.as_str()), Live));
    Ok(
        ServerInfo {
            name: server.name.clone(),
            creator_username: server.creator_username.clone(),
            created_at: server.created_at.clone(),
            member_count: to_counter(member_count),
            channel_count: to_counter(channel_count),
        },
    )
}

/// Handles the request to list the channels of a community, live or not,
/// lowest position first.
pub fn list_channels(pool: &Store, server_name: &str) -> (res: AppResult<Vec<Channel>>)
    ensures
        res matches Ok(list) && is_sorting(
            pool.channels@.filter(server_is(server_name@)),
            list@,
            by_position(),
        ),
{
    let rows = select_where(&pool.channels, &ServerIs(server_name));
    Ok(sort_by(rows, &ByPosition))
}

/// What a link contributes to a listing of attachments: the live file that
/// it links, if there is one.
pub open spec fn linked_file(s: Store) -> spec_fn(FileAttachment) -> Option<Attachment> {
    |link: FileAttachment|
        match first(s.files@, both(id_is(link.file_id@), live())) {
            Some(f) => Some(shown_file(f)),
            None => None,
        }
}

/// `list` holds the attachments of the message `message_id`, lowest
/// position first.
pub open spec fn is_attachment_list(s: Store, message_id: Seq<char>, list: Seq<Attachment>) -> bool {
    exists|links: Seq<FileAttachment>|
        #[trigger] is_sorting(
            s.file_attachments@.filter(to_message(message_id)),
            links,
            links_by_position(),
        ) && list == links.filter_map(linked_file(s))
}

/// The attachments of a message, lowest position first.
pub fn ordered_attachments(pool: &Store, message_id: &str) -> (r: Vec<Attachment>)
    ensures
        is_attachment_list(*pool, message_id@, r@),
{
    let rows = select_where(&pool.file_attachments, &ToMessage(message_id));
    let links = sort_by(rows, &LinksByPosition);
    let mut out: Vec<Attachment> = Vec::new();
    let mut i: usize = 0;
    while i < links.len()
        invariant
            i <= links@.len(),
            out@ == links@.take(i as int).filter_map(linked_file(*pool)),
        decreases links@.len() - i,
    {
        proof {
            assert(links@.take(i + 1).drop_last() =~= links@.take(i as int));
        }
        let ghost before = out@;
        match position_where(&pool.files, &Both(IdIs(links[i].file_id.as_str()), Live)) {
            Some(k) => {
                let f = &pool.files[k];
                out.push(
                    Attachment {
                        file_id: f.id.clone(),
                        original_name: f.original_name.clone(),
                        content_type: f.content_type.clone(),
                        size: f.size,
                        download_count: f.download_count,
                    },
                );
                proof {
                    assert(out@ =~= before + seq![out@.last()]);
                }
            },
            None => {},
        }
        i += 1;
    }
    proof {
        assert(links@.take(links@.len() as int) =~= links@);
    }
    out
}

/// Whether `e` is the message `m` as the public gets it: with the display
/// attributes of its sender and its attachments, lowest position first.
pub open spec fn is_public_view(s: Store, m: Message, e: EnrichedMessage) -> bool {
    &&& e.message.message == m
    &&& first(s.users@, user_is(m.sender_username@)) matches Some(u)
        && e.message.sender_profile_type == u.profile_type && e.message.sender_avatar_color
        == u.avatar_color
    &&& is_attachment_list(s, m.id@, e.attachments@)
}

/// `list` holds the messages `shown`, in order, each as the public gets it.
pub open spec fn all_public(s: Store, shown: Seq<Message>, list: Seq<EnrichedMessage>) -> bool {
    &&& list.len() == shown.len()
    &&& forall|i: int| 0 <= i < shown.len() ==> is_public_view(s, shown[i], #[trigger] list[i])
}

/// What the public reads of a channel: a page of its readable messages,
/// latest first.
pub open spec fn is_public_reading(
    s: Store,
    channel_id: Seq<char>,
    limit: i64,
    offset: i64,
    list: Seq<EnrichedMessage>,
) -> bool {
    exists|listed: Seq<Message>|
        #[trigger] is_sorting(
            readable(s, MessageTarget::Channel, channel_id),
            listed,
            newest_first(),
        ) && all_public(s, page(listed, limit, offset), list)
}

/// Handles the request to read a channel: the messages that are not
/// deleted and whose sender has an identity row, latest first, fifty of
/// them unless the request says otherwise, and never more than a hundred.
pub fn get_messages(pool: &Store, channel_id: &str, limit: Option<i64>, offset: Option<i64>) -> (res:
    AppResult<Vec<EnrichedMessage>>)
    ensures
        res matches Ok(list) && is_public_reading(
            *pool,
            channel_id@,
            capped_limit(limit),
            offset_or_zero(offset),
            list@,
        ),
{
    let rows = select_where(
        &pool.messages,
        &Both(Both(crate::services::chat::InChannel(channel_id), Live), Known(&pool.users)),
    );
    let ghost selected = rows@;
    let ghost p = is_readable(*pool, MessageTarget::Channel, channel_id@);
    assert(selected == pool.messages@.filter(p));
    let listed = sort_by(rows, &NewestFirst);
    let ghost listed_rows = listed@;
    let lim = public_page_limit(limit);
    let off = page_offset(offset);
    let shown = take_page(listed, lim, off);
    proof {
        assert forall|i: int| 0 <= i < shown@.len() implies any(
            pool.users@,
            user_is(#[trigger] shown@[i].sender_username@),
        ) by {
            let m = shown@[i];
            assert(listed_rows.contains(m));
            listed_rows.to_multiset_ensures();
            selected.to_multiset_ensures();
            assert(listed_rows.to_multiset().count(m) > 0);
            assert(selected.to_multiset().count(m) > 0);
            assert(selected.contains(m));
            let k = choose|k: int| 0 <= k < selected.len() && selected[k] == m;
            pool.messages@.lemma_filter_pred(p, k);
            assert(p(m));
        }
    }
    let mut out: Vec<EnrichedMessage> = Vec::new();
    let mut i: usize = 0;
    while i < shown.len()
        invariant
            i <= shown@.len(),
            out@.len() == i,
            is_sorting(
                readable(*pool, MessageTarget::Channel, channel_id@),
                listed_rows,
                newest_first(),
            ),
            shown@ == page(listed_rows, lim, off),
            forall|j: int|
                0 <= j < shown@.len() ==> any(
                    pool.users@,
                    user_is(#[trigger] shown@[j].sender_username@),
                ),
            forall|j: int| 0 <= j < i ==> is_public_view(*pool, shown@[j], #[trigger] out@[j]),
        decreases shown@.len() - i,
    {
        let message = shown[i].duplicate();
        let attachments = ordered_attachments(pool, message.id.as_str());
        assert(any(pool.users@, user_is(shown@[i as int].sender_username@)));
        match position_where(&pool.users, &UserIs(message.sender_username.as_str())) {
            Some(k) => {
                out.push(
                    EnrichedMessage {
                        message: MessageWithSender {
                            message,
                            sender_profile_type: pool.users[k].profile_type.clone(),
                            sender_avatar_color: pool.users[k].avatar_color.clone(),
                        },
                        attachments,
                    },
                );
            },
            None => {
                assert(false);
            },
        }
        i += 1;
    }
    Ok(out)
}

/// Handles the request to list the members of a community by name, with
/// their display attributes.
pub fn list_members(pool: &Store, server_name: &str) -> (res: AppResult<Vec<ServerMember>>)
    ensures
        res matches Ok(list) && exists|listed: Seq<ServerMember>|
            #[trigger] is_sorting(known_members(*pool, server_name@), listed, by_member_name())
                && list@ == listed.map_values(with_profile(*pool)),
{
    let rows = select_where(
        &pool.server_members,
        &Both(ServerIs(server_name), Known(&pool.users)),
    );
    let listed = sort_by(rows, &ByMemberName);
    let ghost listed_rows = listed@;
    let list = fill_profiles(pool, listed);
    proof {
        assert(is_sorting(known_members(*pool, server_name@), listed_rows, by_member_name()));
        assert(list@ == listed_rows.map_values(with_profile(*pool)));
    }
    Ok(list)
}

} // verus!
