//! Creating, listing, deleting and renaming the channels of a community.
use vstd::prelude::*;
use crate::database::counters::{live_channels_of, recount_server, with_counts_of};
use crate::database::query::{both, id_is, live, server_is, Both, IdIs, Live, ServerIs};
use crate::database::table::{
    count, count_where, first, position_where, rewrite_where, rewritten, update_where,
    updated, Patch, Rewrite,
};
use crate::database::Store;
use crate::models::channel::Channel;
use crate::utils::error::{rejected_as, rejection, AppError, AppResult, ErrorKind, Rejection};
use crate::utils::validation::{name_rejection, validate_channel_name, NameKind};

verus! {

/// The largest position among the channels of the community `server`, live
/// or not; `None` if it has no channel.
pub open spec fn max_position(channels: Seq<Channel>, server: Seq<char>) -> Option<i64>
    decreases channels.len(),
{
    if channels.len() == 0 {
        None
    } else {
        let rest = max_position(channels.drop_last(), server);
        let c = channels.last();
        if c.server_name@ != server {
            rest
        } else {
            match rest {
                Some(m) => if c.position > m {
                    Some(c.position)
                } else {
                    rest
                },
                None => Some(c.position),
            }
        }
    }
}

/// The position of the next channel of the community `server`: one more than
/// the largest so far, zero for the first.
pub open spec fn next_position(channels: Seq<Channel>, server: Seq<char>) -> i64 {
    match max_position(channels, server) {
        Some(m) => if m < i64::MAX {
            (m + 1) as i64
        } else {
            m
        },
        None => 0,
    }
}

/// The position of the next channel of the community `server`.
pub fn position_for_next(channels: &Vec<Channel>, server: &str) -> (p: i64)
    ensures
        p == next_position(channels@, server@),
{
    let mut best: Option<i64> = None;
    let mut i: usize = 0;
    while i < channels.len()
        invariant
            i <= channels@.len(),
            best == max_position(channels@.take(i as int), server@),
        decreases channels@.len() - i,
    {
        proof {
            assert(channels@.take(i + 1).drop_last() =~= channels@.take(i as int));
        }
        if crate::text::str_eq(channels[i].server_name.as_str(), server) {
            best = match best {
                Some(m) => if channels[i].position > m {
                    Some(channels[i].position)
                } else {
                    best
                },
                None => Some(channels[i].position),
            };
        }
        i += 1;
    }
    proof {
        assert(channels@.take(channels@.len() as int) =~= channels@);
    }
    match best {
        Some(m) => if m < i64::MAX {
            m + 1
        } else {
            m
        },
        None => 0,
    }
}

/// What adding a channel does: the new channel, live and without messages,
/// at the next position of its community, is the new last row of the
/// channels; the counters of its community are recomputed; nothing else
/// changes. The channel is returned.
pub open spec fn channel_added(
    pre: Store,
    post: Store,
    server: Seq<char>,
    name: Seq<char>,
    c: Channel,
) -> bool {
    &&& post.channels@.len() == pre.channels@.len() + 1
    &&& post.channels@.drop_last() =~= pre.channels@
    &&& post.channels@.last() == c
    &&& c.server_name@ == server
    &&& c.name@ == name
    &&& c.is_active == 1
    &&& c.message_count == 0
    &&& c.position == next_position(pre.channels@, server)
    &&& post.servers@ == with_counts_of(Store { channels: post.channels, ..pre }, server)
    &&& post == (Store { channels: post.channels, servers: post.servers, ..pre })
}

/// Adds a live channel named `name` to the community `server_name`, at the
/// next position, without checking the name.
pub fn add_channel(pool: &mut Store, server_name: String, name: String) -> (c: Channel)
    ensures
        channel_added(*old(pool), *final(pool), server_name@, name@, c),
{
    let position = position_for_next(&pool.channels, server_name.as_str());
    let channel = Channel::new(server_name, name, position);
    pool.channels.push(channel.duplicate());
    recount_server(pool, channel.server_name.as_str());
    channel
}

/// Creates a channel in a community.
///
/// The name must pass the rules for channel names. The channel is placed
/// after the community's other channels.
pub fn create_channel(pool: &mut Store, server_name: String, name: String) -> (res: AppResult<
    Channel,
>)
    ensures
        match name_rejection(NameKind::Channel, name@) {
            Some(r) => rejected_as(res, r) && *final(pool) == *old(pool),
            None => res matches Ok(c) && channel_added(
                *old(pool),
                *final(pool),
                server_name@,
                name@,
                c,
            ),
        },
{
    match validate_channel_name(name.as_str()) {
        Err(e) => {
            return Err(e);
        },
        Ok(_) => {},
    }
    Ok(add_channel(pool, server_name, name))
}

/// Switches a channel off.
pub struct Deactivate;

/// A channel switched off.
pub open spec fn deactivated() -> spec_fn(Channel) -> Channel {
    |c: Channel| Channel { is_active: 0, ..c }
}

impl Patch<Channel> for Deactivate {
    open spec fn change(&self) -> spec_fn(Channel) -> Channel {
        deactivated()
    }

    fn apply(&self, row: &mut Channel) {
        row.is_active = 0;
    }
}

/// Gives a channel a new name.
pub struct Rename<'a>(pub &'a str);

/// Whether `after` is `before` with the name `name`.
pub open spec fn renamed(name: Seq<char>) -> spec_fn(Channel, Channel) -> bool {
    |before: Channel, after: Channel|
        after.name@ == name && after == (Channel { name: after.name, ..before })
}

impl<'a> Rewrite<Channel> for Rename<'a> {
    open spec fn relates(&self) -> spec_fn(Channel, Channel) -> bool {
        renamed(self.0@)
    }

    fn rewrite(&self, row: &mut Channel) {
        row.name = self.0.to_string();
    }
}

/// The channels of a store after deleting the channel `channel_id` of the
/// community `server`.
pub open spec fn channels_after_delete(s: Store, channel_id: Seq<char>, server: Seq<char>) -> Seq<
    Channel,
> {
    updated(s.channels@, both(id_is(channel_id), server_is(server)), deactivated())
}

/// The live channels of the community `server` that have the identifier
/// `channel_id`.
pub open spec fn live_with_id(channel_id: Seq<char>, server: Seq<char>) -> spec_fn(Channel) -> bool {
    both(both(server_is(server), live()), both(id_is(channel_id), server_is(server)))
}

/// Why the channel `channel_id` of the community `server` cannot be
/// deleted, if it cannot: the community has at most one live channel, or
/// the deletion would leave it without a live channel.
pub open spec fn delete_channel_rejection(s: Store, channel_id: Seq<char>, server: Seq<char>) -> Option<
    Rejection,
> {
    if live_channels_of(s.channels@, server) <= 1 || count(
        s.channels@,
        live_with_id(channel_id, server),
    ) >= live_channels_of(s.channels@, server) {
        Some(rejection(ErrorKind::BadRequest, "Cannot delete the last channel"))
    } else {
        None
    }
}

/// What deleting a channel does. A refused request changes nothing.
/// Otherwise every channel with the given identifier in the given community
/// is switched off and the community's counters are recomputed; nothing
/// else changes.
pub open spec fn channel_deleted(
    pre: Store,
    post: Store,
    channel_id: Seq<char>,
    server: Seq<char>,
    res: AppResult<()>,
) -> bool {
    match delete_channel_rejection(pre, channel_id, server) {
        Some(r) => rejected_as(res, r) && post == pre,
        None => {
            &&& res is Ok
            &&& post.channels@ == channels_after_delete(pre, channel_id, server)
            &&& post.servers@ == with_counts_of(Store { channels: post.channels, ..pre }, server)
            &&& post == (Store { channels: post.channels, servers: post.servers, ..pre })
        },
    }
}

/// Deletes a channel of a community. A community always keeps a live
/// channel: its last live channel cannot be deleted, and neither can
/// channels that are all the live channels it has.
pub fn delete_channel(pool: &mut Store, channel_id: &str, server_name: &str) -> (res: AppResult<
    (),
>)
    ensures
        channel_deleted(*old(pool), *final(pool), channel_id@, server_name@, res),
{
    let channel_count = count_where(&pool.channels, &Both(ServerIs(server_name), Live));
    let concerned = count_where(
        &pool.channels,
        &Both(Both(ServerIs(server_name), Live), Both(IdIs(channel_id), ServerIs(server_name))),
    );
    if channel_count <= 1 || concerned >= channel_count {
        return Err(AppError::BadRequest("Cannot delete the last channel".to_string()));
    }
    update_where(&mut pool.channels, &Both(IdIs(channel_id), ServerIs(server_name)), &Deactivate);
    recount_server(pool, server_name);
    Ok(())
}

/// The live channels of a community, in table order.
pub open spec fn live_channels(s: Store, server: Seq<char>) -> Seq<Channel> {
    s.channels@.filter(both(server_is(server), live()))
}

/// What renaming a channel does. A name that breaks the rules for channel
/// names is refused and nothing changes. Otherwise every channel with the
/// given identifier gets the new name and nothing else changes; the first
/// such channel is returned, and if there is none the request fails.
pub open spec fn channel_renamed(
    pre: Store,
    post: Store,
    channel_id: Seq<char>,
    name: Seq<char>,
    res: AppResult<Channel>,
) -> bool {
    match name_rejection(NameKind::Channel, name) {
        Some(r) => rejected_as(res, r) && post == pre,
        None => {
            &&& rewritten(pre.channels@, post.channels@, id_is(channel_id), renamed(name))
            &&& post == (Store { channels: post.channels, ..pre })
            &&& match first(post.channels@, id_is(channel_id)) {
                Some(c) => res == Ok::<Channel, AppError>(c),
                None => rejected_as(res, rejection(ErrorKind::NotFound, "Channel not found")),
            }
        },
    }
}

/// Renames a channel.
pub fn rename_channel(pool: &mut Store, channel_id: &str, new_name: String) -> (res: AppResult<
    Channel,
>)
    ensures
        channel_renamed(*old(pool), *final(pool), channel_id@, new_name@, res),
{
    match validate_channel_name(new_name.as_str()) {
        Err(e) => {
            return Err(e);
        },
        Ok(_) => {},
    }
    rewrite_where(&mut pool.channels, &IdIs(channel_id), &Rename(new_name.as_str()));
    match position_where(&pool.channels, &IdIs(channel_id)) {
        Some(i) => Ok(pool.channels[i].duplicate()),
        None => Err(AppError::NotFound("Channel not found".to_string())),
    }
}

/// The live channels of a community, lowest position first.
pub fn get_server_channels(pool: &Store, server_name: &str) -> (res: AppResult<Vec<Channel>>)
    ensures
        res matches Ok(list) && crate::database::order::is_sorting(
            live_channels(*pool, server_name@),
            list@,
            crate::database::listing::by_position(),
        ),
{
    let rows = crate::database::order::select_where(
        &pool.channels,
        &Both(ServerIs(server_name), Live),
    );
    Ok(crate::database::order::sort_by(rows, &crate::database::listing::ByPosition))
}

/// The last live channel of a community cannot be deleted: the attempt is
/// refused and everything, the channel included, stays as it is.
pub proof fn lemma_last_channel_stays(
    pre: Store,
    post: Store,
    channel_id: Seq<char>,
    server: Seq<char>,
    res: AppResult<()>,
)
    requires
        channel_deleted(pre, post, channel_id, server, res),
        live_channels_of(pre.channels@, server) <= 1,
    ensures
        res is Err,
        post == pre,
{
}

/// Deleting a channel never takes the last live channel from a community:
/// every community that had a live channel before a request to delete has
/// one after it, whatever the request was and however it ended.
pub proof fn lemma_deletion_keeps_a_channel(
    pre: Store,
    post: Store,
    channel_id: Seq<char>,
    server: Seq<char>,
    res: AppResult<()>,
    community: Seq<char>,
)
    requires
        channel_deleted(pre, post, channel_id, server, res),
        live_channels_of(pre.channels@, community) >= 1,
    ensures
        live_channels_of(post.channels@, community) >= 1,
{
    if delete_channel_rejection(pre, channel_id, server) is None {
        let p = both(id_is::<Channel>(channel_id), server_is(server));
        let q = both(server_is::<Channel>(community), live());
        if community == server {
            crate::database::table::lemma_count_updated_ends(pre.channels@, p, deactivated(), q);
            assert((|row: Channel| q(row) && p(row)) =~= live_with_id(channel_id, server));
        } else {
            crate::database::table::lemma_count_updated_same(pre.channels@, p, deactivated(), q);
        }
    }
}

/// After a channel was created or deleted, the counters of the community
/// concerned are what enumerating its membership rows and its live
/// channels gives.
pub proof fn lemma_counters_follow_channels(
    pre: Store,
    post: Store,
    server: Seq<char>,
    name: Seq<char>,
    channel_id: Seq<char>,
    c: Channel,
    i: int,
)
    requires
        channel_added(pre, post, server, name, c) || channel_deleted(
            pre,
            post,
            channel_id,
            server,
            Ok(()),
        ),
        0 <= i < post.servers@.len(),
        post.servers@[i].name@ == server,
    ensures
        crate::database::counters::counts_agree(
            post.servers@[i],
            post.server_members@,
            post.channels@,
        ),
{
    crate::database::counters::lemma_recount_of_agrees(
        Store { channels: post.channels, ..pre },
        server,
    );
}

} // verus!
