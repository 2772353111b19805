//! First-time creation of the default community.
use vstd::prelude::*;
use crate::database::query::{server_is, ServerIs};
use crate::database::table::{any, exists_where, update_where, Patch};
use crate::database::Store;
use crate::models::channel::Channel;
use crate::models::server::Server;
use crate::services::auth::SYSTEM_USER;
use crate::services::server::{DEFAULT_CHANNEL, DEFAULT_SERVER};
use crate::utils::error::AppResult;

verus! {

/// Sets the channel counter of a community.
pub struct SetChannelCount(pub i64);

/// A community with the channel counter `n`.
pub open spec fn with_channel_count(n: i64) -> spec_fn(Server) -> Server {
    |s: Server| Server { channel_count: n, ..s }
}

impl Patch<Server> for SetChannelCount {
    open spec fn change(&self) -> spec_fn(Server) -> Server {
        with_channel_count(self.0)
    }

    fn apply(&self, row: &mut Server) {
        row.channel_count = self.0;
    }
}

/// What creating the default community does. If a community with exactly
/// its name exists, nothing changes. Otherwise the community, owned by the
/// service's own identity, with no member and one channel counted, is the
/// new last row of the communities, and its first channel, at position
/// zero, is the new last row of the channels; nothing else changes.
pub open spec fn rchat_ensured(pre: Store, post: Store) -> bool {
    if any(pre.servers@, server_is(DEFAULT_SERVER@)) {
        post == pre
    } else {
        let row = post.servers@.last();
        let c = post.channels@.last();
        &&& post.servers@.len() == pre.servers@.len() + 1
        &&& post.servers@.drop_last() =~= pre.servers@
        &&& row.name@ == DEFAULT_SERVER@
        &&& row.creator_username@ == SYSTEM_USER@
        &&& row.is_active == 1
        &&& row.member_count == 0
        &&& row.channel_count == 1
        &&& post.channels@.len() == pre.channels@.len() + 1
        &&& post.channels@.drop_last() =~= pre.channels@
        &&& c.server_name@ == DEFAULT_SERVER@
        &&& c.name@ == DEFAULT_CHANNEL@
        &&& c.position == 0
        &&& c.is_active == 1
        &&& c.message_count == 0
        &&& post == (Store { servers: post.servers, channels: post.channels, ..pre })
    }
}

/// Creates the default community with its first channel, unless it exists.
pub fn ensure_rchat_server(pool: &mut Store) -> (res: AppResult<()>)
    ensures
        res is Ok,
        rchat_ensured(*old(pool), *final(pool)),
{
    if exists_where(&pool.servers, &ServerIs(DEFAULT_SERVER)) {
        return Ok(());
    }
    let ghost pre = pool.servers@;
    let server = Server::new(DEFAULT_SERVER.to_string(), SYSTEM_USER.to_string());
    let name = server.name.clone();
    pool.servers.push(server);
    let channel = Channel::new(name.clone(), DEFAULT_CHANNEL.to_string(), 0);
    pool.channels.push(channel);
    let ghost grown = pool.servers@;
    update_where(&mut pool.servers, &ServerIs(name.as_str()), &SetChannelCount(1));
    proof {
        assert forall|i: int| 0 <= i < pre.len() implies #[trigger] pool.servers@[i] == pre[i] by {
            assert(grown[i] == pre[i]);
            assert(!server_is::<Server>(DEFAULT_SERVER@)(pre[i]));
        }
        assert(pool.servers@.drop_last() =~= pre);
    }
    Ok(())
}

} // verus!
