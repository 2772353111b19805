//! The cached member and channel counts of communities, and their
//! recomputation from the membership and channel rows.
use vstd::prelude::*;
use crate::database::query::{all, both, live, server_is, All, Both, Live, ServerIs};
use crate::database::table::{count, count_where, update_where, updated, Patch};
use crate::database::Store;
use crate::models::channel::Channel;
use crate::models::server::Server;
use crate::models::server_member::ServerMember;

verus! {

/// A row count as a counter value: the count itself, or the largest counter
/// value where the count is beyond it.
pub open spec fn clip(n: nat) -> i64 {
    if n > i64::MAX {
        i64::MAX
    } else {
        n as i64
    }
}

/// The number of membership rows of the community `server`.
pub open spec fn members_of(members: Seq<ServerMember>, server: Seq<char>) -> nat {
    count(members, server_is(server))
}

/// The number of live channels of the community `server`.
pub open spec fn live_channels_of(channels: Seq<Channel>, server: Seq<char>) -> nat {
    count(channels, both(server_is(server), live()))
}

/// A community row with both counters set by enumeration of the given
/// membership and channel rows.
pub open spec fn recounted(members: Seq<ServerMember>, channels: Seq<Channel>) -> spec_fn(
    Server,
) -> Server {
    |s: Server|
        Server {
            member_count: clip(members_of(members, s.name@)),
            channel_count: clip(live_channels_of(channels, s.name@)),
            ..s
        }
}

/// Whether the counters of a community row agree with the given membership
/// and channel rows.
pub open spec fn counts_agree(s: Server, members: Seq<ServerMember>, channels: Seq<Channel>) -> bool {
    &&& s.member_count == clip(members_of(members, s.name@))
    &&& s.channel_count == clip(live_channels_of(channels, s.name@))
}

/// Sets both counters of a community row by enumeration.
pub struct Recount<'a> {
    pub members: &'a Vec<ServerMember>,
    pub channels: &'a Vec<Channel>,
}

/// A row count as a counter value.
pub fn to_counter(n: usize) -> (c: i64)
    ensures
        c == clip(n as nat),
{
    let wide: u64 = n as u64;
    if wide > 0x7fff_ffff_ffff_ffffu64 {
        i64::MAX
    } else {
        wide as i64
    }
}

impl<'a> Patch<Server> for Recount<'a> {
    open spec fn change(&self) -> spec_fn(Server) -> Server {
        recounted(self.members@, self.channels@)
    }

    fn apply(&self, row: &mut Server) {
        let members = count_where(self.members, &ServerIs(row.name.as_str()));
        let channels = count_where(self.channels, &Both(ServerIs(row.name.as_str()), Live));
        row.member_count = to_counter(members);
        row.channel_count = to_counter(channels);
    }
}

/// The store with the counters of the communities named `server` recomputed.
pub open spec fn with_counts_of(s: Store, server: Seq<char>) -> Seq<Server> {
    updated(s.servers@, server_is(server), recounted(s.server_members@, s.channels@))
}

/// The store with the counters of every community recomputed.
pub open spec fn with_all_counts(s: Store) -> Seq<Server> {
    updated(s.servers@, all(), recounted(s.server_members@, s.channels@))
}

/// Recomputes the counters of the communities named `server`.
pub fn recount_server(pool: &mut Store, server: &str)
    ensures
        final(pool).servers@ == with_counts_of(*old(pool), server@),
        *final(pool) == (Store { servers: final(pool).servers, ..*old(pool) }),
{
    update_where(
        &mut pool.servers,
        &ServerIs(server),
        &Recount { members: &pool.server_members, channels: &pool.channels },
    );
}

/// Recomputes the counters of every community.
pub fn recount_all(pool: &mut Store)
    ensures
        final(pool).servers@ == with_all_counts(*old(pool)),
        *final(pool) == (Store { servers: final(pool).servers, ..*old(pool) }),
{
    update_where(
        &mut pool.servers,
        &All,
        &Recount { members: &pool.server_members, channels: &pool.channels },
    );
}

/// After the counters of every community have been recomputed, the
/// counters of each community are what enumerating its membership rows and
/// its live channels gives; nothing else about the communities changes.
pub proof fn lemma_recount_agrees(s: Store)
    ensures
        with_all_counts(s).len() == s.servers@.len(),
        forall|i: int|
            0 <= i < s.servers@.len() ==> {
                let row = #[trigger] with_all_counts(s)[i];
                &&& counts_agree(row, s.server_members@, s.channels@)
                &&& row.name == s.servers@[i].name
                &&& row.creator_username == s.servers@[i].creator_username
                &&& row.created_at == s.servers@[i].created_at
                &&& row.is_active == s.servers@[i].is_active
            },
{
}

/// Recomputing the counters twice gives what recomputing them once gives.
pub proof fn lemma_recount_idempotent(s: Store)
    ensures
        with_all_counts(Store { servers: s.servers, ..s }) == with_all_counts(s),
        forall|once: Store|
            once.servers@ == with_all_counts(s) && once.server_members == s.server_members
                && once.channels == s.channels ==> #[trigger] with_all_counts(once)
                =~= with_all_counts(s),
{
}

/// After the counters of the communities named `server` have been
/// recomputed, the counters of each of them are what enumeration gives, and
/// every other community is as it was.
pub proof fn lemma_recount_of_agrees(s: Store, server: Seq<char>)
    ensures
        with_counts_of(s, server).len() == s.servers@.len(),
        forall|i: int|
            0 <= i < s.servers@.len() ==> {
                let row = #[trigger] with_counts_of(s, server)[i];
                if s.servers@[i].name@ == server {
                    counts_agree(row, s.server_members@, s.channels@) && row.name
                        == s.servers@[i].name
                } else {
                    row == s.servers@[i]
                }
            },
{
}

} // verus!
