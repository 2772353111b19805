//! The registry of live connections, the bus that carries events to them,
//! and the presence of identities.
//!
//! An identity is online while it has at least one live connection. The
//! first step of every connection marks its identity online in all its
//! communities; the end of an identity's last connection marks it offline.
//! Guests have connections but no presence.
//!
//! The bus is a `tokio` broadcast channel: every live connection holds one
//! receiver, and whatever is published goes to all of them.
use vstd::prelude::*;
use crate::database::order::select_where;
use crate::database::query::{id_is, user_like, HasId, HasUser, IdIs, UserLike};
use crate::database::table::{
    any, delete_where, exists_where, first, position_where, rewrite_where, rewritten, without,
    Rewrite,
};
use crate::database::Store;
use crate::models::server_member::ServerMember;
use crate::text::str_eq;
use crate::utils::clock::now_rfc3339;
use crate::utils::ids::new_id;
use crate::websocket::events::ServerMessage;

verus! {

/// The identity of a connection that has not proved who it is.
pub const GUEST: &'static str = "guest";

/// A live connection.
#[derive(Debug, Clone, PartialEq, Eq)]
pub struct Connection {
    pub id: String,
    pub username: String,
    pub created_at: String,
}

/// The sending half of a `tokio` broadcast channel.
#[verifier::external_type_specification]
#[verifier::external_body]
#[verifier::reject_recursive_types(T)]
pub struct ExSender<T>(tokio::sync::broadcast::Sender<T>);

/// The receiving half of a `tokio` broadcast channel.
#[verifier::external_type_specification]
#[verifier::external_body]
#[verifier::reject_recursive_types(T)]
pub struct ExReceiver<T>(tokio::sync::broadcast::Receiver<T>);

/// The number of events that the bus keeps for a connection that is slow
/// to read; a connection that falls further behind loses its oldest events.
pub const BUS_CAPACITY: usize = 1000;

/// The registry of live connections, in which no two entries have the same
/// handle, and the bus to which they listen.
#[derive(Debug)]
pub struct ConnectionManager {
    pub connections: Vec<Connection>,
    pub broadcast_tx: tokio::sync::broadcast::Sender<ServerMessage>,
}

/// The capacity that a bus was made with: the number of events that it was
/// asked to keep for slow readers.
pub uninterp spec fn bus_capacity(tx: tokio::sync::broadcast::Sender<ServerMessage>) -> nat;

/// A new bus that keeps `capacity` events for slow readers.
///
/// Calls `tokio::sync::broadcast::channel` and keeps the sending half; the
/// capacity that the channel was made with is the value named
/// [`bus_capacity`]. The call panics for a capacity of zero or of more than
/// half the largest `usize`; the precondition leaves those out.
#[verifier::external_body]
pub(crate) fn open_bus(capacity: usize) -> (tx: tokio::sync::broadcast::Sender<ServerMessage>)
    requires
        0 < capacity <= usize::MAX / 2,
    ensures
        bus_capacity(tx) == capacity,
{
    tokio::sync::broadcast::channel(capacity).0
}

/// Hands an event to the bus and returns the number of receivers that the
/// bus had at that moment, zero where it had none.
///
/// Calls `tokio::sync::broadcast::Sender::send`. Receivers come and go on
/// their own, so nothing is claimed of the number.
#[verifier::external_body]
pub(crate) fn send_on(
    tx: &tokio::sync::broadcast::Sender<ServerMessage>,
    message: ServerMessage,
) -> usize {
    tx.send(message).unwrap_or(0)
}

/// A new receiver on the bus, which gets every event published from now on.
///
/// Calls `tokio::sync::broadcast::Sender::subscribe`.
#[verifier::external_body]
pub(crate) fn subscribe_to(
    tx: &tokio::sync::broadcast::Sender<ServerMessage>,
) -> tokio::sync::broadcast::Receiver<ServerMessage> {
    tx.subscribe()
}

impl HasId for Connection {
    open spec fn ident(&self) -> Seq<char> {
        self.id@
    }

    fn id_str(&self) -> (s: &str) {
        self.id.as_str()
    }
}

impl HasUser for Connection {
    open spec fn user(&self) -> Seq<char> {
        self.username@
    }

    fn user_str(&self) -> (s: &str) {
        self.username.as_str()
    }
}

/// Marks a membership online or offline.
pub struct MarkPresence {
    pub online: bool,
    pub at: String,
}

/// The online flag of a membership whose member is online or not.
pub open spec fn online_flag(online: bool) -> i64 {
    if online {
        1
    } else {
        0
    }
}

/// Whether `after` is the membership `before` marked online or offline: the
/// flag is set and the time at which the member was last seen is renewed.
pub open spec fn presence_marked(online: bool) -> spec_fn(ServerMember, ServerMember) -> bool {
    |before: ServerMember, after: ServerMember|
        after.is_online == online_flag(online) && after == (ServerMember {
            is_online: after.is_online,
            last_seen: after.last_seen,
            ..before
        })
}

impl Rewrite<ServerMember> for MarkPresence {
    open spec fn relates(&self) -> spec_fn(ServerMember, ServerMember) -> bool {
        presence_marked(self.online)
    }

    fn rewrite(&self, row: &mut ServerMember) {
        row.is_online = if self.online {
            1
        } else {
            0
        };
        row.last_seen = self.at.clone();
    }
}

/// `e` tells that `user` is online or offline in the community of the
/// membership `m`.
pub open spec fn tells_presence(e: ServerMessage, m: ServerMember, user: Seq<char>, online: bool) -> bool {
    e matches ServerMessage::UserOnlineStatusChanged { server_name, username, is_online }
        && server_name == m.server_name && username@ == user && is_online == online
}

/// `events` holds one presence event for each membership of `user`, in
/// table order.
pub open spec fn presence_events(
    members: Seq<ServerMember>,
    user: Seq<char>,
    online: bool,
    events: Seq<ServerMessage>,
) -> bool {
    let own = members.filter(user_like(user));
    &&& events.len() == own.len()
    &&& forall|i: int| 0 <= i < own.len() ==> tells_presence(#[trigger] events[i], own[i], user, online)
}

/// What a change of presence does. For a guest nothing changes and nothing
/// is published. For any other identity every membership of the identity,
/// whatever the case of the letters of its name, is marked, nothing else
/// changes, and one event per membership is published.
pub open spec fn presence_set(
    pre: Store,
    post: Store,
    user: Seq<char>,
    online: bool,
    events: Seq<ServerMessage>,
) -> bool {
    if user == GUEST@ {
        post == pre && events.len() == 0
    } else {
        &&& rewritten(
            pre.server_members@,
            post.server_members@,
            user_like(user),
            presence_marked(online),
        )
        &&& post == (Store { server_members: post.server_members, ..pre })
        &&& presence_events(pre.server_members@, user, online, events)
    }
}

/// Marks an identity online or offline in all its communities and returns
/// the events to publish.
pub fn set_presence(pool: &mut Store, username: &str, online: bool) -> (events: Vec<ServerMessage>)
    ensures
        presence_set(*old(pool), *final(pool), username@, online, events@),
{
    let mut events: Vec<ServerMessage> = Vec::new();
    if str_eq(username, GUEST) {
        return events;
    }
    let own = select_where(&pool.server_members, &UserLike(username));
    rewrite_where(
        &mut pool.server_members,
        &UserLike(username),
        &MarkPresence { online, at: now_rfc3339() },
    );
    let mut i: usize = 0;
    while i < own.len()
        invariant
            i <= own@.len(),
            events@.len() == i,
            forall|j: int|
                0 <= j < i ==> tells_presence(#[trigger] events@[j], own@[j], username@, online),
        decreases own@.len() - i,
    {
        events.push(
            ServerMessage::UserOnlineStatusChanged {
                server_name: own[i].server_name.clone(),
                username: username.to_string(),
                is_online: online,
            },
        );
        i += 1;
    }
    events
}

/// What opening a connection does: the connection, with a fresh handle, is
/// the new last entry of the registry, in place of any entry that had the
/// same handle, and its identity is marked online.
pub open spec fn connected(
    before: ConnectionManager,
    pre: Store,
    after: ConnectionManager,
    post: Store,
    user: Seq<char>,
    handle: Seq<char>,
    events: Seq<ServerMessage>,
) -> bool {
    let c = after.connections@.last();
    &&& after.connections@.len() > 0
    &&& after.connections@.drop_last() =~= without(before.connections@, id_is(handle))
    &&& c.id@ == handle
    &&& c.username@ == user
    &&& presence_set(pre, post, user, true, events)
}

/// No two entries of the registry have the same handle.
pub open spec fn distinct_handles(connections: Seq<Connection>) -> bool {
    forall|i: int, j: int|
        0 <= i < j < connections.len() ==> connections[i].id@ != connections[j].id@
}

/// What closing the connection `handle` does. A handle that is not in the
/// registry changes nothing. Otherwise every entry with that handle leaves
/// the registry; if no connection of the same identity, whatever the case
/// of the letters of its name, is left, the identity is marked offline, and
/// else nothing more changes and nothing is published.
pub open spec fn disconnected(
    before: ConnectionManager,
    pre: Store,
    after: ConnectionManager,
    post: Store,
    handle: Seq<char>,
    events: Seq<ServerMessage>,
) -> bool {
    match first(before.connections@, id_is(handle)) {
        None => after == before && post == pre && events.len() == 0,
        Some(c) => {
            &&& after.connections@ == without(before.connections@, id_is(handle))
            &&& if any(after.connections@, user_like(c.username@)) {
                post == pre && events.len() == 0
            } else {
                presence_set(pre, post, c.username@, false, events)
            }
        },
    }
}

impl Default for ConnectionManager {
    fn default() -> (m: ConnectionManager)
        ensures
            m.connections@.len() == 0,
            bus_capacity(m.broadcast_tx) == BUS_CAPACITY,
    {
        ConnectionManager::new()
    }
}

impl ConnectionManager {
    /// A registry without connections, with a bus of its own that was made
    /// to keep a thousand events for slow readers.
    pub fn new() -> (m: ConnectionManager)
        ensures
            m.connections@.len() == 0,
            m.wf(),
            bus_capacity(m.broadcast_tx) == BUS_CAPACITY,
    {
        ConnectionManager { connections: Vec::new(), broadcast_tx: open_bus(BUS_CAPACITY) }
    }

    /// The registry is well formed: no two entries have the same handle.
    pub open spec fn wf(self) -> bool {
        distinct_handles(self.connections@)
    }

    /// Publishes an event to every live connection. The publisher never
    /// waits: a connection that cannot keep up loses its oldest events.
    pub fn broadcast(&self, message: ServerMessage) {
        let _ = send_on(&self.broadcast_tx, message);
    }

    /// Publishes events to every live connection, in their order. Returns
    /// how many were published.
    pub fn publish(&self, events: Vec<ServerMessage>) -> (n: usize)
        ensures
            n == events@.len(),
    {
        let total = events.len();
        let mut later: Vec<ServerMessage> = events;
        let mut next: Vec<ServerMessage> = Vec::new();
        while later.len() > 0
            invariant
                later@.len() + next@.len() == events@.len(),
            decreases later@.len(),
        {
            let e = later.pop().unwrap();
            next.push(e);
        }
        let mut n: usize = 0;
        while next.len() > 0
            invariant
                n + next@.len() == events@.len(),
                events@.len() == total,
            decreases next@.len(),
        {
            let e = next.pop().unwrap();
            self.broadcast(e);
            n += 1;
        }
        n
    }

    /// A receiver for a new connection: it gets every event that is
    /// published from now on.
    pub fn subscribe(&self) -> tokio::sync::broadcast::Receiver<ServerMessage> {
        subscribe_to(&self.broadcast_tx)
    }

    /// Whether `user` has a live connection.
    pub open spec fn online(self, user: Seq<char>) -> bool {
        any(self.connections@, user_like(user))
    }

    /// Whether `username` has a live connection.
    pub fn is_online(&self, username: &str) -> (r: bool)
        ensures
            r == self.online(username@),
    {
        exists_where(&self.connections, &UserLike(username))
    }

    /// Registers a connection of `username` and marks the identity online.
    /// Returns the handle of the connection and the events to publish.
    pub fn connect(&mut self, pool: &mut Store, username: String) -> (r: (String, Vec<ServerMessage>))
        ensures
            connected(
                *old(self),
                *old(pool),
                *final(self),
                *final(pool),
                username@,
                r.0@,
                r.1@,
            ),
            old(self).wf() ==> final(self).wf(),
    {
        let id = new_id();
        let events = set_presence(pool, username.as_str(), true);
        let ghost before = self.connections@;
        delete_where(&mut self.connections, &IdIs(id.as_str()));
        let ghost kept = self.connections@;
        self.connections.push(Connection { id: id.clone(), username, created_at: now_rfc3339() });
        proof {
            lemma_without_rows(before, id_is(id@));
            if distinct_handles(before) {
                lemma_without_keeps_distinct(before, id_is(id@));
                assert forall|i: int, j: int| 0 <= i < j < self.connections@.len() implies
                    self.connections@[i].id@ != self.connections@[j].id@ by {
                    if j == kept.len() {
                        assert(!id_is::<Connection>(id@)(kept[i]));
                    } else {
                        assert(self.connections@[i] == kept[i]);
                        assert(self.connections@[j] == kept[j]);
                    }
                }
            }
        }
        (id, events)
    }

    /// Unregisters the connection `connection_id` and, if it was the last
    /// of its identity, marks the identity offline. Returns the events to
    /// publish.
    pub fn disconnect(&mut self, pool: &mut Store, connection_id: &str) -> (events: Vec<
        ServerMessage,
    >)
        ensures
            disconnected(
                *old(self),
                *old(pool),
                *final(self),
                *final(pool),
                connection_id@,
                events@,
            ),
            old(self).wf() ==> final(self).wf(),
    {
        proof {
            if distinct_handles(self.connections@) {
                lemma_without_keeps_distinct(self.connections@, id_is(connection_id@));
            }
        }
        let username = match position_where(&self.connections, &IdIs(connection_id)) {
            Some(i) => self.connections[i].username.clone(),
            None => {
                return Vec::new();
            },
        };
        delete_where(&mut self.connections, &IdIs(connection_id));
        if exists_where(&self.connections, &UserLike(username.as_str())) {
            return Vec::new();
        }
        set_presence(pool, username.as_str(), false)
    }
}

/// What is left after the entries that meet `p` are removed: no entry that
/// meets `p`, every entry that was there and does not meet `p`, and nothing
/// that was not there.
pub proof fn lemma_without_rows(rows: Seq<Connection>, p: spec_fn(Connection) -> bool)
    ensures
        forall|i: int|
            0 <= i < without(rows, p).len() ==> !p(#[trigger] without(rows, p)[i])
                && rows.contains(without(rows, p)[i]),
        forall|j: int| 0 <= j < rows.len() && !p(#[trigger] rows[j]) ==> without(rows, p).contains(
            rows[j],
        ),
{
    let left = without(rows, p);
    assert forall|i: int| 0 <= i < left.len() implies !p(#[trigger] left[i]) && rows.contains(
        left[i],
    ) by {
        rows.lemma_filter_pred(crate::database::table::not(p), i);
        assert(left.contains(left[i]));
        rows.lemma_filter_contains_rev(crate::database::table::not(p), left[i]);
    }
    assert forall|j: int| 0 <= j < rows.len() && !p(#[trigger] rows[j]) implies left.contains(
        rows[j],
    ) by {
        crate::database::table::lemma_without_keeps(rows, p, j);
    }
}

/// Removing entries from a registry with distinct handles leaves a registry
/// with distinct handles.
pub proof fn lemma_without_keeps_distinct(rows: Seq<Connection>, p: spec_fn(Connection) -> bool)
    requires
        distinct_handles(rows),
    ensures
        distinct_handles(without(rows, p)),
    decreases rows.len(),
{
    reveal(Seq::filter);
    if rows.len() > 0 {
        let rest = rows.drop_last();
        let last = rows.last();
        assert(distinct_handles(rest)) by {
            assert forall|i: int, j: int| 0 <= i < j < rest.len() implies rest[i].id@
                != rest[j].id@ by {
                assert(rest[i] == rows[i] && rest[j] == rows[j]);
            }
        }
        lemma_without_keeps_distinct(rest, p);
        lemma_without_rows(rest, p);
        let left = without(rest, p);
        if !p(last) {
            assert(without(rows, p) =~= left.push(last));
            assert forall|i: int, j: int| 0 <= i < j < left.push(last).len() implies left.push(
                last,
            )[i].id@ != left.push(last)[j].id@ by {
                if j == left.len() {
                    assert(rest.contains(left[i]));
                    let k = choose|k: int| 0 <= k < rest.len() && rest[k] == left[i];
                    assert(rows[k] == rest[k]);
                    assert(rows[k].id@ != rows[rows.len() - 1].id@);
                }
            }
        } else {
            assert(without(rows, p) =~= left);
        }
    }
}

/// Every membership of `user` carries the given online flag.
pub open spec fn presence_is(s: Store, user: Seq<char>, online: bool) -> bool {
    forall|i: int|
        0 <= i < s.server_members@.len() && user_like(user)(#[trigger] s.server_members@[i])
            ==> s.server_members@[i].is_online == online_flag(online)
}

/// After a change of presence of an identity that is no guest, every
/// membership of the identity carries the new flag, and one event was
/// published for each membership.
pub proof fn lemma_presence_set(
    pre: Store,
    post: Store,
    user: Seq<char>,
    online: bool,
    events: Seq<ServerMessage>,
)
    requires
        presence_set(pre, post, user, online, events),
        user != GUEST@,
    ensures
        presence_is(post, user, online),
        events.len() == crate::database::table::count(pre.server_members@, user_like(user)),
        post.server_members@.len() == pre.server_members@.len(),
{
    assert forall|i: int|
        0 <= i < post.server_members@.len() && user_like(user)(
            #[trigger] post.server_members@[i],
        ) implies post.server_members@[i].is_online == online_flag(online) by {
        let before = pre.server_members@[i];
        let after = post.server_members@[i];
        if !user_like(user)(before) {
            assert(after == before);
        }
    }
}

/// While an identity has another live connection, closing one of its
/// connections changes nothing of its presence and publishes nothing.
pub proof fn lemma_other_connection_keeps_presence(
    before: ConnectionManager,
    pre: Store,
    after: ConnectionManager,
    post: Store,
    handle: Seq<char>,
    events: Seq<ServerMessage>,
    other: int,
)
    requires
        disconnected(before, pre, after, post, handle, events),
        first(before.connections@, id_is(handle)) matches Some(c) && 0 <= other
            < before.connections@.len() && before.connections@[other].id@ != handle
            && crate::text::same_name(before.connections@[other].username@, c.username@),
    ensures
        post == pre,
        events.len() == 0,
{
    let c = first(before.connections@, id_is(handle))->Some_0;
    let kept = before.connections@[other];
    crate::database::table::lemma_without_keeps(before.connections@, id_is(handle), other);
    let k = choose|k: int| 0 <= k < after.connections@.len() && after.connections@[k] == kept;
    assert(user_like(c.username@)(after.connections@[k]));
}

/// When the last live connection of an identity that is no guest is
/// closed, the identity goes offline in every community it belongs to, and
/// one event per membership says so.
pub proof fn lemma_last_connection_goes_offline(
    before: ConnectionManager,
    pre: Store,
    after: ConnectionManager,
    post: Store,
    handle: Seq<char>,
    events: Seq<ServerMessage>,
)
    requires
        disconnected(before, pre, after, post, handle, events),
        first(before.connections@, id_is(handle)) matches Some(c) && c.username@ != GUEST@ && (
        forall|i: int|
            0 <= i < before.connections@.len() && crate::text::same_name(
                (#[trigger] before.connections@[i]).username@,
                c.username@,
            ) ==> before.connections@[i].id@ == handle),
    ensures
        first(before.connections@, id_is(handle)) matches Some(c) && presence_is(
            post,
            c.username@,
            false,
        ) && events.len() == crate::database::table::count(
            pre.server_members@,
            user_like(c.username@),
        ),
{
    let c = first(before.connections@, id_is(handle))->Some_0;
    lemma_without_rows(before.connections@, id_is(handle));
    if any(after.connections@, user_like(c.username@)) {
        let k = choose|k: int|
            0 <= k < after.connections@.len() && user_like(c.username@)(
                #[trigger] after.connections@[k],
            );
        let row = after.connections@[k];
        assert(before.connections@.contains(row));
        let j = choose|j: int| 0 <= j < before.connections@.len() && before.connections@[j] == row;
        assert(before.connections@[j].id@ == handle);
        assert(false);
    }
    lemma_presence_set(pre, post, c.username@, false, events);
}

/// Two connections of one identity, opened one after the other and closed
/// one after the other: after the first is closed the identity is still
/// online in every community it belongs to and nothing was published; after
/// the second is closed it is offline in every one of them, and one event
/// per membership said so.
pub proof fn lemma_two_connections(
    m0: ConnectionManager,
    s0: Store,
    m1: ConnectionManager,
    s1: Store,
    m2: ConnectionManager,
    s2: Store,
    m3: ConnectionManager,
    s3: Store,
    m4: ConnectionManager,
    s4: Store,
    user: Seq<char>,
    h1: Seq<char>,
    h2: Seq<char>,
    e1: Seq<ServerMessage>,
    e2: Seq<ServerMessage>,
    e3: Seq<ServerMessage>,
    e4: Seq<ServerMessage>,
)
    requires
        user != GUEST@,
        h1 != h2,
        !any(m0.connections@, user_like(user)),
        connected(m0, s0, m1, s1, user, h1, e1),
        connected(m1, s1, m2, s2, user, h2, e2),
        disconnected(m2, s2, m3, s3, h1, e3),
        disconnected(m3, s3, m4, s4, h2, e4),
    ensures
        presence_is(s2, user, true),
        s3 == s2,
        e3.len() == 0,
        presence_is(s4, user, false),
        e4.len() == crate::database::table::count(s3.server_members@, user_like(user)),
{
    let c0 = m0.connections@;
    let c1 = m1.connections@;
    let c2 = m2.connections@;
    let c3 = m3.connections@;
    let first_one = c1.last();
    let second_one = c2.last();
    let a = without(c0, id_is(h1));
    let b = without(c1, id_is(h2));
    lemma_without_rows(c0, id_is(h1));
    lemma_without_rows(c1, id_is(h2));
    lemma_without_rows(c2, id_is(h1));
    lemma_presence_set(s1, s2, user, true, e2);
    crate::text::lemma_same_name_reflexive(user);
    assert(c1.drop_last() == a);
    assert(c2.drop_last() == b);
    // where an entry of each registry comes from
    assert forall|i: int| 0 <= i < c1.len() implies #[trigger] c1[i] == first_one || (c0.contains(
        c1[i],
    ) && c1[i].id@ != h1) by {
        if i < c1.len() - 1 {
            assert(c1[i] == a[i]);
        }
    }
    assert forall|i: int| 0 <= i < c2.len() implies #[trigger] c2[i] == second_one || c2[i]
        == first_one || (c0.contains(c2[i]) && c2[i].id@ != h1 && c2[i].id@ != h2) by {
        if i < c2.len() - 1 {
            assert(c2[i] == b[i]);
            assert(c1.contains(b[i]));
            let j = choose|j: int| 0 <= j < c1.len() && c1[j] == b[i];
            assert(c1[j] == first_one || (c0.contains(c1[j]) && c1[j].id@ != h1));
        }
    }
    // the first connection is in the registry when it is closed
    assert(c1[c1.len() - 1] == first_one);
    assert(b.contains(first_one));
    let at = choose|at: int| 0 <= at < b.len() && b[at] == first_one;
    assert(c2[at] == first_one);
    assert(id_is::<Connection>(h1)(c2[at]));
    let f1 = crate::database::table::lemma_any_has_first(c2, id_is(h1));
    assert(c2[f1] == first_one) by {
        assert(c2[f1] == second_one || c2[f1] == first_one || (c0.contains(c2[f1]) && c2[f1].id@
            != h1 && c2[f1].id@ != h2));
    }
    lemma_other_connection_keeps_presence(m2, s2, m3, s3, h1, e3, c2.len() - 1);
    // the second connection is the only one of the identity that is left
    assert(c2[c2.len() - 1] == second_one);
    assert(c3.contains(second_one));
    let at2 = choose|at2: int| 0 <= at2 < c3.len() && c3[at2] == second_one;
    assert(id_is::<Connection>(h2)(c3[at2]));
    let f2 = crate::database::table::lemma_any_has_first(c3, id_is(h2));
    assert forall|i: int| 0 <= i < c3.len() implies #[trigger] c3[i] == second_one || (c0.contains(
        c3[i],
    ) && c3[i].id@ != h2) by {
        assert(c2.contains(c3[i]));
        let j = choose|j: int| 0 <= j < c2.len() && c2[j] == c3[i];
        assert(c2[j] == second_one || c2[j] == first_one || (c0.contains(c2[j]) && c2[j].id@ != h1
            && c2[j].id@ != h2));
    }
    assert(c3[f2] == second_one) by {
        assert(c3[f2] == second_one || (c0.contains(c3[f2]) && c3[f2].id@ != h2));
    }
    assert forall|i: int|
        0 <= i < c3.len() && crate::text::same_name(
            (#[trigger] c3[i]).username@,
            second_one.username@,
        ) implies c3[i].id@ == h2 by {
        assert(c3[i] == second_one || (c0.contains(c3[i]) && c3[i].id@ != h2));
        if c3[i] != second_one {
            let j = choose|j: int| 0 <= j < c0.len() && c0[j] == c3[i];
            assert(user_like::<Connection>(user)(c0[j]));
        }
    }
    lemma_last_connection_goes_offline(m3, s3, m4, s4, h2, e4);
}

} // verus!
