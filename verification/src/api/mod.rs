//! What each request does, from the identity and the parameters it comes
//! with to the answer it gets and the events that are published for it.
//! Reading the request and writing the answer is left to the caller.
use vstd::prelude::*;
use crate::database::query::{server_is, ServerIs};
use crate::database::table::{first, position_where};
use crate::database::{Store, ROW_NOT_FOUND};
use crate::utils::error::{fails_with, AppError, AppResult, ErrorKind};
use crate::websocket::events::ServerMessage;

pub mod admin;
pub mod auth;
pub mod channels;
pub mod direct_messages;
pub mod files;
pub mod public;
pub mod servers;
pub mod unified_messages;
pub mod users;

verus! {

/// What handling a request leads to: the events to publish, in order, and
/// the answer. Events that were published before a later step failed are
/// published all the same.
#[derive(Debug, PartialEq, Eq)]
pub struct Handled<T> {
    pub events: Vec<ServerMessage>,
    pub result: AppResult<T>,
}

/// The number of rows that a listing shows where the request names none.
pub const DEFAULT_PAGE_SIZE: i64 = 50;

/// The largest number of rows that a public listing shows.
pub const MAX_PAGE_SIZE: i64 = 100;

/// `e` tells the counters of the first community named `server`.
pub open spec fn tells_stats(e: ServerMessage, s: Store, server: Seq<char>) -> bool {
    first(s.servers@, server_is(server)) matches Some(row) && e matches ServerMessage::ServerStatsUpdated {
        server_name,
        member_count,
        channel_count,
    } && server_name@ == server && member_count == row.member_count && channel_count
        == row.channel_count
}

/// What asking for the counters of a community gives: the event that tells
/// them, or a persistence error if there is no community of that name.
pub open spec fn stats_told(s: Store, server: Seq<char>, res: AppResult<ServerMessage>) -> bool {
    match first(s.servers@, server_is(server)) {
        Some(_) => res matches Ok(e) && tells_stats(e, s, server),
        None => fails_with(res, ErrorKind::Database, ROW_NOT_FOUND),
    }
}

/// The event that tells the counters of a community.
pub fn stats_event(pool: &Store, server_name: &str) -> (res: AppResult<ServerMessage>)
    ensures
        stats_told(*pool, server_name@, res),
{
    match position_where(&pool.servers, &ServerIs(server_name)) {
        Some(i) => Ok(
            ServerMessage::ServerStatsUpdated {
                server_name: server_name.to_string(),
                member_count: pool.servers[i].member_count,
                channel_count: pool.servers[i].channel_count,
            },
        ),
        None => Err(AppError::Database(ROW_NOT_FOUND.to_string())),
    }
}

/// The number of rows to show for a requested limit.
pub open spec fn limit_or_default(limit: Option<i64>) -> i64 {
    match limit {
        Some(n) => n,
        None => DEFAULT_PAGE_SIZE,
    }
}

/// The number of rows to skip for a requested offset.
pub open spec fn offset_or_zero(offset: Option<i64>) -> i64 {
    match offset {
        Some(n) => n,
        None => 0,
    }
}

/// The number of rows to show in a public listing for a requested limit: at
/// most a hundred.
pub open spec fn capped_limit(limit: Option<i64>) -> i64 {
    if limit_or_default(limit) < MAX_PAGE_SIZE {
        limit_or_default(limit)
    } else {
        MAX_PAGE_SIZE
    }
}

/// The number of rows to show for a requested limit.
pub fn page_limit(limit: Option<i64>) -> (n: i64)
    ensures
        n == limit_or_default(limit),
{
    match limit {
        Some(n) => n,
        None => DEFAULT_PAGE_SIZE,
    }
}

/// The number of rows to skip for a requested offset.
pub fn page_offset(offset: Option<i64>) -> (n: i64)
    ensures
        n == offset_or_zero(offset),
{
    match offset {
        Some(n) => n,
        None => 0,
    }
}

/// The number of rows to show in a public listing for a requested limit.
pub fn public_page_limit(limit: Option<i64>) -> (n: i64)
    ensures
        n == capped_limit(limit),
{
    let n = page_limit(limit);
    if n < MAX_PAGE_SIZE {
        n
    } else {
        MAX_PAGE_SIZE
    }
}

} // verus!
