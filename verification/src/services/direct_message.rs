//! Direct conversations: finding or opening the one between two identities,
//! and listing those of one identity.
use vstd::prelude::*;
use crate::database::query::{user_is, UserIs};
use crate::database::table::{any, exists_where, first, position_where, Matcher};
use crate::database::Store;
use crate::models::direct_message::{pair_first, pair_second, canonical_pair, DirectMessage};
use crate::text::str_eq;
use crate::utils::error::{rejected_as, rejection, AppError, AppResult, ErrorKind};

verus! {

/// Selects the conversation between two identities, given in canonical
/// order.
pub struct Between<'a>(pub &'a str, pub &'a str);

/// Conversations whose first participant is `first` and whose second is
/// `second`.
pub open spec fn between(first: Seq<char>, second: Seq<char>) -> spec_fn(DirectMessage) -> bool {
    |d: DirectMessage| d.username1@ == first && d.username2@ == second
}

impl<'a> Matcher<DirectMessage> for Between<'a> {
    open spec fn pred(&self) -> spec_fn(DirectMessage) -> bool {
        between(self.0@, self.1@)
    }

    fn test(&self, row: &DirectMessage) -> (r: bool) {
        str_eq(row.username1.as_str(), self.0) && str_eq(row.username2.as_str(), self.1)
    }
}

/// The condition that selects the conversation of `a` and `b`, whichever is
/// named first.
pub open spec fn conversation_of(a: Seq<char>, b: Seq<char>) -> spec_fn(DirectMessage) -> bool {
    between(pair_first(a, b), pair_second(a, b))
}

/// The change that finding or opening a conversation makes: none if the
/// second identity has no row or the two have a conversation; otherwise a
/// new active conversation between them, in canonical order and without
/// messages, is the new last row of the conversations and nothing else
/// changes.
pub open spec fn conversation_state(pre: Store, post: Store, a: Seq<char>, b: Seq<char>) -> bool {
    if !any(pre.users@, user_is(b)) || any(pre.direct_messages@, conversation_of(a, b)) {
        post == pre
    } else {
        let dm = post.direct_messages@.last();
        &&& post.direct_messages@.len() == pre.direct_messages@.len() + 1
        &&& post.direct_messages@.drop_last() =~= pre.direct_messages@
        &&& dm.username1@ == pair_first(a, b)
        &&& dm.username2@ == pair_second(a, b)
        &&& dm.last_message_at is None
        &&& dm.message_count == 0
        &&& dm.is_active == 1
        &&& post == (Store { direct_messages: post.direct_messages, ..pre })
    }
}

/// What finding or opening a conversation does. If the second identity has
/// no row the request fails. Otherwise the conversation of the two is
/// returned: the first such row if there was one, the new row if not. The
/// store changes as [`conversation_state`] says.
pub open spec fn conversation_opened(
    pre: Store,
    post: Store,
    a: Seq<char>,
    b: Seq<char>,
    res: AppResult<DirectMessage>,
) -> bool {
    &&& conversation_state(pre, post, a, b)
    &&& if !any(pre.users@, user_is(b)) {
        rejected_as(res, rejection(ErrorKind::NotFound, "User not found"))
    } else {
        match first(pre.direct_messages@, conversation_of(a, b)) {
            Some(dm) => res == Ok::<DirectMessage, AppError>(dm),
            None => res == Ok::<DirectMessage, AppError>(post.direct_messages@.last()),
        }
    }
}

/// Returns the conversation between two identities, opening it if there is
/// none. The order in which the two are named does not matter.
pub fn get_or_create_dm(pool: &mut Store, username1: String, username2: String) -> (res: AppResult<
    DirectMessage,
>)
    ensures
        conversation_opened(*old(pool), *final(pool), username1@, username2@, res),
{
    if !exists_where(&pool.users, &UserIs(username2.as_str())) {
        return Err(AppError::NotFound("User not found".to_string()));
    }
    let (uname1, uname2) = canonical_pair(username1, username2);
    match position_where(&pool.direct_messages, &Between(uname1.as_str(), uname2.as_str())) {
        Some(i) => {
            return Ok(pool.direct_messages[i].duplicate());
        },
        None => {},
    }
    let dm = DirectMessage::new(uname1, uname2);
    proof {
        crate::text::lemma_lex_lt_total(
            vstd::utf8::encode_utf8(username1@),
            vstd::utf8::encode_utf8(username2@),
        );
    }
    pool.direct_messages.push(dm.duplicate());
    Ok(dm)
}

/// Selects the conversations in which exactly the identity named takes
/// part.
pub struct With<'a>(pub &'a str);

/// Conversations in which exactly the identity `name` takes part.
pub open spec fn with(name: Seq<char>) -> spec_fn(DirectMessage) -> bool {
    |d: DirectMessage| d.username1@ == name || d.username2@ == name
}

impl<'a> Matcher<DirectMessage> for With<'a> {
    open spec fn pred(&self) -> spec_fn(DirectMessage) -> bool {
        with(self.0@)
    }

    fn test(&self, row: &DirectMessage) -> (r: bool) {
        str_eq(row.username1.as_str(), self.0) || str_eq(row.username2.as_str(), self.0)
    }
}

/// The active conversations of an identity, in table order.
pub open spec fn active_conversations(s: Store, user: Seq<char>) -> Seq<DirectMessage> {
    s.direct_messages@.filter(crate::database::query::both(with(user), crate::database::query::live()))
}

/// The active conversations of an identity, the one with the latest
/// message first.
pub fn get_user_dms(pool: &Store, username: &str) -> (res: AppResult<Vec<DirectMessage>>)
    ensures
        res matches Ok(list) && crate::database::order::is_sorting(
            active_conversations(*pool, username@),
            list@,
            crate::database::listing::last_active_first(),
        ),
{
    let rows = crate::database::order::select_where(
        &pool.direct_messages,
        &crate::database::query::Both(With(username), crate::database::query::Live),
    );
    Ok(crate::database::order::sort_by(rows, &crate::database::listing::LastActiveFirst))
}

/// The conversation of two identities is the same whichever of the two is
/// named first: a request for one order finds the row that a request for
/// the other order made.
pub proof fn lemma_conversation_is_unordered(a: Seq<char>, b: Seq<char>)
    ensures
        conversation_of(a, b) == conversation_of(b, a),
{
    crate::models::direct_message::lemma_canonical_pair_symmetric(a, b);
}

} // verus!
