//! Direct conversations between two identities.
use vstd::prelude::*;
use crate::text::{name_lt, str_lt};
use crate::utils::clock::now_rfc3339;
use crate::utils::ids::new_id;

verus! {

/// A conversation row. The two participants are stored smaller name first, so
/// that a request for `(a, b)` and one for `(b, a)` name the same row.
#[derive(Debug, Clone, PartialEq, Eq)]
pub struct DirectMessage {
    pub id: String,
    pub username1: String,
    pub username2: String,
    pub created_at: String,
    pub last_message_at: Option<String>,
    pub message_count: i64,
    pub is_active: i64,
}

/// The smaller of two names in the order on names.
pub open spec fn pair_first(a: Seq<char>, b: Seq<char>) -> Seq<char> {
    if name_lt(b, a) {
        b
    } else {
        a
    }
}

/// The larger of two names in the order on names.
pub open spec fn pair_second(a: Seq<char>, b: Seq<char>) -> Seq<char> {
    if name_lt(b, a) {
        a
    } else {
        b
    }
}

/// Puts two names in canonical order: smaller first.
pub fn canonical_pair(username1: String, username2: String) -> (r: (String, String))
    ensures
        r.0@ == pair_first(username1@, username2@),
        r.1@ == pair_second(username1@, username2@),
{
    if str_lt(username2.as_str(), username1.as_str()) {
        (username2, username1)
    } else {
        (username1, username2)
    }
}

/// The canonical pair does not depend on the order in which the two names
/// are given.
pub proof fn lemma_canonical_pair_symmetric(a: Seq<char>, b: Seq<char>)
    ensures
        pair_first(a, b) == pair_first(b, a),
        pair_second(a, b) == pair_second(b, a),
{
    crate::text::lemma_lex_lt_total(vstd::utf8::encode_utf8(a), vstd::utf8::encode_utf8(b));
    if vstd::utf8::encode_utf8(a) == vstd::utf8::encode_utf8(b) {
        crate::text::lemma_utf8_injective(a, b);
    }
}

impl DirectMessage {
    /// A new active conversation between two identities, without messages,
    /// with a fresh identifier and the current time as its creation time.
    pub fn new(username1: String, username2: String) -> (d: DirectMessage)
        ensures
            d.username1@ == pair_first(username1@, username2@),
            d.username2@ == pair_second(username1@, username2@),
            d.last_message_at is None,
            d.message_count == 0,
            d.is_active == 1,
    {
        let (first, second) = canonical_pair(username1, username2);
        DirectMessage {
            id: new_id(),
            username1: first,
            username2: second,
            created_at: now_rfc3339(),
            last_message_at: None,
            message_count: 0,
            is_active: 1,
        }
    }

    /// A copy of this row.
    pub fn duplicate(&self) -> (d: DirectMessage)
        ensures
            d == *self,
    {
        DirectMessage {
            id: self.id.clone(),
            username1: self.username1.clone(),
            username2: self.username2.clone(),
            created_at: self.created_at.clone(),
            last_message_at: self.last_message_at.clone(),
            message_count: self.message_count,
            is_active: self.is_active,
        }
    }
}

} // verus!
