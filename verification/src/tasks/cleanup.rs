//! The periodic removal of files whose time is up. The rows are handled
//! here; removing the bytes from disk is left to the caller, who gets the
//! list of the files concerned.
use vstd::prelude::*;
use crate::database::order::select_where;
use crate::database::query::{both, id_is, live, Both, IdIs, Live};
use crate::database::table::{
    any, delete_where, exists_where, first, position_where, rewrite_where, rewritten,
    update_where, updated, without, Matcher, Rewrite,
};
use crate::database::Store;
use crate::models::file::{File, FileAttachment};
use crate::models::message::Message;
use crate::services::file_storage::{discarded, Discard};
use crate::text::{concat_str, name_lt, str_eq, str_lt};
use crate::utils::clock::now_rfc3339;

verus! {

/// Selects the files whose time was up before a given time.
pub struct ExpiredBefore<'a>(pub &'a str);

/// Files whose expiry time, as text, comes before `now`.
pub open spec fn expired_before(now: Seq<char>) -> spec_fn(File) -> bool {
    |f: File| name_lt(f.expires_at@, now)
}

impl<'a> Matcher<File> for ExpiredBefore<'a> {
    open spec fn pred(&self) -> spec_fn(File) -> bool {
        expired_before(self.0@)
    }

    fn test(&self, row: &File) -> (r: bool) {
        str_lt(row.expires_at.as_str(), self.0)
    }
}

/// Selects the links of one file.
pub struct OfFile<'a>(pub &'a str);

/// Links of the file `file_id`.
pub open spec fn of_file(file_id: Seq<char>) -> spec_fn(FileAttachment) -> bool {
    |link: FileAttachment| link.file_id@ == file_id
}

impl<'a> Matcher<FileAttachment> for OfFile<'a> {
    open spec fn pred(&self) -> spec_fn(FileAttachment) -> bool {
        of_file(self.0@)
    }

    fn test(&self, row: &FileAttachment) -> (r: bool) {
        str_eq(row.file_id.as_str(), self.0)
    }
}

/// Selects the links to one message.
pub struct ToMessage<'a>(pub &'a str);

/// Links to the message `message_id`.
pub open spec fn to_message(message_id: Seq<char>) -> spec_fn(FileAttachment) -> bool {
    |link: FileAttachment| link.message_id@ == message_id
}

impl<'a> Matcher<FileAttachment> for ToMessage<'a> {
    open spec fn pred(&self) -> spec_fn(FileAttachment) -> bool {
        to_message(self.0@)
    }

    fn test(&self, row: &FileAttachment) -> (r: bool) {
        str_eq(row.message_id.as_str(), self.0)
    }
}

/// Selects the messages that show one file.
pub struct Showing<'a> {
    pub links: &'a Vec<FileAttachment>,
    pub file_id: &'a str,
}

/// Messages to which the file `file_id` is linked.
pub open spec fn showing(links: Seq<FileAttachment>, file_id: Seq<char>) -> spec_fn(Message) -> bool {
    |m: Message| any(links, both(of_file(file_id), to_message(m.id@)))
}

impl<'a> Matcher<Message> for Showing<'a> {
    open spec fn pred(&self) -> spec_fn(Message) -> bool {
        showing(self.links@, self.file_id@)
    }

    fn test(&self, row: &Message) -> (r: bool) {
        exists_where(self.links, &Both(OfFile(self.file_id), ToMessage(row.id.as_str())))
    }
}

/// Puts a new text in place of the content of a message.
pub struct ReplaceContent<'a>(pub &'a str);

/// Whether `after` is the message `before` with the content `text`.
pub open spec fn content_replaced(text: Seq<char>) -> spec_fn(Message, Message) -> bool {
    |before: Message, after: Message|
        after.content@ == text && after == (Message { content: after.content, ..before })
}

impl<'a> Rewrite<Message> for ReplaceContent<'a> {
    open spec fn relates(&self) -> spec_fn(Message, Message) -> bool {
        content_replaced(self.0@)
    }

    fn rewrite(&self, row: &mut Message) {
        row.content = self.0.to_string();
    }
}

/// The notice that takes the place of the content of a message whose file
/// named `original_name` has been removed.
pub open spec fn removal_notice(original_name: Seq<char>) -> Seq<char> {
    "[File '"@ + original_name + "' was removed after 1 day of posting]"@
}

/// The notice for a removed file named `original_name`.
pub fn notice_for(original_name: &str) -> (s: String)
    ensures
        s@ == removal_notice(original_name@),
{
    let head = concat_str("[File '", original_name);
    concat_str(head.as_str(), "' was removed after 1 day of posting]")
}

/// The name under which the file `e` is known to its readers: the original
/// name of the first row with its identifier.
pub open spec fn known_name(s: Store, e: File) -> Seq<char> {
    match first(s.files@, id_is(e.id@)) {
        Some(f) => f.original_name@,
        None => e.original_name@,
    }
}

/// What the removal of one expired file `e` does: every file row with its
/// identifier is marked as deleted; every message that showed it has the
/// removal notice as its content; the links of the file are gone; nothing
/// else changes.
pub open spec fn file_removed(pre: Store, post: Store, e: File) -> bool {
    &&& post.files@ == updated(pre.files@, id_is(e.id@), discarded())
    &&& rewritten(
        pre.messages@,
        post.messages@,
        showing(pre.file_attachments@, e.id@),
        content_replaced(removal_notice(known_name(pre, e))),
    )
    &&& post.file_attachments@ == without(pre.file_attachments@, of_file(e.id@))
    &&& post == (Store {
        files: post.files,
        messages: post.messages,
        file_attachments: post.file_attachments,
        ..pre
    })
}

/// Removes one expired file from the records.
pub fn remove_expired(pool: &mut Store, e: &File)
    ensures
        file_removed(*old(pool), *final(pool), *e),
{
    let original_name = match position_where(&pool.files, &IdIs(e.id.as_str())) {
        Some(k) => pool.files[k].original_name.clone(),
        None => e.original_name.clone(),
    };
    update_where(&mut pool.files, &IdIs(e.id.as_str()), &Discard);
    let notice = notice_for(original_name.as_str());
    rewrite_where(
        &mut pool.messages,
        &Showing { links: &pool.file_attachments, file_id: e.id.as_str() },
        &ReplaceContent(notice.as_str()),
    );
    delete_where(&mut pool.file_attachments, &OfFile(e.id.as_str()));
}

/// `states` are the states that the store passes through while the files
/// `list` are removed one after the other: one state before each removal,
/// and one after the last.
pub open spec fn removal_chain(states: Seq<Store>, list: Seq<File>) -> bool {
    &&& states.len() == list.len() + 1
    &&& forall|i: int|
        0 <= i < list.len() ==> file_removed(states[i], #[trigger] states[i + 1], list[i])
}

/// What the removal of the files `list`, one after the other, does.
pub open spec fn files_removed(pre: Store, post: Store, list: Seq<File>) -> bool {
    exists|states: Seq<Store>|
        #[trigger] removal_chain(states, list) && states[0] == pre && states.last() == post
}

/// The live files whose time was up before `now`, in table order.
pub open spec fn expired_files(s: Store, now: Seq<char>) -> Seq<File> {
    s.files@.filter(both(expired_before(now), live()))
}

/// Removes from the records the live files whose expiry time comes before
/// the time written in `now`, one after the other in table order, and
/// returns them as they were: the caller removes their bytes.
pub fn cleanup_expired_files_at(pool: &mut Store, now: &str) -> (expired: Vec<File>)
    ensures
        expired@ == expired_files(*old(pool), now@),
        files_removed(*old(pool), *final(pool), expired@),
{
    let expired = select_where(&pool.files, &Both(ExpiredBefore(now), Live));
    let mut i: usize = 0;
    let ghost mut states: Seq<Store> = seq![*pool];
    while i < expired.len()
        invariant
            i <= expired@.len(),
            removal_chain(states, expired@.take(i as int)),
            states[0] == *old(pool),
            states.last() == *pool,
        decreases expired@.len() - i,
    {
        let ghost before = states;
        remove_expired(pool, &expired[i]);
        proof {
            states = states.push(*pool);
            let next = expired@.take(i + 1);
            assert forall|k: int| 0 <= k < next.len() implies file_removed(
                states[k],
                #[trigger] states[k + 1],
                next[k],
            ) by {
                if k < i {
                    assert(states[k] == before[k]);
                    assert(states[k + 1] == before[k + 1]);
                    assert(next[k] == expired@.take(i as int)[k]);
                }
            }
        }
        i += 1;
    }
    proof {
        assert(expired@.take(expired@.len() as int) =~= expired@);
    }
    expired
}

/// Removes from the records the live files whose time is up now, and
/// returns them as they were.
pub fn cleanup_expired_files(pool: &mut Store) -> (expired: Vec<File>)
    ensures
        exists|now: Seq<char>|
            expired@ == #[trigger] expired_files(*old(pool), now) && files_removed(
                *old(pool),
                *final(pool),
                expired@,
            ),
{
    let now = now_rfc3339();
    cleanup_expired_files_at(pool, now.as_str())
}

} // verus!
