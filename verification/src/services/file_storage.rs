//! The records of uploaded files. Writing and reading the bytes on disk is
//! left to the caller; this module decides what is to be written and keeps
//! the rows.
use vstd::prelude::*;

use crate::database::listing::{latest_upload_first, LatestUploadFirst};
use crate::database::order::{is_sorting, select_where, sort_by};
use crate::database::query::{both, id_is, live, user_is, Both, IdIs, Live, UserIs};
use crate::database::table::{
    first, position_where, update_where, updated, Matcher, Patch,
};
use crate::database::Store;
use crate::models::file::File;
use crate::services::auth::bumped;
use crate::services::file_validation::{file_rejection, final_mime, validate_file};
use crate::text::{concat_str, str_eq};
use crate::utils::crypto::{hash_file, hex_text, sha256_digest};
use crate::utils::error::{rejected_as, rejection, AppError, AppResult, ErrorKind};
use crate::utils::ids::new_id;

verus! {

/// The directory in which the bytes of uploaded files are kept.
pub const UPLOAD_DIR: &'static str = "./uploads";

/// What is to be done with an upload.
#[derive(Debug, Clone, PartialEq, Eq)]
pub enum Upload {
    /// The same content is on record already, as this file; nothing is to
    /// be written.
    Duplicate(File),
    /// The content is new; its bytes are to be written under the file name
    /// of this row, and the row is then to be saved.
    New(File),
}

/// Selects the files with one content hash.
pub struct HashIs<'a>(pub &'a str);

/// Files whose content has the hash `hash`.
pub open spec fn hash_is(hash: Seq<char>) -> spec_fn(File) -> bool {
    |f: File| f.file_hash@ == hash
}

impl<'a> Matcher<File> for HashIs<'a> {
    open spec fn pred(&self) -> spec_fn(File) -> bool {
        hash_is(self.0@)
    }

    fn test(&self, row: &File) -> (r: bool) {
        str_eq(row.file_hash.as_str(), self.0)
    }
}

/// The hash under which the content `data` is on record.
pub open spec fn content_hash(data: Seq<u8>) -> Seq<char> {
    hex_text(sha256_digest(data))
}

/// The size of `len` bytes as recorded with a file.
pub open spec fn recorded_size(len: nat) -> i64 {
    crate::database::counters::clip(len)
}

/// What is decided for an upload. A file that fails validation is refused.
/// Content that a live file on record has already is a duplicate of the
/// first such file. Other content gives a new row: live, never downloaded,
/// with the validated type, the size and hash of the content, and a file
/// name that ends in ".bin".
pub open spec fn upload_planned(
    s: Store,
    original_name: String,
    content_type: Seq<char>,
    data: Seq<u8>,
    uploader: String,
    res: AppResult<Upload>,
) -> bool {
    match file_rejection(data, content_type) {
        Some(r) => rejected_as(res, r),
        None => match first(s.files@, both(hash_is(content_hash(data)), live())) {
            Some(existing) => res == Ok::<Upload, AppError>(Upload::Duplicate(existing)),
            None => res matches Ok(Upload::New(f)) && {
                &&& f.original_name == original_name
                &&& f.content_type@ == final_mime(data, content_type)
                &&& f.size == recorded_size(data.len())
                &&& f.file_hash@ == content_hash(data)
                &&& f.uploader_username == uploader
                &&& f.download_count == 0
                &&& f.is_deleted == 0
                &&& exists|stem: Seq<char>| f.file_name@ == stem + ".bin"@
            },
        },
    }
}

/// Validates an upload and decides what is to be done with it.
pub fn plan_upload(
    pool: &Store,
    original_name: String,
    content_type: String,
    data: &[u8],
    uploader_username: String,
) -> (res: AppResult<Upload>)
    ensures
        upload_planned(*pool, original_name, content_type@, data@, uploader_username, res),
{
    let validation_result = match validate_file(data, content_type.as_str()) {
        Ok(v) => v,
        Err(e) => {
            return Err(e);
        },
    };
    let file_hash = hash_file(data);
    match position_where(&pool.files, &Both(HashIs(file_hash.as_str()), Live)) {
        Some(i) => {
            return Ok(Upload::Duplicate(pool.files[i].duplicate()));
        },
        None => {},
    }
    let stem = new_id();
    let file_name = concat_str(stem.as_str(), ".bin");
    let file_model = File::new(
        original_name,
        file_name,
        validation_result.detected_mime,
        crate::database::counters::to_counter(data.len()),
        file_hash,
        uploader_username,
    );
    assert(file_model.file_name@ == stem@ + ".bin"@);
    Ok(Upload::New(file_model))
}

/// Puts the row of a file whose bytes have been written on record, as the
/// new last row of the files, and returns it.
pub fn save_file(pool: &mut Store, file: File) -> (res: AppResult<File>)
    ensures
        res == Ok::<File, AppError>(file),
        final(pool).files@ == old(pool).files@.push(file),
        *final(pool) == (Store { files: final(pool).files, ..*old(pool) }),
{
    pool.files.push(file.duplicate());
    Ok(file)
}

/// Where the bytes of a file are kept.
pub open spec fn stored_path(file_name: Seq<char>) -> Seq<char> {
    UPLOAD_DIR@ + "/"@ + file_name
}

/// Where the bytes of the file named `file_name` are kept.
pub fn path_of(file_name: &str) -> (p: String)
    ensures
        p@ == stored_path(file_name@),
{
    let dir = concat_str(UPLOAD_DIR, "/");
    concat_str(dir.as_str(), file_name)
}

/// The live file `file_id` and the place of its bytes. Fails if there is no
/// such file.
pub fn get_file_path(pool: &Store, file_id: &str) -> (res: AppResult<(String, File)>)
    ensures
        match first(pool.files@, both(id_is(file_id@), live())) {
            Some(f) => res matches Ok(found) && found.1 == f && found.0@ == stored_path(
                f.file_name@,
            ),
            None => rejected_as(res, rejection(ErrorKind::NotFound, "File not found")),
        },
{
    match position_where(&pool.files, &Both(IdIs(file_id), Live)) {
        Some(i) => {
            let file = pool.files[i].duplicate();
            Ok((path_of(file.file_name.as_str()), file))
        },
        None => Err(AppError::NotFound("File not found".to_string())),
    }
}

/// The error for a file that is on record while its bytes are gone.
pub fn missing_on_disk() -> (e: AppError)
    ensures
        e@ == rejection(ErrorKind::NotFound, "File not found on disk"),
{
    AppError::NotFound("File not found on disk".to_string())
}

/// Counts one more download of a file.
pub struct CountDownload;

/// A file with one more download counted.
pub open spec fn download_counted() -> spec_fn(File) -> File {
    |f: File| File { download_count: bumped(f.download_count), ..f }
}

impl Patch<File> for CountDownload {
    open spec fn change(&self) -> spec_fn(File) -> File {
        download_counted()
    }

    fn apply(&self, row: &mut File) {
        if row.download_count < i64::MAX {
            row.download_count = row.download_count + 1;
        }
    }
}

/// Counts one more download of every file with the identifier `file_id`.
pub fn record_download(pool: &mut Store, file_id: &str)
    ensures
        final(pool).files@ == updated(old(pool).files@, id_is(file_id@), download_counted()),
        *final(pool) == (Store { files: final(pool).files, ..*old(pool) }),
{
    update_where(&mut pool.files, &IdIs(file_id), &CountDownload);
}

/// The live files that `user` uploaded, in table order.
pub open spec fn live_files_of(s: Store, user: Seq<char>) -> Seq<File> {
    s.files@.filter(both(user_is(user), live()))
}

/// The live files that `username` uploaded, latest first.
pub fn list_user_files(pool: &Store, username: &str) -> (res: AppResult<Vec<File>>)
    ensures
        res matches Ok(list) && is_sorting(
            live_files_of(*pool, username@),
            list@,
            latest_upload_first(),
        ),
{
    let rows = select_where(&pool.files, &Both(UserIs(username), Live));
    Ok(sort_by(rows, &LatestUploadFirst))
}

/// Marks a file as deleted.
pub struct Discard;

/// A file marked as deleted.
pub open spec fn discarded() -> spec_fn(File) -> File {
    |f: File| File { is_deleted: 1, ..f }
}

impl Patch<File> for Discard {
    open spec fn change(&self) -> spec_fn(File) -> File {
        discarded()
    }

    fn apply(&self, row: &mut File) {
        row.is_deleted = 1;
    }
}

/// The condition that selects the live file `file_id` of the uploader
/// `user`.
pub open spec fn own_live_file(file_id: Seq<char>, user: Seq<char>) -> spec_fn(File) -> bool {
    both(both(id_is(file_id), user_is(user)), live())
}

/// Deletes a file on behalf of its uploader: if `username` uploaded a live
/// file `file_id`, every file with that identifier is marked as deleted and
/// nothing else changes; otherwise the request fails and nothing changes.
pub fn delete_file(pool: &mut Store, file_id: &str, username: &str) -> (res: AppResult<()>)
    ensures
        if crate::database::table::any(old(pool).files@, own_live_file(file_id@, username@)) {
            &&& res is Ok
            &&& final(pool).files@ == updated(old(pool).files@, id_is(file_id@), discarded())
            &&& *final(pool) == (Store { files: final(pool).files, ..*old(pool) })
        } else {
            rejected_as(res, rejection(ErrorKind::NotFound, "File not found or access denied"))
                && *final(pool) == *old(pool)
        },
{
    match position_where(&pool.files, &Both(Both(IdIs(file_id), UserIs(username)), Live)) {
        Some(_) => {},
        None => {
            return Err(AppError::NotFound("File not found or access denied".to_string()));
        },
    }
    update_where(&mut pool.files, &IdIs(file_id), &Discard);
    Ok(())
}

} // verus!
