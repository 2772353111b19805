//! Uploading, downloading, listing and deleting files. Files are uploaded
//! and kept in the name of the service's own identity.
use vstd::prelude::*;

use crate::database::query::{both, id_is, live};
use crate::database::table::{first, updated};
use crate::database::Store;
use crate::models::file::File;
use crate::services::auth::bumped;
use crate::services::file_storage::{
    delete_file, discarded, download_counted, get_file_path, list_user_files, live_files_of,
    own_live_file, plan_upload, record_download, stored_path, upload_planned, Upload,
};
use crate::text::concat_str;
use crate::utils::error::{rejected_as, rejection, AppError, AppResult, ErrorKind, Rejection};
use crate::utils::helpers::system_username;
use crate::websocket::events::ServerMessage;

verus! {

/// What decoding a text as standard base64 gives: the bytes, or for a text
/// that is no valid base64 the description of what is wrong with it.
pub uninterp spec fn base64_decoded(text: Seq<char>) -> Result<Seq<u8>, Seq<char>>;

/// Decodes a text as standard base64.
///
/// Calls `base64::Engine::decode` on the standard engine; the result is
/// the value named [`base64_decoded`]. An error is returned as its
/// description.
#[verifier::external_body]
pub(crate) fn base64_decode(text: &str) -> (r: Result<Vec<u8>, String>)
    ensures
        match r {
            Ok(bytes) => base64_decoded(text@) == Ok::<Seq<u8>, Seq<char>>(bytes@),
            Err(m) => base64_decoded(text@) == Err::<Seq<u8>, Seq<char>>(m@),
        },
{
    match base64::Engine::decode(&base64::engine::general_purpose::STANDARD, text) {
        Ok(bytes) => Ok(bytes),
        Err(e) => Err(e.to_string()),
    }
}

/// The error for an upload whose content is not valid base64;
/// `description` says why.
pub fn invalid_base64(description: &str) -> (e: AppError)
    ensures
        e@ == (Rejection { kind: ErrorKind::BadRequest, text: "Invalid base64: "@ + description@ }),
{
    AppError::BadRequest(concat_str("Invalid base64: ", description))
}

/// The content of an upload, which arrives as base64: its bytes, or the
/// refusal of a content that is no valid base64.
pub fn decode_upload(data: &str) -> (res: AppResult<Vec<u8>>)
    ensures
        match base64_decoded(data@) {
            Ok(bytes) => res matches Ok(v) && v@ == bytes,
            Err(m) => rejected_as(
                res,
                Rejection { kind: ErrorKind::BadRequest, text: "Invalid base64: "@ + m },
            ),
        },
{
    match base64_decode(data) {
        Ok(bytes) => Ok(bytes),
        Err(m) => Err(invalid_base64(m.as_str())),
    }
}

/// The error for a file on record whose bytes cannot be read;
/// `description` says why.
pub fn unreadable(description: &str) -> (e: AppError)
    ensures
        e@ == (Rejection {
            kind: ErrorKind::Internal,
            text: "Failed to read file: "@ + description@,
        }),
{
    AppError::Internal(concat_str("Failed to read file: ", description))
}

/// Handles the request to upload a file: decides what is to be done with
/// the content.
pub fn upload(pool: &Store, name: String, content_type: String, data: &[u8]) -> (res: AppResult<
    Upload,
>)
    ensures
        exists|uploader: String|
            uploader@ == "system"@ && #[trigger] upload_planned(
                *pool,
                name,
                content_type@,
                data@,
                uploader,
                res,
            ),
{
    let uploader = system_username();
    plan_upload(pool, name, content_type, data, uploader)
}

/// How a downloaded file presents itself to the browser.
pub open spec fn disposition(original_name: Seq<char>) -> Seq<char> {
    "inline; filename=\""@ + original_name + "\""@
}

/// How the file named `original_name` presents itself to the browser.
pub fn content_disposition(original_name: &str) -> (s: String)
    ensures
        s@ == disposition(original_name@),
{
    let head = concat_str("inline; filename=\"", original_name);
    concat_str(head.as_str(), "\"")
}

/// Handles the first step of a download: finds the live file and the place
/// of its bytes.
pub fn download(pool: &Store, file_id: &str) -> (res: AppResult<(String, File)>)
    ensures
        match first(pool.files@, both(id_is(file_id@), live())) {
            Some(f) => res matches Ok(found) && found.1 == f && found.0@ == stored_path(
                f.file_name@,
            ),
            None => rejected_as(res, rejection(ErrorKind::NotFound, "File not found")),
        },
{
    get_file_path(pool, file_id)
}

/// Handles the last step of a download, once the bytes of `file` were
/// found: counts the download and tells the new count, which is one more
/// than the count that `file` shows.
pub fn downloaded(pool: &mut Store, file_id: String, file: &File) -> (e: ServerMessage)
    ensures
        final(pool).files@ == updated(old(pool).files@, id_is(file_id@), download_counted()),
        *final(pool) == (Store { files: final(pool).files, ..*old(pool) }),
        e == (ServerMessage::FileDownloaded {
            file_id,
            download_count: bumped(file.download_count),
        }),
{
    record_download(pool, file_id.as_str());
    let new_download_count = if file.download_count < i64::MAX {
        file.download_count + 1
    } else {
        file.download_count
    };
    ServerMessage::FileDownloaded { file_id, download_count: new_download_count }
}

/// Handles the request to list the files on record.
pub fn list_files(pool: &Store) -> (res: AppResult<Vec<File>>)
    ensures
        res matches Ok(list) && crate::database::order::is_sorting(
            live_files_of(*pool, "system"@),
            list@,
            crate::database::listing::latest_upload_first(),
        ),
{
    let username = system_username();
    list_user_files(pool, username.as_str())
}

/// Handles the request to delete a file.
pub fn remove_file(pool: &mut Store, file_id: &str) -> (res: AppResult<()>)
    ensures
        if crate::database::table::any(old(pool).files@, own_live_file(file_id@, "system"@)) {
            &&& res is Ok
            &&& final(pool).files@ == updated(old(pool).files@, id_is(file_id@), discarded())
            &&& *final(pool) == (Store { files: final(pool).files, ..*old(pool) })
        } else {
            rejected_as(res, rejection(ErrorKind::NotFound, "File not found or access denied"))
                && *final(pool) == *old(pool)
        },
{
    let username = system_username();
    delete_file(pool, file_id, username.as_str())
}

} // verus!
