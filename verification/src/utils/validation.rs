//! Size and character rules for names and message content.
use vstd::prelude::*;

use vstd::utf8::encode_utf8;
use crate::services::profanity::{contains_profanity, is_inappropriate};
use crate::text::{is_printable_ascii, printable_ascii};
use crate::utils::error::{rejected_as, rejection, AppError, AppResult, ErrorKind, Rejection};

verus! {

/// The longest name, in bytes.
pub const MAX_NAME_LENGTH: usize = 64;

/// The longest message content, in bytes.
pub const MAX_CONTENT_LENGTH: usize = 4000;

/// The longest password, in bytes.
pub const MAX_PASSWORD_LENGTH: usize = 128;

/// What is named by a name under validation.
#[derive(Debug, Clone, Copy, PartialEq, Eq, Structural)]
pub enum NameKind {
    Username,
    Server,
    Channel,
}

/// The text that reports an empty name.
pub open spec fn empty_text(kind: NameKind) -> Seq<char> {
    match kind {
        NameKind::Username => "Username cannot be empty"@,
        NameKind::Server => "Server name cannot be empty"@,
        NameKind::Channel => "Channel name cannot be empty"@,
    }
}

/// The text that reports a name that is too long.
pub open spec fn too_long_text(kind: NameKind) -> Seq<char> {
    match kind {
        NameKind::Username => "Username must be at most 64 characters long"@,
        NameKind::Server => "Server name must be at most 64 characters long"@,
        NameKind::Channel => "Channel name must be at most 64 characters long"@,
    }
}

/// The text that reports a name with a character that is not printable ASCII.
pub open spec fn charset_text(kind: NameKind) -> Seq<char> {
    match kind {
        NameKind::Username => "Username must contain only printable ASCII characters"@,
        NameKind::Server => "Server name must contain only printable ASCII characters"@,
        NameKind::Channel => "Channel name must contain only printable ASCII characters"@,
    }
}

/// The text that reports an inappropriate name.
pub open spec fn language_text(kind: NameKind) -> Seq<char> {
    match kind {
        NameKind::Username => "Username contains inappropriate language"@,
        NameKind::Server => "Server name contains inappropriate language"@,
        NameKind::Channel => "Channel name contains inappropriate language"@,
    }
}

/// Why a name is refused, if it is: the first of empty, longer than 64
/// bytes, not printable ASCII, inappropriate.
pub open spec fn name_rejection(kind: NameKind, name: Seq<char>) -> Option<Rejection> {
    if name.len() == 0 {
        Some(Rejection { kind: ErrorKind::Validation, text: empty_text(kind) })
    } else if encode_utf8(name).len() > MAX_NAME_LENGTH {
        Some(Rejection { kind: ErrorKind::Validation, text: too_long_text(kind) })
    } else if !printable_ascii(name) {
        Some(Rejection { kind: ErrorKind::Validation, text: charset_text(kind) })
    } else if is_inappropriate(name) {
        Some(Rejection { kind: ErrorKind::Validation, text: language_text(kind) })
    } else {
        None
    }
}

/// Why a message content is refused, if it is: empty, or longer than 4000
/// bytes.
pub open spec fn content_rejection(content: Seq<char>) -> Option<Rejection> {
    if content.len() == 0 {
        Some(rejection(ErrorKind::Validation, "Message content cannot be empty"))
    } else if encode_utf8(content).len() > MAX_CONTENT_LENGTH {
        Some(rejection(ErrorKind::Validation, "Message content must be at most 4000 characters long"))
    } else {
        None
    }
}

/// Why a password is refused, if it is: empty, or longer than 128 bytes.
pub open spec fn password_rejection(password: Seq<char>) -> Option<Rejection> {
    if password.len() == 0 {
        Some(rejection(ErrorKind::Validation, "Password cannot be empty"))
    } else if encode_utf8(password).len() > MAX_PASSWORD_LENGTH {
        Some(rejection(ErrorKind::Validation, "Password must be at most 128 characters long"))
    } else {
        None
    }
}

/// `res` is `Ok` where `verdict` is `None`, and else the error that
/// `verdict` holds.
pub open spec fn decided<T>(res: Result<T, AppError>, verdict: Option<Rejection>) -> bool {
    match verdict {
        Some(r) => rejected_as(res, r),
        None => res is Ok,
    }
}

/// The length of a string in bytes.
pub fn byte_len(s: &str) -> (n: usize)
    ensures
        n == encode_utf8(s@).len(),
{
    s.as_bytes().len()
}

fn validate_name(kind: NameKind, name: &str) -> (res: AppResult<()>)
    ensures
        decided(res, name_rejection(kind, name@)),
{
    if name.is_empty() {
        let msg = match kind {
            NameKind::Username => "Username cannot be empty",
            NameKind::Server => "Server name cannot be empty",
            NameKind::Channel => "Channel name cannot be empty",
        };
        return Err(AppError::Validation(msg.to_string()));
    }
    if byte_len(name) > MAX_NAME_LENGTH {
        let msg = match kind {
            NameKind::Username => "Username must be at most 64 characters long",
            NameKind::Server => "Server name must be at most 64 characters long",
            NameKind::Channel => "Channel name must be at most 64 characters long",
        };
        return Err(AppError::Validation(msg.to_string()));
    }
    if !is_printable_ascii(name) {
        let msg = match kind {
            NameKind::Username => "Username must contain only printable ASCII characters",
            NameKind::Server => "Server name must contain only printable ASCII characters",
            NameKind::Channel => "Channel name must contain only printable ASCII characters",
        };
        return Err(AppError::Validation(msg.to_string()));
    }
    if contains_profanity(name) {
        let msg = match kind {
            NameKind::Username => "Username contains inappropriate language",
            NameKind::Server => "Server name contains inappropriate language",
            NameKind::Channel => "Channel name contains inappropriate language",
        };
        return Err(AppError::Validation(msg.to_string()));
    }
    Ok(())
}

/// Accepts a user name that is not empty, at most 64 bytes long, printable
/// ASCII and not inappropriate.
pub fn validate_username(username: &str) -> (res: AppResult<()>)
    ensures
        decided(res, name_rejection(NameKind::Username, username@)),
{
    validate_name(NameKind::Username, username)
}

/// Accepts a community name that is not empty, at most 64 bytes long,
/// printable ASCII and not inappropriate.
pub fn validate_server_name(name: &str) -> (res: AppResult<()>)
    ensures
        decided(res, name_rejection(NameKind::Server, name@)),
{
    validate_name(NameKind::Server, name)
}

/// Accepts a channel name that is not empty, at most 64 bytes long,
/// printable ASCII and not inappropriate.
pub fn validate_channel_name(name: &str) -> (res: AppResult<()>)
    ensures
        decided(res, name_rejection(NameKind::Channel, name@)),
{
    validate_name(NameKind::Channel, name)
}

/// Accepts a message content that is not empty and at most 4000 bytes long.
pub fn validate_message_content(content: &str) -> (res: AppResult<()>)
    ensures
        decided(res, content_rejection(content@)),
{
    if content.is_empty() {
        return Err(AppError::Validation("Message content cannot be empty".to_string()));
    }
    if byte_len(content) > MAX_CONTENT_LENGTH {
        return Err(
            AppError::Validation(
                "Message content must be at most 4000 characters long".to_string(),
            ),
        );
    }
    Ok(())
}

/// Accepts a password that is not empty and at most 128 bytes long.
pub fn validate_password(password: &str) -> (res: AppResult<()>)
    ensures
        decided(res, password_rejection(password@)),
{
    if password.is_empty() {
        return Err(AppError::Validation("Password cannot be empty".to_string()));
    }
    if byte_len(password) > MAX_PASSWORD_LENGTH {
        return Err(
            AppError::Validation("Password must be at most 128 characters long".to_string()),
        );
    }
    Ok(())
}

} // verus!
