//! The error taxonomy shared by every operation, and the shape in which an
//! error is reported to a caller.
use vstd::prelude::*;
use crate::text::concat_str;

verus! {

/// Everything that can go wrong at an action boundary.
#[derive(Debug, Clone, PartialEq, Eq)]
pub enum AppError {
    /// The persistence layer failed; the text is its description.
    Database(String),
    /// The caller could not be authenticated.
    Auth(String),
    /// The caller lacks the role or membership that the action needs.
    Unauthorized(String),
    /// The action is denied to this caller whatever their role.
    Forbidden(String),
    /// A referenced entity does not exist.
    NotFound(String),
    /// The request is malformed, or asks for what is never done.
    BadRequest(String),
    /// The request collides with what exists: a name that is taken, a ban
    /// that stands already.
    Conflict(String),
    /// A failure inside the service.
    Internal(String),
    /// Too many attempts in a short time.
    RateLimitExceeded,
    /// A file was rejected.
    File(String),
    /// An input broke a size or character rule.
    Validation(String),
}

/// The class of an [`AppError`], without its text.
#[derive(Debug, Clone, Copy, PartialEq, Eq, Structural)]
pub enum ErrorKind {
    Database,
    Auth,
    Unauthorized,
    Forbidden,
    NotFound,
    BadRequest,
    Conflict,
    Internal,
    RateLimitExceeded,
    File,
    Validation,
}

/// An error as a contract sees it: its class and its text.
pub struct Rejection {
    pub kind: ErrorKind,
    pub text: Seq<char>,
}

pub type AppResult<T> = Result<T, AppError>;

/// The body of an error response.
#[derive(Debug, Clone, PartialEq, Eq)]
pub struct ErrorResponse {
    pub error: String,
    pub message: String,
}

/// The rejection with the given class and the text of `msg`.
pub open spec fn rejection(kind: ErrorKind, msg: &str) -> Rejection {
    Rejection { kind, text: msg@ }
}

/// The HTTP status that reports an error of the given class.
pub open spec fn status_of(kind: ErrorKind) -> u16 {
    match kind {
        ErrorKind::Database => 500,
        ErrorKind::Auth => 401,
        ErrorKind::Unauthorized => 401,
        ErrorKind::Forbidden => 403,
        ErrorKind::NotFound => 404,
        ErrorKind::BadRequest => 400,
        ErrorKind::Conflict => 409,
        ErrorKind::Internal => 500,
        ErrorKind::RateLimitExceeded => 429,
        ErrorKind::File => 400,
        ErrorKind::Validation => 400,
    }
}

/// The machine-readable tag that reports an error of the given class.
pub open spec fn tag_of(kind: ErrorKind) -> Seq<char> {
    match kind {
        ErrorKind::Database => "database_error"@,
        ErrorKind::Auth => "auth_error"@,
        ErrorKind::Unauthorized => "unauthorized"@,
        ErrorKind::Forbidden => "forbidden"@,
        ErrorKind::NotFound => "not_found"@,
        ErrorKind::BadRequest => "bad_request"@,
        ErrorKind::Conflict => "conflict"@,
        ErrorKind::Internal => "internal_error"@,
        ErrorKind::RateLimitExceeded => "rate_limit_exceeded"@,
        ErrorKind::File => "file_error"@,
        ErrorKind::Validation => "validation_error"@,
    }
}

/// The phrase that introduces the text of an error of the given class when
/// the error is written out in full.
pub open spec fn label_of(kind: ErrorKind) -> Seq<char> {
    match kind {
        ErrorKind::Database => "Database error: "@,
        ErrorKind::Auth => "Authentication error: "@,
        ErrorKind::Unauthorized => "Authorization error: "@,
        ErrorKind::Forbidden => "Forbidden: "@,
        ErrorKind::NotFound => "Not found: "@,
        ErrorKind::BadRequest => "Bad request: "@,
        ErrorKind::Conflict => "Conflict: "@,
        ErrorKind::Internal => "Internal server error: "@,
        ErrorKind::RateLimitExceeded => "Rate limit exceeded"@,
        ErrorKind::File => "File error: "@,
        ErrorKind::Validation => "Validation error: "@,
    }
}

/// The message shown to the caller for an error: the error's own text, but
/// for a persistence failure the full description and for a rate limit a
/// fixed sentence.
pub open spec fn public_message(e: Rejection) -> Seq<char> {
    match e.kind {
        ErrorKind::Database => label_of(e.kind) + e.text,
        ErrorKind::RateLimitExceeded => "Too many requests, please try again later"@,
        _ => e.text,
    }
}

impl View for AppError {
    type V = Rejection;

    open spec fn view(&self) -> Rejection {
        match self {
            AppError::Database(m) => Rejection { kind: ErrorKind::Database, text: m@ },
            AppError::Auth(m) => Rejection { kind: ErrorKind::Auth, text: m@ },
            AppError::Unauthorized(m) => Rejection { kind: ErrorKind::Unauthorized, text: m@ },
            AppError::Forbidden(m) => Rejection { kind: ErrorKind::Forbidden, text: m@ },
            AppError::NotFound(m) => Rejection { kind: ErrorKind::NotFound, text: m@ },
            AppError::BadRequest(m) => Rejection { kind: ErrorKind::BadRequest, text: m@ },
            AppError::Conflict(m) => Rejection { kind: ErrorKind::Conflict, text: m@ },
            AppError::Internal(m) => Rejection { kind: ErrorKind::Internal, text: m@ },
            AppError::RateLimitExceeded => Rejection {
                kind: ErrorKind::RateLimitExceeded,
                text: Seq::empty(),
            },
            AppError::File(m) => Rejection { kind: ErrorKind::File, text: m@ },
            AppError::Validation(m) => Rejection { kind: ErrorKind::Validation, text: m@ },
        }
    }
}

impl AppError {
    /// An error of the given class carrying `msg`. A rate-limit error has no
    /// text of its own, so `msg` is dropped for that class.
    pub fn of(kind: ErrorKind, msg: &str) -> (e: AppError)
        ensures
            e@.kind == kind,
            kind != ErrorKind::RateLimitExceeded ==> e@.text == msg@,
            kind == ErrorKind::RateLimitExceeded ==> e@.text == Seq::<char>::empty(),
    {
        let m = msg.to_string();
        match kind {
            ErrorKind::Database => AppError::Database(m),
            ErrorKind::Auth => AppError::Auth(m),
            ErrorKind::Unauthorized => AppError::Unauthorized(m),
            ErrorKind::Forbidden => AppError::Forbidden(m),
            ErrorKind::NotFound => AppError::NotFound(m),
            ErrorKind::BadRequest => AppError::BadRequest(m),
            ErrorKind::Conflict => AppError::Conflict(m),
            ErrorKind::Internal => AppError::Internal(m),
            ErrorKind::RateLimitExceeded => AppError::RateLimitExceeded,
            ErrorKind::File => AppError::File(m),
            ErrorKind::Validation => AppError::Validation(m),
        }
    }

    /// The class of this error.
    pub fn kind(&self) -> (k: ErrorKind)
        ensures
            k == self@.kind,
    {
        match self {
            AppError::Database(_) => ErrorKind::Database,
            AppError::Auth(_) => ErrorKind::Auth,
            AppError::Unauthorized(_) => ErrorKind::Unauthorized,
            AppError::Forbidden(_) => ErrorKind::Forbidden,
            AppError::NotFound(_) => ErrorKind::NotFound,
            AppError::BadRequest(_) => ErrorKind::BadRequest,
            AppError::Conflict(_) => ErrorKind::Conflict,
            AppError::Internal(_) => ErrorKind::Internal,
            AppError::RateLimitExceeded => ErrorKind::RateLimitExceeded,
            AppError::File(_) => ErrorKind::File,
            AppError::Validation(_) => ErrorKind::Validation,
        }
    }

    /// The text carried by this error; empty for a rate-limit error.
    pub fn detail(&self) -> (m: String)
        ensures
            m@ == self@.text,
    {
        match self {
            AppError::Database(m) => m.clone(),
            AppError::Auth(m) => m.clone(),
            AppError::Unauthorized(m) => m.clone(),
            AppError::Forbidden(m) => m.clone(),
            AppError::NotFound(m) => m.clone(),
            AppError::BadRequest(m) => m.clone(),
            AppError::Conflict(m) => m.clone(),
            AppError::Internal(m) => m.clone(),
            AppError::RateLimitExceeded => String::new(),
            AppError::File(m) => m.clone(),
            AppError::Validation(m) => m.clone(),
        }
    }

    /// The error written out in full: the label of its class followed by its
    /// text.
    pub fn to_string(&self) -> (s: String)
        ensures
            s@ == label_of(self@.kind) + self@.text,
    {
        let label = label_text(self.kind());
        let detail = self.detail();
        concat_str(label, detail.as_str())
    }

    /// The HTTP status that reports this error.
    pub fn status_code(&self) -> (code: u16)
        ensures
            code == status_of(self@.kind),
    {
        match self {
            AppError::Database(_) => 500,
            AppError::Auth(_) => 401,
            AppError::Unauthorized(_) => 401,
            AppError::Forbidden(_) => 403,
            AppError::NotFound(_) => 404,
            AppError::BadRequest(_) => 400,
            AppError::Conflict(_) => 409,
            AppError::Internal(_) => 500,
            AppError::RateLimitExceeded => 429,
            AppError::File(_) => 400,
            AppError::Validation(_) => 400,
        }
    }

    /// The machine-readable tag that reports this error.
    pub fn error_type(&self) -> (tag: &'static str)
        ensures
            tag@ == tag_of(self@.kind),
    {
        match self {
            AppError::Database(_) => "database_error",
            AppError::Auth(_) => "auth_error",
            AppError::Unauthorized(_) => "unauthorized",
            AppError::Forbidden(_) => "forbidden",
            AppError::NotFound(_) => "not_found",
            AppError::BadRequest(_) => "bad_request",
            AppError::Conflict(_) => "conflict",
            AppError::Internal(_) => "internal_error",
            AppError::RateLimitExceeded => "rate_limit_exceeded",
            AppError::File(_) => "file_error",
            AppError::Validation(_) => "validation_error",
        }
    }

    /// The status and body with which this error is reported to the caller.
    pub fn into_response(self) -> (r: (u16, ErrorResponse))
        ensures
            r.0 == status_of(self@.kind),
            r.1.error@ == tag_of(self@.kind),
            r.1.message@ == public_message(self@),
    {
        let status = self.status_code();
        let tag = self.error_type().to_string();
        let message = match &self {
            AppError::Database(_) => self.to_string(),
            AppError::RateLimitExceeded => "Too many requests, please try again later".to_string(),
            _ => self.detail(),
        };
        (status, ErrorResponse { error: tag, message })
    }
}

/// The label of an error class as text.
pub fn label_text(kind: ErrorKind) -> (s: &'static str)
    ensures
        s@ == label_of(kind),
{
    match kind {
        ErrorKind::Database => "Database error: ",
        ErrorKind::Auth => "Authentication error: ",
        ErrorKind::Unauthorized => "Authorization error: ",
        ErrorKind::Forbidden => "Forbidden: ",
        ErrorKind::NotFound => "Not found: ",
        ErrorKind::BadRequest => "Bad request: ",
        ErrorKind::Conflict => "Conflict: ",
        ErrorKind::Internal => "Internal server error: ",
        ErrorKind::RateLimitExceeded => "Rate limit exceeded",
        ErrorKind::File => "File error: ",
        ErrorKind::Validation => "Validation error: ",
    }
}

/// `res` is the error `kind` with the text of `msg`.
pub open spec fn fails_with<T>(res: Result<T, AppError>, kind: ErrorKind, msg: &str) -> bool {
    res matches Err(e) && e@ == rejection(kind, msg)
}

/// `res` is an error whose view is `r`.
pub open spec fn rejected_as<T>(res: Result<T, AppError>, r: Rejection) -> bool {
    res matches Err(e) && e@ == r
}

} // verus!
