use rchat::utils::error::{label_text, AppError, ErrorKind};

fn all() -> Vec<(AppError, ErrorKind, u16, &'static str, &'static str, &'static str)> {
    vec![
        (AppError::Database("d".into()), ErrorKind::Database, 500, "database_error", "Database error: d", "Database error: d"),
        (AppError::Auth("a".into()), ErrorKind::Auth, 401, "auth_error", "Authentication error: a", "a"),
        (AppError::Unauthorized("u".into()), ErrorKind::Unauthorized, 401, "unauthorized", "Authorization error: u", "u"),
        (AppError::Forbidden("f".into()), ErrorKind::Forbidden, 403, "forbidden", "Forbidden: f", "f"),
        (AppError::NotFound("n".into()), ErrorKind::NotFound, 404, "not_found", "Not found: n", "n"),
        (AppError::BadRequest("b".into()), ErrorKind::BadRequest, 400, "bad_request", "Bad request: b", "b"),
        (AppError::Conflict("c".into()), ErrorKind::Conflict, 409, "conflict", "Conflict: c", "c"),
        (AppError::Internal("i".into()), ErrorKind::Internal, 500, "internal_error", "Internal server error: i", "i"),
        (AppError::RateLimitExceeded, ErrorKind::RateLimitExceeded, 429, "rate_limit_exceeded", "Rate limit exceeded", "Too many requests, please try again later"),
        (AppError::File("x".into()), ErrorKind::File, 400, "file_error", "File error: x", "x"),
        (AppError::Validation("v".into()), ErrorKind::Validation, 400, "validation_error", "Validation error: v", "v"),
    ]
}

#[test]
fn every_error_has_its_class_status_and_tag() {
    for (e, kind, status, tag, full, shown) in all() {
        assert_eq!(e.kind(), kind);
        assert_eq!(e.status_code(), status);
        assert_eq!(e.error_type(), tag);
        assert_eq!(e.to_string(), full);
        let (code, body) = e.into_response();
        assert_eq!(code, status);
        assert_eq!(body.error, tag);
        assert_eq!(body.message, shown);
    }
}

#[test]
fn errors_are_built_from_class_and_text() {
    assert_eq!(AppError::of(ErrorKind::NotFound, "gone"), AppError::NotFound("gone".into()));
    assert_eq!(AppError::of(ErrorKind::RateLimitExceeded, "ignored"), AppError::RateLimitExceeded);
    assert_eq!(AppError::RateLimitExceeded.detail(), "");
    assert_eq!(AppError::File("f".into()).detail(), "f");
    assert_eq!(label_text(ErrorKind::Validation), "Validation error: ");
}
