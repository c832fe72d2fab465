use herodot::error::{AppError, DbError, DbErrorKind, DbFailure};

fn db(failure: DbFailure) -> DbError {
    DbError { failure, message: "boom".to_string() }
}

#[test]
fn statuses_codes_and_messages() {
    let cases: Vec<(AppError, u16, &str, &str)> = vec![
        (AppError::BadRequest("b"), 400, "BAD_REQUEST", "b"),
        (AppError::Unauthorized("u"), 401, "UNAUTHORIZED", "u"),
        (AppError::Forbidden("f"), 403, "FORBIDDEN", "f"),
        (AppError::NotFound("n"), 404, "NOT_FOUND", "n"),
        (AppError::Conflict("c"), 409, "CONFLICT", "c"),
        (AppError::InternalServerError("i"), 500, "INTERNAL_SERVER_ERROR", "i"),
        (AppError::SqlxError(db(DbFailure::RowNotFound)), 404, "DATABASE_ERROR", "database error"),
        (AppError::SqlxError(db(DbFailure::Other)), 500, "DATABASE_ERROR", "database error"),
        (AppError::TeraError("t".to_string()), 500, "TEMPLATE_ERROR", "template rendering error"),
        (AppError::SessionError("s".to_string()), 500, "SESSION_ERROR", "session error"),
    ];
    for (error, status, code, message) in cases {
        assert_eq!(error.status_code(), status);
        assert_eq!(error.error_code(), code);
        assert_eq!(error.public_message(), message);
        let response = error.response();
        assert_eq!(response.status, status);
        assert_eq!(response.error, code);
        assert_eq!(response.message, message);
    }
}

#[test]
fn commit_errors_are_classified() {
    match AppError::from_commit_record_error(db(DbFailure::Database(DbErrorKind::UniqueViolation))) {
        AppError::Conflict(m) => assert_eq!(m, "record already exist"),
        other => panic!("unexpected {:?}", other),
    }
    match AppError::from_commit_record_error(db(DbFailure::Database(DbErrorKind::ForeignKeyViolation))) {
        AppError::BadRequest(m) => assert_eq!(m, "invalid record: references non-existing entity"),
        other => panic!("unexpected {:?}", other),
    }
    match AppError::from_commit_record_error(db(DbFailure::Database(DbErrorKind::NotNullViolation))) {
        AppError::BadRequest(m) => assert_eq!(m, "invalid record: missing required field"),
        other => panic!("unexpected {:?}", other),
    }
    match AppError::from_commit_record_error(db(DbFailure::Database(DbErrorKind::CheckViolation))) {
        AppError::BadRequest(m) => assert_eq!(m, "invalid record: violates constraints"),
        other => panic!("unexpected {:?}", other),
    }
    let kept = AppError::from_commit_record_error(db(DbFailure::Database(DbErrorKind::Other)));
    assert_eq!(kept.status_code(), 500);
    assert!(matches!(kept, AppError::SqlxError(_)));
    let missing = AppError::from_commit_record_error(db(DbFailure::RowNotFound));
    assert_eq!(missing.status_code(), 404);
}

#[test]
fn log_lines_name_the_source() {
    assert_eq!(AppError::SqlxError(db(DbFailure::Other)).log_line().unwrap(), "AppError(Sqlx): boom");
    assert_eq!(AppError::TeraError("x".to_string()).log_line().unwrap(), "AppError(Tera): x");
    assert_eq!(AppError::SessionError("y".to_string()).log_line().unwrap(), "AppError(Session): y");
    assert!(AppError::BadRequest("z").log_line().is_none());
}

#[test]
fn conversions_wrap_the_cause() {
    let error: AppError = AppError::from(db(DbFailure::Other));
    assert_eq!(error.error_code(), "DATABASE_ERROR");
}
