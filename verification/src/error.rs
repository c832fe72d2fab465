//! The errors that a request can end in, and how each is answered.
use vstd::prelude::*;
use vstd::string::*;
use crate::user::UserError;

verus! {

/// The kind of a failure reported by the database, as far as the error
/// handling tells kinds apart.
#[derive(Debug, Clone, Copy, PartialEq, Eq, Structural)]
pub enum DbErrorKind {
    UniqueViolation,
    ForeignKeyViolation,
    NotNullViolation,
    CheckViolation,
    Other,
}

/// Where a database call failed.
#[derive(Debug, Clone, Copy, PartialEq, Eq, Structural)]
pub enum DbFailure {
    /// A query that had to return a row returned none.
    RowNotFound,
    /// The database refused the statement.
    Database(DbErrorKind),
    /// Any other failure (connection, protocol, decoding, ...).
    Other,
}

/// A failed database call: what failed, and the text it was reported with.
#[derive(Debug)]
pub struct DbError {
    pub failure: DbFailure,
    pub message: String,
}

/// The errors that a request can end in.
#[derive(Debug)]
pub enum AppError {
    BadRequest(&'static str),
    Unauthorized(&'static str),
    Forbidden(&'static str),
    NotFound(&'static str),
    Conflict(&'static str),
    InternalServerError(&'static str),
    SqlxError(DbError),
    TeraError(String),
    SessionError(String),
    User(UserError),
}

pub type AppResult<T> = Result<T, AppError>;

/// What an error is answered with: the HTTP status, a stable error code and a
/// message that is safe to show to the client.
pub struct ErrorResponse {
    pub status: u16,
    pub error: &'static str,
    pub message: &'static str,
}

/// The error that a failed attempt to store a record is answered with.
pub open spec fn commit_record_error(error: DbError) -> AppError {
    match error.failure {
        DbFailure::Database(DbErrorKind::UniqueViolation) => AppError::Conflict("record already exist"),
        DbFailure::Database(DbErrorKind::ForeignKeyViolation) => AppError::BadRequest(
            "invalid record: references non-existing entity",
        ),
        DbFailure::Database(DbErrorKind::NotNullViolation) => AppError::BadRequest(
            "invalid record: missing required field",
        ),
        DbFailure::Database(DbErrorKind::CheckViolation) => AppError::BadRequest(
            "invalid record: violates constraints",
        ),
        _ => AppError::SqlxError(error),
    }
}

impl AppError {
    /// The HTTP status that the error is answered with.
    pub open spec fn status_of(&self) -> u16 {
        match self {
            AppError::BadRequest(_) => 400,
            AppError::Unauthorized(_) => 401,
            AppError::Forbidden(_) => 403,
            AppError::NotFound(_) => 404,
            AppError::Conflict(_) => 409,
            AppError::InternalServerError(_) => 500,
            AppError::SqlxError(error) => if error.failure == DbFailure::RowNotFound {
                404
            } else {
                500
            },
            AppError::TeraError(_) => 500,
            AppError::SessionError(_) => 500,
            AppError::User(_) => 500,
        }
    }

    /// The error code that the error is answered with.
    pub open spec fn code_of(&self) -> Seq<char> {
        match self {
            AppError::BadRequest(_) => "BAD_REQUEST"@,
            AppError::Unauthorized(_) => "UNAUTHORIZED"@,
            AppError::Forbidden(_) => "FORBIDDEN"@,
            AppError::NotFound(_) => "NOT_FOUND"@,
            AppError::Conflict(_) => "CONFLICT"@,
            AppError::InternalServerError(_) => "INTERNAL_SERVER_ERROR"@,
            AppError::SqlxError(_) => "DATABASE_ERROR"@,
            AppError::TeraError(_) => "TEMPLATE_ERROR"@,
            AppError::SessionError(_) => "SESSION_ERROR"@,
            AppError::User(_) => "USER_HANDLING_ERROR"@,
        }
    }

    /// The message shown to the client: the one the error was raised with, or
    /// a fixed description that tells nothing of the internal cause.
    pub open spec fn message_of(&self) -> Seq<char> {
        match self {
            AppError::BadRequest(msg) => msg@,
            AppError::Unauthorized(msg) => msg@,
            AppError::Forbidden(msg) => msg@,
            AppError::NotFound(msg) => msg@,
            AppError::Conflict(msg) => msg@,
            AppError::InternalServerError(msg) => msg@,
            AppError::SqlxError(_) => "database error"@,
            AppError::TeraError(_) => "template rendering error"@,
            AppError::SessionError(_) => "session error"@,
            AppError::User(_) => "user handling error"@,
        }
    }

    /// The HTTP status of the error: it depends on the kind of error alone
    /// (and, for a database error, on whether a row was missing), never on the
    /// message it carries.
    pub fn status_code(&self) -> (status: u16)
        ensures
            status == self.status_of(),
            self is BadRequest ==> status == 400,
            self is Unauthorized ==> status == 401,
            self is Forbidden ==> status == 403,
            self is NotFound ==> status == 404,
            self is Conflict ==> status == 409,
            self is InternalServerError ==> status == 500,
            self matches AppError::SqlxError(e) ==> status == (if e.failure == DbFailure::RowNotFound {
                404u16
            } else {
                500u16
            }),
            (self is TeraError || self is SessionError || self is User) ==> status == 500,
    {
        match self {
            AppError::BadRequest(_) => 400,
            AppError::Unauthorized(_) => 401,
            AppError::Forbidden(_) => 403,
            AppError::NotFound(_) => 404,
            AppError::Conflict(_) => 409,
            AppError::InternalServerError(_) => 500,
            AppError::SqlxError(error) => match error.failure {
                DbFailure::RowNotFound => 404,
                _ => 500,
            },
            AppError::TeraError(_) => 500,
            AppError::SessionError(_) => 500,
            AppError::User(_) => 500,
        }
    }

    pub fn public_message(&self) -> (message: &'static str)
        ensures
            message@ == self.message_of(),
    {
        match self {
            AppError::BadRequest(msg) => msg,
            AppError::Unauthorized(msg) => msg,
            AppError::Forbidden(msg) => msg,
            AppError::NotFound(msg) => msg,
            AppError::Conflict(msg) => msg,
            AppError::InternalServerError(msg) => msg,
            AppError::SqlxError(_) => "database error",
            AppError::TeraError(_) => "template rendering error",
            AppError::SessionError(_) => "session error",
            AppError::User(_) => "user handling error",
        }
    }

    pub fn error_code(&self) -> (code: &'static str)
        ensures
            code@ == self.code_of(),
    {
        match self {
            AppError::BadRequest(_) => "BAD_REQUEST",
            AppError::Unauthorized(_) => "UNAUTHORIZED",
            AppError::Forbidden(_) => "FORBIDDEN",
            AppError::NotFound(_) => "NOT_FOUND",
            AppError::Conflict(_) => "CONFLICT",
            AppError::InternalServerError(_) => "INTERNAL_SERVER_ERROR",
            AppError::SqlxError(_) => "DATABASE_ERROR",
            AppError::TeraError(_) => "TEMPLATE_ERROR",
            AppError::SessionError(_) => "SESSION_ERROR",
            AppError::User(_) => "USER_HANDLING_ERROR",
        }
    }

    /// The answer to the error: its status, its code and its public message.
    pub fn response(&self) -> (response: ErrorResponse)
        ensures
            response.status == self.status_of(),
            response.error@ == self.code_of(),
            response.message@ == self.message_of(),
    {
        ErrorResponse {
            status: self.status_code(),
            error: self.error_code(),
            message: self.public_message(),
        }
    }

    /// Maps the failure of storing a record to the error that the request ends
    /// in: a record that exists already is a conflict, one that breaks a
    /// constraint of the database is a bad request, anything else stays a
    /// database error.
    pub fn from_commit_record_error(error: DbError) -> (app_error: AppError)
        ensures
            app_error == commit_record_error(error),
    {
        match error.failure {
            DbFailure::Database(DbErrorKind::UniqueViolation) => AppError::Conflict("record already exist"),
            DbFailure::Database(DbErrorKind::ForeignKeyViolation) => AppError::BadRequest("invalid record: references non-existing entity"),
            DbFailure::Database(DbErrorKind::NotNullViolation) => AppError::BadRequest("invalid record: missing required field"),
            DbFailure::Database(DbErrorKind::CheckViolation) => AppError::BadRequest("invalid record: violates constraints"),
            _ => AppError::SqlxError(error),
        }
    }
}

impl AppError {
    /// The text the error is logged with, for the errors that have an internal
    /// cause: a tag naming the source, followed by the cause's own description.
    pub fn log_line(&self) -> (line: Option<String>)
        ensures
            match self {
                AppError::SqlxError(error) => line matches Some(l) && l@ == "AppError(Sqlx): "@ + error.message@,
                AppError::TeraError(text) => line matches Some(l) && l@ == "AppError(Tera): "@ + text@,
                AppError::SessionError(text) => line matches Some(l) && l@ == "AppError(Session): "@ + text@,
                AppError::User(_) => line matches Some(l) && l@.len() >= 16 && l@.subrange(0, 16) == "AppError(User): "@,
                _ => line is None,
            },
    {
        match self {
            AppError::SqlxError(error) => {
                let mut line = String::from_str("AppError(Sqlx): ");
                line.append(error.message.as_str());
                Some(line)
            },
            AppError::TeraError(text) => {
                let mut line = String::from_str("AppError(Tera): ");
                line.append(text.as_str());
                Some(line)
            },
            AppError::SessionError(text) => {
                let mut line = String::from_str("AppError(Session): ");
                line.append(text.as_str());
                Some(line)
            },
            AppError::User(error) => {
                let prefix = "AppError(User): ";
                proof {
                    reveal_strlit("AppError(User): ");
                }
                let mut line = String::from_str(prefix);
                let detail = error.message();
                line.append(detail.as_str());
                assert(line@.subrange(0, 16) =~= prefix@);
                Some(line)
            },
            _ => None,
        }
    }
}

impl From<DbError> for AppError {
    fn from(value: DbError) -> (error: AppError)
        ensures
            error == AppError::SqlxError(value),
    {
        AppError::SqlxError(value)
    }
}

impl vstd::std_specs::convert::FromSpecImpl<DbError> for AppError {
    open spec fn obeys_from_spec() -> bool {
        true
    }

    open spec fn from_spec(v: DbError) -> AppError {
        AppError::SqlxError(v)
    }
}

impl From<UserError> for AppError {
    fn from(value: UserError) -> (error: AppError)
        ensures
            error == AppError::User(value),
    {
        AppError::User(value)
    }
}

impl vstd::std_specs::convert::FromSpecImpl<UserError> for AppError {
    open spec fn obeys_from_spec() -> bool {
        true
    }

    open spec fn from_spec(v: UserError) -> AppError {
        AppError::User(v)
    }
}

/// Every error is answered with a client-error or server-error status, and an
/// error with an internal cause is answered with 500, except a missing row,
/// which is answered with 404.
pub proof fn lemma_error_status_classes(error: AppError)
    ensures
        400 <= error.status_of() < 600,
        error matches AppError::SqlxError(e) ==> error.status_of() == (if e.failure == DbFailure::RowNotFound {
            404u16
        } else {
            500u16
        }),
        (error is TeraError || error is SessionError || error is User) ==> error.status_of() == 500,
{
}

/// The status and the error code of an error depend on its kind alone, never
/// on its message: whatever the message, a bad request is answered with 400,
/// an unauthorized request with 401, a forbidden one with 403, a missing
/// resource with 404, a conflict with 409 and an internal error with 500; two
/// errors of the same kind with different messages get the same status.
pub proof fn lemma_status_ignores_message(msg: &'static str, other: &'static str)
    ensures
        AppError::BadRequest(msg).status_of() == 400,
        AppError::Unauthorized(msg).status_of() == 401,
        AppError::Forbidden(msg).status_of() == 403,
        AppError::NotFound(msg).status_of() == 404,
        AppError::Conflict(msg).status_of() == 409,
        AppError::InternalServerError(msg).status_of() == 500,
        AppError::BadRequest(msg).status_of() == AppError::BadRequest(other).status_of(),
        AppError::Unauthorized(msg).status_of() == AppError::Unauthorized(other).status_of(),
        AppError::Forbidden(msg).status_of() == AppError::Forbidden(other).status_of(),
        AppError::NotFound(msg).status_of() == AppError::NotFound(other).status_of(),
        AppError::Conflict(msg).status_of() == AppError::Conflict(other).status_of(),
        AppError::InternalServerError(msg).status_of() == AppError::InternalServerError(other).status_of(),
        AppError::Unauthorized(msg).code_of() == AppError::Unauthorized(other).code_of(),
        AppError::Forbidden(msg).code_of() == AppError::Forbidden(other).code_of(),
{
}

/// A refused record is answered as a conflict (409) when it exists already and
/// as a bad request (400) when it breaks another constraint; other failures
/// keep the status of a database error.
pub proof fn lemma_commit_error_status(error: DbError)
    ensures
        error.failure == DbFailure::Database(DbErrorKind::UniqueViolation) ==> commit_record_error(error).status_of() == 409,
        (error.failure == DbFailure::Database(DbErrorKind::ForeignKeyViolation)
            || error.failure == DbFailure::Database(DbErrorKind::NotNullViolation)
            || error.failure == DbFailure::Database(DbErrorKind::CheckViolation)) ==> commit_record_error(error).status_of() == 400,
        error.failure == DbFailure::Database(DbErrorKind::Other) ==> commit_record_error(error).status_of() == 500,
        error.failure == DbFailure::Other ==> commit_record_error(error).status_of() == 500,
        error.failure == DbFailure::RowNotFound ==> commit_record_error(error).status_of() == 404,
{
}

} // verus!
