//! Application errors and how each one is answered over HTTP.

use vstd::prelude::*;

verus! {

/// The application's error; each variant maps to an HTTP status.
#[derive(Debug, Clone, PartialEq, Eq)]
pub enum AppError {
    /// 400: input validation failed
    BadRequest(String),
    /// 401: missing or invalid credentials
    Unauthorized(String),
    /// 403: authenticated but not allowed
    Forbidden(String),
    /// 404
    NotFound(String),
    /// 409: the resource already exists
    Conflict(String),
    /// 500: database or upstream failure
    Internal(String),
}

/// A database failure, as plain values: the SQLSTATE code of a server-side
/// error and the driver's own description of the failure.
#[derive(Debug, Clone, PartialEq, Eq)]
pub enum DbError {
    /// The query was expected to return a row and returned none.
    RowNotFound,
    /// The database server rejected the statement.
    Database { code: Option<String>, text: String },
    /// Any other driver failure (I/O, pool, decoding, ...).
    Other { text: String },
}

/// The JSON error body of an HTTP error response, with its status.
#[derive(Debug, Clone, PartialEq, Eq)]
pub struct ErrorResponse {
    pub status: u16,
    pub error: String,
    pub message: String,
}

/// PostgreSQL's SQLSTATE for a unique-constraint violation.
pub open spec fn unique_violation() -> Seq<char> {
    seq!['2', '3', '5', '0', '5']
}

/// Whether a database error is a unique-constraint violation.
pub open spec fn is_unique_violation(e: DbError) -> bool {
    match e {
        DbError::Database { code: Some(c), .. } => c@ == unique_violation(),
        _ => false,
    }
}

/// The mathematical form of an [`AppError`]: its variant and its message.
pub enum AppErrorView {
    BadRequest(Seq<char>),
    Unauthorized(Seq<char>),
    Forbidden(Seq<char>),
    NotFound(Seq<char>),
    Conflict(Seq<char>),
    Internal(Seq<char>),
}

impl View for AppError {
    type V = AppErrorView;

    open spec fn view(&self) -> AppErrorView {
        match self {
            AppError::BadRequest(m) => AppErrorView::BadRequest(m@),
            AppError::Unauthorized(m) => AppErrorView::Unauthorized(m@),
            AppError::Forbidden(m) => AppErrorView::Forbidden(m@),
            AppError::NotFound(m) => AppErrorView::NotFound(m@),
            AppError::Conflict(m) => AppErrorView::Conflict(m@),
            AppError::Internal(m) => AppErrorView::Internal(m@),
        }
    }
}

/// Whether a string holds exactly the unique-violation SQLSTATE.
pub fn is_unique_violation_code(code: &str) -> (r: bool)
    ensures
        r == (code@ == unique_violation()),
{
    let cs = crate::text::chars_of(code);
    if cs.len() != 5 {
        return false;
    }
    let r = cs[0] == '2' && cs[1] == '3' && cs[2] == '5' && cs[3] == '0' && cs[4] == '5';
    proof {
        if r {
            assert(cs@ =~= unique_violation());
        }
        if cs@ == unique_violation() {
            assert(cs@[0] == '2' && cs@[1] == '3' && cs@[2] == '5' && cs@[3] == '0' && cs@[4] == '5');
        }
    }
    r
}

/// Whether a database error is a unique-constraint violation.
pub fn db_error_is_unique_violation(e: &DbError) -> (r: bool)
    ensures
        r == is_unique_violation(*e),
{
    match e {
        DbError::Database { code: Some(c), .. } => is_unique_violation_code(c.as_str()),
        _ => false,
    }
}

/// The application error that a database error becomes: a missing row is a
/// 404, a unique violation a 409, anything else a 500 carrying the driver's text.
pub open spec fn app_error_of_db(e: DbError) -> AppErrorView {
    match e {
        DbError::RowNotFound => AppErrorView::NotFound("Resource not found"@),
        DbError::Database { text, .. } => if is_unique_violation(e) {
            AppErrorView::Conflict("Resource already exists"@)
        } else {
            AppErrorView::Internal(text@)
        },
        DbError::Other { text } => AppErrorView::Internal(text@),
    }
}

/// The HTTP status, error type and message of an error response. Internal
/// errors do not reveal their message.
pub open spec fn response_of(e: AppErrorView) -> (u16, Seq<char>, Seq<char>) {
    match e {
        AppErrorView::BadRequest(m) => (400, "bad_request"@, m),
        AppErrorView::Unauthorized(m) => (401, "unauthorized"@, m),
        AppErrorView::Forbidden(m) => (403, "forbidden"@, m),
        AppErrorView::NotFound(m) => (404, "not_found"@, m),
        AppErrorView::Conflict(m) => (409, "conflict"@, m),
        AppErrorView::Internal(_) => (500, "internal_error"@, "An internal error occurred"@),
    }
}

impl AppError {
    /// Converts a database error into the application error it stands for.
    pub fn from_db(e: DbError) -> (r: AppError)
        ensures
            r@ == app_error_of_db(e),
    {
        let unique = db_error_is_unique_violation(&e);
        match e {
            DbError::RowNotFound => AppError::NotFound(String::from_str("Resource not found")),
            DbError::Database { text, .. } => if unique {
                AppError::Conflict(String::from_str("Resource already exists"))
            } else {
                AppError::Internal(text)
            },
            DbError::Other { text } => AppError::Internal(text),
        }
    }

    /// The HTTP response that answers this error.
    pub fn to_response(&self) -> (r: ErrorResponse)
        ensures
            (r.status, r.error@, r.message@) == response_of(self@),
    {
        match self {
            AppError::BadRequest(m) => ErrorResponse {
                status: 400,
                error: String::from_str("bad_request"),
                message: m.clone(),
            },
            AppError::Unauthorized(m) => ErrorResponse {
                status: 401,
                error: String::from_str("unauthorized"),
                message: m.clone(),
            },
            AppError::Forbidden(m) => ErrorResponse {
                status: 403,
                error: String::from_str("forbidden"),
                message: m.clone(),
            },
            AppError::NotFound(m) => ErrorResponse {
                status: 404,
                error: String::from_str("not_found"),
                message: m.clone(),
            },
            AppError::Conflict(m) => ErrorResponse {
                status: 409,
                error: String::from_str("conflict"),
                message: m.clone(),
            },
            AppError::Internal(_) => ErrorResponse {
                status: 500,
                error: String::from_str("internal_error"),
                message: String::from_str("An internal error occurred"),
            },
        }
    }
}

/// An internal error is answered with status 500 and a fixed message: what
/// went wrong inside never reaches the client.
pub proof fn law_internal_errors_hide_details(m1: Seq<char>, m2: Seq<char>)
    ensures
        response_of(AppErrorView::Internal(m1)) == response_of(AppErrorView::Internal(m2)),
        response_of(AppErrorView::Internal(m1)).0 == 500,
{
}

} // verus!
