//! `AppError` is the single error type of the request handlers, and what
//! a client is shown of each.
//!
//! Redaction policy: `Db` and `Internal` show `"internal error"` only;
//! database detail and the internal description never cross the wire.
//! `BadRequest`, `Forbidden`, `Conflict`, `NotFound` and `Crypto` carry
//! curated short strings that tell the client what to fix.

use crate::crypto::{crypto_error_message, CryptoError};
use vstd::prelude::*;
use vstd::std_specs::convert::FromSpecImpl;

verus! {

#[verifier::external_type_specification]
#[verifier::external_body]
pub struct ExSqlxError(sqlx::Error);

/// The single error type of the request handlers.
pub enum AppError {
    BadRequest(&'static str),
    NotFound,
    Forbidden(&'static str),
    Conflict(&'static str),
    Internal(&'static str),
    Db(sqlx::Error),
    Crypto(CryptoError),
}

/// What decides the client-visible response of an error.
pub enum AppErrorView {
    BadRequest(Seq<char>),
    NotFound,
    Forbidden(Seq<char>),
    Conflict(Seq<char>),
    Internal(Seq<char>),
    Db,
    Crypto(CryptoError),
}

impl View for AppError {
    type V = AppErrorView;

    open spec fn view(&self) -> AppErrorView {
        match self {
            AppError::BadRequest(m) => AppErrorView::BadRequest(m@),
            AppError::NotFound => AppErrorView::NotFound,
            AppError::Forbidden(m) => AppErrorView::Forbidden(m@),
            AppError::Conflict(m) => AppErrorView::Conflict(m@),
            AppError::Internal(m) => AppErrorView::Internal(m@),
            AppError::Db(_) => AppErrorView::Db,
            AppError::Crypto(e) => AppErrorView::Crypto(*e),
        }
    }
}

/// The HTTP status, error code and message a client receives.
pub struct ErrorBody {
    pub status: u16,
    pub code: &'static str,
    pub message: String,
}

/// The client-visible status, code and message of an error.
pub open spec fn client_view(e: AppErrorView) -> (u16, Seq<char>, Seq<char>) {
    match e {
        AppErrorView::BadRequest(m) => (400, "bad_request"@, "bad request: "@ + m),
        AppErrorView::NotFound => (404, "not_found"@, "not found"@),
        AppErrorView::Forbidden(m) => (403, "forbidden"@, "forbidden: "@ + m),
        AppErrorView::Conflict(m) => (409, "conflict"@, "conflict: "@ + m),
        AppErrorView::Crypto(c) => (400, "bad_signature"@, crypto_error_message(c)),
        AppErrorView::Db => (500, "internal"@, "internal error"@),
        AppErrorView::Internal(_) => (500, "internal"@, "internal error"@),
    }
}

impl AppError {
    /// What the client is shown of this error.
    pub fn client_body(&self) -> (b: ErrorBody)
        ensures
            (b.status, b.code@, b.message@) == client_view(self@),
    {
        match self {
            AppError::BadRequest(m) => ErrorBody {
                status: 400,
                code: "bad_request",
                message: String::from_str("bad request: ").concat(m),
            },
            AppError::NotFound => ErrorBody { status: 404, code: "not_found", message: String::from_str("not found") },
            AppError::Forbidden(m) => ErrorBody {
                status: 403,
                code: "forbidden",
                message: String::from_str("forbidden: ").concat(m),
            },
            AppError::Conflict(m) => ErrorBody {
                status: 409,
                code: "conflict",
                message: String::from_str("conflict: ").concat(m),
            },
            AppError::Crypto(e) => ErrorBody {
                status: 400,
                code: "bad_signature",
                message: String::from_str(e.message()),
            },
            AppError::Db(_) => ErrorBody { status: 500, code: "internal", message: String::from_str("internal error") },
            AppError::Internal(_) => ErrorBody { status: 500, code: "internal", message: String::from_str("internal error") },
        }
    }
}

/// Whatever an internal or database error carries, the client sees the
/// same response: the detail stays on the server.
pub proof fn lemma_internal_detail_withheld(a: Seq<char>, b: Seq<char>)
    ensures
        client_view(AppErrorView::Internal(a)) == client_view(AppErrorView::Internal(b)),
        client_view(AppErrorView::Internal(a)) == client_view(AppErrorView::Db),
{
}

impl From<CryptoError> for AppError {
    fn from(e: CryptoError) -> (r: AppError) {
        AppError::Crypto(e)
    }
}

impl FromSpecImpl<CryptoError> for AppError {
    open spec fn obeys_from_spec() -> bool {
        true
    }

    open spec fn from_spec(v: CryptoError) -> AppError {
        AppError::Crypto(v)
    }
}

impl From<sqlx::Error> for AppError {
    fn from(e: sqlx::Error) -> (r: AppError) {
        AppError::Db(e)
    }
}

impl FromSpecImpl<sqlx::Error> for AppError {
    open spec fn obeys_from_spec() -> bool {
        true
    }

    open spec fn from_spec(v: sqlx::Error) -> AppError {
        AppError::Db(v)
    }
}

/// Calls `constraint()` on the database error inside a `sqlx::Error`,
/// giving the name of the violated constraint, if there is one. Nothing
/// is claimed of it: it is what the database reported.
#[verifier::external_body]
pub(crate) fn violated_constraint(e: &sqlx::Error) -> (c: Option<String>) {
    match e {
        sqlx::Error::Database(d) => d.constraint().map(|c| c.to_string()),
        _ => None,
    }
}

/// Maps a failed insert: a violation of `constraint` is the conflict
/// `msg`; anything else is a database error.
pub fn insert_conflict(e: sqlx::Error, violated: Option<String>, constraint: &str, msg: &'static str) -> (r: AppError)
    ensures
        (violated matches Some(v) && v@ == constraint@) ==> r@ == AppErrorView::Conflict(msg@),
        !(violated matches Some(v) && v@ == constraint@) ==> r@ == AppErrorView::Db,
{
    match violated {
        Some(v) => {
            if crate::bytes::str_eq(v.as_str(), constraint) {
                AppError::Conflict(msg)
            } else {
                AppError::Db(e)
            }
        },
        None => AppError::Db(e),
    }
}

/// Result type of the request handlers.
pub type AppResult<T> = Result<T, AppError>;

} // verus!
