//! The failures that the service reports, with the status and the text that
//! callers see for each.

use vstd::prelude::*;
use vstd::string::*;

verus! {

/// A failure of a request.
#[derive(Clone, Debug, PartialEq, Eq)]
pub enum Error {
    /// A file could not be read or written; the field describes the failure.
    Io(String),
    /// The relational store failed; the field describes the failure.
    Sqlx(String),
    /// Password hashing failed; the field describes the failure.
    Bcrypt(String),
    /// The session could not be read or written; the field describes the
    /// failure.
    AsyncSession(String),
    /// The request cannot be served as it stands.
    BadRequest(String),
    /// The request carries no usable session.
    SessionError,
    /// The caller is not who the request needs.
    Unauthorized(String),
    /// The caller may not do what the request asks.
    Forbidden(String),
    /// What the request names does not exist.
    NotFound(String),
    /// The service itself failed.
    InternalServerError(String),
}

/// Mathematical value of an [`Error`].
pub enum ErrorView {
    Io(Seq<char>),
    Sqlx(Seq<char>),
    Bcrypt(Seq<char>),
    AsyncSession(Seq<char>),
    BadRequest(Seq<char>),
    SessionError,
    Unauthorized(Seq<char>),
    Forbidden(Seq<char>),
    NotFound(Seq<char>),
    InternalServerError(Seq<char>),
}

impl View for Error {
    type V = ErrorView;

    open spec fn view(&self) -> ErrorView {
        match *self {
            Error::Io(detail) => ErrorView::Io(detail@),
            Error::Sqlx(detail) => ErrorView::Sqlx(detail@),
            Error::Bcrypt(detail) => ErrorView::Bcrypt(detail@),
            Error::AsyncSession(detail) => ErrorView::AsyncSession(detail@),
            Error::BadRequest(detail) => ErrorView::BadRequest(detail@),
            Error::SessionError => ErrorView::SessionError,
            Error::Unauthorized(detail) => ErrorView::Unauthorized(detail@),
            Error::Forbidden(detail) => ErrorView::Forbidden(detail@),
            Error::NotFound(detail) => ErrorView::NotFound(detail@),
            Error::InternalServerError(detail) => ErrorView::InternalServerError(detail@),
        }
    }
}

/// What a decision says: `None` where the request may proceed, the value
/// of the failure where it may not.
pub open spec fn refusal(decision: Result<(), Error>) -> Option<ErrorView> {
    match decision {
        Ok(_) => None,
        Err(error) => Some(error@),
    }
}

impl Error {
    /// A bad request with the given text.
    pub fn bad_request(text: &str) -> (error: Error)
        ensures
            error@ == ErrorView::BadRequest(text@),
    {
        Error::BadRequest(String::from_str(text))
    }

    /// A refusal for want of identity, with the given text.
    pub fn unauthorized(text: &str) -> (error: Error)
        ensures
            error@ == ErrorView::Unauthorized(text@),
    {
        Error::Unauthorized(String::from_str(text))
    }

    /// A refusal of a forbidden action, with the given text.
    pub fn forbidden(text: &str) -> (error: Error)
        ensures
            error@ == ErrorView::Forbidden(text@),
    {
        Error::Forbidden(String::from_str(text))
    }

    /// A report that what was asked for does not exist, with the given text.
    pub fn not_found(text: &str) -> (error: Error)
        ensures
            error@ == ErrorView::NotFound(text@),
    {
        Error::NotFound(String::from_str(text))
    }

    /// The HTTP status that reports the failure.
    pub open spec fn status(self) -> u16 {
        match self {
            Error::BadRequest(_) => 400,
            Error::Unauthorized(_) | Error::SessionError => 401,
            Error::Forbidden(_) => 403,
            Error::NotFound(_) => 404,
            Error::Io(_) | Error::Sqlx(_) | Error::Bcrypt(_) | Error::AsyncSession(_)
            | Error::InternalServerError(_) => 500,
        }
    }

    /// The text that reports the failure.
    pub open spec fn text(self) -> Seq<char> {
        match self {
            Error::Io(detail) => "I/O error: "@ + detail@,
            Error::Sqlx(detail) => "SQLx error: "@ + detail@,
            Error::Bcrypt(detail) => "bcrypt error: "@ + detail@,
            Error::AsyncSession(detail) => "async-session error: "@ + detail@,
            Error::BadRequest(detail) => detail@,
            Error::SessionError => "session error"@,
            Error::Unauthorized(detail) => "unauthorized: "@ + detail@,
            Error::Forbidden(detail) => "forbidden: "@ + detail@,
            Error::NotFound(detail) => "not found: "@ + detail@,
            Error::InternalServerError(detail) => detail@,
        }
    }

    /// The HTTP status that reports the failure: 400 for a bad request, 401
    /// for a missing or refused identity, 403 for a forbidden action, 404 for
    /// a missing resource, 500 for everything that failed behind the service.
    pub fn status_code(&self) -> (code: u16)
        ensures
            code == self.status(),
    {
        match self {
            Error::BadRequest(_) => 400,
            Error::Unauthorized(_) | Error::SessionError => 401,
            Error::Forbidden(_) => 403,
            Error::NotFound(_) => 404,
            Error::Io(_) | Error::Sqlx(_) | Error::Bcrypt(_) | Error::AsyncSession(_)
            | Error::InternalServerError(_) => 500,
        }
    }

    /// The text that reports the failure.
    pub fn message(&self) -> (message: String)
        ensures
            message@ == self.text(),
    {
        match self {
            Error::Io(detail) => String::from_str("I/O error: ").concat(detail.as_str()),
            Error::Sqlx(detail) => String::from_str("SQLx error: ").concat(detail.as_str()),
            Error::Bcrypt(detail) => String::from_str("bcrypt error: ").concat(detail.as_str()),
            Error::AsyncSession(detail) => String::from_str("async-session error: ").concat(
                detail.as_str(),
            ),
            Error::BadRequest(detail) => detail.clone(),
            Error::SessionError => String::from_str("session error"),
            Error::Unauthorized(detail) => String::from_str("unauthorized: ").concat(
                detail.as_str(),
            ),
            Error::Forbidden(detail) => String::from_str("forbidden: ").concat(detail.as_str()),
            Error::NotFound(detail) => String::from_str("not found: ").concat(detail.as_str()),
            Error::InternalServerError(detail) => detail.clone(),
        }
    }
}

} // verus!
