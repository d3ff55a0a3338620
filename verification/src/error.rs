//! The error taxonomy of the service and its mapping to HTTP status codes.

use vstd::prelude::*;
use vstd::string::StringExecFns;

verus! {

/// The class an [`AppError`] belongs to, without its message.
#[derive(Clone, Copy, Debug, PartialEq, Eq, Structural)]
pub enum ErrorKind {
    DatabaseError,
    BadRequest,
    Unauthorized,
    Forbidden,
    NotFound,
    ValidationError,
    Conflict,
    Unexpected,
}

/// Mathematical value of an [`AppError`]: its class and the message it carries.
pub struct ErrorView {
    pub kind: ErrorKind,
    pub message: Seq<char>,
}

/// Every failure the service reports to a caller.
#[derive(Debug)]
pub enum AppError {
    /// The store failed or answered something the engine cannot use.
    DatabaseError(String),
    /// The request is malformed.
    BadRequest(String),
    /// The caller presented no usable identity.
    Unauthorized(String),
    /// The caller is known but may not perform the action.
    Forbidden(String),
    /// The target is absent, or is not the caller's to see.
    NotFound(String),
    /// The request breaks a rule of the reservation policy.
    ValidationError(String),
    /// The requested window overlaps an existing reservation.
    Conflict(String),
    /// Anything else; reported without detail.
    Unexpected,
}

/// The message reported for [`AppError::Unexpected`].
pub open spec fn unexpected_message() -> Seq<char> {
    "Unexpected server error"@
}

/// The HTTP status code that answers an error of class `kind`.
pub open spec fn status_of(kind: ErrorKind) -> int {
    match kind {
        ErrorKind::DatabaseError => 500,
        ErrorKind::BadRequest => 400,
        ErrorKind::Unauthorized => 401,
        ErrorKind::Forbidden => 403,
        ErrorKind::NotFound => 404,
        ErrorKind::ValidationError => 400,
        ErrorKind::Conflict => 409,
        ErrorKind::Unexpected => 500,
    }
}

/// The words that introduce the message of an error of class `kind` in its
/// one-line rendering.
pub open spec fn prefix_of(kind: ErrorKind) -> Seq<char> {
    match kind {
        ErrorKind::DatabaseError => "Database query failed: "@,
        ErrorKind::BadRequest => "Bad request: "@,
        ErrorKind::Unauthorized => "Unauthorized: "@,
        ErrorKind::Forbidden => "Forbidden: "@,
        ErrorKind::NotFound => "Not Found: "@,
        ErrorKind::ValidationError => "Validation error: "@,
        ErrorKind::Conflict => "Conflict: "@,
        ErrorKind::Unexpected => Seq::empty(),
    }
}

/// The one-line rendering of an error.
pub open spec fn rendering(e: ErrorView) -> Seq<char> {
    prefix_of(e.kind) + e.message
}

/// Shorthand for an [`ErrorView`].
pub open spec fn failure(kind: ErrorKind, message: Seq<char>) -> ErrorView {
    ErrorView { kind, message }
}

/// What is sent back for an error: the status line and the error object of
/// the response envelope.
pub struct ErrorResponse {
    pub status: u16,
    pub message: String,
    pub kind: ErrorKind,
}

impl View for AppError {
    type V = ErrorView;

    open spec fn view(&self) -> ErrorView {
        match self {
            AppError::DatabaseError(m) => failure(ErrorKind::DatabaseError, m@),
            AppError::BadRequest(m) => failure(ErrorKind::BadRequest, m@),
            AppError::Unauthorized(m) => failure(ErrorKind::Unauthorized, m@),
            AppError::Forbidden(m) => failure(ErrorKind::Forbidden, m@),
            AppError::NotFound(m) => failure(ErrorKind::NotFound, m@),
            AppError::ValidationError(m) => failure(ErrorKind::ValidationError, m@),
            AppError::Conflict(m) => failure(ErrorKind::Conflict, m@),
            AppError::Unexpected => failure(ErrorKind::Unexpected, unexpected_message()),
        }
    }
}

impl AppError {
    /// A failure of the store, reported under the words `msg`.
    pub fn database(msg: &str) -> (e: Self)
        ensures
            e@ == failure(ErrorKind::DatabaseError, msg@),
    {
        AppError::DatabaseError(String::from_str(msg))
    }

    /// A malformed request, turned away with the words `msg`.
    pub fn bad_request(msg: &str) -> (e: Self)
        ensures
            e@ == failure(ErrorKind::BadRequest, msg@),
    {
        AppError::BadRequest(String::from_str(msg))
    }

    /// A caller without a usable identity, turned away with the words `msg`.
    pub fn unauthorized(msg: &str) -> (e: Self)
        ensures
            e@ == failure(ErrorKind::Unauthorized, msg@),
    {
        AppError::Unauthorized(String::from_str(msg))
    }

    /// A caller who may not perform the action, turned away with the words `msg`.
    pub fn forbidden(msg: &str) -> (e: Self)
        ensures
            e@ == failure(ErrorKind::Forbidden, msg@),
    {
        AppError::Forbidden(String::from_str(msg))
    }

    /// A target that is absent or not the caller's to see, reported with the words `msg`.
    pub fn not_found(msg: &str) -> (e: Self)
        ensures
            e@ == failure(ErrorKind::NotFound, msg@),
    {
        AppError::NotFound(String::from_str(msg))
    }

    /// A request that breaks a rule of the policy, turned away with the words `msg`.
    pub fn validation(msg: &str) -> (e: Self)
        ensures
            e@ == failure(ErrorKind::ValidationError, msg@),
    {
        AppError::ValidationError(String::from_str(msg))
    }

    /// A window that overlaps an existing reservation, turned away with the words `msg`.
    pub fn conflict(msg: &str) -> (e: Self)
        ensures
            e@ == failure(ErrorKind::Conflict, msg@),
    {
        AppError::Conflict(String::from_str(msg))
    }

    /// The class of this error.
    pub fn kind(&self) -> (k: ErrorKind)
        ensures
            k == self@.kind,
    {
        match self {
            AppError::DatabaseError(_) => ErrorKind::DatabaseError,
            AppError::BadRequest(_) => ErrorKind::BadRequest,
            AppError::Unauthorized(_) => ErrorKind::Unauthorized,
            AppError::Forbidden(_) => ErrorKind::Forbidden,
            AppError::NotFound(_) => ErrorKind::NotFound,
            AppError::ValidationError(_) => ErrorKind::ValidationError,
            AppError::Conflict(_) => ErrorKind::Conflict,
            AppError::Unexpected => ErrorKind::Unexpected,
        }
    }

    /// The message reported to the caller.
    pub fn message(&self) -> (m: String)
        ensures
            m@ == self@.message,
    {
        match self {
            AppError::DatabaseError(m) => m.clone(),
            AppError::BadRequest(m) => m.clone(),
            AppError::Unauthorized(m) => m.clone(),
            AppError::Forbidden(m) => m.clone(),
            AppError::NotFound(m) => m.clone(),
            AppError::ValidationError(m) => m.clone(),
            AppError::Conflict(m) => m.clone(),
            AppError::Unexpected => String::from_str("Unexpected server error"),
        }
    }

    /// The HTTP status code that answers this error.
    pub fn status_code(&self) -> (code: u16)
        ensures
            code == status_of(self@.kind),
    {
        status_code_of(self.kind())
    }

    /// The one-line rendering of this error: the words for its class, then
    /// its message.
    pub fn to_string(&self) -> (s: String)
        ensures
            s@ == rendering(self@),
    {
        let head: &str = match self {
            AppError::DatabaseError(_) => "Database query failed: ",
            AppError::BadRequest(_) => "Bad request: ",
            AppError::Unauthorized(_) => "Unauthorized: ",
            AppError::Forbidden(_) => "Forbidden: ",
            AppError::NotFound(_) => "Not Found: ",
            AppError::ValidationError(_) => "Validation error: ",
            AppError::Conflict(_) => "Conflict: ",
            AppError::Unexpected => "",
        };
        proof {
            reveal_strlit("");
        }
        let body = self.message();
        let s = String::from_str(head).concat(body.as_str());
        s
    }

    /// Turns the error into what is sent back: status, message and class.
    pub fn into_response(self) -> (r: ErrorResponse)
        ensures
            r.status == status_of(self@.kind),
            r.message@ == self@.message,
            r.kind == self@.kind,
    {
        let status = self.status_code();
        let kind = self.kind();
        let message = self.message();
        ErrorResponse { status, message, kind }
    }
}

/// The HTTP status code that answers an error of class `kind`.
pub fn status_code_of(kind: ErrorKind) -> (code: u16)
    ensures
        code == status_of(kind),
{
    match kind {
        ErrorKind::DatabaseError => 500,
        ErrorKind::BadRequest => 400,
        ErrorKind::Unauthorized => 401,
        ErrorKind::Forbidden => 403,
        ErrorKind::NotFound => 404,
        ErrorKind::ValidationError => 400,
        ErrorKind::Conflict => 409,
        ErrorKind::Unexpected => 500,
    }
}

} // verus!
