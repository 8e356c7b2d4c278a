//! The error that the service's decisions end in.

use vstd::prelude::*;

verus! {

/// Which kind of rejection an error is; the HTTP layer picks the status code by it.
#[derive(PartialEq, Eq, Structural, Clone, Copy, Debug)]
pub enum ErrorKind {
    Validation,
    Unauthorized,
    Conflict,
    NotFound,
    Internal,
}

/// A rejection with its message for the client.
#[derive(Debug)]
pub enum AppError {
    Validation(String),
    Unauthorized(String),
    Conflict(String),
    NotFound(String),
    Internal(String),
}

/// The mathematical content of an `AppError`: its kind and its message.
pub struct Failure {
    pub kind: ErrorKind,
    pub message: Seq<char>,
}

impl View for AppError {
    type V = Failure;

    open spec fn view(&self) -> Failure {
        match self {
            AppError::Validation(m) => Failure { kind: ErrorKind::Validation, message: m@ },
            AppError::Unauthorized(m) => Failure { kind: ErrorKind::Unauthorized, message: m@ },
            AppError::Conflict(m) => Failure { kind: ErrorKind::Conflict, message: m@ },
            AppError::NotFound(m) => Failure { kind: ErrorKind::NotFound, message: m@ },
            AppError::Internal(m) => Failure { kind: ErrorKind::Internal, message: m@ },
        }
    }
}

/// `r` is an error of the given kind carrying the given message.
pub open spec fn fails_with<T>(r: Result<T, AppError>, kind: ErrorKind, message: Seq<char>) -> bool {
    r matches Err(e) && e@ == (Failure { kind, message })
}

impl AppError {
    /// The kind of this error.
    pub fn kind(&self) -> (k: ErrorKind)
        ensures
            k == self@.kind,
    {
        match self {
            AppError::Validation(_) => ErrorKind::Validation,
            AppError::Unauthorized(_) => ErrorKind::Unauthorized,
            AppError::Conflict(_) => ErrorKind::Conflict,
            AppError::NotFound(_) => ErrorKind::NotFound,
            AppError::Internal(_) => ErrorKind::Internal,
        }
    }

    /// The message of this error.
    pub fn message(&self) -> (m: &str)
        ensures
            m@ == self@.message,
    {
        match self {
            AppError::Validation(m) => m.as_str(),
            AppError::Unauthorized(m) => m.as_str(),
            AppError::Conflict(m) => m.as_str(),
            AppError::NotFound(m) => m.as_str(),
            AppError::Internal(m) => m.as_str(),
        }
    }
}

/// Builds an error of the given kind from a message.
pub fn app_error(kind: ErrorKind, message: &str) -> (e: AppError)
    ensures
        e@ == (Failure { kind, message: message@ }),
{
    let m = message.to_owned();
    match kind {
        ErrorKind::Validation => AppError::Validation(m),
        ErrorKind::Unauthorized => AppError::Unauthorized(m),
        ErrorKind::Conflict => AppError::Conflict(m),
        ErrorKind::NotFound => AppError::NotFound(m),
        ErrorKind::Internal => AppError::Internal(m),
    }
}

} // verus!
