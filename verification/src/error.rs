//! The library's error type.
use vstd::prelude::*;

verus! {

/// What can go wrong in the library.
#[derive(Debug)]
pub enum Error {
    /// A value does not have the required form.
    FormatError(String),
    /// The state of a task or of the application does not allow the operation.
    InconsistentTask(String),
    /// A database operation failed.
    DbError(String),
    /// A file operation failed.
    Io(String),
    /// A background task failed.
    Tokio(String),
    /// A stored or received text is not JSON.
    Json(String),
}

/// The result type of the library.
pub type Result<T> = std::result::Result<T, Error>;

/// Whether an error is a format error with the given message.
pub open spec fn is_format_error(e: Error, message: Seq<char>) -> bool {
    e matches Error::FormatError(m) && m@ == message
}

/// Whether an error is an inconsistency with the given message.
pub open spec fn is_inconsistent(e: Error, message: Seq<char>) -> bool {
    e matches Error::InconsistentTask(m) && m@ == message
}

/// A format error with the given message.
pub fn format_error(message: &str) -> (e: Error)
    ensures
        is_format_error(e, message@),
{
    Error::FormatError(message.to_owned())
}

/// An inconsistency with the given message.
pub fn inconsistent(message: &str) -> (e: Error)
    ensures
        is_inconsistent(e, message@),
{
    Error::InconsistentTask(message.to_owned())
}

/// The message that an error carries.
pub open spec fn error_message(e: Error) -> Seq<char> {
    match e {
        Error::FormatError(m) => m@,
        Error::InconsistentTask(m) => m@,
        Error::DbError(m) => m@,
        Error::Io(m) => m@,
        Error::Tokio(m) => m@,
        Error::Json(m) => m@,
    }
}

impl Error {
    /// The message that the error carries.
    pub fn message(&self) -> (r: String)
        ensures
            r@ == error_message(*self),
    {
        match self {
            Error::FormatError(m) => m.clone(),
            Error::InconsistentTask(m) => m.clone(),
            Error::DbError(m) => m.clone(),
            Error::Io(m) => m.clone(),
            Error::Tokio(m) => m.clone(),
            Error::Json(m) => m.clone(),
        }
    }
}

} // verus!
