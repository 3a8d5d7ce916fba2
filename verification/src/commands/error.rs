//! The errors that the user interface is shown. They never carry the cause of a failed operation.
use vstd::prelude::*;

verus! {

/// What the user interface is told of a failed operation.
pub const SYNC_OPERATION_FAILED: &'static str = "Sync operation failed; see the application log";

/// What the user interface is told of input that is refused.
pub const INVALID_SYNC_INPUT: &'static str = "Invalid sync input";

/// An error as the user interface is shown it.
#[derive(Debug, PartialEq, Eq)]
pub struct Error(pub String);

/// The result of a command.
pub type Result<T> = std::result::Result<T, Error>;

/// Whether an error shows a message.
pub open spec fn shows(e: Error, message: Seq<char>) -> bool {
    e.0@ == message
}

/// An error with a fixed message.
pub fn stable_sync_error(message: &str) -> (e: Error)
    ensures
        shows(e, message@),
{
    Error(message.to_owned())
}

/// The error of a failed operation: whatever the cause, the same message is shown.
pub fn sync_core_error(_cause: &str) -> (e: Error)
    ensures
        shows(e, SYNC_OPERATION_FAILED@),
{
    stable_sync_error(SYNC_OPERATION_FAILED)
}

} // verus!
