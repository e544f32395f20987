//! The failures that the engines report.

use vstd::prelude::*;

verus! {

/// Why an operation on the version tree did not succeed.
#[derive(Debug, Clone, Copy, PartialEq, Eq, Structural)]
pub enum ErrorKind {
    /// No record file at the place where one was expected.
    NotFound,
    /// A record file is there, but its content is no record.
    Malformed,
    /// The parent already lists a child of that name.
    DuplicateName,
    /// A directory or a file could not be created or written.
    IOFailure,
    /// The parent's record could not be saved again after the child was made.
    /// `rollback_failed` says that the removal of the new child directory
    /// failed as well, so that both failures reach the caller.
    PersistFailure { rollback_failed: bool },
    /// The requested name is not among the children.
    UnknownVersion,
    /// The choice is no number, or not the number of a listed child.
    InvalidSelection,
}

} // verus!
