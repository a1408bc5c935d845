//! The failures that a directory operation can report.

use vstd::prelude::*;

verus! {

/// Why a directory operation did not succeed.
#[derive(Clone, Copy, Debug, PartialEq, Eq, Structural)]
pub enum DirectoryError {
    /// The referenced id is absent.
    NotFound,
    /// A uniqueness or foreign-key rule would be broken.
    ConstraintViolation,
    /// The role name is not one of the known roles.
    InvalidRole,
    /// The storage could not be reached.
    ConnectionFailure,
    /// The storage rejected the statement or failed unexpectedly.
    QueryFailure,
}

impl DirectoryError {
    /// Whether the caller may repeat the same request unchanged and hope
    /// for another outcome: only an unreachable storage is of that kind.
    pub fn is_retryable(&self) -> (r: bool)
        ensures
            r == (*self == DirectoryError::ConnectionFailure),
    {
        match self {
            DirectoryError::ConnectionFailure => true,
            _ => false,
        }
    }
}

} // verus!
