//! The failure taxonomy of the library.

use vstd::prelude::*;

verus! {

/// Everything an operation of this library can fail with.
///
/// `NotFoundError` is the one condition callers are expected to branch on
/// routinely; the other two are unrecoverable for the current operation and
/// propagate up unchanged.
#[derive(Debug)]
pub enum Error {
    /// A strict `first` matched zero rows.
    NotFoundError,
    /// The underlying store reported a failure; the payload carries its
    /// message text.
    MySQLError(String),
    /// A row map is missing a column the mapper expects; the payload names
    /// the missing column.
    ShapeMismatchError(String),
}

impl Error {
    /// The error that a strict `first` reports for zero rows.
    pub fn not_found() -> (e: Error)
        ensures
            e is NotFoundError,
    {
        Error::NotFoundError
    }

    /// Whether this is the routine zero-rows condition.
    pub fn is_not_found(&self) -> (r: bool)
        ensures
            r == (*self is NotFoundError),
    {
        match self {
            Error::NotFoundError => true,
            _ => false,
        }
    }
}

} // verus!
