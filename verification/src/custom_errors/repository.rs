//! Failures of the persistence layer, as plain kinds.
//!
//! A relational store reports failures through its driver's error type;
//! the only distinctions this core ever reads from it are the ones
//! below, so the repository surfaces exactly these.

use vstd::prelude::*;

verus! {

/// What a failed store operation reports.
#[derive(Clone, Copy, Debug, PartialEq, Eq, Structural)]
pub enum Error {
    DatabaseQueryError(QueryError),
    MigrationError,
}

/// The kinds of query failure the service distinguishes: a unique-key
/// conflict (duplicate email), a missing parent row, a lookup that
/// found no row, and every other store failure.
#[derive(Clone, Copy, Debug, PartialEq, Eq, Structural)]
pub enum QueryError {
    DuplicateKey,
    ForeignKeyViolation,
    RowNotFound,
    Other,
}

impl Error {
    /// Internal diagnostic text for this failure.
    pub fn message(&self) -> (res: &'static str)
        ensures
            *self is DatabaseQueryError ==> res@ == "Database query error"@,
            *self is MigrationError ==> res@ == "Database migration error"@,
    {
        match self {
            Error::DatabaseQueryError(_) => "Database query error",
            Error::MigrationError => "Database migration error",
        }
    }
}

} // verus!
