//! The single point where detailed internal failures are collapsed to
//! the outward status and message a client sees.
//!
//! Failures that must stay indistinguishable to a caller (an unknown
//! email versus a wrong password; an unreadable stored digest versus a
//! wrong password) are mapped to the same outward pair here, and tests
//! and internal logic keep asserting on the detailed kind.

use crate::custom_errors::account;
use crate::custom_errors::common;
use crate::custom_errors::repository;
use crate::custom_errors::repository::QueryError;
use vstd::prelude::*;

verus! {

/// A request that was refused, carrying the detailed failure of the
/// layer that refused it; `NotFound` stands for a request that matched
/// no route, `Other` for every malformed request.
#[derive(Clone, Copy, Debug, PartialEq, Eq, Structural)]
pub enum Rejection {
    Repository(repository::Error),
    Account(account::Error),
    Common(common::Error),
    NotFound,
    Other,
}

/// The outward pair for one rejection: an HTTP status code and a fixed
/// message that never carries the internal cause.
pub open spec fn outward_of(r: Rejection) -> (u16, Seq<char>) {
    match r {
        Rejection::Repository(repository::Error::DatabaseQueryError(q)) => match q {
            QueryError::DuplicateKey => (422u16, "Entry already exists"@),
            QueryError::RowNotFound => (404u16, "Entry not found"@),
            QueryError::ForeignKeyViolation => (422u16, "Cannot process data"@),
            QueryError::Other => (422u16, "Cannot process data"@),
        },
        Rejection::Account(account::Error::WrongCredentials) => (401u16, "invalid credentials"@),
        Rejection::Account(account::Error::ArgonLibraryError) => (401u16, "invalid credentials"@),
        Rejection::Account(account::Error::Unauthorized) => (
            401u16,
            "you are not authorised"@,
        ),
        Rejection::Account(account::Error::CannotDecryptToken) => (
            401u16,
            "you are not authorised"@,
        ),
        Rejection::NotFound => (404u16, "not found"@),
        _ => (400u16, "Wrong request"@),
    }
}

/// Maps a rejection to the one outward status and message for its
/// kind. The indistinguishable pairs — unknown email or wrong password,
/// and unreadable digest — all land on the same pair, and a refused
/// mutation surfaces the same way whether the resource was missing or
/// merely not owned (both arrive here as `Unauthorized`).
pub fn return_custom_error(r: &Rejection) -> (res: (u16, &'static str))
    ensures
        res.0 == outward_of(*r).0,
        res.1@ == outward_of(*r).1,
{
    match r {
        Rejection::Repository(repository::Error::DatabaseQueryError(q)) => match q {
            QueryError::DuplicateKey => (422, "Entry already exists"),
            QueryError::RowNotFound => (404, "Entry not found"),
            QueryError::ForeignKeyViolation => (422, "Cannot process data"),
            QueryError::Other => (422, "Cannot process data"),
        },
        Rejection::Account(account::Error::WrongCredentials) => (401, "invalid credentials"),
        Rejection::Account(account::Error::ArgonLibraryError) => (401, "invalid credentials"),
        Rejection::Account(account::Error::Unauthorized) => (401, "you are not authorised"),
        Rejection::Account(account::Error::CannotDecryptToken) => (401, "you are not authorised"),
        Rejection::Account(account::Error::CannotCreateToken) => (400, "Wrong request"),
        Rejection::Repository(repository::Error::MigrationError) => (400, "Wrong request"),
        Rejection::Common(_) => (400, "Wrong request"),
        Rejection::NotFound => (404, "not found"),
        Rejection::Other => (400, "Wrong request"),
    }
}

} // verus!
