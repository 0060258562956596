//! Failures of request-parameter validation.

use vstd::prelude::*;

verus! {

/// Pagination-parameter failure: the pair was incomplete, or a value
/// did not parse as a number.
#[derive(Clone, Copy, Debug, PartialEq, Eq, Structural)]
pub enum Error {
    MissingParameters,
    ParseError,
}

impl Error {
    /// Internal diagnostic text for this failure.
    pub fn message(&self) -> (res: &'static str)
        ensures
            *self is MissingParameters ==> res@ == "missing parameter on query string"@,
            *self is ParseError ==> res@ == "Cannot parse parameter"@,
    {
        match self {
            Error::MissingParameters => "missing parameter on query string",
            Error::ParseError => "Cannot parse parameter",
        }
    }
}

} // verus!
