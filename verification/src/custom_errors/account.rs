//! Failures of authentication: wrong credentials, a digest the hasher
//! cannot read, and token failures.

use vstd::prelude::*;

verus! {

/// Detailed authentication failure. `WrongCredentials` deliberately
/// covers both an unknown email and a password mismatch, so that the
/// two are indistinguishable to a caller. `ArgonLibraryError` means the
/// stored digest was malformed: internally distinct from a wrong
/// password, outwardly collapsed to the same signal.
#[derive(Clone, Copy, Debug, PartialEq, Eq, Structural)]
pub enum Error {
    WrongCredentials,
    ArgonLibraryError,
    CannotDecryptToken,
    CannotCreateToken,
    Unauthorized,
}

impl Error {
    /// Internal diagnostic text for this failure; never part of the
    /// outward response.
    pub fn message(&self) -> (res: &'static str)
        ensures
            *self is ArgonLibraryError ==> res@ == "Can't verify password"@,
            *self is WrongCredentials ==> res@ == "Wrong Credentials"@,
            *self is CannotDecryptToken ==> res@ == "Not possible to decrypt informed token"@,
            *self is CannotCreateToken ==> res@ == "Not possible to create a token"@,
            *self is Unauthorized ==> res@ == "you are not authorized to use this resource"@,
    {
        match self {
            Error::ArgonLibraryError => "Can't verify password",
            Error::WrongCredentials => "Wrong Credentials",
            Error::CannotDecryptToken => "Not possible to decrypt informed token",
            Error::CannotCreateToken => "Not possible to create a token",
            Error::Unauthorized => "you are not authorized to use this resource",
        }
    }
}

} // verus!
