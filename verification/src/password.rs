//! Password hashing and verification.
//!
//! Hashing salts every call with 32 fresh random bytes and produces a
//! self-describing encoded digest (algorithm parameters and salt are
//! embedded), so verification needs no side-channel lookup. What the
//! verifier answers for a given digest and candidate is named by
//! [`argon_verify_result`]; the one fact stated about a fresh digest is
//! that verification accepts it with the password it was made from.

use crate::custom_errors::account::Error;
use vstd::prelude::*;

verus! {

/// What argon2's encoded-digest verification returns for this digest
/// and password: `None` when the digest cannot be read at all,
/// `Some(b)` when it can, with `b` telling whether the password
/// matches. The result depends on the two arguments alone.
pub uninterp spec fn argon_verify_result(digest: Seq<char>, password: Seq<u8>) -> Option<bool>;

/// Relies on rand's thread-local generator for 32 fresh bytes; nothing
/// is assumed about their values.
#[verifier::external_body]
fn random_salt() -> (r: Vec<u8>)
    ensures
        r@.len() == 32,
{
    let mut rng = rand::rng();
    let salt: [u8; 32] = rand::RngExt::random(&mut rng);
    salt.to_vec()
}

/// Relies on argon2::hash_encoded (crate rust-argon2): with the
/// default configuration, a 32-byte salt and a password of at most
/// 2^32 - 1 bytes every parameter check in `Context::new` passes, so
/// it returns an encoded digest string; argon2::verify_encoded decodes
/// exactly what `encode_string` embedded (salt and parameters),
/// recomputes the hash, and so accepts that digest with the same
/// password.
#[verifier::external_body]
fn hash_encoded_digest(password: &[u8], salt: &Vec<u8>) -> (r: Result<String, Error>)
    requires
        salt@.len() == 32,
        password@.len() <= 0xffff_ffff,
    ensures
        r is Ok,
        r matches Ok(d) ==> argon_verify_result(d@, password@) == Some(true),
{
    match argon2::hash_encoded(password, salt.as_slice(), &argon2::Config::default()) {
        Ok(d) => Ok(d),
        Err(_) => Err(Error::ArgonLibraryError),
    }
}

/// Relies on argon2::verify_encoded (crate rust-argon2): decodes the
/// digest, recomputes the hash with the embedded salt and parameters,
/// and compares in constant time; a digest it cannot decode is an
/// error distinct from a mismatch. The result is a function of the
/// digest and password alone, named by [`argon_verify_result`].
#[verifier::external_body]
fn verify_encoded_digest(digest: &str, password: &[u8]) -> (r: Result<bool, Error>)
    ensures
        r == (match argon_verify_result(digest@, password@) {
            Some(b) => Ok::<bool, Error>(b),
            None => Err::<bool, Error>(Error::ArgonLibraryError),
        }),
{
    match argon2::verify_encoded(digest, password) {
        Ok(b) => Ok(b),
        Err(_) => Err(Error::ArgonLibraryError),
    }
}

/// Hashes a plaintext password under a fresh random salt into a
/// self-describing digest. The digest is guaranteed to verify against
/// the same password; nothing else is stated about it, and the salt is
/// never reused or derived from the input.
pub fn hash_password(password: &[u8]) -> (r: Result<String, Error>)
    requires
        password@.len() <= 0xffff_ffff,
    ensures
        r is Ok,
        r matches Ok(d) ==> argon_verify_result(d@, password@) == Some(true),
{
    let salt = random_salt();
    hash_encoded_digest(password, &salt)
}

/// Verifies a plaintext candidate against a stored digest. A digest
/// that cannot be read is a hard error, kept distinct from "password
/// incorrect" for the caller to collapse at the boundary.
pub fn verify_password(digest: &str, password: &[u8]) -> (r: Result<bool, Error>)
    ensures
        r == (match argon_verify_result(digest@, password@) {
            Some(b) => Ok::<bool, Error>(b),
            None => Err::<bool, Error>(Error::ArgonLibraryError),
        }),
{
    verify_encoded_digest(digest, password)
}

} // verus!
