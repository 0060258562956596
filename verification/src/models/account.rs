//! Identity records and the session value decoded from a bearer token.

use vstd::prelude::*;

verus! {

/// An identity record. `id` is assigned by the store on creation and is
/// `None` only on the way in (registration and login requests carry an
/// account without an id). `password` holds the encoded digest once the
/// account is stored; it holds a plaintext candidate only inside an
/// inbound request value, and that plaintext is never persisted.
#[derive(Debug)]
pub struct Account {
    pub id: Option<AccountId>,
    pub email: String,
    pub password: String,
}

impl Clone for Account {
    fn clone(&self) -> (res: Self)
        ensures
            res == *self,
    {
        Account { id: self.id, email: self.email.clone(), password: self.password.clone() }
    }
}

/// Store-assigned account identifier.
#[derive(Clone, Copy, Debug, PartialEq, Eq, Structural)]
pub struct AccountId(pub i32);

/// Evidence of identity for the duration of one request: the
/// authenticated principal and the validity window of the token it was
/// decoded from. Instants are seconds of the Unix epoch. A session is
/// never persisted; it exists only between decoding a token and
/// finishing the request.
#[derive(Clone, Copy, Debug, PartialEq, Eq, Structural)]
pub struct Session {
    pub exp: i64,
    pub account_id: AccountId,
    pub nbf: i64,
}

} // verus!
