//! Registration as a stand-alone controller over the plain store
//! surface: hash the password, persist email and digest.

use crate::custom_errors::account;
use crate::custom_errors::custom_error_recover::Rejection;
use crate::custom_errors::repository::Error;
use crate::custom_errors::repository::QueryError;
use crate::models::account::Account;
use crate::models::account::AccountId;
use crate::password::argon_verify_result;
use crate::password::hash_password;
use crate::repository::mock_repository::find_account;
use crate::repository::mock_repository::InMemoryRepository;
use crate::token::str_bytes;
use vstd::prelude::*;

verus! {

/// Registers accounts; it holds no state of its own.
pub struct RegistrationController {}

impl RegistrationController {
    /// A registration controller.
    pub fn new() -> (res: Self) {
        RegistrationController {  }
    }

    /// Registers an account: hashes the password under a fresh salt,
    /// then stores email and digest. An email already present is a
    /// conflict and nothing is written; the plaintext password is
    /// never stored.
    pub fn register_account(
        &self,
        repository: &mut InMemoryRepository,
        account: &Account,
    ) -> (r: Result<(), Rejection>)
        requires
            old(repository).wf(),
        ensures
            final(repository).wf(),
            str_bytes(account.password@).len() > 0xffff_ffff ==> r == Err::<(), Rejection>(
                Rejection::Account(account::Error::ArgonLibraryError),
            ) && *final(repository) == *old(repository),
            str_bytes(account.password@).len() <= 0xffff_ffff && find_account(
                old(repository).accounts(),
                account.email@,
            ) is Some ==> r == Err::<(), Rejection>(
                Rejection::Repository(Error::DatabaseQueryError(QueryError::DuplicateKey)),
            ) && *final(repository) == *old(repository),
            str_bytes(account.password@).len() <= 0xffff_ffff && find_account(
                old(repository).accounts(),
                account.email@,
            ) is None && old(repository).accounts().len() >= 0x7fff_fffe ==> r == Err::<
                (),
                Rejection,
            >(Rejection::Repository(Error::DatabaseQueryError(QueryError::Other))) && *final(repository) == *old(repository),
            str_bytes(account.password@).len() <= 0xffff_ffff && find_account(
                old(repository).accounts(),
                account.email@,
            ) is None && old(repository).accounts().len() < 0x7fff_fffe ==> r == Ok::<
                (),
                Rejection,
            >(()) && (exists|d: String|
                #[trigger] argon_verify_result(d@, str_bytes(account.password@)) == Some(true)
                    && final(repository).accounts() == old(repository).accounts().push(
                    (Account {
                        id: Some(AccountId((old(repository).accounts().len() + 1) as i32)),
                        email: account.email,
                        password: d,
                    }),
                )) && final(repository).questions() == old(repository).questions() && final(repository).answers() == old(repository).answers() && final(repository).next_question_id_spec()
                == old(repository).next_question_id_spec() && final(repository).next_answer_id_spec() == old(repository).next_answer_id_spec(),
    {
        let password_bytes = account.password.as_str().as_bytes();
        if password_bytes.len() > 0xffff_ffff {
            return Err(Rejection::Account(account::Error::ArgonLibraryError));
        }
        let digest = match hash_password(password_bytes) {
            Ok(d) => d,
            Err(e) => {
                return Err(Rejection::Account(e));
            },
        };
        let stored = Account {
            id: account.id,
            email: account.email.clone(),
            password: digest,
        };
        match repository.add_account(stored) {
            Ok(_) => Ok(()),
            Err(e) => Err(Rejection::Repository(e)),
        }
    }
}

} // verus!
