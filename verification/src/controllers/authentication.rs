//! Registration, login and session authentication.
//!
//! Login failures are deliberately uniform: an unknown email and a
//! wrong password produce the identical result, so a caller cannot
//! probe which emails are registered. Any token failure surfaces as
//! one `Unauthorized` signal.

pub mod login;
pub mod registration;

use crate::custom_errors::account;
use crate::custom_errors::custom_error_recover::Rejection;
use crate::custom_errors::repository::Error;
use crate::custom_errors::repository::QueryError;
use crate::models::account::Account;
use crate::models::account::AccountId;
use crate::models::account::Session;
use crate::password::argon_verify_result;
use crate::password::hash_password;
use crate::password::verify_password;
use crate::repository::mock_repository::find_account;
use crate::repository::mock_repository::InMemoryRepository;
use crate::token::issue_token;
use crate::token::str_bytes;
use crate::token::token_session;
use crate::token::verify_token;
use crate::token::TOKEN_TTL_SECONDS;
use vstd::prelude::*;
use vstd::string::StringSliceAdditionalSpecFns;

verus! {

/// Why a login is refused, if it is: an unknown email and a password
/// mismatch collapse to the one `WrongCredentials` rejection; a stored
/// digest the hasher cannot read is kept distinct internally. `None`
/// means the credentials are good and a token is owed.
pub open spec fn login_failure(
    repository: InMemoryRepository,
    email: Seq<char>,
    password: Seq<u8>,
) -> Option<Rejection> {
    match find_account(repository.accounts(), email) {
        None => Some(Rejection::Account(account::Error::WrongCredentials)),
        Some(a) => match argon_verify_result(a.password@, password) {
            None => Some(Rejection::Account(account::Error::ArgonLibraryError)),
            Some(false) => Some(Rejection::Account(account::Error::WrongCredentials)),
            Some(true) => None,
        },
    }
}

/// Orchestrates account registration, login and request
/// authentication. Holds only the process-wide token key, fixed at
/// construction.
pub struct AuthenticationController {
    key: Vec<u8>,
}

impl AuthenticationController {
    /// The token-encryption key, never exposed outward.
    pub closed spec fn key_spec(self) -> Seq<u8> {
        self.key@
    }

    /// The controller carries a key of the one accepted width.
    pub open spec fn wf(self) -> bool {
        self.key_spec().len() == 32
    }

    /// A controller around the process-wide token key.
    pub fn new(key: Vec<u8>) -> (res: Self)
        requires
            key@.len() == 32,
        ensures
            res.wf(),
            res.key_spec() == key@,
    {
        AuthenticationController { key }
    }

    /// Registers an account: hashes the password, then stores email
    /// and digest. An email already present is a conflict and nothing
    /// is written; the plaintext password is never stored.
    pub fn register_account(
        &self,
        repository: &mut InMemoryRepository,
        account: Account,
    ) -> (r: Result<(), Rejection>)
        requires
            old(repository).wf(),
        ensures
            final(repository).wf(),
            str_bytes(account.password@).len() > 0xffff_ffff ==> r == Err::<(), Rejection>(
                Rejection::Account(account::Error::ArgonLibraryError),
            ) && *final(repository) == *old(repository),
            str_bytes(account.password@).len() <= 0xffff_ffff && find_account(
                old(repository).accounts(),
                account.email@,
            ) is Some ==> r == Err::<(), Rejection>(
                Rejection::Repository(Error::DatabaseQueryError(QueryError::DuplicateKey)),
            ) && *final(repository) == *old(repository),
            str_bytes(account.password@).len() <= 0xffff_ffff && find_account(
                old(repository).accounts(),
                account.email@,
            ) is None && old(repository).accounts().len() >= 0x7fff_fffe ==> r == Err::<
                (),
                Rejection,
            >(Rejection::Repository(Error::DatabaseQueryError(QueryError::Other))) && *final(repository) == *old(repository),
            str_bytes(account.password@).len() <= 0xffff_ffff && find_account(
                old(repository).accounts(),
                account.email@,
            ) is None && old(repository).accounts().len() < 0x7fff_fffe ==> r == Ok::<
                (),
                Rejection,
            >(()) && (exists|d: String|
                #[trigger] argon_verify_result(d@, str_bytes(account.password@)) == Some(true)
                    && final(repository).accounts() == old(repository).accounts().push(
                    (Account {
                        id: Some(AccountId((old(repository).accounts().len() + 1) as i32)),
                        email: account.email,
                        password: d,
                    }),
                )) && final(repository).questions() == old(repository).questions() && final(repository).answers() == old(repository).answers() && final(repository).next_question_id_spec()
                == old(repository).next_question_id_spec() && final(repository).next_answer_id_spec() == old(repository).next_answer_id_spec(),
    {
        let password_bytes = account.password.as_str().as_bytes();
        if password_bytes.len() > 0xffff_ffff {
            return Err(Rejection::Account(account::Error::ArgonLibraryError));
        }
        let digest = match hash_password(password_bytes) {
            Ok(d) => d,
            Err(e) => {
                return Err(Rejection::Account(e));
            },
        };
        let stored = Account { id: account.id, email: account.email, password: digest };
        match repository.add_account(stored) {
            Ok(_) => Ok(()),
            Err(e) => Err(Rejection::Repository(e)),
        }
    }

    /// Logs an account in: fetches it by email, verifies the password
    /// against the stored digest, and on success issues a token whose
    /// session names this account and is valid from `now` for the
    /// fixed lifetime. An unknown email and a wrong password yield the
    /// identical `WrongCredentials` result; an unreadable stored
    /// digest is kept distinct internally.
    pub fn login(&self, repository: &InMemoryRepository, login: Account, now: i64) -> (r: Result<
        String,
        Rejection,
    >)
        requires
            self.wf(),
            repository.wf(),
            0 <= now <= i64::MAX - TOKEN_TTL_SECONDS,
        ensures
            match login_failure(*repository, login.email@, str_bytes(login.password@)) {
                Some(e) => r == Err::<String, Rejection>(e),
                None => find_account(repository.accounts(), login.email@) matches Some(a)
                    && a.id matches Some(aid) && match r {
                    Ok(t) => token_session(str_bytes(t@), self.key_spec()) == Some(
                        Session {
                            exp: (now + TOKEN_TTL_SECONDS) as i64,
                            account_id: aid,
                            nbf: now,
                        },
                    ),
                    Err(e) => e == Rejection::Account(account::Error::CannotCreateToken),
                },
            },
    {
        let found = match repository.get_account(login.email.as_str()) {
            Ok(a) => a,
            Err(_) => {
                return Err(Rejection::Account(account::Error::WrongCredentials));
            },
        };
        let verified = match verify_password(found.password.as_str(), login.password.as_str().as_bytes()) {
            Ok(v) => v,
            Err(e) => {
                return Err(Rejection::Account(e));
            },
        };
        if !verified {
            return Err(Rejection::Account(account::Error::WrongCredentials));
        }
        proof {
            let accs = repository.accounts();
            let pos = crate::repository::mock_repository::account_pos(accs, login.email@);
            crate::repository::mock_repository::lemma_account_pos_nonneg(accs, login.email@);
            assert(accs[pos].id == Some(AccountId((pos + 1) as i32)));
        }
        let account_id = match found.id {
            Some(aid) => aid,
            None => {
                return Err(Rejection::Account(account::Error::WrongCredentials));
            },
        };
        match issue_token(&self.key, account_id, now) {
            Ok(t) => Ok(t),
            Err(_) => Err(Rejection::Account(account::Error::CannotCreateToken)),
        }
    }

    /// Authenticates one request: decodes the bearer token and checks
    /// its validity window against `now`. Every failure — bad
    /// ciphertext, malformed claims, outside the window — collapses to
    /// the single `Unauthorized` signal.
    pub fn auth(&self, token: &str, now: i64) -> (r: Result<Session, account::Error>)
        requires
            self.wf(),
        ensures
            match token_session(token.spec_bytes(), self.key_spec()) {
                Some(s) => if s.nbf <= now && now <= s.exp {
                    r == Ok::<Session, account::Error>(s)
                } else {
                    r == Err::<Session, account::Error>(account::Error::Unauthorized)
                },
                None => r == Err::<Session, account::Error>(account::Error::Unauthorized),
            },
    {
        match verify_token(&self.key, token, now) {
            Ok(s) => Ok(s),
            Err(_) => Err(account::Error::Unauthorized),
        }
    }
}

/// Law: registering a fresh email and then logging in with the same
/// pair succeeds. After the state change `register_account` promises,
/// lookup by that email finds exactly the new account, the stored
/// digest verifies against the registered password — so `login` owes a
/// token — and the account carries the id the store assigned, which is
/// the id any such token names.
pub proof fn lemma_register_then_login(
    before: InMemoryRepository,
    after: InMemoryRepository,
    account: Account,
    digest: String,
)
    requires
        before.wf(),
        find_account(before.accounts(), account.email@) is None,
        before.accounts().len() < 0x7fff_fffe,
        argon_verify_result(digest@, str_bytes(account.password@)) == Some(true),
        after.accounts() == before.accounts().push(
            (Account {
                id: Some(AccountId((before.accounts().len() + 1) as i32)),
                email: account.email,
                password: digest,
            }),
        ),
    ensures
        login_failure(after, account.email@, str_bytes(account.password@)) is None,
        find_account(after.accounts(), account.email@) matches Some(a) && a.id == Some(
            AccountId((before.accounts().len() + 1) as i32),
        ),
{
    let stored = Account {
        id: Some(AccountId((before.accounts().len() + 1) as i32)),
        email: account.email,
        password: digest,
    };
    crate::repository::mock_repository::lemma_find_account_after_push(
        before.accounts(),
        stored,
    );
}

/// Law: a login refused because the email is unknown and a login
/// refused because the password mismatches produce the very same
/// rejection, and that rejection maps outward to the one fixed
/// wrong-credentials status and message — the two failures cannot be
/// told apart.
pub proof fn lemma_wrong_credentials_indistinguishable(
    repository: InMemoryRepository,
    unknown_email: Seq<char>,
    unknown_password: Seq<u8>,
    known_email: Seq<char>,
    wrong_password: Seq<u8>,
)
    requires
        find_account(repository.accounts(), unknown_email) is None,
        find_account(repository.accounts(), known_email) matches Some(a) && argon_verify_result(
            a.password@,
            wrong_password,
        ) == Some(false),
    ensures
        login_failure(repository, unknown_email, unknown_password) == login_failure(
            repository,
            known_email,
            wrong_password,
        ),
        login_failure(repository, unknown_email, unknown_password) == Some(
            Rejection::Account(account::Error::WrongCredentials),
        ),
        crate::custom_errors::custom_error_recover::outward_of(
            Rejection::Account(account::Error::WrongCredentials),
        ) == (401u16, "invalid credentials"@),
{
}

} // verus!
