use qa_api::controllers::authentication::login::login;
use qa_api::controllers::authentication::registration::RegistrationController;
use qa_api::controllers::authentication::AuthenticationController;
use qa_api::custom_errors::account;
use qa_api::custom_errors::custom_error_recover::Rejection;
use qa_api::custom_errors::repository::Error;
use qa_api::custom_errors::repository::QueryError;
use qa_api::models::account::Account;
use qa_api::models::account::AccountId;
use qa_api::repository::mock_repository::InMemoryRepository;

fn account(email: &str, password: &str) -> Account {
    Account { id: None, email: email.to_string(), password: password.to_string() }
}

fn controller() -> AuthenticationController {
    AuthenticationController::new(vec![7u8; 32])
}

#[test]
fn register_then_login_yields_token_for_the_account() {
    let mut repo = InMemoryRepository::new();
    let auth = controller();
    let now = 1_700_000_000;
    assert!(auth.register_account(&mut repo, account("a@x.com", "p1")).is_ok());
    let token = auth.login(&repo, account("a@x.com", "p1"), now).expect("login should succeed");
    let session = auth.auth(token.as_str(), now).expect("token should authenticate");
    assert_eq!(session.account_id, AccountId(1));
    assert_eq!(session.nbf, now);
    assert_eq!(session.exp, now + 86400);
}

#[test]
fn second_account_gets_the_next_id() {
    let mut repo = InMemoryRepository::new();
    let auth = controller();
    let now = 1_700_000_000;
    auth.register_account(&mut repo, account("a@x.com", "p1")).unwrap();
    auth.register_account(&mut repo, account("b@x.com", "p2")).unwrap();
    let token = auth.login(&repo, account("b@x.com", "p2"), now).unwrap();
    let session = auth.auth(token.as_str(), now).unwrap();
    assert_eq!(session.account_id, AccountId(2));
}

#[test]
fn duplicate_email_is_a_conflict_and_writes_nothing() {
    let mut repo = InMemoryRepository::new();
    let auth = controller();
    let now = 1_700_000_000;
    auth.register_account(&mut repo, account("a@x.com", "p1")).unwrap();
    let second = auth.register_account(&mut repo, account("a@x.com", "other"));
    assert_eq!(
        second,
        Err(Rejection::Repository(Error::DatabaseQueryError(QueryError::DuplicateKey)))
    );
    // The original registration is untouched: its password still logs in,
    // and the would-be second password does not.
    assert!(auth.login(&repo, account("a@x.com", "p1"), now).is_ok());
    assert!(auth.login(&repo, account("a@x.com", "other"), now).is_err());
}

#[test]
fn wrong_password_and_unknown_email_are_indistinguishable() {
    let mut repo = InMemoryRepository::new();
    let auth = controller();
    let now = 1_700_000_000;
    auth.register_account(&mut repo, account("a@x.com", "p1")).unwrap();
    let wrong_password = auth.login(&repo, account("a@x.com", "p2"), now).unwrap_err();
    let unknown_email = auth.login(&repo, account("nobody@x.com", "p1"), now).unwrap_err();
    assert_eq!(wrong_password, unknown_email);
    assert_eq!(wrong_password, Rejection::Account(account::Error::WrongCredentials));
}

#[test]
fn token_outside_its_window_is_unauthorized() {
    let mut repo = InMemoryRepository::new();
    let auth = controller();
    let now = 1_700_000_000;
    auth.register_account(&mut repo, account("a@x.com", "p1")).unwrap();
    let token = auth.login(&repo, account("a@x.com", "p1"), now).unwrap();
    assert!(auth.auth(token.as_str(), now).is_ok());
    assert!(auth.auth(token.as_str(), now + 86400).is_ok());
    assert_eq!(
        auth.auth(token.as_str(), now - 1),
        Err(account::Error::Unauthorized)
    );
    assert_eq!(
        auth.auth(token.as_str(), now + 86401),
        Err(account::Error::Unauthorized)
    );
}

#[test]
fn tampered_token_is_unauthorized() {
    let mut repo = InMemoryRepository::new();
    let auth = controller();
    let now = 1_700_000_000;
    auth.register_account(&mut repo, account("a@x.com", "p1")).unwrap();
    let token = auth.login(&repo, account("a@x.com", "p1"), now).unwrap();
    let mut bytes = token.into_bytes();
    // Flip one payload character, well past the "v2.local." header.
    let i = 20;
    bytes[i] = if bytes[i] == b'A' { b'B' } else { b'A' };
    let tampered = String::from_utf8(bytes).unwrap();
    assert_eq!(auth.auth(tampered.as_str(), now), Err(account::Error::Unauthorized));
}

#[test]
fn garbage_tokens_are_unauthorized() {
    let auth = controller();
    let now = 1_700_000_000;
    assert_eq!(auth.auth("", now), Err(account::Error::Unauthorized));
    assert_eq!(auth.auth("v2.local.short", now), Err(account::Error::Unauthorized));
    assert_eq!(
        auth.auth("v1.local.AAAAAAAAAAAAAAAAAAAAAAAAAAAAAAAAAAAAAAAAAAAA", now),
        Err(account::Error::Unauthorized)
    );
    assert_eq!(
        auth.auth("not a token at all, nowhere near one, not even close!", now),
        Err(account::Error::Unauthorized)
    );
}

#[test]
fn wrong_key_rejects_tokens_of_another_process() {
    let mut repo = InMemoryRepository::new();
    let auth_one = AuthenticationController::new(vec![7u8; 32]);
    let auth_two = AuthenticationController::new(vec![8u8; 32]);
    let now = 1_700_000_000;
    auth_one.register_account(&mut repo, account("a@x.com", "p1")).unwrap();
    let token = auth_one.login(&repo, account("a@x.com", "p1"), now).unwrap();
    assert_eq!(auth_two.auth(token.as_str(), now), Err(account::Error::Unauthorized));
}

#[test]
fn registration_controller_registers_and_conflicts() {
    let mut repo = InMemoryRepository::new();
    let reg = RegistrationController::new();
    let auth = controller();
    let now = 1_700_000_000;
    assert!(reg.register_account(&mut repo, &account("a@x.com", "p1")).is_ok());
    assert_eq!(
        reg.register_account(&mut repo, &account("a@x.com", "p1")),
        Err(Rejection::Repository(Error::DatabaseQueryError(QueryError::DuplicateKey)))
    );
    assert!(auth.login(&repo, account("a@x.com", "p1"), now).is_ok());
}

#[test]
fn fixed_credential_login_accepts_only_admin() {
    assert_eq!(login(&account("admin", "password")), Ok("you're logged"));
    assert_eq!(
        login(&account("admin", "wrong")),
        Err(account::Error::WrongCredentials)
    );
    assert_eq!(
        login(&account("user", "password")),
        Err(account::Error::WrongCredentials)
    );
}
