use qa_api::custom_errors::account;
use qa_api::custom_errors::common;
use qa_api::custom_errors::custom_error_recover::return_custom_error;
use qa_api::custom_errors::custom_error_recover::Rejection;
use qa_api::custom_errors::repository::Error;
use qa_api::custom_errors::repository::QueryError;

#[test]
fn duplicate_key_maps_to_unprocessable_entry_exists() {
    let r = Rejection::Repository(Error::DatabaseQueryError(QueryError::DuplicateKey));
    assert_eq!(return_custom_error(&r), (422, "Entry already exists"));
}

#[test]
fn row_not_found_maps_to_not_found() {
    let r = Rejection::Repository(Error::DatabaseQueryError(QueryError::RowNotFound));
    assert_eq!(return_custom_error(&r), (404, "Entry not found"));
}

#[test]
fn other_store_failures_map_to_unprocessable() {
    let fk = Rejection::Repository(Error::DatabaseQueryError(QueryError::ForeignKeyViolation));
    let other = Rejection::Repository(Error::DatabaseQueryError(QueryError::Other));
    assert_eq!(return_custom_error(&fk), (422, "Cannot process data"));
    assert_eq!(return_custom_error(&other), (422, "Cannot process data"));
}

#[test]
fn credential_failures_collapse_to_one_outward_pair() {
    let wrong = Rejection::Account(account::Error::WrongCredentials);
    let unreadable_digest = Rejection::Account(account::Error::ArgonLibraryError);
    assert_eq!(return_custom_error(&wrong), (401, "invalid credentials"));
    assert_eq!(return_custom_error(&wrong), return_custom_error(&unreadable_digest));
}

#[test]
fn authorization_failures_map_to_unauthorized() {
    let unauthorized = Rejection::Account(account::Error::Unauthorized);
    let bad_token = Rejection::Account(account::Error::CannotDecryptToken);
    assert_eq!(return_custom_error(&unauthorized), (401, "you are not authorised"));
    assert_eq!(return_custom_error(&bad_token), (401, "you are not authorised"));
}

#[test]
fn remaining_rejections_map_to_generic_statuses() {
    assert_eq!(return_custom_error(&Rejection::NotFound), (404, "not found"));
    assert_eq!(return_custom_error(&Rejection::Other), (400, "Wrong request"));
    assert_eq!(
        return_custom_error(&Rejection::Common(common::Error::MissingParameters)),
        (400, "Wrong request")
    );
    assert_eq!(
        return_custom_error(&Rejection::Common(common::Error::ParseError)),
        (400, "Wrong request")
    );
    assert_eq!(
        return_custom_error(&Rejection::Repository(Error::MigrationError)),
        (400, "Wrong request")
    );
    assert_eq!(
        return_custom_error(&Rejection::Account(account::Error::CannotCreateToken)),
        (400, "Wrong request")
    );
}

#[test]
fn diagnostic_messages_name_each_failure() {
    assert_eq!(account::Error::WrongCredentials.message(), "Wrong Credentials");
    assert_eq!(account::Error::ArgonLibraryError.message(), "Can't verify password");
    assert_eq!(
        account::Error::CannotDecryptToken.message(),
        "Not possible to decrypt informed token"
    );
    assert_eq!(
        account::Error::Unauthorized.message(),
        "you are not authorized to use this resource"
    );
    assert_eq!(common::Error::MissingParameters.message(), "missing parameter on query string");
    assert_eq!(common::Error::ParseError.message(), "Cannot parse parameter");
    assert_eq!(
        Error::DatabaseQueryError(QueryError::Other).message(),
        "Database query error"
    );
    assert_eq!(Error::MigrationError.message(), "Database migration error");
}
