use qa_api::custom_errors::repository::Error;
use qa_api::custom_errors::repository::QueryError;
use qa_api::models::account::Account;
use qa_api::models::account::AccountId;
use qa_api::models::answer::AnswerDTO;
use qa_api::models::question::QuestionDTO;
use qa_api::models::question::QuestionId;
use qa_api::repository::mock_repository::InMemoryRepository;

fn q(title: &str) -> QuestionDTO {
    QuestionDTO { title: title.to_string(), content: "c".to_string(), tags: None }
}

#[test]
fn accounts_get_one_based_ids_and_lookups_find_them() {
    let mut repo = InMemoryRepository::new();
    let added = repo.add_account(Account {
        id: None,
        email: "a@x.com".to_string(),
        password: "digest-a".to_string(),
    });
    assert_eq!(added, Ok(true));
    let found = repo.get_account("a@x.com").unwrap();
    assert_eq!(found.id, Some(AccountId(1)));
    assert_eq!(found.email, "a@x.com");
    assert_eq!(found.password, "digest-a");
    assert_eq!(
        repo.get_account("b@x.com").unwrap_err(),
        Error::DatabaseQueryError(QueryError::RowNotFound)
    );
}

#[test]
fn duplicate_email_is_a_duplicate_key_error() {
    let mut repo = InMemoryRepository::new();
    let first = Account { id: None, email: "a@x.com".to_string(), password: "d1".to_string() };
    let second = Account { id: None, email: "a@x.com".to_string(), password: "d2".to_string() };
    repo.add_account(first).unwrap();
    assert_eq!(
        repo.add_account(second),
        Err(Error::DatabaseQueryError(QueryError::DuplicateKey))
    );
    // The stored digest is the first one still.
    assert_eq!(repo.get_account("a@x.com").unwrap().password, "d1");
}

#[test]
fn raw_update_of_a_missing_question_reports_no_row() {
    let mut repo = InMemoryRepository::new();
    assert_eq!(
        repo.update_question(q("t"), QuestionId(1)).unwrap_err(),
        Error::DatabaseQueryError(QueryError::RowNotFound)
    );
}

#[test]
fn raw_delete_of_a_missing_question_is_not_an_error() {
    let mut repo = InMemoryRepository::new();
    assert_eq!(repo.delete_question(QuestionId(7)), Ok(true));
}

#[test]
fn question_counter_does_not_reuse_deleted_ids() {
    let mut repo = InMemoryRepository::new();
    let owner = AccountId(1);
    let first = repo.create_question(q("one"), owner).unwrap();
    repo.delete_question(first.id).unwrap();
    let second = repo.create_question(q("two"), owner).unwrap();
    assert_eq!(first.id, QuestionId(1));
    assert_eq!(second.id, QuestionId(2));
}

#[test]
fn owner_checks_answer_false_for_missing_resources() {
    let repo = InMemoryRepository::new();
    assert_eq!(repo.is_question_owner(QuestionId(1), AccountId(1)), Ok(false));
    assert_eq!(
        repo.is_answer_owner(qa_api::models::answer::AnswerId(1), AccountId(1)),
        Ok(false)
    );
}

#[test]
fn raw_answer_update_keeps_owner_and_parent() {
    let mut repo = InMemoryRepository::new();
    let owner = AccountId(3);
    let parent = repo.create_question(q("t"), AccountId(1)).unwrap();
    let created = repo
        .create_answer(
            AnswerDTO { content: "a".to_string(), question_id: parent.id },
            owner,
        )
        .unwrap();
    let updated = repo
        .update_answer(
            AnswerDTO { content: "b".to_string(), question_id: QuestionId(42) },
            created.id,
        )
        .unwrap();
    assert_eq!(updated.question_id, parent.id);
    assert_eq!(updated.content, "b");
    assert_eq!(repo.is_answer_owner(created.id, owner), Ok(true));
    assert_eq!(repo.is_answer_owner(created.id, AccountId(1)), Ok(false));
}
