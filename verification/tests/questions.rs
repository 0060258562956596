use qa_api::controllers::authentication::AuthenticationController;
use qa_api::controllers::question::QuestionController;
use qa_api::custom_errors::account;
use qa_api::custom_errors::common;
use qa_api::custom_errors::custom_error_recover::Rejection;
use qa_api::custom_errors::repository::Error;
use qa_api::custom_errors::repository::QueryError;
use qa_api::models::account::Account;
use qa_api::models::account::AccountId;
use qa_api::models::account::Session;
use qa_api::models::pagination::extract_pagination;
use qa_api::models::pagination::Pagination;
use qa_api::models::question::QuestionDTO;
use qa_api::models::question::QuestionId;
use qa_api::repository::mock_repository::InMemoryRepository;

fn session_for(id: i32) -> Session {
    Session { exp: 2_000_000_000, account_id: AccountId(id), nbf: 0 }
}

fn dto(title: &str, content: &str, tags: Option<Vec<&str>>) -> QuestionDTO {
    QuestionDTO {
        title: title.to_string(),
        content: content.to_string(),
        tags: tags.map(|v| v.into_iter().map(|t| t.to_string()).collect()),
    }
}

#[test]
fn create_then_get_returns_an_equal_entity() {
    let mut repo = InMemoryRepository::new();
    let qc = QuestionController::new();
    let created = qc
        .create_question(&mut repo, session_for(1), dto("T", "C", Some(vec!["g", "h"])))
        .unwrap();
    let fetched = qc.get_question(&repo, created.id.0).unwrap();
    assert_eq!(fetched.id, created.id);
    assert_eq!(fetched.title, created.title);
    assert_eq!(fetched.content, created.content);
    assert_eq!(fetched.tags, created.tags);
}

#[test]
fn question_ids_start_at_one_and_increase() {
    let mut repo = InMemoryRepository::new();
    let qc = QuestionController::new();
    let first = qc.create_question(&mut repo, session_for(1), dto("a", "b", None)).unwrap();
    let second = qc.create_question(&mut repo, session_for(1), dto("c", "d", None)).unwrap();
    assert_eq!(first.id, QuestionId(1));
    assert_eq!(second.id, QuestionId(2));
}

#[test]
fn get_missing_question_is_not_found() {
    let repo = InMemoryRepository::new();
    let qc = QuestionController::new();
    assert_eq!(
        qc.get_question(&repo, 1).unwrap_err(),
        Rejection::Repository(Error::DatabaseQueryError(QueryError::RowNotFound))
    );
}

#[test]
fn list_without_pagination_is_all_rows_newest_first() {
    let mut repo = InMemoryRepository::new();
    let qc = QuestionController::new();
    for (t, c) in [("t1", "c1"), ("t2", "c2"), ("t3", "c3")] {
        qc.create_question(&mut repo, session_for(1), dto(t, c, None)).unwrap();
    }
    let all = qc.get_questions(&repo, None, None).unwrap();
    let ids: Vec<i32> = all.iter().map(|q| q.id.0).collect();
    assert_eq!(ids, vec![3, 2, 1]);
}

#[test]
fn list_with_limit_one_offset_one_is_the_second_newest() {
    let mut repo = InMemoryRepository::new();
    let qc = QuestionController::new();
    for (t, c) in [("t1", "c1"), ("t2", "c2"), ("t3", "c3")] {
        qc.create_question(&mut repo, session_for(1), dto(t, c, None)).unwrap();
    }
    let page = qc.get_questions(&repo, Some("1"), Some("1")).unwrap();
    assert_eq!(page.len(), 1);
    assert_eq!(page[0].id, QuestionId(2));
    assert_eq!(page[0].title, "t2");
}

#[test]
fn list_pagination_must_be_complete_and_numeric() {
    let mut repo = InMemoryRepository::new();
    let qc = QuestionController::new();
    qc.create_question(&mut repo, session_for(1), dto("t", "c", None)).unwrap();
    assert_eq!(
        qc.get_questions(&repo, Some("1"), None).unwrap_err(),
        Rejection::Common(common::Error::MissingParameters)
    );
    assert_eq!(
        qc.get_questions(&repo, None, Some("1")).unwrap_err(),
        Rejection::Common(common::Error::MissingParameters)
    );
    assert_eq!(
        qc.get_questions(&repo, Some("x"), Some("0")).unwrap_err(),
        Rejection::Common(common::Error::ParseError)
    );
    assert_eq!(
        qc.get_questions(&repo, Some("-1"), Some("0")).unwrap_err(),
        Rejection::Repository(Error::DatabaseQueryError(QueryError::Other))
    );
}

#[test]
fn list_offset_past_the_end_is_empty() {
    let mut repo = InMemoryRepository::new();
    let qc = QuestionController::new();
    qc.create_question(&mut repo, session_for(1), dto("t", "c", None)).unwrap();
    let page = qc.get_questions(&repo, Some("5"), Some("9")).unwrap();
    assert!(page.is_empty());
}

#[test]
fn update_by_non_owner_is_unauthorized_and_changes_nothing() {
    let mut repo = InMemoryRepository::new();
    let qc = QuestionController::new();
    let created = qc.create_question(&mut repo, session_for(1), dto("T", "C", None)).unwrap();
    let refused = qc.update_question(
        &mut repo,
        session_for(2),
        dto("T", "evil", None),
        created.id,
    );
    assert_eq!(refused.unwrap_err(), Rejection::Account(account::Error::Unauthorized));
    let still = qc.get_question(&repo, created.id.0).unwrap();
    assert_eq!(still.content, "C");
}

#[test]
fn update_of_missing_question_is_unauthorized_not_not_found() {
    let mut repo = InMemoryRepository::new();
    let qc = QuestionController::new();
    let refused = qc.update_question(
        &mut repo,
        session_for(1),
        dto("T", "C", None),
        QuestionId(99),
    );
    assert_eq!(refused.unwrap_err(), Rejection::Account(account::Error::Unauthorized));
}

#[test]
fn owner_updates_content_and_keeps_id() {
    let mut repo = InMemoryRepository::new();
    let qc = QuestionController::new();
    let created = qc.create_question(&mut repo, session_for(1), dto("T", "C", None)).unwrap();
    let updated = qc
        .update_question(&mut repo, session_for(1), dto("T", "C2", None), created.id)
        .unwrap();
    assert_eq!(updated.id, created.id);
    assert_eq!(updated.content, "C2");
    let fetched = qc.get_question(&repo, created.id.0).unwrap();
    assert_eq!(fetched.content, "C2");
}

#[test]
fn delete_by_non_owner_is_unauthorized_by_owner_removes() {
    let mut repo = InMemoryRepository::new();
    let qc = QuestionController::new();
    let created = qc.create_question(&mut repo, session_for(1), dto("T", "C", None)).unwrap();
    assert_eq!(
        qc.delete_question(&mut repo, session_for(2), created.id).unwrap_err(),
        Rejection::Account(account::Error::Unauthorized)
    );
    assert!(qc.get_question(&repo, created.id.0).is_ok());
    assert_eq!(qc.delete_question(&mut repo, session_for(1), created.id), Ok(true));
    assert_eq!(
        qc.get_question(&repo, created.id.0).unwrap_err(),
        Rejection::Repository(Error::DatabaseQueryError(QueryError::RowNotFound))
    );
}

#[test]
fn extract_pagination_accepts_a_complete_numeric_pair() {
    assert_eq!(
        extract_pagination(Some("10"), Some("2")),
        Ok(Pagination { limit: Some(10), offset: 2 })
    );
    assert_eq!(
        extract_pagination(Some("+5"), Some("-3")),
        Ok(Pagination { limit: Some(5), offset: -3 })
    );
    assert_eq!(
        extract_pagination(Some("32767"), Some("-32768")),
        Ok(Pagination { limit: Some(32767), offset: -32768 })
    );
}

#[test]
fn extract_pagination_rejects_partial_or_malformed_pairs() {
    assert_eq!(extract_pagination(None, None), Err(common::Error::MissingParameters));
    assert_eq!(extract_pagination(Some("1"), None), Err(common::Error::MissingParameters));
    assert_eq!(extract_pagination(None, Some("1")), Err(common::Error::MissingParameters));
    assert_eq!(extract_pagination(Some(""), Some("1")), Err(common::Error::ParseError));
    assert_eq!(extract_pagination(Some("a"), Some("1")), Err(common::Error::ParseError));
    assert_eq!(extract_pagination(Some("1"), Some("1.5")), Err(common::Error::ParseError));
    assert_eq!(extract_pagination(Some("32768"), Some("0")), Err(common::Error::ParseError));
    assert_eq!(extract_pagination(Some("1"), Some("-32769")), Err(common::Error::ParseError));
    assert_eq!(extract_pagination(Some("-"), Some("0")), Err(common::Error::ParseError));
}

#[test]
fn scenario_two_sessions_fight_over_one_question() {
    let mut repo = InMemoryRepository::new();
    let auth = AuthenticationController::new(vec![7u8; 32]);
    let qc = QuestionController::new();
    let now = 1_700_000_000;

    let owner = Account { id: None, email: "a@x.com".to_string(), password: "p1".to_string() };
    auth.register_account(&mut repo, owner.clone()).unwrap();
    let token = auth.login(&repo, owner, now).unwrap();
    let session = auth.auth(token.as_str(), now).unwrap();

    let created = qc
        .create_question(&mut repo, session, dto("T", "C", Some(vec!["g"])))
        .unwrap();

    let intruder = Account { id: None, email: "b@x.com".to_string(), password: "p2".to_string() };
    auth.register_account(&mut repo, intruder.clone()).unwrap();
    let other_token = auth.login(&repo, intruder, now).unwrap();
    let other_session = auth.auth(other_token.as_str(), now).unwrap();

    let refused = qc.update_question(
        &mut repo,
        other_session,
        dto("T", "C2", Some(vec!["g"])),
        created.id,
    );
    assert_eq!(refused.unwrap_err(), Rejection::Account(account::Error::Unauthorized));

    let updated = qc
        .update_question(&mut repo, session, dto("T", "C2", Some(vec!["g"])), created.id)
        .unwrap();
    assert_eq!(updated.id, created.id);
    assert_eq!(updated.content, "C2");
}
