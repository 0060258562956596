use qa_api::controllers::answer::AnswerController;
use qa_api::controllers::question::QuestionController;
use qa_api::custom_errors::account;
use qa_api::custom_errors::custom_error_recover::Rejection;
use qa_api::custom_errors::repository::Error;
use qa_api::custom_errors::repository::QueryError;
use qa_api::models::account::AccountId;
use qa_api::models::account::Session;
use qa_api::models::answer::AnswerDTO;
use qa_api::models::answer::AnswerId;
use qa_api::models::question::QuestionDTO;
use qa_api::models::question::QuestionId;
use qa_api::repository::mock_repository::InMemoryRepository;

fn session_for(id: i32) -> Session {
    Session { exp: 2_000_000_000, account_id: AccountId(id), nbf: 0 }
}

fn with_one_question() -> (InMemoryRepository, QuestionId) {
    let mut repo = InMemoryRepository::new();
    let qc = QuestionController::new();
    let q = qc
        .create_question(
            &mut repo,
            session_for(1),
            QuestionDTO { title: "T".to_string(), content: "C".to_string(), tags: None },
        )
        .unwrap();
    (repo, q.id)
}

#[test]
fn answer_to_a_missing_question_is_refused() {
    let mut repo = InMemoryRepository::new();
    let ac = AnswerController::new();
    let refused = ac.create_answer(
        &mut repo,
        session_for(1),
        AnswerDTO { content: "A".to_string(), question_id: QuestionId(1) },
    );
    assert_eq!(
        refused.unwrap_err(),
        Rejection::Repository(Error::DatabaseQueryError(QueryError::ForeignKeyViolation))
    );
}

#[test]
fn answer_to_an_existing_question_is_stored() {
    let (mut repo, qid) = with_one_question();
    let ac = AnswerController::new();
    let created = ac
        .create_answer(
            &mut repo,
            session_for(1),
            AnswerDTO { content: "A".to_string(), question_id: qid },
        )
        .unwrap();
    assert_eq!(created.id, AnswerId(1));
    assert_eq!(created.content, "A");
    assert_eq!(created.question_id, qid);
}

#[test]
fn answer_update_is_owner_gated_and_keeps_the_parent() {
    let (mut repo, qid) = with_one_question();
    let ac = AnswerController::new();
    let created = ac
        .create_answer(
            &mut repo,
            session_for(1),
            AnswerDTO { content: "A".to_string(), question_id: qid },
        )
        .unwrap();

    let refused = ac.update_answer(
        &mut repo,
        session_for(2),
        created.id,
        AnswerDTO { content: "B".to_string(), question_id: qid },
    );
    assert_eq!(refused.unwrap_err(), Rejection::Account(account::Error::Unauthorized));

    let updated = ac
        .update_answer(
            &mut repo,
            session_for(1),
            created.id,
            // The request may even name a different parent: the stored
            // parent is kept.
            AnswerDTO { content: "B".to_string(), question_id: QuestionId(99) },
        )
        .unwrap();
    assert_eq!(updated.id, created.id);
    assert_eq!(updated.content, "B");
    assert_eq!(updated.question_id, qid);
}

#[test]
fn update_of_a_missing_answer_is_unauthorized() {
    let (mut repo, qid) = with_one_question();
    let ac = AnswerController::new();
    let refused = ac.update_answer(
        &mut repo,
        session_for(1),
        AnswerId(5),
        AnswerDTO { content: "B".to_string(), question_id: qid },
    );
    assert_eq!(refused.unwrap_err(), Rejection::Account(account::Error::Unauthorized));
}
