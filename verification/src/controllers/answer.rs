//! Answer operations: create and update.
//!
//! Creation validates that the parent question exists; updates are
//! gated on ownership exactly as question updates are, with a missing
//! answer and somebody else's answer refused identically.

use crate::custom_errors::account;
use crate::custom_errors::custom_error_recover::Rejection;
use crate::custom_errors::repository::Error;
use crate::custom_errors::repository::QueryError;
use crate::models::account::Session;
use crate::models::answer::Answer;
use crate::models::answer::AnswerDTO;
use crate::models::answer::AnswerId;
use crate::repository::mock_repository::answer_pos;
use crate::repository::mock_repository::find_answer;
use crate::repository::mock_repository::find_question;
use crate::repository::mock_repository::InMemoryRepository;
use vstd::prelude::*;

verus! {

/// Answer operations over the store the embedding program hands in.
pub struct AnswerController {}

impl AnswerController {
    /// An answer controller; it holds no state of its own.
    pub fn new() -> (res: Self) {
        AnswerController {  }
    }

    /// Creates an answer owned by the session's principal, after the
    /// repository has checked that the parent question exists, and
    /// returns the stored entity.
    pub fn create_answer(
        &self,
        repository: &mut InMemoryRepository,
        session: Session,
        answer: AnswerDTO,
    ) -> (r: Result<Answer, Rejection>)
        requires
            old(repository).wf(),
        ensures
            final(repository).wf(),
            find_question(old(repository).questions(), answer.question_id) is None ==> r == Err::<
                Answer,
                Rejection,
            >(Rejection::Repository(Error::DatabaseQueryError(QueryError::ForeignKeyViolation)))
                && *final(repository) == *old(repository),
            find_question(old(repository).questions(), answer.question_id) is Some && old(repository).next_answer_id_spec() == i32::MAX ==> r == Err::<Answer, Rejection>(
                Rejection::Repository(Error::DatabaseQueryError(QueryError::Other)),
            ) && *final(repository) == *old(repository),
            find_question(old(repository).questions(), answer.question_id) is Some && old(repository).next_answer_id_spec() < i32::MAX ==> {
                &&& r == Ok::<Answer, Rejection>(
                    (Answer {
                        id: AnswerId(old(repository).next_answer_id_spec()),
                        content: answer.content,
                        question_id: answer.question_id,
                    }),
                )
                &&& final(repository).answers() == old(repository).answers().push(
                    ((Answer {
                        id: AnswerId(old(repository).next_answer_id_spec()),
                        content: answer.content,
                        question_id: answer.question_id,
                    }), session.account_id),
                )
                &&& final(repository).next_answer_id_spec() == old(repository).next_answer_id_spec() + 1
                &&& final(repository).accounts() == old(repository).accounts()
                &&& final(repository).questions() == old(repository).questions()
                &&& final(repository).next_question_id_spec() == old(repository).next_question_id_spec()
            },
    {
        match repository.create_answer(answer, session.account_id) {
            Ok(a) => Ok(a),
            Err(e) => Err(Rejection::Repository(e)),
        }
    }

    /// Updates an answer's content, only for its owner. A missing
    /// answer and somebody else's answer are refused with the same
    /// `Unauthorized` signal, and the store is left untouched.
    pub fn update_answer(
        &self,
        repository: &mut InMemoryRepository,
        session: Session,
        answer_id: AnswerId,
        answer: AnswerDTO,
    ) -> (r: Result<Answer, Rejection>)
        requires
            old(repository).wf(),
        ensures
            final(repository).wf(),
            match find_answer(old(repository).answers(), answer_id) {
                None => r == Err::<Answer, Rejection>(
                    Rejection::Account(account::Error::Unauthorized),
                ) && *final(repository) == *old(repository),
                Some(p) => if p.1 != session.account_id {
                    r == Err::<Answer, Rejection>(Rejection::Account(account::Error::Unauthorized))
                        && *final(repository) == *old(repository)
                } else {
                    {
                        &&& r == Ok::<Answer, Rejection>(
                            (Answer {
                                id: answer_id,
                                content: answer.content,
                                question_id: p.0.question_id,
                            }),
                        )
                        &&& final(repository).answers() == old(repository).answers().update(
                            answer_pos(old(repository).answers(), answer_id),
                            ((Answer {
                                id: answer_id,
                                content: answer.content,
                                question_id: p.0.question_id,
                            }), p.1),
                        )
                        &&& final(repository).accounts() == old(repository).accounts()
                        &&& final(repository).questions() == old(repository).questions()
                        &&& final(repository).next_question_id_spec() == old(repository).next_question_id_spec()
                        &&& final(repository).next_answer_id_spec() == old(repository).next_answer_id_spec()
                    }
                },
            },
    {
        let owner = match repository.is_answer_owner(answer_id, session.account_id) {
            Ok(b) => b,
            Err(_) => {
                return Err(Rejection::Account(account::Error::Unauthorized));
            },
        };
        if !owner {
            return Err(Rejection::Account(account::Error::Unauthorized));
        }
        match repository.update_answer(answer, answer_id) {
            Ok(a) => Ok(a),
            Err(e) => Err(Rejection::Repository(e)),
        }
    }
}

} // verus!
