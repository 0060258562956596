//! Question operations: create, read, list, update, delete.
//!
//! Every mutation is gated on ownership: the repository is asked
//! whether the session's principal owns the question, and a refusal —
//! whether the question belongs to someone else or does not exist at
//! all — surfaces as the same `Unauthorized` signal, never as "not
//! found", so mutation attempts cannot enumerate resource ids. Reads
//! are not ownership-sensitive and report "not found" plainly.

use crate::custom_errors::account;
use crate::custom_errors::custom_error_recover::Rejection;
use crate::custom_errors::repository::Error;
use crate::custom_errors::repository::QueryError;
use crate::models::account::Session;
use crate::models::pagination::extract_pagination;
use crate::models::pagination::extract_pagination_spec;
use crate::models::pagination::param_bytes;
use crate::models::pagination::Pagination;
use crate::models::question::Question;
use crate::models::question::QuestionDTO;
use crate::models::question::QuestionId;
use crate::repository::mock_repository::find_question;
use crate::repository::mock_repository::page_of;
use crate::repository::mock_repository::question_pos;
use crate::repository::mock_repository::InMemoryRepository;
use vstd::prelude::*;

verus! {

/// The returned rows carry the views of the requested page, in order.
pub open spec fn page_views_match(v: Seq<Question>, page: Seq<Question>) -> bool {
    &&& v.len() == page.len()
    &&& (forall|i: int| 0 <= i < v.len() ==> (#[trigger] v[i])@ == page[i]@)
}

/// Question operations over the store the embedding program hands in.
pub struct QuestionController {}

impl QuestionController {
    /// A question controller; it holds no state of its own.
    pub fn new() -> (res: Self) {
        QuestionController {  }
    }

    /// Creates a question owned by the session's principal and returns
    /// the stored entity.
    pub fn create_question(
        &self,
        repository: &mut InMemoryRepository,
        session: Session,
        new_question: QuestionDTO,
    ) -> (r: Result<Question, Rejection>)
        requires
            old(repository).wf(),
        ensures
            final(repository).wf(),
            old(repository).next_question_id_spec() == i32::MAX ==> r == Err::<Question, Rejection>(
                Rejection::Repository(Error::DatabaseQueryError(QueryError::Other)),
            ) && *final(repository) == *old(repository),
            old(repository).next_question_id_spec() < i32::MAX ==> {
                &&& r matches Ok(c) && c@ == (Question {
                    id: QuestionId(old(repository).next_question_id_spec()),
                    title: new_question.title,
                    content: new_question.content,
                    tags: new_question.tags,
                })@
                &&& final(repository).questions() == old(repository).questions().push(
                    ((Question {
                        id: QuestionId(old(repository).next_question_id_spec()),
                        title: new_question.title,
                        content: new_question.content,
                        tags: new_question.tags,
                    }), session.account_id),
                )
                &&& final(repository).next_question_id_spec() == old(repository).next_question_id_spec() + 1
                &&& final(repository).accounts() == old(repository).accounts()
                &&& final(repository).answers() == old(repository).answers()
                &&& final(repository).next_answer_id_spec() == old(repository).next_answer_id_spec()
            },
    {
        match repository.create_question(new_question, session.account_id) {
            Ok(q) => Ok(q),
            Err(e) => Err(Rejection::Repository(e)),
        }
    }

    /// Fetches one question by id; reads are not ownership-sensitive,
    /// so a missing id is reported as exactly that.
    pub fn get_question(&self, repository: &InMemoryRepository, id: i32) -> (r: Result<
        Question,
        Rejection,
    >)
        requires
            repository.wf(),
        ensures
            match find_question(repository.questions(), QuestionId(id)) {
                Some(p) => r matches Ok(c) && c@ == p.0@,
                None => r == Err::<Question, Rejection>(
                    Rejection::Repository(Error::DatabaseQueryError(QueryError::RowNotFound)),
                ),
            },
    {
        match repository.get_question(QuestionId(id)) {
            Ok(q) => Ok(q),
            Err(e) => Err(Rejection::Repository(e)),
        }
    }

    /// Lists questions newest first. With neither pagination parameter
    /// the whole list comes back; with both, the requested page; with
    /// anything else — a lone parameter, or a value that does not
    /// parse — the request is rejected.
    pub fn get_questions(
        &self,
        repository: &InMemoryRepository,
        limit: Option<&str>,
        offset: Option<&str>,
    ) -> (r: Result<Vec<Question>, Rejection>)
        requires
            repository.wf(),
        ensures
            limit is None && offset is None ==> (r matches Ok(v) && page_views_match(
                v@,
                page_of(repository.questions(), None, 0),
            )),
            limit is Some || offset is Some ==> match extract_pagination_spec(
                param_bytes(limit),
                param_bytes(offset),
            ) {
                Err(e) => r == Err::<Vec<Question>, Rejection>(Rejection::Common(e)),
                Ok(p) => if p.offset < 0 || (p.limit matches Some(l) && l < 0) {
                    r == Err::<Vec<Question>, Rejection>(
                        Rejection::Repository(Error::DatabaseQueryError(QueryError::Other)),
                    )
                } else {
                    r matches Ok(v) && page_views_match(
                        v@,
                        page_of(repository.questions(), p.limit, p.offset),
                    )
                },
            },
    {
        let pagination = if limit.is_none() && offset.is_none() {
            Pagination::default()
        } else {
            match extract_pagination(limit, offset) {
                Ok(p) => p,
                Err(e) => {
                    return Err(Rejection::Common(e));
                },
            }
        };
        match repository.get_questions(pagination.limit, pagination.offset) {
            Ok(v) => Ok(v),
            Err(e) => Err(Rejection::Repository(e)),
        }
    }

    /// Updates a question, only for its owner. A question that is
    /// missing or owned by someone else is refused with the same
    /// `Unauthorized` signal, and the store is left untouched.
    pub fn update_question(
        &self,
        repository: &mut InMemoryRepository,
        session: Session,
        question: QuestionDTO,
        question_id: QuestionId,
    ) -> (r: Result<Question, Rejection>)
        requires
            old(repository).wf(),
        ensures
            final(repository).wf(),
            match find_question(old(repository).questions(), question_id) {
                None => r == Err::<Question, Rejection>(
                    Rejection::Account(account::Error::Unauthorized),
                ) && *final(repository) == *old(repository),
                Some(p) => if p.1 != session.account_id {
                    r == Err::<Question, Rejection>(
                        Rejection::Account(account::Error::Unauthorized),
                    ) && *final(repository) == *old(repository)
                } else {
                    {
                        &&& r matches Ok(c) && c@ == (Question {
                            id: question_id,
                            title: question.title,
                            content: question.content,
                            tags: question.tags,
                        })@
                        &&& final(repository).questions() == old(repository).questions().update(
                            question_pos(old(repository).questions(), question_id),
                            ((Question {
                                id: question_id,
                                title: question.title,
                                content: question.content,
                                tags: question.tags,
                            }), p.1),
                        )
                        &&& final(repository).accounts() == old(repository).accounts()
                        &&& final(repository).answers() == old(repository).answers()
                        &&& final(repository).next_question_id_spec() == old(repository).next_question_id_spec()
                        &&& final(repository).next_answer_id_spec() == old(repository).next_answer_id_spec()
                    }
                },
            },
    {
        let owner = match repository.is_question_owner(question_id, session.account_id) {
            Ok(b) => b,
            Err(_) => {
                return Err(Rejection::Account(account::Error::Unauthorized));
            },
        };
        if !owner {
            return Err(Rejection::Account(account::Error::Unauthorized));
        }
        match repository.update_question(question, question_id) {
            Ok(q) => Ok(q),
            Err(e) => Err(Rejection::Repository(e)),
        }
    }

    /// Deletes a question, only for its owner; as with updates, a
    /// missing question and somebody else's question are refused
    /// identically and nothing is changed.
    pub fn delete_question(
        &self,
        repository: &mut InMemoryRepository,
        session: Session,
        question_id: QuestionId,
    ) -> (r: Result<bool, Rejection>)
        requires
            old(repository).wf(),
        ensures
            final(repository).wf(),
            match find_question(old(repository).questions(), question_id) {
                None => r == Err::<bool, Rejection>(
                    Rejection::Account(account::Error::Unauthorized),
                ) && *final(repository) == *old(repository),
                Some(p) => if p.1 != session.account_id {
                    r == Err::<bool, Rejection>(Rejection::Account(account::Error::Unauthorized))
                        && *final(repository) == *old(repository)
                } else {
                    {
                        &&& r == Ok::<bool, Rejection>(true)
                        &&& final(repository).questions() == old(repository).questions().remove(
                            question_pos(old(repository).questions(), question_id),
                        )
                        &&& final(repository).accounts() == old(repository).accounts()
                        &&& final(repository).answers() == old(repository).answers()
                        &&& final(repository).next_question_id_spec() == old(repository).next_question_id_spec()
                        &&& final(repository).next_answer_id_spec() == old(repository).next_answer_id_spec()
                    }
                },
            },
    {
        let owner = match repository.is_question_owner(question_id, session.account_id) {
            Ok(b) => b,
            Err(_) => {
                return Err(Rejection::Account(account::Error::Unauthorized));
            },
        };
        if !owner {
            return Err(Rejection::Account(account::Error::Unauthorized));
        }
        match repository.delete_question(question_id) {
            Ok(b) => Ok(b),
            Err(e) => Err(Rejection::Repository(e)),
        }
    }
}

} // verus!
