//! Answers and the request value they are created from.

use crate::models::question::QuestionId;
use vstd::prelude::*;

verus! {

/// A stored answer. `id` is assigned on creation; `question_id` refers
/// to the parent question and is validated when the answer is created.
/// The owning account is stored beside the answer in the repository.
#[derive(Debug)]
pub struct Answer {
    pub id: AnswerId,
    pub content: String,
    pub question_id: QuestionId,
}

impl Clone for Answer {
    fn clone(&self) -> (res: Self)
        ensures
            res == *self,
    {
        Answer { id: self.id, content: self.content.clone(), question_id: self.question_id }
    }
}

/// Store-assigned answer identifier.
#[derive(Clone, Copy, Debug, PartialEq, Eq, Structural)]
pub struct AnswerId(pub i32);

/// Request value a new answer is created from.
#[derive(Debug)]
pub struct AnswerDTO {
    pub content: String,
    pub question_id: QuestionId,
}

impl Clone for AnswerDTO {
    fn clone(&self) -> (res: Self)
        ensures
            res == *self,
    {
        AnswerDTO { content: self.content.clone(), question_id: self.question_id }
    }
}

} // verus!
