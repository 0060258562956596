//! Questions and the request value they are created from.

use vstd::prelude::*;

verus! {

/// A stored question. `id` is assigned on creation and never changes;
/// the owning account is stored beside the question in the repository.
#[derive(Debug)]
pub struct Question {
    pub id: QuestionId,
    pub title: String,
    pub content: String,
    pub tags: Option<Vec<String>>,
}

/// The tag list as a mathematical value: `None`, or the sequence of
/// label strings. A cloned list has the same view even though it is a
/// distinct vector.
pub open spec fn tags_view(t: Option<Vec<String>>) -> Option<Seq<String>> {
    match t {
        None => None,
        Some(v) => Some(v@),
    }
}

/// A question as a mathematical value: its fields, with the tag list
/// taken as a sequence.
pub struct QuestionView {
    pub id: QuestionId,
    pub title: String,
    pub content: String,
    pub tags: Option<Seq<String>>,
}

impl View for Question {
    type V = QuestionView;

    open spec fn view(&self) -> QuestionView {
        QuestionView {
            id: self.id,
            title: self.title,
            content: self.content,
            tags: tags_view(self.tags),
        }
    }
}

impl Clone for Question {
    fn clone(&self) -> (res: Self)
        ensures
            res@ == self@,
    {
        Question {
            id: self.id,
            title: self.title.clone(),
            content: self.content.clone(),
            tags: clone_tags(&self.tags),
        }
    }
}

/// Clones an optional tag list element by element, so that the copy is
/// known to have the view of the original.
pub fn clone_tags(tags: &Option<Vec<String>>) -> (res: Option<Vec<String>>)
    ensures
        tags_view(res) == tags_view(*tags),
{
    match tags {
        None => None,
        Some(v) => {
            let mut out: Vec<String> = Vec::new();
            let n = v.len();
            for i in 0..n
                invariant
                    n == v@.len(),
                    out@.len() == i,
                    forall|k: int| 0 <= k < i ==> out@[k] == v@[k],
            {
                out.push(v[i].clone());
            }
            proof {
                assert(out@ =~= v@);
            }
            Some(out)
        },
    }
}

/// Request value a new question is created from; the store assigns the
/// id and records the owner.
#[derive(Debug)]
pub struct QuestionDTO {
    pub title: String,
    pub content: String,
    pub tags: Option<Vec<String>>,
}

/// Store-assigned question identifier.
#[derive(Clone, Copy, Debug, PartialEq, Eq, Structural)]
pub struct QuestionId(pub i32);

} // verus!
