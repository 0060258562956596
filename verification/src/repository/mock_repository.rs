//! In-memory repository: accounts, questions and answers held in plain
//! vectors, with the same observable contract the SQL-backed store is
//! expected to honour — unique emails, store-assigned increasing ids,
//! owners recorded beside each resource, and newest-first listing.

use crate::custom_errors::repository::Error;
use crate::custom_errors::repository::QueryError;
use crate::models::account::Account;
use crate::models::account::AccountId;
use crate::models::answer::Answer;
use crate::models::answer::AnswerDTO;
use crate::models::answer::AnswerId;
use crate::models::question::Question;
use crate::models::question::QuestionDTO;
use crate::models::question::QuestionId;
use vstd::prelude::*;

verus! {

/// First position whose account carries `email`, or the length when no
/// account does.
pub open spec fn account_pos(accs: Seq<Account>, email: Seq<char>) -> int
    decreases accs.len(),
{
    if accs.len() == 0 {
        0
    } else if accs[0].email@ == email {
        0
    } else {
        1 + account_pos(accs.drop_first(), email)
    }
}

/// The account stored under `email`, if any.
pub open spec fn find_account(accs: Seq<Account>, email: Seq<char>) -> Option<Account> {
    if account_pos(accs, email) < accs.len() {
        Some(accs[account_pos(accs, email)])
    } else {
        None
    }
}

/// First position of the question with this id, or the length when
/// absent.
pub open spec fn question_pos(qs: Seq<(Question, AccountId)>, id: QuestionId) -> int
    decreases qs.len(),
{
    if qs.len() == 0 {
        0
    } else if qs[0].0.id == id {
        0
    } else {
        1 + question_pos(qs.drop_first(), id)
    }
}

/// The stored question with this id and its owner, if any.
pub open spec fn find_question(qs: Seq<(Question, AccountId)>, id: QuestionId) -> Option<
    (Question, AccountId),
> {
    if question_pos(qs, id) < qs.len() {
        Some(qs[question_pos(qs, id)])
    } else {
        None
    }
}

/// First position of the answer with this id, or the length when
/// absent.
pub open spec fn answer_pos(ans: Seq<(Answer, AccountId)>, id: AnswerId) -> int
    decreases ans.len(),
{
    if ans.len() == 0 {
        0
    } else if ans[0].0.id == id {
        0
    } else {
        1 + answer_pos(ans.drop_first(), id)
    }
}

/// The stored answer with this id and its owner, if any.
pub open spec fn find_answer(ans: Seq<(Answer, AccountId)>, id: AnswerId) -> Option<
    (Answer, AccountId),
> {
    if answer_pos(ans, id) < ans.len() {
        Some(ans[answer_pos(ans, id)])
    } else {
        None
    }
}

/// The page a list request returns: newest first, skipping `offset`
/// rows, capped at `limit` when one is given. Meaningful for
/// non-negative `offset` and `limit` only; negative values are
/// rejected before this is consulted.
pub open spec fn page_of(
    qs: Seq<(Question, AccountId)>,
    limit: Option<i16>,
    offset: i16,
) -> Seq<Question> {
    let n = qs.len() as int;
    let avail = if offset <= n {
        n - offset
    } else {
        0
    };
    let cnt = match limit {
        Some(l) => if l <= avail {
            l as int
        } else {
            avail
        },
        None => avail,
    };
    Seq::new(cnt as nat, |i: int| qs[n - 1 - offset - i].0)
}

/// In-memory store. Emails are unique; ids are assigned from
/// store-owned counters and never reused; every question and answer
/// records its owning account at creation.
pub struct InMemoryRepository {
    accounts: Vec<Account>,
    questions: Vec<(Question, AccountId)>,
    answers: Vec<(Answer, AccountId)>,
    next_question_id: i32,
    next_answer_id: i32,
}

impl InMemoryRepository {
    /// The stored accounts, oldest first.
    pub closed spec fn accounts(self) -> Seq<Account> {
        self.accounts@
    }

    /// The stored questions with their owners, oldest first.
    pub closed spec fn questions(self) -> Seq<(Question, AccountId)> {
        self.questions@
    }

    /// The stored answers with their owners, oldest first.
    pub closed spec fn answers(self) -> Seq<(Answer, AccountId)> {
        self.answers@
    }

    /// The id the next created question will get.
    pub closed spec fn next_question_id_spec(self) -> i32 {
        self.next_question_id
    }

    /// The id the next created answer will get.
    pub closed spec fn next_answer_id_spec(self) -> i32 {
        self.next_answer_id
    }

    /// Account part of the store invariant: ids are the 1-based
    /// positions and emails are unique.
    pub open spec fn accounts_wf(self) -> bool {
        &&& self.accounts().len() < 0x7fff_ffff
        &&& (forall|i: int|
            0 <= i < self.accounts().len() ==> (#[trigger] self.accounts()[i]).id == Some(
                AccountId((i + 1) as i32),
            ))
        &&& (forall|i: int, j: int|
            0 <= i < j < self.accounts().len() ==> (#[trigger] self.accounts()[i].email@)
                != (#[trigger] self.accounts()[j].email@))
    }

    /// Question part of the store invariant: ids are positive, unique,
    /// and below the counter.
    pub open spec fn questions_wf(self) -> bool {
        &&& 1 <= self.next_question_id_spec()
        &&& (forall|i: int|
            0 <= i < self.questions().len() ==> 1 <= (#[trigger] self.questions()[i]).0.id.0
                < self.next_question_id_spec())
        &&& (forall|i: int, j: int|
            0 <= i < j < self.questions().len() ==> (#[trigger] self.questions()[i].0.id)
                != (#[trigger] self.questions()[j].0.id))
    }

    /// Answer part of the store invariant: ids are positive, unique,
    /// and below the counter.
    pub open spec fn answers_wf(self) -> bool {
        &&& 1 <= self.next_answer_id_spec()
        &&& (forall|i: int|
            0 <= i < self.answers().len() ==> 1 <= (#[trigger] self.answers()[i]).0.id.0
                < self.next_answer_id_spec())
        &&& (forall|i: int, j: int|
            0 <= i < j < self.answers().len() ==> (#[trigger] self.answers()[i].0.id)
                != (#[trigger] self.answers()[j].0.id))
    }

    /// Store invariant: account ids are the 1-based positions, emails
    /// are unique, question and answer ids are positive, unique, and
    /// below their counter.
    pub open spec fn wf(self) -> bool {
        &&& self.accounts_wf()
        &&& self.questions_wf()
        &&& self.answers_wf()
    }

    /// An empty store.
    pub fn new() -> (res: Self)
        ensures
            res.wf(),
            res.accounts() == Seq::<Account>::empty(),
            res.questions() == Seq::<(Question, AccountId)>::empty(),
            res.answers() == Seq::<(Answer, AccountId)>::empty(),
            res.next_question_id_spec() == 1,
            res.next_answer_id_spec() == 1,
    {
        let res = InMemoryRepository {
            accounts: Vec::new(),
            questions: Vec::new(),
            answers: Vec::new(),
            next_question_id: 1,
            next_answer_id: 1,
        };
        proof {
            assert(res.accounts() =~= Seq::<Account>::empty());
            assert(res.questions() =~= Seq::<(Question, AccountId)>::empty());
            assert(res.answers() =~= Seq::<(Answer, AccountId)>::empty());
        }
        res
    }

    /// Position of the account with this email, if any.
    fn account_index(&self, email: &String) -> (r: Option<usize>)
        ensures
            match r {
                Some(j) => j as int == account_pos(self.accounts(), email@) && j
                    < self.accounts().len() && self.accounts()[j as int].email@ == email@,
                None => account_pos(self.accounts(), email@) == self.accounts().len(),
            },
    {
        let n = self.accounts.len();
        let ghost s = self.accounts@;
        let mut i: usize = 0;
        proof {
            assert(s.skip(0) =~= s);
        }
        while i < n
            invariant
                0 <= i <= n == s.len(),
                s == self.accounts@,
                account_pos(s, email@) == i + account_pos(s.skip(i as int), email@),
            decreases n - i,
        {
            proof {
                assert(s.skip(i as int)[0] == s[i as int]);
            }
            if self.accounts[i].email == *email {
                return Some(i);
            }
            proof {
                assert(s.skip(i as int).drop_first() =~= s.skip(i + 1));
            }
            i = i + 1;
        }
        proof {
            assert(s.skip(n as int) =~= Seq::<Account>::empty());
        }
        None
    }

    /// Position of the question with this id, if any.
    fn question_index(&self, id: QuestionId) -> (r: Option<usize>)
        ensures
            match r {
                Some(j) => j as int == question_pos(self.questions(), id) && j
                    < self.questions().len() && self.questions()[j as int].0.id == id,
                None => question_pos(self.questions(), id) == self.questions().len(),
            },
    {
        let n = self.questions.len();
        let ghost s = self.questions@;
        let mut i: usize = 0;
        proof {
            assert(s.skip(0) =~= s);
        }
        while i < n
            invariant
                0 <= i <= n == s.len(),
                s == self.questions@,
                question_pos(s, id) == i + question_pos(s.skip(i as int), id),
            decreases n - i,
        {
            proof {
                assert(s.skip(i as int)[0] == s[i as int]);
            }
            if self.questions[i].0.id == id {
                return Some(i);
            }
            proof {
                assert(s.skip(i as int).drop_first() =~= s.skip(i + 1));
            }
            i = i + 1;
        }
        proof {
            assert(s.skip(n as int) =~= Seq::<(Question, AccountId)>::empty());
        }
        None
    }

    /// Position of the answer with this id, if any.
    fn answer_index(&self, id: AnswerId) -> (r: Option<usize>)
        ensures
            match r {
                Some(j) => j as int == answer_pos(self.answers(), id) && j < self.answers().len()
                    && self.answers()[j as int].0.id == id,
                None => answer_pos(self.answers(), id) == self.answers().len(),
            },
    {
        let n = self.answers.len();
        let ghost s = self.answers@;
        let mut i: usize = 0;
        proof {
            assert(s.skip(0) =~= s);
        }
        while i < n
            invariant
                0 <= i <= n == s.len(),
                s == self.answers@,
                answer_pos(s, id) == i + answer_pos(s.skip(i as int), id),
            decreases n - i,
        {
            proof {
                assert(s.skip(i as int)[0] == s[i as int]);
            }
            if self.answers[i].0.id == id {
                return Some(i);
            }
            proof {
                assert(s.skip(i as int).drop_first() =~= s.skip(i + 1));
            }
            i = i + 1;
        }
        proof {
            assert(s.skip(n as int) =~= Seq::<(Answer, AccountId)>::empty());
        }
        None
    }

    /// Stores a new account under the next free id. An email already
    /// present is refused as a duplicate key and nothing is written.
    pub fn add_account(&mut self, account: Account) -> (r: Result<bool, Error>)
        requires
            old(self).wf(),
        ensures
            final(self).wf(),
            find_account(old(self).accounts(), account.email@) is Some ==> r == Err::<bool, Error>(
                Error::DatabaseQueryError(QueryError::DuplicateKey),
            ) && *final(self) == *old(self),
            find_account(old(self).accounts(), account.email@) is None && old(self).accounts().len() >= 0x7fff_fffe ==> r == Err::<bool, Error>(
                Error::DatabaseQueryError(QueryError::Other),
            ) && *final(self) == *old(self),
            find_account(old(self).accounts(), account.email@) is None && old(self).accounts().len() < 0x7fff_fffe ==> r == Ok::<bool, Error>(true) && final(self).accounts() == old(self).accounts().push(
                (Account {
                    id: Some(AccountId((old(self).accounts().len() + 1) as i32)),
                    email: account.email,
                    password: account.password,
                }),
            ) && final(self).questions() == old(self).questions() && final(self).answers() == old(self).answers() && final(self).next_question_id_spec() == old(self).next_question_id_spec() && final(self).next_answer_id_spec() == old(self).next_answer_id_spec(),
    {
        if self.account_index(&account.email).is_some() {
            return Err(Error::DatabaseQueryError(QueryError::DuplicateKey));
        }
        let n = self.accounts.len();
        if n >= 0x7fff_fffe {
            return Err(Error::DatabaseQueryError(QueryError::Other));
        }
        let stored = Account {
            id: Some(AccountId((n + 1) as i32)),
            email: account.email,
            password: account.password,
        };
        self.accounts.push(stored);
        proof {
            let accs = self.accounts@;
            let olds = old(self).accounts();
            assert(accs.len() == olds.len() + 1);
            assert forall|i: int|
                0 <= i < accs.len() implies (#[trigger] accs[i]).id == Some(
                AccountId((i + 1) as i32),
            ) by {
                if i < olds.len() {
                    assert(accs[i] == olds[i]);
                }
            }
            lemma_account_pos_misses(olds, account.email@);
            assert forall|i: int, j: int|
                0 <= i < j < accs.len() implies (#[trigger] accs[i].email@)
                != (#[trigger] accs[j].email@) by {
                assert(accs[i] == olds[i]);
                if j < olds.len() {
                    assert(accs[j] == olds[j]);
                } else {
                    assert(accs[j].email@ == account.email@);
                }
            }
            lemma_questions_wf_transfer(*old(self), *self);
            lemma_answers_wf_transfer(*old(self), *self);
        }
        Ok(true)
    }

    /// Fetches the account stored under this email; a lookup that finds
    /// no row reports exactly that.
    pub fn get_account(&self, email: &str) -> (r: Result<Account, Error>)
        requires
            self.wf(),
        ensures
            match find_account(self.accounts(), email@) {
                Some(a) => r == Ok::<Account, Error>(a),
                None => r == Err::<Account, Error>(
                    Error::DatabaseQueryError(QueryError::RowNotFound),
                ),
            },
    {
        let owned = email.to_owned();
        match self.account_index(&owned) {
            Some(j) => Ok(self.accounts[j].clone()),
            None => Err(Error::DatabaseQueryError(QueryError::RowNotFound)),
        }
    }

    /// Stores a new question under the next free id, owned by
    /// `account_id`, and returns the stored entity.
    pub fn create_question(&mut self, question: QuestionDTO, account_id: AccountId) -> (r: Result<
        Question,
        Error,
    >)
        requires
            old(self).wf(),
        ensures
            final(self).wf(),
            old(self).next_question_id_spec() == i32::MAX ==> r == Err::<Question, Error>(
                Error::DatabaseQueryError(QueryError::Other),
            ) && *final(self) == *old(self),
            old(self).next_question_id_spec() < i32::MAX ==> {
                &&& r matches Ok(c) && c@ == (Question {
                    id: QuestionId(old(self).next_question_id_spec()),
                    title: question.title,
                    content: question.content,
                    tags: question.tags,
                })@
                &&& final(self).questions() == old(self).questions().push(
                    ((Question {
                        id: QuestionId(old(self).next_question_id_spec()),
                        title: question.title,
                        content: question.content,
                        tags: question.tags,
                    }), account_id),
                )
                &&& final(self).next_question_id_spec() == old(self).next_question_id_spec() + 1
                &&& final(self).accounts() == old(self).accounts()
                &&& final(self).answers() == old(self).answers()
                &&& final(self).next_answer_id_spec() == old(self).next_answer_id_spec()
            },
    {
        if self.next_question_id == i32::MAX {
            return Err(Error::DatabaseQueryError(QueryError::Other));
        }
        let q = Question {
            id: QuestionId(self.next_question_id),
            title: question.title,
            content: question.content,
            tags: question.tags,
        };
        let c = q.clone();
        self.questions.push((q, account_id));
        self.next_question_id = self.next_question_id + 1;
        proof {
            let olds = old(self).questions();
            let news = self.questions@;
            assert(news.len() == olds.len() + 1);
            assert forall|i: int|
                0 <= i < news.len() implies 1 <= (#[trigger] news[i]).0.id.0
                < self.next_question_id by {
                if i < olds.len() {
                    assert(news[i] == olds[i]);
                }
            }
            assert forall|i: int, k: int|
                0 <= i < k < news.len() implies (#[trigger] news[i].0.id)
                != (#[trigger] news[k].0.id) by {
                assert(news[i] == olds[i]);
                if k < olds.len() {
                    assert(news[k] == olds[k]);
                } else {
                    assert(news[k].0.id.0 == old(self).next_question_id_spec());
                }
            }
            lemma_accounts_wf_transfer(*old(self), *self);
            lemma_answers_wf_transfer(*old(self), *self);
        }
        Ok(c)
    }

    /// Fetches the question with this id; a lookup that finds no row
    /// reports exactly that.
    pub fn get_question(&self, question_id: QuestionId) -> (r: Result<Question, Error>)
        requires
            self.wf(),
        ensures
            match find_question(self.questions(), question_id) {
                Some(p) => r matches Ok(c) && c@ == p.0@,
                None => r == Err::<Question, Error>(
                    Error::DatabaseQueryError(QueryError::RowNotFound),
                ),
            },
    {
        match self.question_index(question_id) {
            Some(j) => Ok(self.questions[j].0.clone()),
            None => Err(Error::DatabaseQueryError(QueryError::RowNotFound)),
        }
    }

    /// Lists questions newest first, skipping `offset` rows and capping
    /// the count at `limit` when one is given; a negative value in
    /// either place is a store error, as it would be for the SQL
    /// collaborator.
    pub fn get_questions(&self, limit: Option<i16>, offset: i16) -> (r: Result<
        Vec<Question>,
        Error,
    >)
        requires
            self.wf(),
        ensures
            offset < 0 || (limit matches Some(l) && l < 0) ==> r == Err::<Vec<Question>, Error>(
                Error::DatabaseQueryError(QueryError::Other),
            ),
            offset >= 0 && (limit matches Some(l) ==> l >= 0) ==> (r matches Ok(v) && v@.len()
                == page_of(self.questions(), limit, offset).len() && (forall|i: int|
                0 <= i < v@.len() ==> (#[trigger] v@[i])@ == page_of(
                    self.questions(),
                    limit,
                    offset,
                )[i]@)),
    {
        if offset < 0 {
            return Err(Error::DatabaseQueryError(QueryError::Other));
        }
        if let Some(l) = limit {
            if l < 0 {
                return Err(Error::DatabaseQueryError(QueryError::Other));
            }
        }
        let n = self.questions.len();
        let off = offset as usize;
        let avail: usize = if off <= n {
            n - off
        } else {
            0
        };
        let cnt: usize = match limit {
            Some(l) => {
                let l = l as usize;
                if l <= avail {
                    l
                } else {
                    avail
                }
            },
            None => avail,
        };
        let ghost page = page_of(self.questions(), limit, offset);
        proof {
            assert(page.len() == cnt);
        }
        let mut out: Vec<Question> = Vec::new();
        let mut i: usize = 0;
        while i < cnt
            invariant
                0 <= i <= cnt,
                cnt <= avail,
                (off <= n && avail == n - off) || avail == 0,
                off as int == offset as int,
                n == self.questions@.len(),
                page == page_of(self.questions(), limit, offset),
                page.len() == cnt,
                out@.len() == i,
                forall|k: int| 0 <= k < i ==> (#[trigger] out@[k])@ == page[k]@,
            decreases cnt - i,
        {
            let idx = n - 1 - off - i;
            proof {
                assert(page[i as int] == self.questions@[n - 1 - off - i].0);
            }
            out.push(self.questions[idx].0.clone());
            i = i + 1;
        }
        Ok(out)
    }

    /// Replaces title, content and tags of the question with this id,
    /// keeping id and owner, and returns the updated entity. The
    /// repository does not re-check ownership here: the caller is
    /// expected to have consulted `is_question_owner` first.
    pub fn update_question(&mut self, question: QuestionDTO, question_id: QuestionId) -> (r: Result<
        Question,
        Error,
    >)
        requires
            old(self).wf(),
        ensures
            final(self).wf(),
            match find_question(old(self).questions(), question_id) {
                None => r == Err::<Question, Error>(
                    Error::DatabaseQueryError(QueryError::RowNotFound),
                ) && *final(self) == *old(self),
                Some(p) => {
                    &&& r matches Ok(c) && c@ == (Question {
                        id: question_id,
                        title: question.title,
                        content: question.content,
                        tags: question.tags,
                    })@
                    &&& final(self).questions() == old(self).questions().update(
                        question_pos(old(self).questions(), question_id),
                        ((Question {
                            id: question_id,
                            title: question.title,
                            content: question.content,
                            tags: question.tags,
                        }), p.1),
                    )
                    &&& final(self).accounts() == old(self).accounts()
                    &&& final(self).answers() == old(self).answers()
                    &&& final(self).next_question_id_spec() == old(self).next_question_id_spec()
                    &&& final(self).next_answer_id_spec() == old(self).next_answer_id_spec()
                },
            },
    {
        match self.question_index(question_id) {
            None => Err(Error::DatabaseQueryError(QueryError::RowNotFound)),
            Some(j) => {
                let owner = self.questions[j].1;
                let q = Question {
                    id: question_id,
                    title: question.title,
                    content: question.content,
                    tags: question.tags,
                };
                let c = q.clone();
                self.questions[j] = (q, owner);
                proof {
                    let olds = old(self).questions();
                    let news = self.questions@;
                    assert forall|i: int|
                        0 <= i < news.len() implies 1 <= (#[trigger] news[i]).0.id.0
                        < self.next_question_id by {
                        if i != j {
                            assert(news[i] == olds[i]);
                        } else {
                            assert(olds[j as int].0.id == question_id);
                        }
                    }
                    assert forall|i: int, k: int|
                        0 <= i < k < news.len() implies (#[trigger] news[i].0.id)
                        != (#[trigger] news[k].0.id) by {
                        assert(news[i].0.id == olds[i].0.id);
                        assert(news[k].0.id == olds[k].0.id);
                    }
                    lemma_accounts_wf_transfer(*old(self), *self);
                    lemma_answers_wf_transfer(*old(self), *self);
                }
                Ok(c)
            },
        }
    }

    /// Deletes the question with this id; deleting an absent id is not
    /// an error, exactly as a SQL delete of no rows is not.
    pub fn delete_question(&mut self, question_id: QuestionId) -> (r: Result<bool, Error>)
        requires
            old(self).wf(),
        ensures
            final(self).wf(),
            r == Ok::<bool, Error>(true),
            match find_question(old(self).questions(), question_id) {
                None => *final(self) == *old(self),
                Some(p) => {
                    &&& final(self).questions() == old(self).questions().remove(
                        question_pos(old(self).questions(), question_id),
                    )
                    &&& final(self).accounts() == old(self).accounts()
                    &&& final(self).answers() == old(self).answers()
                    &&& final(self).next_question_id_spec() == old(self).next_question_id_spec()
                    &&& final(self).next_answer_id_spec() == old(self).next_answer_id_spec()
                },
            },
    {
        match self.question_index(question_id) {
            None => Ok(true),
            Some(j) => {
                self.questions.remove(j);
                proof {
                    let olds = old(self).questions();
                    let news = self.questions@;
                    assert forall|i: int|
                        0 <= i < news.len() implies 1 <= (#[trigger] news[i]).0.id.0
                        < self.next_question_id by {
                        if i < j {
                            assert(news[i] == olds[i]);
                        } else {
                            assert(news[i] == olds[i + 1]);
                        }
                    }
                    assert forall|i: int, k: int|
                        0 <= i < k < news.len() implies (#[trigger] news[i].0.id)
                        != (#[trigger] news[k].0.id) by {
                        let i0 = if i < j {
                            i
                        } else {
                            i + 1
                        };
                        let k0 = if k < j {
                            k
                        } else {
                            k + 1
                        };
                        assert(news[i].0.id == olds[i0].0.id);
                        assert(news[k].0.id == olds[k0].0.id);
                    }
                    lemma_accounts_wf_transfer(*old(self), *self);
                    lemma_answers_wf_transfer(*old(self), *self);
                }
                Ok(true)
            },
        }
    }

    /// Whether the question with this id is owned by this account. A
    /// missing question reads as "not owner": the caller cannot tell
    /// absence from somebody else's resource.
    pub fn is_question_owner(&self, question_id: QuestionId, account_id: AccountId) -> (r: Result<
        bool,
        Error,
    >)
        requires
            self.wf(),
        ensures
            r == Ok::<bool, Error>(
                match find_question(self.questions(), question_id) {
                    Some(p) => p.1 == account_id,
                    None => false,
                },
            ),
    {
        match self.question_index(question_id) {
            Some(j) => Ok(self.questions[j].1 == account_id),
            None => Ok(false),
        }
    }

    /// Whether the answer with this id is owned by this account; a
    /// missing answer reads as "not owner".
    pub fn is_answer_owner(&self, answer_id: AnswerId, account_id: AccountId) -> (r: Result<
        bool,
        Error,
    >)
        requires
            self.wf(),
        ensures
            r == Ok::<bool, Error>(
                match find_answer(self.answers(), answer_id) {
                    Some(p) => p.1 == account_id,
                    None => false,
                },
            ),
    {
        match self.answer_index(answer_id) {
            Some(j) => Ok(self.answers[j].1 == account_id),
            None => Ok(false),
        }
    }

    /// Stores a new answer under the next free id, owned by
    /// `account_id`, after checking that the parent question exists.
    pub fn create_answer(&mut self, answer: AnswerDTO, account_id: AccountId) -> (r: Result<
        Answer,
        Error,
    >)
        requires
            old(self).wf(),
        ensures
            final(self).wf(),
            find_question(old(self).questions(), answer.question_id) is None ==> r == Err::<
                Answer,
                Error,
            >(Error::DatabaseQueryError(QueryError::ForeignKeyViolation)) && *final(self) == *old(self),
            find_question(old(self).questions(), answer.question_id) is Some && old(self).next_answer_id_spec() == i32::MAX ==> r == Err::<Answer, Error>(
                Error::DatabaseQueryError(QueryError::Other),
            ) && *final(self) == *old(self),
            find_question(old(self).questions(), answer.question_id) is Some && old(self).next_answer_id_spec() < i32::MAX ==> {
                &&& r == Ok::<Answer, Error>(
                    (Answer {
                        id: AnswerId(old(self).next_answer_id_spec()),
                        content: answer.content,
                        question_id: answer.question_id,
                    }),
                )
                &&& final(self).answers() == old(self).answers().push(
                    ((Answer {
                        id: AnswerId(old(self).next_answer_id_spec()),
                        content: answer.content,
                        question_id: answer.question_id,
                    }), account_id),
                )
                &&& final(self).next_answer_id_spec() == old(self).next_answer_id_spec() + 1
                &&& final(self).accounts() == old(self).accounts()
                &&& final(self).questions() == old(self).questions()
                &&& final(self).next_question_id_spec() == old(self).next_question_id_spec()
            },
    {
        if self.question_index(answer.question_id).is_none() {
            return Err(Error::DatabaseQueryError(QueryError::ForeignKeyViolation));
        }
        if self.next_answer_id == i32::MAX {
            return Err(Error::DatabaseQueryError(QueryError::Other));
        }
        let a = Answer {
            id: AnswerId(self.next_answer_id),
            content: answer.content,
            question_id: answer.question_id,
        };
        let c = a.clone();
        self.answers.push((a, account_id));
        self.next_answer_id = self.next_answer_id + 1;
        proof {
            let olds = old(self).answers();
            let news = self.answers@;
            assert(news.len() == olds.len() + 1);
            assert forall|i: int|
                0 <= i < news.len() implies 1 <= (#[trigger] news[i]).0.id.0
                < self.next_answer_id by {
                if i < olds.len() {
                    assert(news[i] == olds[i]);
                }
            }
            assert forall|i: int, k: int|
                0 <= i < k < news.len() implies (#[trigger] news[i].0.id)
                != (#[trigger] news[k].0.id) by {
                assert(news[i] == olds[i]);
                if k < olds.len() {
                    assert(news[k] == olds[k]);
                } else {
                    assert(news[k].0.id.0 == old(self).next_answer_id_spec());
                }
            }
            lemma_accounts_wf_transfer(*old(self), *self);
            lemma_questions_wf_transfer(*old(self), *self);
        }
        Ok(c)
    }

    /// Replaces the content of the answer with this id, keeping id,
    /// parent question and owner, and returns the updated entity. As
    /// with questions, ownership is the caller's concern.
    pub fn update_answer(&mut self, answer: AnswerDTO, answer_id: AnswerId) -> (r: Result<
        Answer,
        Error,
    >)
        requires
            old(self).wf(),
        ensures
            final(self).wf(),
            match find_answer(old(self).answers(), answer_id) {
                None => r == Err::<Answer, Error>(
                    Error::DatabaseQueryError(QueryError::RowNotFound),
                ) && *final(self) == *old(self),
                Some(p) => {
                    &&& r == Ok::<Answer, Error>(
                        (Answer {
                            id: answer_id,
                            content: answer.content,
                            question_id: p.0.question_id,
                        }),
                    )
                    &&& final(self).answers() == old(self).answers().update(
                        answer_pos(old(self).answers(), answer_id),
                        ((Answer {
                            id: answer_id,
                            content: answer.content,
                            question_id: p.0.question_id,
                        }), p.1),
                    )
                    &&& final(self).accounts() == old(self).accounts()
                    &&& final(self).questions() == old(self).questions()
                    &&& final(self).next_question_id_spec() == old(self).next_question_id_spec()
                    &&& final(self).next_answer_id_spec() == old(self).next_answer_id_spec()
                },
            },
    {
        match self.answer_index(answer_id) {
            None => Err(Error::DatabaseQueryError(QueryError::RowNotFound)),
            Some(j) => {
                let owner = self.answers[j].1;
                let parent = self.answers[j].0.question_id;
                let a = Answer { id: answer_id, content: answer.content, question_id: parent };
                let c = a.clone();
                self.answers[j] = (a, owner);
                proof {
                    let olds = old(self).answers();
                    let news = self.answers@;
                    assert forall|i: int|
                        0 <= i < news.len() implies 1 <= (#[trigger] news[i]).0.id.0
                        < self.next_answer_id by {
                        if i != j {
                            assert(news[i] == olds[i]);
                        } else {
                            assert(olds[j as int].0.id == answer_id);
                        }
                    }
                    assert forall|i: int, k: int|
                        0 <= i < k < news.len() implies (#[trigger] news[i].0.id)
                        != (#[trigger] news[k].0.id) by {
                        assert(news[i].0.id == olds[i].0.id);
                        assert(news[k].0.id == olds[k].0.id);
                    }
                    lemma_accounts_wf_transfer(*old(self), *self);
                    lemma_questions_wf_transfer(*old(self), *self);
                }
                Ok(c)
            },
        }
    }
}

/// A search misses a freshly pushed account until the last position,
/// so lookup after an insert under a fresh email finds exactly the
/// inserted account.
pub proof fn lemma_find_account_after_push(accs: Seq<Account>, acct: Account)
    requires
        find_account(accs, acct.email@) is None,
    ensures
        find_account(accs.push(acct), acct.email@) == Some(acct),
    decreases accs.len(),
{
    lemma_account_pos_nonneg(accs, acct.email@);
    if accs.len() == 0 {
        assert(accs.push(acct)[0] == acct);
    } else {
        assert(accs.push(acct)[0] == accs[0]);
        if accs[0].email@ != acct.email@ {
            assert(accs.push(acct).drop_first() =~= accs.drop_first().push(acct));
            assert(find_account(accs.drop_first(), acct.email@) is None) by {
                lemma_account_pos_nonneg(accs.drop_first(), acct.email@);
            }
            lemma_find_account_after_push(accs.drop_first(), acct);
            let inner = accs.drop_first().push(acct);
            lemma_account_pos_nonneg(inner, acct.email@);
            assert(accs.push(acct)[1 + account_pos(inner, acct.email@)] == inner[account_pos(
                inner,
                acct.email@,
            )]);
        }
    }
}

/// A question whose id is nowhere in the store sits at the end after a
/// push, so lookup by its id finds exactly the pushed entry.
pub proof fn lemma_find_question_after_push(
    qs: Seq<(Question, AccountId)>,
    entry: (Question, AccountId),
)
    requires
        forall|i: int| 0 <= i < qs.len() ==> (#[trigger] qs[i].0.id) != entry.0.id,
    ensures
        find_question(qs.push(entry), entry.0.id) == Some(entry),
    decreases qs.len(),
{
    if qs.len() == 0 {
        assert(qs.push(entry)[0] == entry);
    } else {
        assert(qs.push(entry)[0] == qs[0]);
        assert(qs[0].0.id != entry.0.id);
        assert(qs.push(entry).drop_first() =~= qs.drop_first().push(entry));
        assert forall|i: int|
            0 <= i < qs.drop_first().len() implies (#[trigger] qs.drop_first()[i].0.id)
            != entry.0.id by {
            assert(qs.drop_first()[i] == qs[i + 1]);
        }
        lemma_find_question_after_push(qs.drop_first(), entry);
        let inner = qs.drop_first().push(entry);
        lemma_question_pos_nonneg(inner, entry.0.id);
        assert(qs.push(entry)[1 + question_pos(inner, entry.0.id)] == inner[question_pos(
            inner,
            entry.0.id,
        )]);
    }
}

/// Law: creating a question and fetching it straight back finds the
/// stored entity with its owner — the round trip loses nothing. The
/// premise is exactly what `create_question` establishes: the new
/// entry carries the id the counter assigned, which the invariant puts
/// above every stored id.
pub proof fn lemma_create_then_get(
    before: InMemoryRepository,
    after: InMemoryRepository,
    q: Question,
    owner: AccountId,
)
    requires
        before.wf(),
        q.id.0 == before.next_question_id_spec(),
        after.questions() == before.questions().push((q, owner)),
    ensures
        find_question(after.questions(), q.id) == Some((q, owner)),
{
    assert forall|i: int|
        0 <= i < before.questions().len() implies (#[trigger] before.questions()[i].0.id)
        != q.id by {
        assert(before.questions()[i].0.id.0 < before.next_question_id_spec());
    }
    lemma_find_question_after_push(before.questions(), (q, owner));
}

/// Law: a stored resource is owned by exactly the account recorded
/// beside it. The owner answer `is_question_owner` must give is true
/// for that account and false for every other, so a mutation by any
/// other account is refused.
pub proof fn lemma_owner_exclusive(
    repository: InMemoryRepository,
    question_id: QuestionId,
    owner: AccountId,
    other: AccountId,
)
    requires
        find_question(repository.questions(), question_id) matches Some(p) && p.1 == owner,
        other != owner,
    ensures
        (match find_question(repository.questions(), question_id) {
            Some(p) => p.1 == owner,
            None => false,
        }),
        !(match find_question(repository.questions(), question_id) {
            Some(p) => p.1 == other,
            None => false,
        }),
{
}

/// Law: with no pagination the page is the whole store, newest first.
pub proof fn lemma_page_no_pagination(qs: Seq<(Question, AccountId)>)
    ensures
        page_of(qs, None, 0).len() == qs.len(),
        forall|i: int|
            0 <= i < qs.len() ==> #[trigger] page_of(qs, None, 0)[i] == qs[qs.len() - 1 - i].0,
{
}

/// Law: a limit of one with an offset of one yields exactly the
/// second-newest row.
pub proof fn lemma_page_second_newest(qs: Seq<(Question, AccountId)>)
    requires
        qs.len() >= 2,
    ensures
        page_of(qs, Some(1), 1) =~= seq![qs[qs.len() - 2].0],
{
}

/// Positions are never negative, for any of the three searches.
pub proof fn lemma_account_pos_nonneg(accs: Seq<Account>, email: Seq<char>)
    ensures
        0 <= account_pos(accs, email),
    decreases accs.len(),
{
    if accs.len() > 0 && accs[0].email@ != email {
        lemma_account_pos_nonneg(accs.drop_first(), email);
    }
}

pub proof fn lemma_question_pos_nonneg(qs: Seq<(Question, AccountId)>, id: QuestionId)
    ensures
        0 <= question_pos(qs, id),
    decreases qs.len(),
{
    if qs.len() > 0 && qs[0].0.id != id {
        lemma_question_pos_nonneg(qs.drop_first(), id);
    }
}

/// The account invariant only reads the accounts, so it carries over
/// between stores whose accounts agree.
pub proof fn lemma_accounts_wf_transfer(a: InMemoryRepository, b: InMemoryRepository)
    requires
        a.accounts_wf(),
        b.accounts() == a.accounts(),
    ensures
        b.accounts_wf(),
{
    assert forall|i: int|
        0 <= i < b.accounts().len() implies (#[trigger] b.accounts()[i]).id == Some(
        AccountId((i + 1) as i32),
    ) by {
        assert(b.accounts()[i] == a.accounts()[i]);
    }
    assert forall|i: int, j: int|
        0 <= i < j < b.accounts().len() implies (#[trigger] b.accounts()[i].email@)
        != (#[trigger] b.accounts()[j].email@) by {
        assert(b.accounts()[i] == a.accounts()[i]);
        assert(b.accounts()[j] == a.accounts()[j]);
    }
}

/// The question invariant carries over between stores whose questions
/// and question counter agree.
pub proof fn lemma_questions_wf_transfer(a: InMemoryRepository, b: InMemoryRepository)
    requires
        a.questions_wf(),
        b.questions() == a.questions(),
        b.next_question_id_spec() == a.next_question_id_spec(),
    ensures
        b.questions_wf(),
{
    assert forall|i: int|
        0 <= i < b.questions().len() implies 1 <= (#[trigger] b.questions()[i]).0.id.0
        < b.next_question_id_spec() by {
        assert(b.questions()[i] == a.questions()[i]);
    }
    assert forall|i: int, j: int|
        0 <= i < j < b.questions().len() implies (#[trigger] b.questions()[i].0.id)
        != (#[trigger] b.questions()[j].0.id) by {
        assert(b.questions()[i] == a.questions()[i]);
        assert(b.questions()[j] == a.questions()[j]);
    }
}

/// The answer invariant carries over between stores whose answers and
/// answer counter agree.
pub proof fn lemma_answers_wf_transfer(a: InMemoryRepository, b: InMemoryRepository)
    requires
        a.answers_wf(),
        b.answers() == a.answers(),
        b.next_answer_id_spec() == a.next_answer_id_spec(),
    ensures
        b.answers_wf(),
{
    assert forall|i: int|
        0 <= i < b.answers().len() implies 1 <= (#[trigger] b.answers()[i]).0.id.0
        < b.next_answer_id_spec() by {
        assert(b.answers()[i] == a.answers()[i]);
    }
    assert forall|i: int, j: int|
        0 <= i < j < b.answers().len() implies (#[trigger] b.answers()[i].0.id)
        != (#[trigger] b.answers()[j].0.id) by {
        assert(b.answers()[i] == a.answers()[i]);
        assert(b.answers()[j] == a.answers()[j]);
    }
}

/// When no position matches, every stored email differs from the one
/// sought.
pub proof fn lemma_account_pos_misses(accs: Seq<Account>, email: Seq<char>)
    requires
        account_pos(accs, email) >= accs.len(),
    ensures
        forall|i: int| 0 <= i < accs.len() ==> (#[trigger] accs[i].email@) != email,
    decreases accs.len(),
{
    if accs.len() > 0 {
        assert(accs[0].email@ != email);
        lemma_account_pos_misses(accs.drop_first(), email);
        assert forall|i: int| 0 <= i < accs.len() implies (#[trigger] accs[i].email@) != email by {
            if i > 0 {
                assert(accs.drop_first()[i - 1] == accs[i]);
            }
        }
    }
}

} // verus!
