//! The registry of questions and answers.
//!
//! The store owns every mutation and read. Its contracts speak of two finite
//! maps, from identifier to question and from identifier to answer; the
//! vectors underneath keep their keys pairwise distinct.

use vstd::prelude::*;
use vstd::string::*;

use crate::errors::{ErrorKind, ErrorV};
use crate::kvmap::{
    distinct_keys, lemma_map_of_contains, lemma_map_of_index, lemma_map_of_len, lemma_map_of_push,
    lemma_map_of_remove, lemma_map_of_update, map_of,
};
use crate::token::random_token;
use crate::types::{Answer, AnswerV, Question, QuestionId, QuestionV};

verus! {

/// The mathematical state of the store: its two keyed collections.
pub ghost struct StoreV {
    pub questions: Map<Seq<char>, QuestionV>,
    pub answers: Map<Seq<char>, AnswerV>,
}

/// The in-memory registry. One value of this type is created at startup and
/// shared, behind a lock the adapter owns, by every request handler.
#[derive(Debug)]
pub struct Store {
    questions: Vec<Question>,
    answers: Vec<Answer>,
}

impl View for Store {
    type V = StoreV;

    closed spec fn view(&self) -> StoreV {
        StoreV {
            questions: map_of(self.question_entries()),
            answers: map_of(self.answer_entries()),
        }
    }
}

impl Store {
    /// The stored questions as key/record entries, in listing order.
    pub closed spec fn question_entries(self) -> Seq<(Seq<char>, QuestionV)> {
        self.questions@.map_values(|q: Question| (q@.id, q@))
    }

    /// The stored answers as key/record entries, in insertion order.
    pub closed spec fn answer_entries(self) -> Seq<(Seq<char>, AnswerV)> {
        self.answers@.map_values(|a: Answer| (a@.id, a@))
    }

    /// The stored questions in listing order.
    pub open spec fn question_seq(self) -> Seq<QuestionV> {
        self.question_entries().map_values(|e: (Seq<char>, QuestionV)| e.1)
    }

    /// The store's invariant: keys are pairwise distinct in both collections,
    /// every entry is keyed by its own record's identifier, and every
    /// question identifier is non-empty.
    pub open spec fn wf(self) -> bool {
        &&& distinct_keys(self.question_entries())
        &&& distinct_keys(self.answer_entries())
        &&& forall|i: int|
            0 <= i < self.question_entries().len()
                ==> (#[trigger] self.question_entries()[i]).0.len() > 0
        &&& forall|i: int|
            0 <= i < self.question_entries().len()
                ==> (#[trigger] self.question_entries()[i]).0
                    == self.question_entries()[i].1.id
        &&& forall|i: int|
            0 <= i < self.answer_entries().len()
                ==> (#[trigger] self.answer_entries()[i]).0 == self.answer_entries()[i].1.id
    }

    /// An empty registry.
    pub fn new() -> (store: Store)
        ensures
            store.wf(),
            store@.questions == Map::<Seq<char>, QuestionV>::empty(),
            store@.answers == Map::<Seq<char>, AnswerV>::empty(),
            store.question_seq().len() == 0,
    {
        let store = Store { questions: Vec::new(), answers: Vec::new() };
        proof {
            assert(store.question_entries().len() == 0);
            assert(store.answer_entries().len() == 0);
        }
        store
    }

    /// No stored question carries an empty identifier, so an empty key is
    /// never found.
    pub proof fn lemma_question_keys_nonempty(self, key: Seq<char>)
        requires
            self.wf(),
            key.len() == 0,
        ensures
            !self@.questions.contains_key(key),
    {
        lemma_map_of_contains(self.question_entries(), key);
    }

    /// The listing and the questions map hold exactly the same records:
    /// there are as many listed questions as stored ones, no two listed
    /// questions share an identifier, every listed question is stored under
    /// its own identifier, and every stored record appears somewhere in the
    /// listing. Listing order carries no more information than the map.
    pub proof fn lemma_listing_is_store_contents(self)
        requires
            self.wf(),
        ensures
            self.question_seq().len() == self@.questions.len(),
            forall|i: int, j: int|
                0 <= i < j < self.question_seq().len()
                    ==> (#[trigger] self.question_seq()[i]).id != (
                    #[trigger] self.question_seq()[j]).id,
            forall|i: int|
                0 <= i < self.question_seq().len() ==> self@.questions.contains_key(
                    (#[trigger] self.question_seq()[i]).id,
                ) && self@.questions[self.question_seq()[i].id] == self.question_seq()[i],
            forall|key: Seq<char>|
                #[trigger] self@.questions.contains_key(key) ==> exists|i: int|
                    0 <= i < self.question_seq().len()
                        && (#[trigger] self.question_seq()[i]).id == key
                        && self.question_seq()[i] == self@.questions[key],
    {
        let entries = self.question_entries();
        lemma_map_of_len(entries);
        assert forall|i: int, j: int|
            0 <= i < j < self.question_seq().len() implies (#[trigger] self.question_seq()[i]).id
            != (#[trigger] self.question_seq()[j]).id by {
            assert(entries[i].0 != entries[j].0);
        }
        assert forall|i: int|
            0 <= i < self.question_seq().len() implies self@.questions.contains_key(
            (#[trigger] self.question_seq()[i]).id,
        ) && self@.questions[self.question_seq()[i].id] == self.question_seq()[i] by {
            assert(entries[i].0 == self.question_seq()[i].id);
            lemma_map_of_index(entries, i);
        }
        assert forall|key: Seq<char>| #[trigger] self@.questions.contains_key(key) implies exists|
            i: int,
        |
            0 <= i < self.question_seq().len() && (#[trigger] self.question_seq()[i]).id == key
                && self.question_seq()[i] == self@.questions[key] by {
            lemma_map_of_contains(entries, key);
            let i = choose|i: int| 0 <= i < entries.len() && entries[i].0 == key;
            lemma_map_of_index(entries, i);
            assert(self.question_seq()[i].id == key
                && self.question_seq()[i] == self@.questions[key]);
        }
    }

    /// Finds the position of the question that carries `id`, if any.
    fn find_question(&self, id: &QuestionId) -> (position: Option<usize>)
        ensures
            position matches Some(i) ==> i < self.question_entries().len()
                && self.question_entries()[i as int].0 == id@,
            position is None ==> forall|j: int|
                0 <= j < self.question_entries().len()
                    ==> (#[trigger] self.question_entries()[j]).0 != id@,
    {
        let mut i: usize = 0;
        while i < self.questions.len()
            invariant
                i <= self.questions.len(),
                forall|j: int|
                    0 <= j < i ==> (#[trigger] self.question_entries()[j]).0 != id@,
            decreases self.questions.len() - i,
        {
            if self.questions[i].id.same_as(id) {
                return Some(i);
            }
            i += 1;
        }
        None
    }

    /// Whether a question with this identifier is stored.
    pub fn question_exists(&self, id: &QuestionId) -> (present: bool)
        ensures
            present == self@.questions.contains_key(id@),
    {
        proof {
            lemma_map_of_contains(self.question_entries(), id@);
        }
        self.find_question(id).is_some()
    }

    /// Looks a question up by identifier and returns a copy of it.
    pub fn get_question(&self, id: &QuestionId) -> (found: Option<Question>)
        requires
            self.wf(),
        ensures
            found matches Some(q) ==> self@.questions.contains_key(id@)
                && q@ == self@.questions[id@],
            found is None ==> !self@.questions.contains_key(id@),
    {
        proof {
            lemma_map_of_contains(self.question_entries(), id@);
        }
        match self.find_question(id) {
            Some(i) => {
                proof {
                    lemma_map_of_index(self.question_entries(), i as int);
                }
                Some(self.questions[i].clone())
            },
            None => None,
        }
    }

    /// A copy of every stored question, in listing order.
    pub fn list_questions(&self) -> (list: Vec<Question>)
        ensures
            list@.len() == self.question_seq().len(),
            forall|i: int|
                0 <= i < list@.len() ==> (#[trigger] list@[i])@ == self.question_seq()[i],
    {
        let mut list: Vec<Question> = Vec::new();
        let mut i: usize = 0;
        while i < self.questions.len()
            invariant
                i <= self.questions.len(),
                list@.len() == i,
                forall|j: int|
                    0 <= j < i ==> (#[trigger] list@[j])@ == self.question_seq()[j],
            decreases self.questions.len() - i,
        {
            list.push(self.questions[i].clone());
            i += 1;
        }
        list
    }

    /// Inserts a question, overwriting any stored question that carries the
    /// same identifier (upsert).
    pub fn insert_question(&mut self, question: Question)
        requires
            old(self).wf(),
            question.wf(),
        ensures
            final(self).wf(),
            final(self)@.questions == old(self)@.questions.insert(question@.id, question@),
            final(self)@.answers == old(self)@.answers,
    {
        let ghost old_entries = self.question_entries();
        let ghost entry = (question@.id, question@);
        match self.find_question(&question.id) {
            Some(i) => {
                self.questions.remove(i);
                self.questions.insert(i, question);
                proof {
                    assert(self.question_entries() =~= old_entries.update(i as int, entry));
                    lemma_map_of_update(old_entries, i as int, entry);
                    assert(distinct_keys(self.question_entries()));
                }
            },
            None => {
                self.questions.push(question);
                proof {
                    assert(self.question_entries() =~= old_entries.push(entry));
                    lemma_map_of_push(old_entries, entry);
                    assert(distinct_keys(self.question_entries()));
                }
            },
        }
    }

    /// Replaces the question stored under `id`, keeping the path-supplied
    /// identifier whatever identifier the new record carries, and reports
    /// whether it existed. An absent identifier leaves the store unchanged.
    pub fn replace_question(&mut self, id: &QuestionId, question: Question) -> (existed: bool)
        requires
            old(self).wf(),
            id.wf(),
        ensures
            final(self).wf(),
            existed == old(self)@.questions.contains_key(id@),
            existed ==> final(self)@.questions == old(self)@.questions.insert(
                id@,
                (QuestionV {
                    id: id@,
                    title: question@.title,
                    content: question@.content,
                    faq: question@.faq,
                }),
            ),
            !existed ==> *final(self) == *old(self),
            final(self)@.answers == old(self)@.answers,
    {
        proof {
            lemma_map_of_contains(self.question_entries(), id@);
        }
        let ghost old_entries = self.question_entries();
        match self.find_question(id) {
            Some(i) => {
                let stored = Question {
                    id: id.clone(),
                    title: question.title,
                    content: question.content,
                    faq: question.faq,
                };
                let ghost entry = (stored@.id, stored@);
                self.questions.remove(i);
                self.questions.insert(i, stored);
                proof {
                    assert(self.question_entries() =~= old_entries.update(i as int, entry));
                    lemma_map_of_update(old_entries, i as int, entry);
                    assert(distinct_keys(self.question_entries()));
                }
                true
            },
            None => false,
        }
    }

    /// Removes the question stored under `id` and reports whether it
    /// existed. An absent identifier leaves the store unchanged.
    pub fn remove_question(&mut self, id: &QuestionId) -> (existed: bool)
        requires
            old(self).wf(),
        ensures
            final(self).wf(),
            existed == old(self)@.questions.contains_key(id@),
            existed ==> final(self)@.questions == old(self)@.questions.remove(id@),
            !existed ==> *final(self) == *old(self),
            final(self)@.answers == old(self)@.answers,
    {
        proof {
            lemma_map_of_contains(self.question_entries(), id@);
        }
        let ghost old_entries = self.question_entries();
        match self.find_question(id) {
            Some(i) => {
                self.questions.remove(i);
                proof {
                    assert(self.question_entries() =~= old_entries.remove(i as int));
                    lemma_map_of_remove(old_entries, i as int);
                    assert(distinct_keys(self.question_entries()));
                }
                true
            },
            None => false,
        }
    }

    /// How many answers are stored.
    pub fn answer_count(&self) -> (count: usize)
        requires
            self.wf(),
        ensures
            count == self@.answers.len(),
    {
        proof {
            lemma_map_of_len(self.answer_entries());
        }
        self.answers.len()
    }

    /// Whether an answer with this identifier is stored.
    fn answer_id_taken(&self, token: &String) -> (taken: bool)
        ensures
            taken == self@.answers.contains_key(token@),
    {
        proof {
            lemma_map_of_contains(self.answer_entries(), token@);
        }
        let mut i: usize = 0;
        while i < self.answers.len()
            invariant
                i <= self.answers.len(),
                forall|j: int|
                    0 <= j < i ==> (#[trigger] self.answer_entries()[j]).0 != token@,
            decreases self.answers.len() - i,
        {
            if self.answers[i].id == *token {
                proof {
                    assert(self.answer_entries()[i as int]
                        == (self.answers@[i as int]@.id, self.answers@[i as int]@));
                    assert(self.answer_entries()[i as int].0 == token@);
                    lemma_map_of_contains(self.answer_entries(), token@);
                }
                return true;
            }
            i += 1;
        }
        false
    }

    /// An upper bound on the length of every stored answer identifier.
    fn longest_answer_id_len(&self) -> (bound: usize)
        ensures
            forall|j: int|
                0 <= j < self.answer_entries().len()
                    ==> (#[trigger] self.answer_entries()[j]).0.len() <= bound,
    {
        let mut bound: usize = 0;
        let mut i: usize = 0;
        while i < self.answers.len()
            invariant
                i <= self.answers.len(),
                forall|j: int|
                    0 <= j < i ==> (#[trigger] self.answer_entries()[j]).0.len() <= bound,
            decreases self.answers.len() - i,
        {
            let len = self.answers[i].id.as_str().unicode_len();
            if len > bound {
                bound = len;
            }
            i += 1;
        }
        bound
    }

    /// A fresh answer identifier: the random token when it is unused, else a
    /// token stretched past the length of every stored identifier.
    fn fresh_answer_id(&self) -> (token: String)
        ensures
            !self@.answers.contains_key(token@),
    {
        let mut token = random_token();
        if !self.answer_id_taken(&token) {
            return token;
        }
        // The 36-character token collided, so some stored identifier has 36
        // characters and the longest is at least that long; one character
        // past the longest cannot collide with anything stored.
        let bound = self.longest_answer_id_len();
        proof {
            lemma_map_of_contains(self.answer_entries(), token@);
            let i = choose|i: int|
                0 <= i < self.answer_entries().len() && self.answer_entries()[i].0 == token@;
            assert(self.answer_entries()[i].0.len() <= bound);
        }
        let extra = bound - 35;
        let mut j: usize = 0;
        while j < extra
            invariant
                token@.len() == 36 + j,
            decreases extra - j,
        {
            token.append("x");
            proof {
                reveal_strlit("x");
            }
            j += 1;
        }
        proof {
            lemma_map_of_contains(self.answer_entries(), token@);
            if self@.answers.contains_key(token@) {
                let i = choose|i: int|
                    0 <= i < self.answer_entries().len()
                        && self.answer_entries()[i].0 == token@;
                assert(self.answer_entries()[i].0.len() <= bound);
            }
        }
        token
    }

    /// Creates an answer for `question_id`. When the question exists, a
    /// fresh identifier is generated, the answer is stored and a copy of it
    /// is returned; when it does not, the store is left unchanged and the
    /// failure is `QuestionNotFound`.
    pub fn insert_answer(&mut self, content: String, question_id: QuestionId) -> (created: Result<
        Answer,
        ErrorKind,
    >)
        requires
            old(self).wf(),
        ensures
            final(self).wf(),
            final(self)@.questions == old(self)@.questions,
            created is Ok <==> old(self)@.questions.contains_key(question_id@),
            created matches Err(e)
                ==> e@ == ErrorV::QuestionNotFound && *final(self) == *old(self),
            created matches Ok(answer)
                ==> answer@.content == content@
                && answer@.question_id == question_id@
                && !old(self)@.answers.contains_key(answer@.id)
                && final(self)@.answers == old(self)@.answers.insert(answer@.id, answer@),
    {
        if !self.question_exists(&question_id) {
            return Err(ErrorKind::QuestionNotFound);
        }
        let id = self.fresh_answer_id();
        let answer = Answer { id, content, question_id };
        let ghost old_entries = self.answer_entries();
        let ghost entry = (answer@.id, answer@);
        let copy = answer.clone();
        self.answers.push(answer);
        proof {
            assert(self.answer_entries() =~= old_entries.push(entry));
            lemma_map_of_push(old_entries, entry);
            lemma_map_of_contains(old_entries, entry.0);
            assert(distinct_keys(self.answer_entries()));
        }
        Ok(copy)
    }
}

} // verus!
