//! The records of the store: question identifiers, questions and answers.

use vstd::prelude::*;

use crate::errors::ErrorKind;

verus! {

/// A validated question identifier: a non-empty string.
#[derive(Debug)]
pub struct QuestionId {
    text: String,
}

impl View for QuestionId {
    type V = Seq<char>;

    closed spec fn view(&self) -> Seq<char> {
        self.text@
    }
}

impl QuestionId {
    /// A well-formed identifier is non-empty.
    pub open spec fn wf(&self) -> bool {
        self@.len() > 0
    }

    /// Builds an identifier from a string: every non-empty string is
    /// accepted unchanged, the empty string is rejected as `InvalidInput`.
    pub fn new(text: String) -> (result: Result<QuestionId, ErrorKind>)
        ensures
            text@.len() > 0 <==> result is Ok,
            result matches Ok(id) ==> id.wf() && id@ == text@,
            result matches Err(e) ==> e@ == crate::errors::ErrorV::InvalidInput,
    {
        if text.as_str().is_empty() {
            Err(ErrorKind::InvalidInput)
        } else {
            Ok(QuestionId { text })
        }
    }

    /// The identifier as the string it was built from.
    pub fn as_string(&self) -> (text: String)
        ensures
            text@ == self@,
    {
        self.text.clone()
    }

    /// Borrows the identifier's text.
    pub fn as_str(&self) -> (text: &str)
        ensures
            text@ == self@,
    {
        self.text.as_str()
    }

    /// Whether the two identifiers carry the same characters.
    pub fn same_as(&self, other: &QuestionId) -> (equal: bool)
        ensures
            equal == (self@ == other@),
    {
        self.text == other.text
    }
}

impl Clone for QuestionId {
    fn clone(&self) -> (other: Self)
        ensures
            other@ == self@,
    {
        QuestionId { text: self.text.clone() }
    }
}

/// The mathematical shape of a question.
pub ghost struct QuestionV {
    pub id: Seq<char>,
    pub title: Seq<char>,
    pub content: Seq<char>,
    pub faq: Option<Seq<Seq<char>>>,
}

/// A stored question record.
#[derive(Debug)]
pub struct Question {
    pub id: QuestionId,
    pub title: String,
    pub content: String,
    pub faq: Option<Vec<String>>,
}

impl View for Question {
    type V = QuestionV;

    open spec fn view(&self) -> QuestionV {
        QuestionV {
            id: self.id@,
            title: self.title@,
            content: self.content@,
            faq: match self.faq {
                Option::None => Option::None,
                Option::Some(entries) => Option::Some(entries.deep_view()),
            },
        }
    }
}

impl Question {
    /// A well-formed question carries a well-formed identifier.
    pub open spec fn wf(&self) -> bool {
        self.id.wf()
    }
}

/// Copies a vector of strings, keeping every element's characters.
fn clone_strings(entries: &Vec<String>) -> (copy: Vec<String>)
    ensures
        copy.deep_view() == entries.deep_view(),
{
    let mut copy: Vec<String> = Vec::new();
    let mut i: usize = 0;
    while i < entries.len()
        invariant
            i <= entries.len(),
            copy@.len() == i,
            forall|j: int| 0 <= j < i ==> copy@[j] == entries@[j],
        decreases entries.len() - i,
    {
        copy.push(entries[i].clone());
        i += 1;
    }
    proof {
        assert(copy.deep_view() =~= entries.deep_view());
    }
    copy
}

impl Clone for Question {
    fn clone(&self) -> (other: Self)
        ensures
            other@ == self@,
    {
        Question {
            id: self.id.clone(),
            title: self.title.clone(),
            content: self.content.clone(),
            faq: match &self.faq {
                Option::None => Option::None,
                Option::Some(entries) => Option::Some(clone_strings(entries)),
            },
        }
    }
}

/// The mathematical shape of an answer.
pub ghost struct AnswerV {
    pub id: Seq<char>,
    pub content: Seq<char>,
    pub question_id: Seq<char>,
}

/// A stored answer record; its identifier is the token the store assigned
/// at creation.
#[derive(Debug)]
pub struct Answer {
    pub id: String,
    pub content: String,
    pub question_id: QuestionId,
}

impl View for Answer {
    type V = AnswerV;

    open spec fn view(&self) -> AnswerV {
        AnswerV { id: self.id@, content: self.content@, question_id: self.question_id@ }
    }
}

impl Clone for Answer {
    fn clone(&self) -> (other: Self)
        ensures
            other@ == self@,
    {
        Answer {
            id: self.id.clone(),
            content: self.content.clone(),
            question_id: self.question_id.clone(),
        }
    }
}

} // verus!
