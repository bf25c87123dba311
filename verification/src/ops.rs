//! The request-shaped operations: each one validates its plain inputs,
//! touches the store, and returns a value or a classified error.

use vstd::prelude::*;
use vstd::string::*;

use crate::errors::{ErrorKind, ErrorV};
use crate::pagination::{extract_pagination, spec_extract_pagination};
use crate::params::{lookup, QueryParams};
use crate::store::Store;
use crate::types::{Question, QuestionId, QuestionV, Answer};

verus! {

/// Whether `list` copies the records of `questions` at positions
/// `[start, end)`, in order.
pub open spec fn is_question_slice(
    list: Seq<Question>,
    questions: Seq<QuestionV>,
    start: int,
    end: int,
) -> bool {
    &&& list.len() == end - start
    &&& forall|i: int| 0 <= i < list.len() ==> (#[trigger] list[i])@ == questions[start + i]
}

/// Lists questions. Without parameters the whole snapshot is returned; with
/// parameters the resolved `[start, end)` range is applied and a range that
/// does not fit the snapshot fails with `OutOfIndex`.
pub fn get_questions(params: &QueryParams, store: &Store) -> (listed: Result<
    Vec<Question>,
    ErrorKind,
>)
    requires
        store.wf(),
    ensures
        params@.len() == 0 ==> (listed matches Ok(list) && is_question_slice(
            list@,
            store.question_seq(),
            0,
            store.question_seq().len() as int,
        )),
        params@.len() > 0 ==> (match spec_extract_pagination(params@) {
            Result::Err(e) => listed matches Err(err) && err@ == e,
            Result::Ok(range) => {
                if 0 <= range.0 <= range.1 <= store.question_seq().len() {
                    listed matches Ok(list) && is_question_slice(
                        list@,
                        store.question_seq(),
                        range.0,
                        range.1,
                    )
                } else {
                    listed matches Err(err) && err@ == ErrorV::OutOfIndex
                }
            },
        }),
{
    if params.is_empty() {
        return Ok(store.list_questions());
    }
    let pagination = match extract_pagination(params) {
        Ok(pagination) => pagination,
        Err(error) => {
            return Err(error);
        },
    };
    let snapshot = store.list_questions();
    if pagination.start > pagination.end || pagination.end > snapshot.len() {
        return Err(ErrorKind::OutOfIndex);
    }
    let mut page: Vec<Question> = Vec::new();
    let mut i: usize = pagination.start;
    while i < pagination.end
        invariant
            pagination.start <= i <= pagination.end,
            pagination.end <= snapshot@.len(),
            page@.len() == i - pagination.start,
            forall|j: int|
                0 <= j < page@.len() ==> (#[trigger] page@[j])@ == snapshot@[
                    pagination.start + j
                ]@,
        decreases pagination.end - i,
    {
        page.push(snapshot[i].clone());
        i += 1;
    }
    proof {
        assert(is_question_slice(
            page@,
            store.question_seq(),
            pagination.start as int,
            pagination.end as int,
        ));
    }
    Ok(page)
}

/// Fetches one question by its identifier string: an empty identifier is
/// `InvalidInput`, an unknown one `QuestionNotFound`.
pub fn get_single_question(id: String, store: &Store) -> (found: Result<Question, ErrorKind>)
    requires
        store.wf(),
    ensures
        id@.len() == 0 ==> (found matches Err(e) && e@ == ErrorV::InvalidInput),
        id@.len() > 0 && !store@.questions.contains_key(id@) ==> (found matches Err(e) && e@
            == ErrorV::QuestionNotFound),
        id@.len() > 0 && store@.questions.contains_key(id@) ==> (found matches Ok(q) && q@
            == store@.questions[id@]),
{
    let question_id = match QuestionId::new(id) {
        Ok(question_id) => question_id,
        Err(error) => {
            return Err(error);
        },
    };
    match store.get_question(&question_id) {
        Some(question) => Ok(question),
        None => Err(ErrorKind::QuestionNotFound),
    }
}

/// Creates a question (upsert): a colliding identifier silently replaces
/// the stored record, and the operation always succeeds.
pub fn add_question(store: &mut Store, question: Question) -> (created: Result<(), ErrorKind>)
    requires
        old(store).wf(),
        question.wf(),
    ensures
        final(store).wf(),
        created is Ok,
        final(store)@.questions == old(store)@.questions.insert(question@.id, question@),
        final(store)@.answers == old(store)@.answers,
{
    store.insert_question(question);
    Ok(())
}

/// Updates the question stored under the path-supplied identifier. The
/// stored record keeps that identifier whatever identifier the body
/// carries; an empty identifier is `InvalidInput` and an unknown one
/// `QuestionNotFound`, each leaving the store unchanged.
pub fn update_question(id: String, store: &mut Store, question: Question) -> (updated: Result<
    (),
    ErrorKind,
>)
    requires
        old(store).wf(),
    ensures
        final(store).wf(),
        id@.len() == 0 ==> (updated matches Err(e) && e@ == ErrorV::InvalidInput && *final(store)
            == *old(store)),
        id@.len() > 0 && !old(store)@.questions.contains_key(id@) ==> (updated matches Err(e)
            && e@ == ErrorV::QuestionNotFound && *final(store) == *old(store)),
        id@.len() > 0 && old(store)@.questions.contains_key(id@)
            ==> updated is Ok && final(store)@.questions == old(store)@.questions.insert(
            id@,
            (QuestionV {
                id: id@,
                title: question@.title,
                content: question@.content,
                faq: question@.faq,
            }),
        ) && final(store)@.answers == old(store)@.answers,
{
    let question_id = match QuestionId::new(id) {
        Ok(question_id) => question_id,
        Err(error) => {
            return Err(error);
        },
    };
    if store.replace_question(&question_id, question) {
        Ok(())
    } else {
        Err(ErrorKind::QuestionNotFound)
    }
}

/// Deletes the question stored under the identifier: an empty identifier is
/// `InvalidInput` and an unknown one `QuestionNotFound`, each leaving the
/// store unchanged.
pub fn delete_question(id: String, store: &mut Store) -> (deleted: Result<(), ErrorKind>)
    requires
        old(store).wf(),
    ensures
        final(store).wf(),
        id@.len() == 0 ==> (deleted matches Err(e) && e@ == ErrorV::InvalidInput && *final(store)
            == *old(store)),
        id@.len() > 0 && !old(store)@.questions.contains_key(id@) ==> (deleted matches Err(e)
            && e@ == ErrorV::QuestionNotFound && *final(store) == *old(store)),
        id@.len() > 0 && old(store)@.questions.contains_key(id@)
            ==> deleted is Ok && final(store)@.questions == old(store)@.questions.remove(id@)
            && final(store)@.answers == old(store)@.answers,
{
    let question_id = match QuestionId::new(id) {
        Ok(question_id) => question_id,
        Err(error) => {
            return Err(error);
        },
    };
    if store.remove_question(&question_id) {
        Ok(())
    } else {
        Err(ErrorKind::QuestionNotFound)
    }
}

/// Creates an answer from form parameters: `content` is required before
/// `relationId`, and the relation must name a stored question; the created
/// answer, fresh identifier included, is returned.
pub fn add_answer(store: &mut Store, params: &QueryParams) -> (created: Result<Answer, ErrorKind>)
    requires
        old(store).wf(),
    ensures
        final(store).wf(),
        lookup(params@, "content"@) is None ==> (created matches Err(e) && e@
            == ErrorV::MissingParameter("content"@) && *final(store) == *old(store)),
        lookup(params@, "content"@) is Some && lookup(params@, "relationId"@) is None
            ==> (created matches Err(e) && e@ == ErrorV::MissingParameter("relationId"@)
            && *final(store) == *old(store)),
        lookup(params@, "content"@) matches Some(content)
            ==> lookup(params@, "relationId"@) matches Some(relation) ==> {
            &&& !old(store)@.questions.contains_key(relation) ==> (created matches Err(e) && e@
                == ErrorV::QuestionNotFound && *final(store) == *old(store))
            &&& old(store)@.questions.contains_key(relation) ==> (created matches Ok(answer)
                && answer@.content == content
                && answer@.question_id == relation
                && !old(store)@.answers.contains_key(answer@.id)
                && final(store)@.answers == old(store)@.answers.insert(answer@.id, answer@)
                && final(store)@.questions == old(store)@.questions)
        },
{
    let content_key = String::from_str("content");
    let relation_key = String::from_str("relationId");
    let content = match params.get(&content_key) {
        Some(content) => content,
        None => {
            return Err(ErrorKind::MissingParameter(content_key));
        },
    };
    let relation = match params.get(&relation_key) {
        Some(relation) => relation,
        None => {
            return Err(ErrorKind::MissingParameter(relation_key));
        },
    };
    let ghost relation_view = relation@;
    let question_id = match QuestionId::new(relation) {
        Ok(question_id) => question_id,
        Err(_) => {
            // The relation was the empty string; no stored question carries
            // an empty identifier, so the relation cannot exist.
            proof {
                store.lemma_question_keys_nonempty(relation_view);
            }
            return Err(ErrorKind::QuestionNotFound);
        },
    };
    store.insert_answer(content, question_id)
}

} // verus!
