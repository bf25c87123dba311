//! Laws that relate the operations to one another, stated over the maps
//! that the operations' contracts speak of.

use vstd::prelude::*;

use crate::types::{AnswerV, QuestionV};

verus! {

/// Inserting a question and then getting its identifier finds that very
/// record; after removing the identifier, getting it finds nothing.
pub proof fn lemma_insert_get_remove(questions: Map<Seq<char>, QuestionV>, question: QuestionV)
    ensures
        questions.insert(question.id, question)[question.id] == question,
        !questions.insert(question.id, question).remove(question.id).contains_key(question.id),
{
}

/// Answers created one after the other never share an identifier: each
/// creation returns an identifier fresh for the answers stored before it,
/// and the earlier answer is stored by the time the later one is created.
pub proof fn lemma_fresh_answer_ids_distinct(
    answers: Map<Seq<char>, AnswerV>,
    first: AnswerV,
    second: AnswerV,
)
    requires
        !answers.insert(first.id, first).contains_key(second.id),
    ensures
        first.id != second.id,
{
}

/// Creations of questions with distinct identifiers commute: in whatever
/// order two such calls are serialized, the store ends with the same
/// contents, and each record sits under its own identifier — none is lost.
pub proof fn lemma_distinct_inserts_commute(
    questions: Map<Seq<char>, QuestionV>,
    first: QuestionV,
    second: QuestionV,
)
    requires
        first.id != second.id,
    ensures
        questions.insert(first.id, first).insert(second.id, second) == questions.insert(
            second.id,
            second,
        ).insert(first.id, first),
        questions.insert(first.id, first).insert(second.id, second)[first.id] == first,
        questions.insert(first.id, first).insert(second.id, second)[second.id] == second,
{
    assert(questions.insert(first.id, first).insert(second.id, second) =~= questions.insert(
        second.id,
        second,
    ).insert(first.id, first));
}

/// One question creation after another, in the order given: what any
/// serialization of concurrent create-question callers performs.
pub open spec fn insert_all(
    questions: Map<Seq<char>, QuestionV>,
    batch: Seq<QuestionV>,
) -> Map<Seq<char>, QuestionV>
    decreases batch.len(),
{
    if batch.len() == 0 {
        questions
    } else {
        insert_all(questions, batch.drop_last()).insert(batch.last().id, batch.last())
    }
}

/// However many callers create questions with pairwise-distinct
/// identifiers, once their calls are serialized the store holds exactly
/// one entry per identifier, each equal to the record submitted under it,
/// and every other identifier keeps whatever it held before: no entry is
/// lost or corrupted.
pub proof fn lemma_insert_all_distinct(questions: Map<Seq<char>, QuestionV>, batch: Seq<QuestionV>)
    requires
        forall|i: int, j: int| 0 <= i < j < batch.len() ==> batch[i].id != batch[j].id,
    ensures
        forall|i: int|
            0 <= i < batch.len() ==> insert_all(questions, batch).contains_key(
                (#[trigger] batch[i]).id,
            ) && insert_all(questions, batch)[batch[i].id] == batch[i],
        forall|key: Seq<char>|
            #![trigger insert_all(questions, batch).contains_key(key)]
            (forall|i: int| 0 <= i < batch.len() ==> (#[trigger] batch[i]).id != key) ==> {
                &&& insert_all(questions, batch).contains_key(key) == questions.contains_key(key)
                &&& questions.contains_key(key) ==> insert_all(questions, batch)[key]
                    == questions[key]
            },
    decreases batch.len(),
{
    if batch.len() > 0 {
        let prefix = batch.drop_last();
        let last = batch.last();
        let partial = insert_all(questions, prefix);
        let result = insert_all(questions, batch);
        assert(forall|i: int| 0 <= i < prefix.len() ==> prefix[i] == batch[i]);
        lemma_insert_all_distinct(questions, prefix);
        assert forall|i: int|
            0 <= i < batch.len() implies result.contains_key((#[trigger] batch[i]).id)
            && result[batch[i].id] == batch[i] by {
            if i < batch.len() - 1 {
                assert(partial.contains_key(batch[i].id) && partial[batch[i].id] == batch[i]);
                assert(batch[i].id != last.id);
            }
        }
        assert forall|key: Seq<char>|
            #![trigger insert_all(questions, batch).contains_key(key)]
            (forall|i: int| 0 <= i < batch.len() ==> (#[trigger] batch[i]).id != key) implies {
            &&& result.contains_key(key) == questions.contains_key(key)
            &&& questions.contains_key(key) ==> result[key] == questions[key]
        } by {
            if forall|i: int| 0 <= i < batch.len() ==> (#[trigger] batch[i]).id != key {
                assert(batch[batch.len() - 1].id != key);
                assert(forall|i: int|
                    0 <= i < prefix.len() ==> (#[trigger] prefix[i]).id != key);
                assert(partial.contains_key(key) == questions.contains_key(key));
            }
        }
    }
}

} // verus!
