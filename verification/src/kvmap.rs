//! Association sequences of string-keyed entries and the finite maps they
//! denote.
//!
//! The store keeps its questions and answers in vectors of records; contracts
//! speak of the mapping from identifier to record. This module defines that
//! mapping and proves how pushing, updating and removing an entry of the
//! sequence acts on it.

use vstd::prelude::*;

verus! {

/// Whether the keys of the entries are pairwise distinct.
pub open spec fn distinct_keys<V>(entries: Seq<(Seq<char>, V)>) -> bool {
    forall|i: int, j: int| 0 <= i < j < entries.len() ==> entries[i].0 != entries[j].0
}

/// The finite map an association sequence denotes; a later entry for the
/// same key shadows an earlier one.
pub open spec fn map_of<V>(entries: Seq<(Seq<char>, V)>) -> Map<Seq<char>, V>
    decreases entries.len(),
{
    if entries.len() == 0 {
        Map::empty()
    } else {
        map_of(entries.drop_last()).insert(entries.last().0, entries.last().1)
    }
}

/// A key is in the map exactly when some entry carries it.
pub proof fn lemma_map_of_contains<V>(entries: Seq<(Seq<char>, V)>, key: Seq<char>)
    ensures
        map_of(entries).contains_key(key) <==> (exists|i: int|
            0 <= i < entries.len() && entries[i].0 == key),
    decreases entries.len(),
{
    if entries.len() > 0 {
        let prefix = entries.drop_last();
        lemma_map_of_contains(prefix, key);
        if entries.last().0 == key {
            assert(entries[entries.len() - 1].0 == key);
        } else {
            if exists|i: int| 0 <= i < entries.len() && entries[i].0 == key {
                let i = choose|i: int| 0 <= i < entries.len() && entries[i].0 == key;
                assert(prefix[i].0 == key);
            }
            if exists|i: int| 0 <= i < prefix.len() && prefix[i].0 == key {
                let i = choose|i: int| 0 <= i < prefix.len() && prefix[i].0 == key;
                assert(entries[i].0 == key);
            }
        }
    }
}

/// Dropping the last entry keeps the keys distinct.
pub proof fn lemma_distinct_drop_last<V>(entries: Seq<(Seq<char>, V)>)
    requires
        distinct_keys(entries),
        entries.len() > 0,
    ensures
        distinct_keys(entries.drop_last()),
{
    let prefix = entries.drop_last();
    assert forall|i: int, j: int| 0 <= i < j < prefix.len() implies prefix[i].0 != prefix[j].0 by {
        assert(entries[i].0 != entries[j].0);
    }
}

/// With distinct keys, each entry is found at its own key.
pub proof fn lemma_map_of_index<V>(entries: Seq<(Seq<char>, V)>, i: int)
    requires
        distinct_keys(entries),
        0 <= i < entries.len(),
    ensures
        map_of(entries).contains_key(entries[i].0),
        map_of(entries)[entries[i].0] == entries[i].1,
    decreases entries.len(),
{
    if i < entries.len() - 1 {
        lemma_distinct_drop_last(entries);
        lemma_map_of_index(entries.drop_last(), i);
        assert(entries.drop_last()[i] == entries[i]);
        assert(entries[i].0 != entries.last().0);
    }
}

/// With distinct keys, the map is exactly as large as the sequence.
pub proof fn lemma_map_of_len<V>(entries: Seq<(Seq<char>, V)>)
    requires
        distinct_keys(entries),
    ensures
        map_of(entries).dom().finite(),
        map_of(entries).len() == entries.len(),
    decreases entries.len(),
{
    broadcast use vstd::set::axiom_set_insert_len;

    if entries.len() == 0 {
        assert(map_of(entries).dom() =~= Set::<Seq<char>>::empty());
    } else {
        let prefix = entries.drop_last();
        let key = entries.last().0;
        lemma_distinct_drop_last(entries);
        lemma_map_of_len(prefix);
        lemma_map_of_contains(prefix, key);
        assert(forall|j: int| 0 <= j < prefix.len() ==> (#[trigger] prefix[j]).0 != key);
        assert(!map_of(prefix).contains_key(key));
        assert(map_of(entries).dom() =~= map_of(prefix).dom().insert(key));
    }
}

/// Pushing an entry inserts its key.
pub proof fn lemma_map_of_push<V>(entries: Seq<(Seq<char>, V)>, entry: (Seq<char>, V))
    ensures
        map_of(entries.push(entry)) == map_of(entries).insert(entry.0, entry.1),
{
    assert(entries.push(entry).drop_last() =~= entries);
    assert(entries.push(entry).last() == entry);
}

/// Updating the entry that carries a key re-inserts that key.
pub proof fn lemma_map_of_update<V>(entries: Seq<(Seq<char>, V)>, i: int, entry: (Seq<char>, V))
    requires
        distinct_keys(entries),
        0 <= i < entries.len(),
        entries[i].0 == entry.0,
    ensures
        map_of(entries.update(i, entry)) == map_of(entries).insert(entry.0, entry.1),
    decreases entries.len(),
{
    let updated = entries.update(i, entry);
    let prefix = entries.drop_last();
    lemma_distinct_drop_last(entries);
    if i == entries.len() - 1 {
        assert(updated.drop_last() =~= prefix);
        assert(updated.last() == entry);
        assert(map_of(prefix).insert(entries.last().0, entries.last().1).insert(entry.0, entry.1)
            =~= map_of(prefix).insert(entry.0, entry.1));
    } else {
        assert(updated.drop_last() =~= prefix.update(i, entry));
        assert(updated.last() == entries.last());
        lemma_map_of_update(prefix, i, entry);
        assert(entry.0 != entries.last().0);
        assert(map_of(prefix).insert(entry.0, entry.1).insert(
            entries.last().0,
            entries.last().1,
        ) =~= map_of(prefix).insert(entries.last().0, entries.last().1).insert(entry.0, entry.1));
    }
}

/// Removing the entry that carries a key removes that key.
pub proof fn lemma_map_of_remove<V>(entries: Seq<(Seq<char>, V)>, i: int)
    requires
        distinct_keys(entries),
        0 <= i < entries.len(),
    ensures
        map_of(entries.remove(i)) == map_of(entries).remove(entries[i].0),
    decreases entries.len(),
{
    let shorter = entries.remove(i);
    let prefix = entries.drop_last();
    lemma_distinct_drop_last(entries);
    if i == entries.len() - 1 {
        assert(shorter =~= prefix);
        lemma_map_of_contains(prefix, entries[i].0);
        assert(forall|j: int|
            0 <= j < prefix.len() ==> #[trigger] prefix[j].0 != entries[i as int].0);
        assert(map_of(prefix).insert(entries.last().0, entries.last().1).remove(entries[i].0)
            =~= map_of(prefix));
    } else {
        assert(shorter.drop_last() =~= prefix.remove(i));
        assert(shorter.len() == entries.len() - 1);
        assert(shorter.last() == entries.last());
        lemma_map_of_remove(prefix, i);
        assert(entries[i].0 != entries.last().0);
        assert(map_of(prefix).remove(entries[i].0).insert(entries.last().0, entries.last().1)
            =~= map_of(prefix).insert(entries.last().0, entries.last().1).remove(entries[i].0));
    }
}

} // verus!
