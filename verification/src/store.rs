//! The candidate store: a list of entries in which no requester occurs
//! twice, read as a map from requester to candidate.

use vstd::prelude::*;
use crate::candidate::CandidateRNG;
use crate::candidate::CandidateView;

verus! {

/// One requester and its candidate.
pub struct Entry {
    pub account_id: String,
    pub candidate: CandidateRNG,
}

/// No requester has two entries.
pub open spec fn keys_distinct(entries: Seq<Entry>) -> bool {
    forall|i: int, j: int|
        0 <= i < j < entries.len() ==> (#[trigger] entries[i]).account_id@ != (
        #[trigger] entries[j]).account_id@
}

/// Whether a requester has an entry.
pub open spec fn holds(entries: Seq<Entry>, key: Seq<char>) -> bool {
    exists|i: int| 0 <= i < entries.len() && (#[trigger] entries[i]).account_id@ == key
}

/// Where a requester's entry stands.
pub open spec fn slot_of(entries: Seq<Entry>, key: Seq<char>) -> int {
    choose|i: int| 0 <= i < entries.len() && (#[trigger] entries[i]).account_id@ == key
}

/// The entries as a map from requester to candidate.
pub open spec fn as_map(entries: Seq<Entry>) -> Map<Seq<char>, CandidateView> {
    Map::new(
        |key: Seq<char>| holds(entries, key),
        |key: Seq<char>| entries[slot_of(entries, key)].candidate@,
    )
}

/// Each entry is what the map holds for its requester.
pub proof fn lemma_entry(entries: Seq<Entry>, i: int)
    requires
        keys_distinct(entries),
        0 <= i < entries.len(),
    ensures
        holds(entries, entries[i].account_id@),
        slot_of(entries, entries[i].account_id@) == i,
        as_map(entries).contains_key(entries[i].account_id@),
        as_map(entries)[entries[i].account_id@] == entries[i].candidate@,
{
    let key = entries[i].account_id@;
    let j = slot_of(entries, key);
    assert(0 <= j < entries.len() && entries[j].account_id@ == key);
}

/// Adding an entry for a requester that has none inserts into the map.
pub proof fn lemma_push(entries: Seq<Entry>, entry: Entry)
    requires
        keys_distinct(entries),
        !holds(entries, entry.account_id@),
    ensures
        keys_distinct(entries.push(entry)),
        as_map(entries.push(entry)) == as_map(entries).insert(
            entry.account_id@,
            entry.candidate@,
        ),
{
    let after = entries.push(entry);
    let key = entry.account_id@;
    let n = entries.len() as int;
    assert forall|i: int, j: int| 0 <= i < j < after.len() implies (#[trigger] after[i]).account_id@
        != (#[trigger] after[j]).account_id@ by {
        assert(after[i] == entries[i]);
        if j < n {
            assert(after[j] == entries[j]);
        }
    }
    let target = as_map(entries).insert(key, entry.candidate@);
    assert forall|q: Seq<char>| as_map(after).contains_key(q) == target.contains_key(q) by {
        if holds(after, q) {
            let j = slot_of(after, q);
            if j < n {
                assert(entries[j] == after[j]);
            }
        }
        if holds(entries, q) {
            let j = slot_of(entries, q);
            assert(after[j] == entries[j]);
        }
        if q == key {
            assert(after[n] == entry);
        }
    }
    assert forall|q: Seq<char>| as_map(after).contains_key(q) implies as_map(after)[q]
        == target[q] by {
        let j = slot_of(after, q);
        if j < n {
            assert(entries[j] == after[j]);
            lemma_entry(entries, j);
        }
    }
    assert(as_map(after) =~= target);
}

/// Replacing the candidate of an entry inserts into the map.
pub proof fn lemma_replace(entries: Seq<Entry>, i: int, entry: Entry)
    requires
        keys_distinct(entries),
        0 <= i < entries.len(),
        entries[i].account_id@ == entry.account_id@,
    ensures
        keys_distinct(entries.update(i, entry)),
        as_map(entries.update(i, entry)) == as_map(entries).insert(
            entry.account_id@,
            entry.candidate@,
        ),
{
    let after = entries.update(i, entry);
    let key = entry.account_id@;
    assert forall|a: int, b: int| 0 <= a < b < after.len() implies (#[trigger] after[a]).account_id@
        != (#[trigger] after[b]).account_id@ by {
        assert(after[a].account_id@ == entries[a].account_id@);
        assert(after[b].account_id@ == entries[b].account_id@);
    }
    let target = as_map(entries).insert(key, entry.candidate@);
    assert forall|q: Seq<char>| as_map(after).contains_key(q) == target.contains_key(q) by {
        if holds(after, q) {
            let j = slot_of(after, q);
            assert(entries[j].account_id@ == after[j].account_id@);
        }
        if holds(entries, q) {
            let j = slot_of(entries, q);
            assert(after[j].account_id@ == entries[j].account_id@);
        }
        if q == key {
            assert(after[i] == entry);
        }
    }
    assert forall|q: Seq<char>| as_map(after).contains_key(q) implies as_map(after)[q]
        == target[q] by {
        let j = slot_of(after, q);
        assert(entries[j].account_id@ == after[j].account_id@);
        lemma_entry(entries, j);
        lemma_entry(entries, i);
        if j != i {
            assert(after[j] == entries[j]);
        }
    }
    assert(as_map(after) =~= target);
}

/// Taking an entry out removes its requester from the map.
pub proof fn lemma_remove(entries: Seq<Entry>, i: int)
    requires
        keys_distinct(entries),
        0 <= i < entries.len(),
    ensures
        keys_distinct(entries.remove(i)),
        as_map(entries.remove(i)) == as_map(entries).remove(entries[i].account_id@),
{
    let after = entries.remove(i);
    let key = entries[i].account_id@;
    assert forall|a: int| 0 <= a < after.len() implies #[trigger] after[a] == entries[if a < i {
        a
    } else {
        a + 1
    }] by {}
    assert forall|a: int, b: int| 0 <= a < b < after.len() implies (#[trigger] after[a]).account_id@
        != (#[trigger] after[b]).account_id@ by {
        let a0 = if a < i { a } else { a + 1 };
        let b0 = if b < i { b } else { b + 1 };
        assert(after[a] == entries[a0]);
        assert(after[b] == entries[b0]);
    }
    let target = as_map(entries).remove(key);
    assert forall|q: Seq<char>| as_map(after).contains_key(q) == target.contains_key(q) by {
        if holds(after, q) {
            let j = slot_of(after, q);
            let j0 = if j < i { j } else { j + 1 };
            assert(after[j] == entries[j0]);
            lemma_entry(entries, j0);
            lemma_entry(entries, i);
        }
        if holds(entries, q) && q != key {
            let j = slot_of(entries, q);
            let j1 = if j < i { j } else { j - 1 };
            assert(after[j1] == entries[j]);
        }
    }
    assert forall|q: Seq<char>| as_map(after).contains_key(q) implies as_map(after)[q]
        == target[q] by {
        let j = slot_of(after, q);
        let j0 = if j < i { j } else { j + 1 };
        assert(after[j] == entries[j0]);
        lemma_entry(entries, j0);
    }
    assert(as_map(after) =~= target);
}

} // verus!
