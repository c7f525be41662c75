//! Logs of records, each filed under a string key, read as maps.
//!
//! The stores keep their records in insertion order and never hold two
//! records under one key. This module says which map such a log stands for
//! and finds a record by its key.

use vstd::prelude::*;

verus! {

/// A record that is filed under a string key of its own.
pub trait Keyed: View + Sized {
    /// The key the record is filed under.
    spec fn key(&self) -> Seq<char>;

    /// The field that holds the key.
    fn key_ref(&self) -> (k: &String)
        ensures
            k@ == self.key(),
    ;
}

/// No two records of the log share a key.
pub open spec fn keys_distinct<T: Keyed>(log: Seq<T>) -> bool {
    forall|i: int, j: int| 0 <= i < j < log.len() ==> log[i].key() != log[j].key()
}

/// Some record of the log is filed under `key`.
pub open spec fn has_key<T: Keyed>(log: Seq<T>, key: Seq<char>) -> bool {
    exists|i: int| 0 <= i < log.len() && #[trigger] log[i].key() == key
}

/// The map a log stands for: the view of each record under the record's key.
pub open spec fn index_of<T: Keyed>(log: Seq<T>) -> Map<Seq<char>, T::V>
    decreases log.len(),
{
    if log.len() == 0 {
        Map::empty()
    } else {
        index_of(log.drop_last()).insert(log.last().key(), log.last()@)
    }
}

/// Appending a record files its view under its key.
pub proof fn lemma_index_of_push<T: Keyed>(log: Seq<T>, record: T)
    ensures
        index_of(log.push(record)) == index_of(log).insert(record.key(), record@),
{
    assert(log.push(record).drop_last() =~= log);
}

/// The keys of the map are the keys that occur in the log, and the map is
/// finite.
pub proof fn lemma_index_of_dom<T: Keyed>(log: Seq<T>)
    ensures
        index_of(log).dom().finite(),
        forall|key: Seq<char>| #[trigger] index_of(log).contains_key(key) <==> has_key(log, key),
    decreases log.len(),
{
    if log.len() > 0 {
        let front = log.drop_last();
        lemma_index_of_dom(front);
        assert forall|key: Seq<char>| #[trigger]
            index_of(log).contains_key(key) <==> has_key(log, key) by {
            if has_key(log, key) {
                let i = choose|i: int| 0 <= i < log.len() && #[trigger] log[i].key() == key;
                if i < front.len() {
                    assert(front[i].key() == key);
                }
            }
            if index_of(front).contains_key(key) {
                let i = choose|i: int| 0 <= i < front.len() && #[trigger] front[i].key() == key;
                assert(log[i].key() == key);
            }
        }
    }
}

/// Where the keys are distinct, each record is found under its key.
pub proof fn lemma_index_of_get<T: Keyed>(log: Seq<T>, i: int)
    requires
        keys_distinct(log),
        0 <= i < log.len(),
    ensures
        index_of(log).contains_key(log[i].key()),
        index_of(log)[log[i].key()] == log[i]@,
    decreases log.len(),
{
    if i < log.len() - 1 {
        let front = log.drop_last();
        lemma_index_of_get(front, i);
    }
}

/// The position of the first record filed under `key`, if there is one.
pub fn find<T: Keyed>(log: &Vec<T>, key: &String) -> (at: Option<usize>)
    ensures
        match at {
            Some(i) => {
                &&& i < log@.len()
                &&& log@[i as int].key() == key@
                &&& forall|k: int| 0 <= k < i ==> log@[k].key() != key@
            },
            None => !has_key(log@, key@),
        },
{
    let mut i: usize = 0;
    while i < log.len()
        invariant
            i <= log@.len(),
            forall|k: int| 0 <= k < i ==> log@[k].key() != key@,
        decreases log@.len() - i,
    {
        if *log[i].key_ref() == *key {
            return Some(i);
        }
        i += 1;
    }
    None
}

/// Where the keys are distinct, whatever the map holds under a key is the
/// view of a record of the log that is filed under that key.
pub proof fn lemma_index_of_source<T: Keyed>(log: Seq<T>, key: Seq<char>) -> (i: int)
    requires
        keys_distinct(log),
        index_of(log).contains_key(key),
    ensures
        0 <= i < log.len(),
        log[i].key() == key,
        index_of(log)[key] == log[i]@,
{
    lemma_index_of_dom(log);
    let i = choose|i: int| 0 <= i < log.len() && #[trigger] log[i].key() == key;
    lemma_index_of_get(log, i);
    i
}

/// Whether no two records of the log share a key.
pub fn all_distinct<T: Keyed>(log: &Vec<T>) -> (distinct: bool)
    ensures
        distinct == keys_distinct(log@),
{
    let mut j: usize = 0;
    while j < log.len()
        invariant
            j <= log@.len(),
            forall|a: int, b: int| 0 <= a < b < j ==> log@[a].key() != log@[b].key(),
        decreases log@.len() - j,
    {
        let mut i: usize = 0;
        while i < j
            invariant
                i <= j < log@.len(),
                forall|a: int| 0 <= a < i ==> log@[a].key() != log@[j as int].key(),
            decreases j - i,
        {
            if *log[i].key_ref() == *log[j].key_ref() {
                return false;
            }
            i += 1;
        }
        j += 1;
    }
    true
}

} // verus!
