//! A small map from string keys to copyable values, the storage behind the
//! in-memory stores.
//!
//! It is a list of entries with unique keys rather than a `BTreeMap`:
//! vstd specifies `BTreeMap` lookups and inserts only for key types whose
//! ordering obeys its comparison spec, and it gives no such fact for
//! `String`, so nothing could be proved of a map keyed by service or
//! item ids.
use vstd::prelude::*;

verus! {

/// Entries keyed by string, each key at most once.
pub struct KeyedStore<V> {
    entries: Vec<(String, V)>,
    contents: Ghost<Map<Seq<char>, V>>,
}

impl<V: Copy> KeyedStore<V> {
    /// What the store holds, by key.
    pub closed spec fn view(&self) -> Map<Seq<char>, V> {
        self.contents@
    }

    pub closed spec fn wf(&self) -> bool {
        &&& forall|i: int, j: int|
            0 <= i < j < self.entries@.len() ==> #[trigger] self.entries@[i].0@
                != #[trigger] self.entries@[j].0@
        &&& forall|i: int|
            0 <= i < self.entries@.len() ==> self.contents@.contains_key(
                #[trigger] self.entries@[i].0@,
            ) && self.contents@[self.entries@[i].0@] == self.entries@[i].1
        &&& forall|k: Seq<char>|
            #[trigger] self.contents@.contains_key(k) ==> exists|i: int|
                0 <= i < self.entries@.len() && #[trigger] self.entries@[i].0@ == k
    }

    pub fn new() -> (r: Self)
        ensures
            r.wf(),
            r@ == Map::<Seq<char>, V>::empty(),
    {
        KeyedStore { entries: Vec::new(), contents: Ghost(Map::empty()) }
    }

    /// Where `key` stands in the entries, if anywhere.
    fn position(&self, key: &String) -> (r: Option<usize>)
        requires
            self.wf(),
        ensures
            match r {
                Some(i) => i < self.entries@.len() && self.entries@[i as int].0@ == key@,
                None => !self@.contains_key(key@),
            },
    {
        let mut i: usize = 0;
        while i < self.entries.len()
            invariant
                self.wf(),
                i <= self.entries@.len(),
                forall|j: int| 0 <= j < i ==> #[trigger] self.entries@[j].0@ != key@,
            decreases self.entries@.len() - i,
        {
            if self.entries[i].0 == *key {
                return Some(i);
            }
            i = i + 1;
        }
        None
    }

    pub fn get(&self, key: &str) -> (r: Option<V>)
        requires
            self.wf(),
        ensures
            r == (if self@.contains_key(key@) {
                Some(self@[key@])
            } else {
                None
            }),
    {
        let k: String = key.to_owned();
        match self.position(&k) {
            Some(i) => Some(self.entries[i].1),
            None => None,
        }
    }

    pub fn insert(&mut self, key: &str, value: V)
        requires
            old(self).wf(),
        ensures
            final(self).wf(),
            final(self)@ == old(self)@.insert(key@, value),
    {
        let k: String = key.to_owned();
        let ghost updated = self.contents@.insert(key@, value);
        match self.position(&k) {
            Some(i) => {
                self.entries.set(i, (k, value));
                self.contents = Ghost(updated);
                proof {
                    lemma_keys_still_present(
                        old(self).entries@,
                        old(self).contents@,
                        self.entries@,
                        key@,
                        value,
                        i as int,
                    );
                }
            },
            None => {
                self.entries.push((k, value));
                self.contents = Ghost(updated);
                proof {
                    lemma_keys_still_present(
                        old(self).entries@,
                        old(self).contents@,
                        self.entries@,
                        key@,
                        value,
                        old(self).entries@.len() as int,
                    );
                }
            },
        }
    }
}

/// After `key` is placed at `at`, with every earlier entry keeping its key
/// and index, each key of the updated contents has an entry.
proof fn lemma_keys_still_present<V>(
    before: Seq<(String, V)>,
    contents: Map<Seq<char>, V>,
    after: Seq<(String, V)>,
    key: Seq<char>,
    value: V,
    at: int,
)
    requires
        forall|k: Seq<char>|
            #[trigger] contents.contains_key(k) ==> exists|i: int|
                0 <= i < before.len() && #[trigger] before[i].0@ == k,
        before.len() <= after.len(),
        forall|i: int| 0 <= i < before.len() ==> #[trigger] after[i].0@ == before[i].0@,
        0 <= at < after.len(),
        after[at].0@ == key,
    ensures
        forall|k: Seq<char>|
            #[trigger] contents.insert(key, value).contains_key(k) ==> exists|j: int|
                0 <= j < after.len() && #[trigger] after[j].0@ == k,
{
    assert forall|k: Seq<char>| #[trigger] contents.insert(key, value).contains_key(k) implies exists|j: int|
        0 <= j < after.len() && #[trigger] after[j].0@ == k by {
        if k != key {
            let i = choose|i: int| 0 <= i < before.len() && #[trigger] before[i].0@ == k;
            assert(after[i].0@ == k);
        } else {
            assert(after[at].0@ == k);
        }
    }
}

} // verus!
