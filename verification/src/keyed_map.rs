//! A map keyed by strings, kept as a list of distinct keys with their
//! values. Its view is the map that inserting the entries in order
//! builds, so a later insert under a key replaces an earlier one.

use vstd::prelude::*;
use crate::text::str_eq;

verus! {

/// The map that inserting `entries` in order builds.
pub open spec fn map_of<V>(entries: Seq<(String, V)>) -> Map<Seq<char>, V>
    decreases entries.len(),
{
    if entries.len() == 0 {
        Map::empty()
    } else {
        map_of(entries.drop_last()).insert(entries.last().0@, entries.last().1)
    }
}

/// No key occurs twice in `entries`.
pub open spec fn distinct_keys<V>(entries: Seq<(String, V)>) -> bool {
    forall|i: int, j: int|
        0 <= i < entries.len() && 0 <= j < entries.len() && i != j ==> #[trigger] entries[i].0@
            != #[trigger] entries[j].0@
}

/// A key is in `map_of(entries)` exactly when some entry has it, and
/// with distinct keys its value is that entry's.
pub proof fn lemma_map_of_entry<V>(entries: Seq<(String, V)>, k: Seq<char>)
    requires
        distinct_keys(entries),
    ensures
        map_of(entries).contains_key(k) <==> exists|i: int|
            0 <= i < entries.len() && #[trigger] entries[i].0@ == k,
        forall|i: int|
            0 <= i < entries.len() && #[trigger] entries[i].0@ == k ==> map_of(entries)[k]
                == entries[i].1,
    decreases entries.len(),
{
    if entries.len() > 0 {
        let init = entries.drop_last();
        assert(distinct_keys(init));
        lemma_map_of_entry(init, k);
        if map_of(entries).contains_key(k) && entries.last().0@ != k {
            let i = choose|i: int| 0 <= i < init.len() && #[trigger] init[i].0@ == k;
            assert(entries[i].0@ == k);
        }
        if exists|i: int| 0 <= i < entries.len() && #[trigger] entries[i].0@ == k {
            let i = choose|i: int| 0 <= i < entries.len() && #[trigger] entries[i].0@ == k;
            if i < entries.len() - 1 {
                assert(init[i].0@ == k);
            }
        }
        assert forall|i: int| 0 <= i < entries.len() && #[trigger] entries[i].0@ == k implies map_of(
            entries,
        )[k] == entries[i].1 by {
            if i < entries.len() - 1 {
                assert(init[i].0@ == k);
                assert(entries.last().0@ != k);
            }
        }
    }
}

/// Replacing the entry that holds a key, under an equal key, is inserting
/// into the map.
pub proof fn lemma_map_of_update<V>(entries: Seq<(String, V)>, i: int, e: (String, V))
    requires
        distinct_keys(entries),
        0 <= i < entries.len(),
        entries[i].0@ == e.0@,
    ensures
        map_of(entries.update(i, e)) =~= map_of(entries).insert(e.0@, e.1),
        distinct_keys(entries.update(i, e)),
    decreases entries.len(),
{
    let n = entries.len();
    let upd = entries.update(i, e);
    assert(distinct_keys(upd)) by {
        assert forall|a: int, b: int|
            0 <= a < upd.len() && 0 <= b < upd.len() && a != b implies #[trigger] upd[a].0@
            != #[trigger] upd[b].0@ by {
            assert(entries[a].0@ != entries[b].0@);
        }
    }
    if i == n - 1 {
        assert(upd.drop_last() =~= entries.drop_last());
    } else {
        let init = entries.drop_last();
        assert(distinct_keys(init));
        lemma_map_of_update(init, i, e);
        assert(upd.drop_last() =~= init.update(i, e));
        assert(entries.last().0@ != e.0@) by {
            assert(entries[n - 1].0@ != entries[i].0@);
        }
    }
}

/// Dropping the entry that holds a key is removing it from the map.
pub proof fn lemma_map_of_remove<V>(entries: Seq<(String, V)>, i: int)
    requires
        distinct_keys(entries),
        0 <= i < entries.len(),
    ensures
        map_of(entries.remove(i)) =~= map_of(entries).remove(entries[i].0@),
        distinct_keys(entries.remove(i)),
    decreases entries.len(),
{
    let n = entries.len();
    let k = entries[i].0@;
    let rem = entries.remove(i);
    assert(distinct_keys(rem)) by {
        assert forall|a: int, b: int|
            0 <= a < rem.len() && 0 <= b < rem.len() && a != b implies #[trigger] rem[a].0@
            != #[trigger] rem[b].0@ by {
            let a2 = if a < i { a } else { a + 1 };
            let b2 = if b < i { b } else { b + 1 };
            assert(rem[a] == entries[a2]);
            assert(rem[b] == entries[b2]);
        }
    }
    let init = entries.drop_last();
    assert(distinct_keys(init));
    if i == n - 1 {
        assert(rem =~= init);
        lemma_map_of_entry(init, k);
        assert forall|j: int| 0 <= j < init.len() implies #[trigger] init[j].0@ != k by {
            assert(entries[j].0@ != entries[n - 1].0@);
        }
    } else {
        lemma_map_of_remove(init, i);
        assert(rem.drop_last() =~= init.remove(i));
        assert(rem.last() == entries.last());
        assert(entries.last().0@ != k) by {
            assert(entries[n - 1].0@ != entries[i].0@);
        }
    }
}

/// What a read gives back after a write: the written value under the
/// written key, and under any other key what was there before.
pub proof fn lemma_read_after_write<V>(before: Map<Seq<char>, V>, k: Seq<char>, v: V, other: Seq<char>)
    requires
        other != k,
    ensures
        before.insert(k, v).contains_key(k),
        before.insert(k, v)[k] == v,
        before.insert(k, v).contains_key(other) == before.contains_key(other),
        before.contains_key(other) ==> before.insert(k, v)[other] == before[other],
{
}

/// A map from strings to values.
pub struct KeyedMap<V> {
    entries: Vec<(String, V)>,
}

impl<V> View for KeyedMap<V> {
    type V = Map<Seq<char>, V>;

    closed spec fn view(&self) -> Map<Seq<char>, V> {
        map_of(self.entries@)
    }
}

impl<V> KeyedMap<V> {
    /// The entries, in the order their keys were first inserted.
    pub closed spec fn entry_seq(&self) -> Seq<(String, V)> {
        self.entries@
    }

    /// The entries hold distinct keys.
    pub closed spec fn wf(&self) -> bool {
        distinct_keys(self.entries@)
    }

    /// An empty map.
    pub fn new() -> (res: Self)
        ensures
            res@ == Map::<Seq<char>, V>::empty(),
            res.wf(),
    {
        KeyedMap { entries: Vec::new() }
    }

    /// The entries, in the order their keys were first inserted.
    pub fn entries(&self) -> (res: &Vec<(String, V)>)
        ensures
            res@ == self.entry_seq(),
    {
        &self.entries
    }

    /// The number of keys.
    pub fn len(&self) -> (res: usize)
        requires
            self.wf(),
        ensures
            res == self@.len(),
    {
        proof {
            self.lemma_len();
        }
        self.entries.len()
    }

    proof fn lemma_len(&self)
        requires
            self.wf(),
        ensures
            self@.dom().finite(),
            self@.len() == self.entries@.len(),
        decreases self.entries@.len(),
    {
        lemma_dom_len(self.entries@);
    }

    /// The position of the entry holding `key`, if any.
    fn position(&self, key: &str) -> (res: Option<usize>)
        requires
            self.wf(),
        ensures
            match res {
                Some(i) => i < self.entries@.len() && self.entries@[i as int].0@ == key@,
                None => forall|i: int|
                    0 <= i < self.entries@.len() ==> #[trigger] self.entries@[i].0@ != key@,
            },
    {
        let n = self.entries.len();
        let mut i: usize = 0;
        while i < n
            invariant
                n == self.entries@.len(),
                i <= n,
                forall|j: int| 0 <= j < i ==> #[trigger] self.entries@[j].0@ != key@,
            decreases n - i,
        {
            if str_eq(self.entries[i].0.as_str(), key) {
                return Some(i);
            }
            i = i + 1;
        }
        None
    }

    /// Whether `key` has a value.
    pub fn contains_key(&self, key: &str) -> (res: bool)
        requires
            self.wf(),
        ensures
            res == self@.contains_key(key@),
    {
        proof {
            lemma_map_of_entry(self.entries@, key@);
        }
        self.position(key).is_some()
    }

    /// The value under `key`, if any.
    pub fn get(&self, key: &str) -> (res: Option<&V>)
        requires
            self.wf(),
        ensures
            match res {
                Some(v) => self@.contains_key(key@) && *v == self@[key@],
                None => !self@.contains_key(key@),
            },
    {
        proof {
            lemma_map_of_entry(self.entries@, key@);
        }
        match self.position(key) {
            Some(i) => Some(&self.entries[i].1),
            None => None,
        }
    }

    /// Takes out the value under `key`, if any.
    pub fn remove(&mut self, key: &str) -> (res: Option<V>)
        requires
            old(self).wf(),
        ensures
            final(self).wf(),
            final(self)@ == old(self)@.remove(key@),
            match res {
                Some(v) => old(self)@.contains_key(key@) && v == old(self)@[key@],
                None => !old(self)@.contains_key(key@),
            },
    {
        proof {
            lemma_map_of_entry(self.entries@, key@);
        }
        match self.position(key) {
            Some(i) => {
                proof {
                    lemma_map_of_remove(self.entries@, i as int);
                }
                let (_, v) = self.entries.remove(i);
                Some(v)
            },
            None => {
                proof {
                    assert(map_of(self.entries@).remove(key@) =~= map_of(self.entries@));
                }
                None
            },
        }
    }

    /// Sets the value under `key`, replacing any earlier one.
    pub fn insert(&mut self, key: String, value: V)
        requires
            old(self).wf(),
        ensures
            final(self).wf(),
            final(self)@ == old(self)@.insert(key@, value),
    {
        proof {
            lemma_map_of_entry(self.entries@, key@);
        }
        match self.position(key.as_str()) {
            Some(i) => {
                proof {
                    lemma_map_of_update(self.entries@, i as int, (key, value));
                }
                self.entries.set(i, (key, value));
            },
            None => {
                let ghost old_entries = self.entries@;
                self.entries.push((key, value));
                proof {
                    assert(self.entries@.drop_last() =~= old_entries);
                    assert(distinct_keys(self.entries@)) by {
                        assert forall|a: int, b: int|
                            0 <= a < self.entries@.len() && 0 <= b < self.entries@.len() && a != b
                            implies #[trigger] self.entries@[a].0@
                            != #[trigger] self.entries@[b].0@ by {
                            if a < old_entries.len() && b < old_entries.len() {
                                assert(old_entries[a].0@ != old_entries[b].0@);
                            } else if a < old_entries.len() {
                                assert(old_entries[a].0@ != key@);
                            } else {
                                assert(old_entries[b].0@ != key@);
                            }
                        }
                    }
                }
            },
        }
    }
}

proof fn lemma_dom_len<V>(entries: Seq<(String, V)>)
    requires
        distinct_keys(entries),
    ensures
        map_of(entries).dom().finite(),
        map_of(entries).len() == entries.len(),
    decreases entries.len(),
{
    if entries.len() > 0 {
        let init = entries.drop_last();
        assert(distinct_keys(init));
        lemma_dom_len(init);
        lemma_map_of_entry(init, entries.last().0@);
        assert forall|i: int| 0 <= i < init.len() implies #[trigger] init[i].0@ != entries.last().0@ by {
            assert(entries[i].0@ != entries[entries.len() - 1].0@);
        }
        assert(!map_of(init).contains_key(entries.last().0@));
    }
}

} // verus!
