use vstd::prelude::*;
use crate::text::str_eq;

verus! {

/// A map from texts to values, kept as a list of entries in which no key
/// occurs twice. Entries stay in the order in which their keys first came.
#[derive(Debug)]
pub struct StrMap<V> {
    pub entries: Vec<(String, V)>,
}

/// Whether `k` is the key of the entry at place `i`.
pub open spec fn spec_key_at<V>(entries: Seq<(String, V)>, i: int, k: Seq<char>) -> bool {
    0 <= i < entries.len() && entries[i].0@ == k
}

/// The place of the entry with key `k`.
pub open spec fn spec_index_of<V>(entries: Seq<(String, V)>, k: Seq<char>) -> int {
    choose|i: int| spec_key_at(entries, i, k)
}

/// No key occurs twice.
pub open spec fn spec_unique_keys<V>(entries: Seq<(String, V)>) -> bool {
    forall|i: int, j: int|
        0 <= i < entries.len() && 0 <= j < entries.len() && i != j ==> entries[i].0@
            != entries[j].0@
}

/// The map that a list of entries stands for.
pub open spec fn spec_map_of<V>(entries: Seq<(String, V)>) -> Map<Seq<char>, V> {
    Map::new(
        |k: Seq<char>| exists|i: int| spec_key_at(entries, i, k),
        |k: Seq<char>| entries[spec_index_of(entries, k)].1,
    )
}

/// In a list without repeated keys, the entry at place `i` is the one that
/// the map holds under its key.
pub proof fn lemma_entry_in_map<V>(entries: Seq<(String, V)>, i: int)
    requires
        spec_unique_keys(entries),
        0 <= i < entries.len(),
    ensures
        spec_map_of(entries).contains_key(entries[i].0@),
        spec_map_of(entries)[entries[i].0@] == entries[i].1,
        spec_index_of(entries, entries[i].0@) == i,
{
    assert(spec_key_at(entries, i, entries[i].0@));
}

impl<V> StrMap<V> {
    /// No key occurs twice.
    pub open spec fn wf(&self) -> bool {
        spec_unique_keys(self.entries@)
    }

    /// The map that this list stands for.
    pub open spec fn view(&self) -> Map<Seq<char>, V> {
        spec_map_of(self.entries@)
    }

    /// The empty map.
    pub fn new() -> (res: Self)
        ensures
            res.wf(),
            res@ == Map::<Seq<char>, V>::empty(),
            res.entries@.len() == 0,
    {
        let res = StrMap { entries: Vec::new() };
        assert(res@ =~= Map::<Seq<char>, V>::empty());
        res
    }

    /// The number of entries.
    pub fn len(&self) -> (res: usize)
        ensures
            res == self.entries@.len(),
    {
        self.entries.len()
    }

    /// The place of the entry with key `key`, if there is one.
    pub fn position(&self, key: &str) -> (res: Option<usize>)
        ensures
            res is Some <==> self@.contains_key(key@),
            res matches Some(i) ==> spec_key_at(self.entries@, i as int, key@),
    {
        let mut i: usize = 0;
        while i < self.entries.len()
            invariant
                i <= self.entries.len(),
                forall|j: int| 0 <= j < i ==> !spec_key_at(self.entries@, j, key@),
            decreases self.entries.len() - i,
        {
            if str_eq(self.entries[i].0.as_str(), key) {
                assert(spec_key_at(self.entries@, i as int, key@));
                return Some(i);
            }
            i += 1;
        }
        None
    }

    /// Whether there is an entry with key `key`.
    pub fn contains_key(&self, key: &str) -> (res: bool)
        ensures
            res == self@.contains_key(key@),
    {
        self.position(key).is_some()
    }

    /// The value under `key`, if there is one.
    pub fn get(&self, key: &str) -> (res: Option<&V>)
        requires
            self.wf(),
        ensures
            res is Some <==> self@.contains_key(key@),
            res matches Some(v) ==> *v == self@[key@],
    {
        match self.position(key) {
            Some(i) => {
                proof {
                    lemma_entry_in_map(self.entries@, i as int);
                }
                Some(&self.entries[i].1)
            },
            None => None,
        }
    }

    /// Puts `value` under `key`, in place of what was there.
    pub fn insert(&mut self, key: String, value: V)
        requires
            old(self).wf(),
        ensures
            final(self).wf(),
            final(self)@ == old(self)@.insert(key@, value),
            final(self).entries@.len() == if old(self)@.contains_key(key@) {
                old(self).entries@.len()
            } else {
                old(self).entries@.len() + 1
            },
            !old(self)@.contains_key(key@) ==> final(self).entries@ == old(self).entries@.push(
                (key, value),
            ),
    {
        let ghost before = self.entries@;
        let ghost k = key@;
        match self.position(key.as_str()) {
            Some(i) => {
                self.entries.set(i, (key, value));
                let ghost after = self.entries@;
                proof {
                    assert(spec_unique_keys(after)) by {
                        assert forall|a: int, b: int|
                            0 <= a < after.len() && 0 <= b < after.len() && a != b implies after[a].0@
                            != after[b].0@ by {
                            assert(after[a].0@ == before[a].0@);
                            assert(after[b].0@ == before[b].0@);
                        }
                    }
                    assert forall|q: Seq<char>| #[trigger]
                        spec_map_of(after).contains_key(q) == spec_map_of(before).insert(
                            k,
                            value,
                        ).contains_key(q) by {
                        if spec_map_of(after).contains_key(q) {
                            let j = choose|j: int| spec_key_at(after, j, q);
                            assert(spec_key_at(before, j, q));
                        }
                        if spec_map_of(before).contains_key(q) {
                            let j = choose|j: int| spec_key_at(before, j, q);
                            assert(spec_key_at(after, j, q));
                        }
                        if q == k {
                            assert(spec_key_at(after, i as int, q));
                        }
                    }
                    assert forall|q: Seq<char>| #[trigger]
                        spec_map_of(after).contains_key(q) implies spec_map_of(after)[q]
                        == spec_map_of(before).insert(k, value)[q] by {
                        let j = choose|j: int| spec_key_at(after, j, q);
                        lemma_entry_in_map(after, j);
                        if j != i {
                            lemma_entry_in_map(before, j);
                        }
                    }
                    assert(spec_map_of(after) =~= spec_map_of(before).insert(k, value));
                }
            },
            None => {
                self.entries.push((key, value));
                let ghost after = self.entries@;
                proof {
                    let n = before.len() as int;
                    assert(after[n].0@ == k);
                    assert(spec_unique_keys(after)) by {
                        assert forall|a: int, b: int|
                            0 <= a < after.len() && 0 <= b < after.len() && a != b implies after[a].0@
                            != after[b].0@ by {
                            if a < n {
                                assert(after[a] == before[a]);
                                if b == n {
                                    assert(!spec_key_at(before, a, k)) by {
                                        if spec_key_at(before, a, k) {
                                            assert(spec_map_of(before).contains_key(k));
                                        }
                                    }
                                }
                            }
                            if b < n {
                                assert(after[b] == before[b]);
                                if a == n {
                                    assert(!spec_key_at(before, b, k)) by {
                                        if spec_key_at(before, b, k) {
                                            assert(spec_map_of(before).contains_key(k));
                                        }
                                    }
                                }
                            }
                        }
                    }
                    assert forall|q: Seq<char>| #[trigger]
                        spec_map_of(after).contains_key(q) == spec_map_of(before).insert(
                            k,
                            value,
                        ).contains_key(q) by {
                        if spec_map_of(after).contains_key(q) {
                            let j = choose|j: int| spec_key_at(after, j, q);
                            if j < n {
                                assert(after[j] == before[j]);
                                assert(spec_key_at(before, j, q));
                            }
                        }
                        if spec_map_of(before).contains_key(q) {
                            let j = choose|j: int| spec_key_at(before, j, q);
                            assert(after[j] == before[j]);
                            assert(spec_key_at(after, j, q));
                        }
                        if q == k {
                            assert(spec_key_at(after, n, q));
                        }
                    }
                    assert forall|q: Seq<char>| #[trigger]
                        spec_map_of(after).contains_key(q) implies spec_map_of(after)[q]
                        == spec_map_of(before).insert(k, value)[q] by {
                        let j = choose|j: int| spec_key_at(after, j, q);
                        lemma_entry_in_map(after, j);
                        if j < n {
                            assert(after[j] == before[j]);
                            lemma_entry_in_map(before, j);
                        }
                    }
                    assert(spec_map_of(after) =~= spec_map_of(before).insert(k, value));
                }
            },
        }
    }

    /// Takes out the entry at place `i` and returns it.
    pub fn remove_at(&mut self, i: usize) -> (res: (String, V))
        requires
            old(self).wf(),
            i < old(self).entries@.len(),
        ensures
            final(self).wf(),
            res == old(self).entries@[i as int],
            final(self).entries@ == old(self).entries@.remove(i as int),
            final(self)@ == old(self)@.remove(res.0@),
            old(self)@.contains_key(res.0@),
            old(self)@[res.0@] == res.1,
    {
        let ghost before = self.entries@;
        let ghost k = before[i as int].0@;
        proof {
            lemma_entry_in_map(before, i as int);
        }
        let taken = self.entries.remove(i);
        let ghost after = self.entries@;
        proof {
            assert(after == before.remove(i as int));
            assert forall|a: int| 0 <= a < after.len() implies #[trigger] after[a] == (if a < i {
                before[a]
            } else {
                before[a + 1]
            }) by {}
            assert(spec_unique_keys(after)) by {
                assert forall|a: int, b: int|
                    0 <= a < after.len() && 0 <= b < after.len() && a != b implies after[a].0@
                    != after[b].0@ by {
                    let a0 = if a < i {
                        a
                    } else {
                        a + 1
                    };
                    let b0 = if b < i {
                        b
                    } else {
                        b + 1
                    };
                    assert(after[a] == before[a0]);
                    assert(after[b] == before[b0]);
                }
            }
            assert forall|q: Seq<char>| #[trigger]
                spec_map_of(after).contains_key(q) == spec_map_of(before).remove(k).contains_key(
                    q,
                ) by {
                if spec_map_of(after).contains_key(q) {
                    let j = choose|j: int| spec_key_at(after, j, q);
                    let j0 = if j < i {
                        j
                    } else {
                        j + 1
                    };
                    assert(after[j] == before[j0]);
                    assert(spec_key_at(before, j0, q));
                }
                if spec_map_of(before).contains_key(q) && q != k {
                    let j = choose|j: int| spec_key_at(before, j, q);
                    let j1 = if j < i {
                        j
                    } else {
                        j - 1
                    };
                    assert(after[j1] == before[j]);
                    assert(spec_key_at(after, j1, q));
                }
            }
            assert forall|q: Seq<char>| #[trigger]
                spec_map_of(after).contains_key(q) implies spec_map_of(after)[q] == spec_map_of(
                before,
            ).remove(k)[q] by {
                let j = choose|j: int| spec_key_at(after, j, q);
                lemma_entry_in_map(after, j);
                let j0 = if j < i {
                    j
                } else {
                    j + 1
                };
                assert(after[j] == before[j0]);
                lemma_entry_in_map(before, j0);
            }
            assert(spec_map_of(after) =~= spec_map_of(before).remove(k));
        }
        taken
    }

    /// Takes out the entry under `key` and returns its value, if there is one.
    pub fn remove(&mut self, key: &str) -> (res: Option<V>)
        requires
            old(self).wf(),
        ensures
            final(self).wf(),
            final(self)@ == old(self)@.remove(key@),
            res is Some <==> old(self)@.contains_key(key@),
            res matches Some(v) ==> v == old(self)@[key@],
            final(self).entries@.len() == if res is Some {
                old(self).entries@.len() - 1
            } else {
                old(self).entries@.len() as int
            },
    {
        match self.position(key) {
            Some(i) => {
                let taken = self.remove_at(i);
                Some(taken.1)
            },
            None => {
                assert(self@ =~= self@.remove(key@));
                None
            },
        }
    }

    /// Puts `value` in place of the value of the entry at place `i`.
    pub fn set_value(&mut self, i: usize, value: V)
        requires
            old(self).wf(),
            i < old(self).entries@.len(),
        ensures
            final(self).wf(),
            final(self).entries@.len() == old(self).entries@.len(),
            final(self).entries@[i as int].0@ == old(self).entries@[i as int].0@,
            final(self).entries@[i as int].1 == value,
            forall|j: int|
                0 <= j < old(self).entries@.len() && j != i ==> final(self).entries@[j] == old(self).entries@[j],
            final(self)@ == old(self)@.insert(old(self).entries@[i as int].0@, value),
    {
        let ghost before = self.entries@;
        let ghost k = before[i as int].0@;
        let ghost n = before.len();
        let key = self.entries[i].0.clone();
        self.entries.set(i, (key, value));
        proof {
            let after = self.entries@;
            assert(spec_unique_keys(after)) by {
                assert forall|a: int, b: int|
                    0 <= a < after.len() && 0 <= b < after.len() && a != b implies after[a].0@
                    != after[b].0@ by {
                    assert(after[a].0@ == before[a].0@);
                    assert(after[b].0@ == before[b].0@);
                }
            }
            assert forall|q: Seq<char>| #[trigger]
                spec_map_of(after).contains_key(q) == spec_map_of(before).insert(
                    k,
                    value,
                ).contains_key(q) by {
                if spec_map_of(after).contains_key(q) {
                    let j = choose|j: int| spec_key_at(after, j, q);
                    assert(spec_key_at(before, j, q));
                }
                if spec_map_of(before).contains_key(q) {
                    let j = choose|j: int| spec_key_at(before, j, q);
                    assert(spec_key_at(after, j, q));
                }
                if q == k {
                    assert(spec_key_at(after, i as int, q));
                }
            }
            assert forall|q: Seq<char>| #[trigger]
                spec_map_of(after).contains_key(q) implies spec_map_of(after)[q] == spec_map_of(
                before,
            ).insert(k, value)[q] by {
                let j = choose|j: int| spec_key_at(after, j, q);
                lemma_entry_in_map(after, j);
                if j != i {
                    lemma_entry_in_map(before, j);
                }
            }
            assert(spec_map_of(after) =~= spec_map_of(before).insert(k, value));
        }
    }

    /// Whether no key occurs twice among the entries.
    pub fn has_unique_keys(&self) -> (res: bool)
        ensures
            res == self.wf(),
    {
        let n = self.entries.len();
        let mut i: usize = 0;
        while i < n
            invariant
                i <= n,
                n == self.entries@.len(),
                forall|a: int, b: int|
                    0 <= a < i && 0 <= b < a ==> self.entries@[a].0@ != self.entries@[b].0@,
            decreases n - i,
        {
            let mut j: usize = 0;
            while j < i
                invariant
                    j <= i < n,
                    n == self.entries@.len(),
                    forall|b: int| 0 <= b < j ==> self.entries@[i as int].0@ != self.entries@[b].0@,
                decreases i - j,
            {
                if str_eq(self.entries[i].0.as_str(), self.entries[j].0.as_str()) {
                    assert(!spec_unique_keys(self.entries@));
                    return false;
                }
                j += 1;
            }
            i += 1;
        }
        assert(spec_unique_keys(self.entries@)) by {
            assert forall|a: int, b: int|
                0 <= a < self.entries@.len() && 0 <= b < self.entries@.len() && a
                    != b implies self.entries@[a].0@ != self.entries@[b].0@ by {
                if b < a {
                } else {
                    assert(self.entries@[b].0@ != self.entries@[a].0@);
                }
            }
        }
        true
    }

    /// Takes out every entry.
    pub fn clear(&mut self)
        ensures
            final(self).wf(),
            final(self)@ == Map::<Seq<char>, V>::empty(),
            final(self).entries@.len() == 0,
    {
        self.entries.clear();
        assert(self@ =~= Map::<Seq<char>, V>::empty());
    }
}

} // verus!
