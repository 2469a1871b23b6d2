//! A small keyed store: entries with distinct keys, kept in a vector and
//! seen as a finite map.
use crate::address::Address;
use vstd::prelude::*;

verus! {

/// A key whose equality can be decided at run time.
pub trait TableKey: Copy + Sized {
    fn same(&self, other: &Self) -> (r: bool)
        ensures
            r == (*self == *other);
}

impl TableKey for Address {
    fn same(&self, other: &Address) -> (r: bool) {
        Address::same(self, other)
    }
}

pub struct Table<K, V> {
    pub entries: Vec<(K, V)>,
}

/// The map that a list of entries stands for; a later entry overrides an
/// earlier one with the same key.
pub open spec fn entries_map<K, V>(s: Seq<(K, V)>) -> Map<K, V>
    decreases s.len(),
{
    if s.len() == 0 {
        Map::empty()
    } else {
        entries_map(s.drop_last()).insert(s.last().0, s.last().1)
    }
}

/// No two entries share a key.
pub open spec fn keys_distinct<K, V>(s: Seq<(K, V)>) -> bool {
    forall|i: int, j: int| 0 <= i < j < s.len() ==> s[i].0 != s[j].0
}

proof fn lemma_absent<K, V>(s: Seq<(K, V)>, k: K)
    requires
        forall|i: int| 0 <= i < s.len() ==> s[i].0 != k,
    ensures
        !entries_map(s).contains_key(k),
    decreases s.len(),
{
    if s.len() > 0 {
        lemma_absent(s.drop_last(), k);
    }
}

proof fn lemma_present<K, V>(s: Seq<(K, V)>, i: int)
    requires
        keys_distinct(s),
        0 <= i < s.len(),
    ensures
        entries_map(s).contains_key(s[i].0),
        entries_map(s)[s[i].0] == s[i].1,
    decreases s.len(),
{
    if i < s.len() - 1 {
        lemma_present(s.drop_last(), i);
    }
}

proof fn lemma_update<K, V>(s: Seq<(K, V)>, i: int, v: V)
    requires
        keys_distinct(s),
        0 <= i < s.len(),
    ensures
        entries_map(s.update(i, (s[i].0, v))) == entries_map(s).insert(s[i].0, v),
    decreases s.len(),
{
    let t = s.update(i, (s[i].0, v));
    if i == s.len() - 1 {
        assert(t.drop_last() =~= s.drop_last());
        lemma_absent(s.drop_last(), s[i].0);
    } else {
        lemma_update(s.drop_last(), i, v);
        assert(t.drop_last() =~= s.drop_last().update(i, (s[i].0, v)));
    }
    assert(entries_map(t) =~= entries_map(s).insert(s[i].0, v));
}

proof fn lemma_remove<K, V>(s: Seq<(K, V)>, i: int)
    requires
        keys_distinct(s),
        0 <= i < s.len(),
    ensures
        entries_map(s.remove(i)) == entries_map(s).remove(s[i].0),
    decreases s.len(),
{
    let t = s.remove(i);
    if i == s.len() - 1 {
        assert(t =~= s.drop_last());
        lemma_absent(s.drop_last(), s[i].0);
    } else {
        lemma_remove(s.drop_last(), i);
        assert(t.drop_last() =~= s.drop_last().remove(i));
        assert(t.last() == s.last());
    }
    assert(entries_map(t) =~= entries_map(s).remove(s[i].0));
}

impl<K: TableKey, V: Copy> Table<K, V> {
    pub open spec fn view(&self) -> Map<K, V> {
        entries_map(self.entries@)
    }

    pub open spec fn wf(&self) -> bool {
        keys_distinct(self.entries@)
    }

    pub fn new() -> (r: Table<K, V>)
        ensures
            r.wf(),
            r.view() == Map::<K, V>::empty(),
    {
        Table { entries: Vec::new() }
    }

    /// The position of the entry with key `k`, if there is one.
    fn position(&self, k: &K) -> (r: Option<usize>)
        requires
            self.wf(),
        ensures
            match r {
                Some(i) => i < self.entries@.len() && self.entries@[i as int].0 == *k,
                None => forall|j: int| 0 <= j < self.entries@.len() ==> self.entries@[j].0 != *k,
            },
    {
        let mut i: usize = 0;
        while i < self.entries.len()
            invariant
                0 <= i <= self.entries@.len(),
                forall|j: int| 0 <= j < i ==> self.entries@[j].0 != *k,
            decreases self.entries@.len() - i,
        {
            if self.entries[i].0.same(k) {
                return Some(i);
            }
            i = i + 1;
        }
        None
    }

    pub fn contains(&self, k: &K) -> (r: bool)
        requires
            self.wf(),
        ensures
            r == self.view().contains_key(*k),
    {
        match self.position(k) {
            Some(i) => {
                proof { lemma_present(self.entries@, i as int); }
                true
            },
            None => {
                proof { lemma_absent(self.entries@, *k); }
                false
            },
        }
    }

    pub fn get(&self, k: &K) -> (r: Option<V>)
        requires
            self.wf(),
        ensures
            r == (if self.view().contains_key(*k) { Some(self.view()[*k]) } else { None::<V> }),
    {
        match self.position(k) {
            Some(i) => {
                proof { lemma_present(self.entries@, i as int); }
                Some(self.entries[i].1)
            },
            None => {
                proof { lemma_absent(self.entries@, *k); }
                None
            },
        }
    }

    /// Sets the value under `k`, adding the key if it is new.
    pub fn set(&mut self, k: K, v: V)
        requires
            old(self).wf(),
        ensures
            final(self).wf(),
            final(self).view() == old(self).view().insert(k, v),
    {
        match self.position(&k) {
            Some(i) => {
                proof { lemma_update(self.entries@, i as int, v); }
                self.entries.set(i, (k, v));
            },
            None => {
                proof {
                    let s = self.entries@.push((k, v));
                    assert(s.drop_last() =~= self.entries@);
                }
                self.entries.push((k, v));
            },
        }
    }

    /// Removes the entry under `k`, if there is one.
    pub fn remove(&mut self, k: &K)
        requires
            old(self).wf(),
        ensures
            final(self).wf(),
            final(self).view() == old(self).view().remove(*k),
    {
        match self.position(k) {
            Some(i) => {
                proof { lemma_remove(self.entries@, i as int); }
                self.entries.remove(i);
            },
            None => {
                proof {
                    lemma_absent(self.entries@, *k);
                    assert(self.view() =~= self.view().remove(*k));
                }
            },
        }
    }

    /// An entry-for-entry copy.
    pub fn copy(&self) -> (r: Table<K, V>)
        ensures
            r.entries@ == self.entries@,
    {
        let mut out: Vec<(K, V)> = Vec::new();
        let mut i: usize = 0;
        while i < self.entries.len()
            invariant
                0 <= i <= self.entries@.len(),
                out@ == self.entries@.subrange(0, i as int),
            decreases self.entries@.len() - i,
        {
            out.push(self.entries[i]);
            i = i + 1;
            assert(out@ =~= self.entries@.subrange(0, i as int));
        }
        assert(self.entries@.subrange(0, self.entries@.len() as int) =~= self.entries@);
        Table { entries: out }
    }
}

} // verus!
