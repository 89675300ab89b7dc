//! A small keyed table: at most one entry per key, looked up by equality.

use vstd::prelude::*;
use crate::account::{AccountId, Grant};

verus! {

/// A key of a [`Table`]: a plain value that can be told apart from another by
/// an executable test that agrees with equality.
pub trait Key: Copy + Sized {
    fn same(&self, other: &Self) -> (r: bool)
        ensures
            r == (*self == *other),
    ;
}

impl Key for AccountId {
    fn same(&self, other: &AccountId) -> (r: bool) {
        *self == *other
    }
}

impl Key for Grant {
    fn same(&self, other: &Grant) -> (r: bool) {
        self.owner == other.owner && self.spender == other.spender
    }
}

/// No key stands at two places of `s`.
pub open spec fn distinct_keys<K, V>(s: Seq<(K, V)>) -> bool {
    forall|i: int, j: int| 0 <= i < j < s.len() ==> s[i].0 != s[j].0
}

/// Whether `k` is the key of some entry of `s`.
pub open spec fn has_key<K, V>(s: Seq<(K, V)>, k: K) -> bool {
    exists|i: int| 0 <= i < s.len() && #[trigger] s[i].0 == k
}

/// The map that a sequence of entries stands for.
pub open spec fn entries_map<K, V>(s: Seq<(K, V)>) -> Map<K, V>
    decreases s.len(),
{
    if s.len() == 0 {
        Map::empty()
    } else {
        entries_map(s.drop_last()).insert(s.last().0, s.last().1)
    }
}

/// What `entries_map` holds: a finite map whose keys are the keys of the
/// entries and, where no key repeats, whose values are theirs.
pub proof fn lemma_entries_map<K, V>(s: Seq<(K, V)>)
    ensures
        entries_map(s).dom().finite(),
        forall|k: K| #[trigger] entries_map(s).contains_key(k) <==> has_key(s, k),
        distinct_keys(s) ==> forall|i: int|
            0 <= i < s.len() ==> entries_map(s)[#[trigger] s[i].0] == s[i].1,
    decreases s.len(),
{
    if s.len() == 0 {
    } else {
        let t = s.drop_last();
        let n = s.len() - 1;
        lemma_entries_map(t);
        assert forall|k: K| #[trigger] entries_map(s).contains_key(k) <==> has_key(s, k) by {
            if has_key(s, k) {
                let i = choose|i: int| 0 <= i < s.len() && #[trigger] s[i].0 == k;
                if i < n {
                    assert(t[i].0 == k);
                    assert(has_key(t, k));
                    assert(entries_map(t).contains_key(k));
                }
            }
            if entries_map(s).contains_key(k) {
                if k == s.last().0 {
                    assert(s[n].0 == k);
                } else {
                    assert(entries_map(t).contains_key(k));
                    assert(has_key(t, k));
                    let i = choose|i: int| 0 <= i < t.len() && #[trigger] t[i].0 == k;
                    assert(s[i].0 == k);
                }
            }
        }
        if distinct_keys(s) {
            assert forall|i: int| 0 <= i < s.len() implies entries_map(s)[#[trigger] s[i].0]
                == s[i].1 by {
                if i < n {
                    assert(t[i] == s[i]);
                    assert(s[i].0 != s[n].0);
                    assert forall|a: int, b: int| 0 <= a < b < t.len() implies t[a].0
                        != t[b].0 by {
                        assert(t[a] == s[a]);
                        assert(t[b] == s[b]);
                    }
                    assert(entries_map(t)[t[i].0] == t[i].1);
                }
            }
        }
    }
}

/// Replacing the value of the entry at `i` replaces it in the map.
pub proof fn lemma_entries_update<K, V>(s: Seq<(K, V)>, i: int, v: V)
    requires
        distinct_keys(s),
        0 <= i < s.len(),
    ensures
        distinct_keys(s.update(i, (s[i].0, v))),
        entries_map(s.update(i, (s[i].0, v))) == entries_map(s).insert(s[i].0, v),
    decreases s.len(),
{
    let u = s.update(i, (s[i].0, v));
    let n = s.len() - 1;
    assert forall|a: int, b: int| 0 <= a < b < u.len() implies u[a].0 != u[b].0 by {
        assert(u[a].0 == s[a].0);
        assert(u[b].0 == s[b].0);
    }
    if i == n {
        assert(u.drop_last() =~= s.drop_last());
        assert(entries_map(u) =~= entries_map(s).insert(s[i].0, v));
    } else {
        assert(distinct_keys(s.drop_last())) by {
            assert forall|a: int, b: int| 0 <= a < b < s.drop_last().len() implies s.drop_last()[a].0
                != s.drop_last()[b].0 by {
                assert(s.drop_last()[a] == s[a]);
                assert(s.drop_last()[b] == s[b]);
            }
        }
        lemma_entries_update(s.drop_last(), i, v);
        assert(u.drop_last() =~= s.drop_last().update(i, (s[i].0, v)));
        assert(s[i].0 != s[n].0);
        assert(entries_map(u) =~= entries_map(s).insert(s[i].0, v));
    }
}

/// Appending an entry under a key that is not there yet inserts it.
pub proof fn lemma_entries_push<K, V>(s: Seq<(K, V)>, k: K, v: V)
    requires
        distinct_keys(s),
        !has_key(s, k),
    ensures
        distinct_keys(s.push((k, v))),
        entries_map(s.push((k, v))) == entries_map(s).insert(k, v),
{
    let u = s.push((k, v));
    assert(u.drop_last() =~= s);
    assert forall|a: int, b: int| 0 <= a < b < u.len() implies u[a].0 != u[b].0 by {
        assert(u[a] == s[a]);
        if b < s.len() {
            assert(u[b] == s[b]);
        }
    }
}

/// Taking out the entry at `i` removes its key from the map.
pub proof fn lemma_entries_remove<K, V>(s: Seq<(K, V)>, i: int)
    requires
        distinct_keys(s),
        0 <= i < s.len(),
    ensures
        distinct_keys(s.remove(i)),
        entries_map(s.remove(i)) == entries_map(s).remove(s[i].0),
    decreases s.len(),
{
    let u = s.remove(i);
    let t = s.drop_last();
    let n = s.len() - 1;
    assert forall|a: int, b: int| 0 <= a < b < u.len() implies u[a].0 != u[b].0 by {
        let a0 = if a < i { a } else { a + 1 };
        let b0 = if b < i { b } else { b + 1 };
        assert(u[a] == s[a0]);
        assert(u[b] == s[b0]);
    }
    assert(distinct_keys(t)) by {
        assert forall|a: int, b: int| 0 <= a < b < t.len() implies t[a].0 != t[b].0 by {
            assert(t[a] == s[a]);
            assert(t[b] == s[b]);
        }
    }
    if i == n {
        assert(u =~= t);
        lemma_entries_map(t);
        assert(!has_key(t, s[i].0)) by {
            if has_key(t, s[i].0) {
                let a = choose|a: int| 0 <= a < t.len() && #[trigger] t[a].0 == s[i].0;
                assert(t[a] == s[a]);
            }
        }
        assert(!entries_map(t).contains_key(s[i].0));
        assert(entries_map(u) =~= entries_map(s).remove(s[i].0));
    } else {
        lemma_entries_remove(t, i);
        assert(u.drop_last() =~= t.remove(i));
        assert(u.last() == s.last());
        assert(t[i] == s[i]);
        assert(s[i].0 != s[n].0);
        assert(entries_map(u) =~= entries_map(s).remove(s[i].0));
    }
}

/// A finite map from keys to values, held as a list of entries in which no
/// key occurs twice.
pub struct Table<K, V> {
    entries: Vec<(K, V)>,
}

impl<K, V> View for Table<K, V> {
    type V = Map<K, V>;

    closed spec fn view(&self) -> Map<K, V> {
        entries_map(self.entries@)
    }
}

impl<K, V> Table<K, V> {
    #[verifier::type_invariant]
    spec fn no_key_twice(self) -> bool {
        distinct_keys(self.entries@)
    }
}

impl<K: Key, V: Copy> Table<K, V> {
    /// The table's keys are finitely many.
    pub proof fn lemma_finite(&self)
        ensures
            self@.dom().finite(),
    {
        lemma_entries_map(self.entries@);
    }

    /// The empty table.
    pub fn new() -> (t: Self)
        ensures
            t@ == Map::<K, V>::empty(),
    {
        Table { entries: Vec::new() }
    }

    /// The place of `key` among the entries, if it has one.
    fn position(&self, key: &K) -> (r: Option<usize>)
        ensures
            match r {
                Some(i) => i < self.entries@.len() && self.entries@[i as int].0 == *key,
                None => !has_key(self.entries@, *key),
            },
    {
        let mut i: usize = 0;
        while i < self.entries.len()
            invariant
                i <= self.entries@.len(),
                forall|j: int| 0 <= j < i ==> self.entries@[j].0 != *key,
            decreases self.entries@.len() - i,
        {
            if self.entries[i].0.same(key) {
                return Some(i);
            }
            i += 1;
        }
        None
    }

    /// The value stored under `key`, if there is one.
    pub fn get(&self, key: &K) -> (r: Option<V>)
        ensures
            r == (if self@.contains_key(*key) {
                Some(self@[*key])
            } else {
                None
            }),
    {
        proof {
            use_type_invariant(self);
            lemma_entries_map(self.entries@);
        }
        match self.position(key) {
            Some(i) => {
                assert(has_key(self.entries@, *key));
                Some(self.entries[i].1)
            },
            None => None,
        }
    }

    /// Stores `value` under `key`, in place of what was stored there.
    pub fn insert(&mut self, key: K, value: V)
        ensures
            final(self)@ == old(self)@.insert(key, value),
    {
        proof {
            use_type_invariant(&*self);
        }
        let found = self.position(&key);
        let mut entries: Vec<(K, V)> = Vec::new();
        std::mem::swap(&mut entries, &mut self.entries);
        match found {
            Some(i) => {
                proof {
                    lemma_entries_update(entries@, i as int, value);
                }
                entries[i] = (key, value);
            },
            None => {
                proof {
                    lemma_entries_push(entries@, key, value);
                }
                entries.push((key, value));
            },
        }
        self.entries = entries;
    }

    /// Removes the entry under `key`, if there is one.
    pub fn remove(&mut self, key: &K)
        ensures
            final(self)@ == old(self)@.remove(*key),
    {
        proof {
            use_type_invariant(&*self);
            lemma_entries_map(self.entries@);
        }
        let found = self.position(key);
        let mut entries: Vec<(K, V)> = Vec::new();
        std::mem::swap(&mut entries, &mut self.entries);
        match found {
            Some(i) => {
                proof {
                    lemma_entries_remove(entries@, i as int);
                }
                entries.remove(i);
            },
            None => {
                proof {
                    assert(!entries_map(entries@).contains_key(*key));
                    assert(entries_map(entries@) =~= entries_map(entries@).remove(*key));
                }
            },
        }
        self.entries = entries;
    }

    /// The table's entries as a list, for keeping outside: a list without a
    /// repeated key that stands for the same map.
    pub fn entries(&self) -> (list: Vec<(K, V)>)
        ensures
            entries_map(list@) == self@,
            distinct_keys(list@),
    {
        proof {
            use_type_invariant(self);
        }
        let mut list: Vec<(K, V)> = Vec::new();
        let mut i: usize = 0;
        while i < self.entries.len()
            invariant
                i <= self.entries@.len(),
                list@ == self.entries@.subrange(0, i as int),
            decreases self.entries@.len() - i,
        {
            list.push(self.entries[i]);
            i += 1;
        }
        proof {
            assert(list@ =~= self.entries@);
        }
        list
    }

    /// The table that a list of entries stands for. Where a key occurs more
    /// than once, its last entry counts.
    pub fn from_entries(list: &Vec<(K, V)>) -> (table: Self)
        ensures
            table@ == entries_map(list@),
    {
        let mut table: Table<K, V> = Table::new();
        let mut i: usize = 0;
        while i < list.len()
            invariant
                i <= list@.len(),
                table@ == entries_map(list@.subrange(0, i as int)),
            decreases list@.len() - i,
        {
            proof {
                let next = list@.subrange(0, i + 1);
                assert(next.drop_last() =~= list@.subrange(0, i as int));
                assert(next.last() == list@[i as int]);
            }
            let (key, value) = list[i];
            table.insert(key, value);
            i += 1;
        }
        proof {
            assert(list@.subrange(0, list@.len() as int) =~= list@);
        }
        table
    }
}

} // verus!
