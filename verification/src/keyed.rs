//! A table of values under distinct text keys, kept in insertion order.
//!
//! It stands where the client keeps a `HashMap` keyed by `String`: inserting
//! under a present key replaces the value in place, a new key goes last, and no
//! key occurs twice. Walking the table goes in its order.
use vstd::prelude::*;
use crate::text::str_eq;
use crate::portals::NetherPortal;

verus! {

/// No key occurs twice.
pub open spec fn keys_unique<V>(s: Seq<(Seq<char>, V)>) -> bool {
    forall|i: int, j: int|
        0 <= i < s.len() && 0 <= j < s.len() && i != j ==> #[trigger] s[i].0 != #[trigger] s[j].0
}

/// Some entry has key `k`.
pub open spec fn has_key<V>(s: Seq<(Seq<char>, V)>, k: Seq<char>) -> bool {
    exists|i: int| 0 <= i < s.len() && #[trigger] s[i].0 == k
}

/// Entry `i` is the first with key `k`.
pub open spec fn is_first_key<V>(s: Seq<(Seq<char>, V)>, k: Seq<char>, i: int) -> bool {
    &&& 0 <= i < s.len()
    &&& s[i].0 == k
    &&& forall|j: int| 0 <= j < i ==> #[trigger] s[j].0 != k
}

/// The position of the first entry with key `k` (meaningful when `has_key`).
pub open spec fn key_index<V>(s: Seq<(Seq<char>, V)>, k: Seq<char>) -> int {
    choose|i: int| is_first_key(s, k, i)
}

/// The value under key `k`, if any.
pub open spec fn lookup<V>(s: Seq<(Seq<char>, V)>, k: Seq<char>) -> Option<V> {
    if has_key(s, k) {
        Some(s[key_index(s, k)].1)
    } else {
        None
    }
}

/// The table after putting `v` under `k`: replaced in place when `k` is present,
/// appended otherwise.
pub open spec fn inserted<V>(s: Seq<(Seq<char>, V)>, k: Seq<char>, v: V) -> Seq<(Seq<char>, V)> {
    if has_key(s, k) {
        s.update(key_index(s, k), (k, v))
    } else {
        s.push((k, v))
    }
}

/// The table without the entry under `k`.
pub open spec fn removed<V>(s: Seq<(Seq<char>, V)>, k: Seq<char>) -> Seq<(Seq<char>, V)> {
    if has_key(s, k) {
        s.remove(key_index(s, k))
    } else {
        s
    }
}

/// The table after inserting every entry of `t`, first to last.
pub open spec fn extended<V>(s: Seq<(Seq<char>, V)>, t: Seq<(Seq<char>, V)>) -> Seq<(Seq<char>, V)>
    decreases t.len(),
{
    if t.len() == 0 {
        s
    } else {
        let last = t.last();
        inserted(extended(s, t.drop_last()), last.0, last.1)
    }
}

/// The keys of a table, in order.
pub open spec fn keys_of<V>(s: Seq<(Seq<char>, V)>) -> Seq<Seq<char>> {
    s.map_values(|e: (Seq<char>, V)| e.0)
}

/// Values under distinct text keys.
pub struct Keyed<V> {
    entries: Vec<(String, V)>,
}

impl<V> View for Keyed<V> {
    type V = Seq<(Seq<char>, V)>;

    closed spec fn view(&self) -> Seq<(Seq<char>, V)> {
        self.entries@.map_values(|e: (String, V)| (e.0@, e.1))
    }
}

/// The entry found by key is the first entry with that key.
pub proof fn lemma_key_index<V>(s: Seq<(Seq<char>, V)>, k: Seq<char>, i: int)
    requires
        is_first_key(s, k, i),
    ensures
        has_key(s, k),
        key_index(s, k) == i,
        lookup(s, k) == Some(s[i].1),
{
    assert(s[i].0 == k);
    let j = key_index(s, k);
    if j < i {
        assert(s[j].0 != k);
    } else if j > i {
        assert(s[i].0 != k);
    }
}

/// A key that occurs has a first occurrence.
pub proof fn lemma_first_key_exists<V>(s: Seq<(Seq<char>, V)>, k: Seq<char>, i: int)
    requires
        0 <= i < s.len(),
        s[i].0 == k,
    ensures
        is_first_key(s, k, key_index(s, k)),
    decreases i,
{
    if exists|j: int| 0 <= j < i && #[trigger] s[j].0 == k {
        let j = choose|j: int| 0 <= j < i && #[trigger] s[j].0 == k;
        lemma_first_key_exists(s, k, j);
    } else {
        assert(is_first_key(s, k, i));
    }
}

/// With keys unique, the entry at any position is the one found by its key.
pub proof fn lemma_unique_key_index<V>(s: Seq<(Seq<char>, V)>, i: int)
    requires
        keys_unique(s),
        0 <= i < s.len(),
    ensures
        key_index(s, s[i].0) == i,
        lookup(s, s[i].0) == Some(s[i].1),
{
    assert forall|j: int| 0 <= j < i implies #[trigger] s[j].0 != s[i].0 by {}
    lemma_key_index(s, s[i].0, i);
}

/// Putting a value under a key keeps the keys distinct.
pub proof fn lemma_inserted_unique<V>(s: Seq<(Seq<char>, V)>, k: Seq<char>, v: V)
    requires
        keys_unique(s),
    ensures
        keys_unique(inserted(s, k, v)),
{
    let t = inserted(s, k, v);
    if has_key(s, k) {
        let w = choose|w: int| 0 <= w < s.len() && #[trigger] s[w].0 == k;
        lemma_unique_key_index(s, w);
        let idx = key_index(s, k);
        assert forall|i: int, j: int|
            0 <= i < t.len() && 0 <= j < t.len() && i != j implies #[trigger] t[i].0
            != #[trigger] t[j].0 by {
            if i == idx {
                assert(s[j].0 != s[idx].0);
            } else if j == idx {
                assert(s[i].0 != s[idx].0);
            } else {
                assert(s[i].0 != s[j].0);
            }
        }
    } else {
        assert forall|i: int, j: int|
            0 <= i < t.len() && 0 <= j < t.len() && i != j implies #[trigger] t[i].0
            != #[trigger] t[j].0 by {
            if i == s.len() {
                assert(s[j].0 != k);
            } else if j == s.len() {
                assert(s[i].0 != k);
            } else {
                assert(s[i].0 != s[j].0);
            }
        }
    }
}

/// Removing a key keeps the keys distinct.
pub proof fn lemma_removed_unique<V>(s: Seq<(Seq<char>, V)>, k: Seq<char>)
    requires
        keys_unique(s),
    ensures
        keys_unique(removed(s, k)),
{
    let t = removed(s, k);
    if has_key(s, k) {
        let w = choose|w: int| 0 <= w < s.len() && #[trigger] s[w].0 == k;
        lemma_unique_key_index(s, w);
        let idx = key_index(s, k);
        assert forall|i: int, j: int|
            0 <= i < t.len() && 0 <= j < t.len() && i != j implies #[trigger] t[i].0
            != #[trigger] t[j].0 by {
            let si = if i < idx { i } else { i + 1 };
            let sj = if j < idx { j } else { j + 1 };
            assert(t[i] == s[si]);
            assert(t[j] == s[sj]);
            assert(s[si].0 != s[sj].0);
        }
    }
}

impl<V> Keyed<V> {
    /// No key occurs twice.
    pub open spec fn wf(&self) -> bool {
        keys_unique(self@)
    }

    /// An empty table.
    pub fn new() -> (r: Self)
        ensures
            r@ == Seq::<(Seq<char>, V)>::empty(),
            r.wf(),
    {
        let r = Keyed { entries: Vec::new() };
        assert(r@ =~= Seq::<(Seq<char>, V)>::empty());
        r
    }

    /// The number of entries.
    pub fn len(&self) -> (r: usize)
        ensures
            r == self@.len(),
    {
        self.entries.len()
    }

    /// The key of the entry at position `i`.
    pub fn key_at(&self, i: usize) -> (r: &String)
        requires
            i < self@.len(),
        ensures
            r@ == self@[i as int].0,
    {
        &self.entries[i].0
    }

    /// The value of the entry at position `i`.
    pub fn value_at(&self, i: usize) -> (r: &V)
        requires
            i < self@.len(),
        ensures
            *r == self@[i as int].1,
    {
        &self.entries[i].1
    }

    /// The value of the entry at position `i`, borrowed for writing.
    pub fn value_at_mut(&mut self, i: usize) -> (r: &mut V)
        requires
            i < old(self)@.len(),
        ensures
            *r == old(self)@[i as int].1,
            final(self)@ == old(self)@.update(i as int, (old(self)@[i as int].0, *final(r))),
    {
        let entry = &mut self.entries[i];
        &mut entry.1
    }

    /// The position of the entry under `key`, if there is one.
    pub fn find(&self, key: &str) -> (r: Option<usize>)
        ensures
            match r {
                Some(i) => i < self@.len() && self@[i as int].0 == key@ && forall|j: int|
                    0 <= j < i ==> self@[j].0 != key@,
                None => !has_key(self@, key@),
            },
    {
        let mut i: usize = 0;
        while i < self.entries.len()
            invariant
                i <= self@.len(),
                self@.len() == self.entries@.len(),
                forall|j: int| 0 <= j < i ==> self@[j].0 != key@,
            decreases self.entries.len() - i,
        {
            if str_eq(self.entries[i].0.as_str(), key) {
                return Some(i);
            }
            i = i + 1;
        }
        None
    }

    /// Whether some entry is under `key`.
    pub fn contains_key(&self, key: &str) -> (r: bool)
        ensures
            r == has_key(self@, key@),
    {
        self.find(key).is_some()
    }

    /// The value under `key`, if any.
    pub fn get(&self, key: &str) -> (r: Option<&V>)
        ensures
            match lookup(self@, key@) {
                Some(v) => r matches Some(x) && *x == v,
                None => r is None,
            },
    {
        match self.find(key) {
            Some(i) => {
                proof {
                    lemma_key_index(self@, key@, i as int);
                }
                Some(&self.entries[i].1)
            },
            None => None,
        }
    }

    /// The value under `key`, if any, borrowed for writing.
    pub fn get_mut(&mut self, key: &str) -> (r: Option<&mut V>)
        ensures
            match lookup(old(self)@, key@) {
                Some(v) => r matches Some(x) && *x == v && final(self)@ == inserted(
                    old(self)@,
                    key@,
                    *final(x),
                ),
                None => r is None && final(self)@ == old(self)@,
            },
    {
        match self.find(key) {
            Some(i) => {
                proof {
                    lemma_key_index(self@, key@, i as int);
                }
                Some(self.value_at_mut(i))
            },
            None => None,
        }
    }

    /// Puts `value` under `key`, giving back the value it replaces.
    pub fn insert(&mut self, key: String, value: V) -> (r: Option<V>)
        ensures
            old(self).wf() ==> final(self).wf(),
            final(self)@ == inserted(old(self)@, key@, value),
            r == lookup(old(self)@, key@),
    {
        proof {
            if self.wf() {
                lemma_inserted_unique(self@, key@, value);
            }
        }
        match self.find(key.as_str()) {
            Some(i) => {
                proof {
                    lemma_key_index(self@, key@, i as int);
                }
                let ghost before = self@;
                let mut old_value = value;
                let entry = &mut self.entries[i];
                std::mem::swap(&mut entry.1, &mut old_value);
                entry.0 = key;
                assert(self@ =~= before.update(i as int, (key@, value)));
                Some(old_value)
            },
            None => {
                let ghost before = self@;
                let ghost k = key@;
                self.entries.push((key, value));
                assert(self@ =~= before.push((k, value)));
                None
            },
        }
    }

    /// Takes out the entry under `key`, giving back its value.
    pub fn remove(&mut self, key: &str) -> (r: Option<V>)
        ensures
            old(self).wf() ==> final(self).wf(),
            final(self)@ == removed(old(self)@, key@),
            r == lookup(old(self)@, key@),
    {
        proof {
            if self.wf() {
                lemma_removed_unique(self@, key@);
            }
        }
        match self.find(key) {
            Some(i) => {
                proof {
                    lemma_key_index(self@, key@, i as int);
                }
                let ghost before = self@;
                let entry = self.entries.remove(i);
                assert(self@ =~= before.remove(i as int));
                Some(entry.1)
            },
            None => None,
        }
    }

    /// The keys, in order.
    pub fn keys(&self) -> (r: Vec<String>)
        ensures
            r@.map_values(|s: String| s@) == keys_of(self@),
    {
        let mut out: Vec<String> = Vec::new();
        let mut i: usize = 0;
        while i < self.entries.len()
            invariant
                i <= self.entries@.len(),
                self@.len() == self.entries@.len(),
                out@.map_values(|s: String| s@) =~= keys_of(self@).take(i as int),
            decreases self.entries.len() - i,
        {
            out.push(self.entries[i].0.clone());
            assert(keys_of(self@).take(i + 1) =~= keys_of(self@).take(i as int).push(
                self@[i as int].0,
            ));
            i = i + 1;
        }
        assert(keys_of(self@).take(i as int) =~= keys_of(self@));
        out
    }

    /// Inserts every entry of `other`, first to last.
    pub fn extend(&mut self, other: Keyed<V>)
        ensures
            old(self).wf() ==> final(self).wf(),
            final(self)@ == extended(old(self)@, other@),
    {
        let ghost t = other@;
        let n = other.entries.len();
        let mut rest = other.entries;
        let mut i: usize = 0;
        let ghost start = self@;
        while rest.len() > 0
            invariant
                keys_unique(start) ==> self.wf(),
                i <= t.len(),
                t.len() == n,
                rest@.map_values(|e: (String, V)| (e.0@, e.1)) =~= t.skip(i as int),
                self@ == extended(start, t.take(i as int)),
            decreases rest.len(),
        {
            assert(rest@.map_values(|e: (String, V)| (e.0@, e.1)).len() == rest@.len());
            assert(i < t.len());
            let ghost before_rest = rest@;
            let (key, value) = rest.remove(0);
            proof {
                assert(before_rest.map_values(|e: (String, V)| (e.0@, e.1))[0] == (key@, value));
                assert(t.skip(i as int)[0] == (key@, value));
                assert(t.take(i + 1).drop_last() =~= t.take(i as int));
                assert(t.take(i + 1).last() == t[i as int]);
            }
            self.insert(key, value);
            proof {
                assert(rest@ =~= before_rest.skip(1));
                let ghost now = rest@.map_values(|e: (String, V)| (e.0@, e.1));
                let ghost was = before_rest.map_values(|e: (String, V)| (e.0@, e.1));
                let ghost want = t.skip(i + 1);
                let ghost had = t.skip(i as int);
                assert forall|j: int| 0 <= j < rest@.len() implies #[trigger] now[j] == want[j] by {
                    assert(rest@[j] == before_rest[j + 1]);
                    assert(was[j + 1] == had[j + 1]);
                }
                assert(rest@.map_values(|e: (String, V)| (e.0@, e.1)) =~= t.skip(i + 1));
            }
            i = i + 1;
        }
        assert(t.take(i as int) =~= t);
    }
}

impl Keyed<NetherPortal> {
    /// A copy of a table of portals: the same keys and portals, in the same order.
    pub fn copy(&self) -> (r: Self)
        ensures
            r@ == self@,
    {
        let mut entries: Vec<(String, NetherPortal)> = Vec::new();
        let mut i: usize = 0;
        while i < self.entries.len()
            invariant
                i <= self.entries@.len(),
                entries@.len() == i,
                forall|j: int| 0 <= j < i ==> #[trigger] entries@[j] == self.entries@[j],
            decreases self.entries@.len() - i,
        {
            let entry = &self.entries[i];
            entries.push((entry.0.clone(), entry.1.clone()));
            i = i + 1;
        }
        assert(entries@ =~= self.entries@);
        Keyed { entries }
    }
}

} // verus!
