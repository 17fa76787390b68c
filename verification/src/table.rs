//! Entries of ledger storage that are found by a key.

use vstd::prelude::*;

use crate::values::Key;

verus! {

/// A finite map, kept as a list of entries in which the first entry for a key counts.
#[derive(Debug)]
pub struct Table<K, V> {
    entries: Vec<(K, V)>,
}

/// The map that a list of entries stands for.
pub open spec fn entries_map<K: View, V: View>(s: Seq<(K, V)>) -> Map<K::V, V::V>
    decreases s.len(),
{
    if s.len() == 0 {
        Map::empty()
    } else {
        entries_map(s.drop_first()).insert(s[0].0@, s[0].1@)
    }
}

/// No entry of `s` before `end` has the key `k`.
spec fn none_before<K: View, V: View>(s: Seq<(K, V)>, k: K::V, end: int) -> bool {
    forall|j: int| 0 <= j < end ==> (#[trigger] s[j]).0@ != k
}

proof fn lemma_found<K: View, V: View>(s: Seq<(K, V)>, k: K::V, i: int)
    requires
        0 <= i < s.len(),
        s[i].0@ == k,
        none_before(s, k, i),
    ensures
        entries_map(s).contains_key(k),
        entries_map(s)[k] == s[i].1@,
    decreases i,
{
    if i > 0 {
        let rest = s.drop_first();
        assert(s[0].0@ != k);
        assert forall|j: int| 0 <= j < i - 1 implies (#[trigger] rest[j]).0@ != k by {
            assert(rest[j] == s[j + 1]);
        }
        lemma_found(rest, k, i - 1);
    }
}

proof fn lemma_absent<K: View, V: View>(s: Seq<(K, V)>, k: K::V)
    requires
        none_before(s, k, s.len() as int),
    ensures
        !entries_map(s).contains_key(k),
    decreases s.len(),
{
    if s.len() > 0 {
        let rest = s.drop_first();
        assert(s[0].0@ != k);
        assert forall|j: int| 0 <= j < rest.len() implies (#[trigger] rest[j]).0@ != k by {
            assert(rest[j] == s[j + 1]);
        }
        lemma_absent(rest, k);
    }
}

proof fn lemma_replace<K: View, V: View>(s: Seq<(K, V)>, i: int, v: V)
    requires
        0 <= i < s.len(),
        none_before(s, s[i].0@, i),
    ensures
        entries_map(s.update(i, (s[i].0, v))) == entries_map(s).insert(s[i].0@, v@),
    decreases i,
{
    let t = s.update(i, (s[i].0, v));
    let k = s[i].0@;
    if i == 0 {
        assert(t.drop_first() =~= s.drop_first());
        assert(entries_map(t) =~= entries_map(s).insert(k, v@));
    } else {
        let rest = s.drop_first();
        assert(s[0].0@ != k);
        assert forall|j: int| 0 <= j < i - 1 implies (#[trigger] rest[j]).0@ != k by {
            assert(rest[j] == s[j + 1]);
        }
        lemma_replace(rest, i - 1, v);
        assert(t.drop_first() =~= rest.update(i - 1, (rest[i - 1].0, v)));
        assert(entries_map(t) =~= entries_map(s).insert(k, v@));
    }
}

proof fn lemma_append<K: View, V: View>(s: Seq<(K, V)>, k: K, v: V)
    requires
        none_before(s, k@, s.len() as int),
    ensures
        entries_map(s.push((k, v))) == entries_map(s).insert(k@, v@),
    decreases s.len(),
{
    let t = s.push((k, v));
    if s.len() == 0 {
        assert(t.drop_first() =~= s);
        assert(entries_map(t) =~= entries_map(s).insert(k@, v@));
    } else {
        let rest = s.drop_first();
        assert(s[0].0@ != k@);
        assert forall|j: int| 0 <= j < rest.len() implies (#[trigger] rest[j]).0@ != k@ by {
            assert(rest[j] == s[j + 1]);
        }
        lemma_append(rest, k, v);
        assert(t.drop_first() =~= rest.push((k, v)));
        assert(entries_map(t) =~= entries_map(s).insert(k@, v@));
    }
}

proof fn lemma_drop<K: View, V: View>(s: Seq<(K, V)>, i: int)
    requires
        0 <= i < s.len(),
    ensures
        entries_map(s.remove(i)).remove(s[i].0@) == entries_map(s).remove(s[i].0@),
    decreases i,
{
    let k = s[i].0@;
    let t = s.remove(i);
    if i == 0 {
        assert(t =~= s.drop_first());
        assert(entries_map(t).remove(k) =~= entries_map(s).remove(k));
    } else {
        let rest = s.drop_first();
        lemma_drop(rest, i - 1);
        assert(t.drop_first() =~= rest.remove(i - 1));
        assert(t[0] == s[0]);
        let m = entries_map(rest);
        let n = entries_map(rest.remove(i - 1));
        assert(m.remove(k) == n.remove(k));
        assert(entries_map(t) == n.insert(s[0].0@, s[0].1@));
        assert(entries_map(s) == m.insert(s[0].0@, s[0].1@));
        let p = entries_map(s).remove(k);
        let q = entries_map(t).remove(k);
        assert forall|x: K::V| p.contains_key(x) == q.contains_key(x) by {
            assert(m.remove(k).contains_key(x) == n.remove(k).contains_key(x));
        }
        assert forall|x: K::V| p.contains_key(x) implies p[x] == q[x] by {
            assert(m.remove(k)[x] == n.remove(k)[x]);
        }
        assert(p =~= q);
    }
}

impl<K: Key, V: View> View for Table<K, V> {
    type V = Map<K::V, V::V>;

    closed spec fn view(&self) -> Map<K::V, V::V> {
        entries_map(self.entries@)
    }
}

impl<K: Key, V: View> Table<K, V> {
    /// The table without entries.
    pub fn new() -> (r: Self)
        ensures
            r@ == Map::<K::V, V::V>::empty(),
    {
        Table { entries: Vec::new() }
    }

    /// The place of the first entry for `key`, or the number of entries.
    fn find(&self, key: &K) -> (r: usize)
        ensures
            r <= self.entries@.len(),
            none_before(self.entries@, key@, r as int),
            r < self.entries@.len() ==> self.entries@[r as int].0@ == key@,
            self@.contains_key(key@) == (r < self.entries@.len()),
            r < self.entries@.len() ==> self@[key@] == self.entries@[r as int].1@,
    {
        let mut i: usize = 0;
        while i < self.entries.len()
            invariant
                i <= self.entries.len(),
                none_before(self.entries@, key@, i as int),
            decreases self.entries.len() - i,
        {
            if self.entries[i].0.same(key) {
                proof {
                    lemma_found(self.entries@, key@, i as int);
                }
                return i;
            }
            i += 1;
        }
        proof {
            lemma_absent(self.entries@, key@);
        }
        i
    }

    /// Whether there is an entry for `key`.
    pub fn has(&self, key: &K) -> (r: bool)
        ensures
            r == self@.contains_key(key@),
    {
        self.find(key) < self.entries.len()
    }

    /// The entry for `key`.
    pub fn get(&self, key: &K) -> (r: Option<&V>)
        ensures
            match r {
                Some(v) => self@.contains_key(key@) && v@ == self@[key@],
                None => !self@.contains_key(key@),
            },
    {
        let i = self.find(key);
        if i < self.entries.len() {
            Some(&self.entries[i].1)
        } else {
            None
        }
    }

    /// The entry for `key`, to be changed in place.
    pub fn get_mut(&mut self, key: &K) -> (r: Option<&mut V>)
        ensures
            match r {
                Some(v) => {
                    &&& old(self)@.contains_key(key@)
                    &&& v@ == old(self)@[key@]
                    &&& final(self)@ == old(self)@.insert(key@, (*final(v))@)
                },
                None => !old(self)@.contains_key(key@) && *final(self) == *old(self),
            },
    {
        let i = self.find(key);
        if i < self.entries.len() {
            proof {
                assert forall|v: V|
                    entries_map(
                        #[trigger] self.entries@.update(i as int, (self.entries@[i as int].0, v)),
                    ) == entries_map(self.entries@).insert(key@, v@) by {
                    lemma_replace(self.entries@, i as int, v);
                }
            }
            Some(&mut self.entries[i].1)
        } else {
            None
        }
    }

    /// Make `value` the entry for `key`.
    pub fn set(&mut self, key: K, value: V)
        ensures
            final(self)@ == old(self)@.insert(key@, value@),
    {
        let i = self.find(&key);
        if i < self.entries.len() {
            proof {
                lemma_replace(self.entries@, i as int, value);
            }
            let slot = &mut self.entries[i].1;
            *slot = value;
        } else {
            proof {
                lemma_append(self.entries@, key, value);
            }
            self.entries.push((key, value));
        }
    }

    /// Drop the entry for `key`.
    pub fn remove(&mut self, key: &K)
        ensures
            final(self)@ == old(self)@.remove(key@),
    {
        let mut i: usize = 0;
        while i < self.entries.len()
            invariant
                i <= self.entries.len(),
                none_before(self.entries@, key@, i as int),
                entries_map(self.entries@).remove(key@) == entries_map(old(self).entries@).remove(
                    key@,
                ),
            decreases self.entries.len() - i,
        {
            if self.entries[i].0.same(key) {
                proof {
                    lemma_drop(self.entries@, i as int);
                }
                let ghost before = self.entries@;
                self.entries.remove(i);
                assert forall|j: int| 0 <= j < i implies (#[trigger] self.entries@[j]).0@
                    != key@ by {
                    assert(self.entries@[j] == before[j]);
                }
            } else {
                i += 1;
            }
        }
        proof {
            lemma_absent(self.entries@, key@);
            assert(entries_map(self.entries@).remove(key@) =~= entries_map(self.entries@));
        }
    }
}

} // verus!
