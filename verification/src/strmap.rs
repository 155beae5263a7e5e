//! A small association map keyed by strings, used for the UUID-keyed
//! child collections of the object tree. Lookup finds the first entry
//! whose key matches; `insert` replaces the first match or appends, so a
//! map built through `insert` never holds a key twice.

use vstd::prelude::*;
use crate::strutil::str_eq;

verus! {

/// The value of the first entry of `s` whose key reads `k`.
pub open spec fn seq_get<V>(s: Seq<(String, V)>, k: Seq<char>) -> Option<V>
    decreases s.len(),
{
    if s.len() == 0 {
        None
    } else if s.first().0@ == k {
        Some(s.first().1)
    } else {
        seq_get(s.drop_first(), k)
    }
}

/// A string-keyed association map.
pub struct StrMap<V> {
    entries: Vec<(String, V)>,
}

impl<V> StrMap<V> {
    /// The underlying entries, in insertion order.
    pub closed spec fn entry_seq(self) -> Seq<(String, V)> {
        self.entries@
    }

    /// The keys, in insertion order.
    pub open spec fn key_seq(self) -> Seq<Seq<char>> {
        self.entry_seq().map_values(|p: (String, V)| p.0@)
    }

    /// The value stored under `k`.
    pub open spec fn spec_get(self, k: Seq<char>) -> Option<V> {
        seq_get(self.entry_seq(), k)
    }

    /// Whether `k` is present.
    pub open spec fn spec_contains(self, k: Seq<char>) -> bool {
        self.spec_get(k) is Some
    }

    /// No key occurs twice. Maps built through `new` and `insert` stay
    /// well formed.
    pub open spec fn wf(self) -> bool {
        forall|i: int, j: int|
            0 <= i < j < self.key_seq().len() ==> #[trigger] self.key_seq()[i] != #[trigger] self.key_seq()[j]
    }

    pub fn new() -> (r: StrMap<V>)
        ensures
            r.entry_seq() == Seq::<(String, V)>::empty(),
            r.wf(),
    {
        StrMap { entries: Vec::new() }
    }

    pub fn len(&self) -> (r: usize)
        ensures
            r == self.entry_seq().len(),
    {
        self.entries.len()
    }

    /// The key of the entry at position `i`.
    pub fn key_at(&self, i: usize) -> (r: &String)
        requires
            i < self.entry_seq().len(),
        ensures
            r@ == self.key_seq()[i as int],
    {
        &self.entries[i].0
    }

    /// The value of the entry at position `i`.
    pub fn value_at(&self, i: usize) -> (r: &V)
        requires
            i < self.entry_seq().len(),
        ensures
            *r == self.entry_seq()[i as int].1,
    {
        &self.entries[i].1
    }

    /// A mutable borrow of the value at position `i`; the key stays.
    pub fn value_at_mut(&mut self, i: usize) -> (r: &mut V)
        requires
            i < old(self).entry_seq().len(),
        ensures
            *r == old(self).entry_seq()[i as int].1,
            final(self).entry_seq() == old(self).entry_seq().update(
                i as int,
                (old(self).entry_seq()[i as int].0, *final(r)),
            ),
    {
        let e = &mut self.entries[i];
        &mut e.1
    }

    pub fn contains_key(&self, k: &str) -> (r: bool)
        ensures
            r == self.spec_contains(k@),
    {
        self.get(k).is_some()
    }

    /// Looks `k` up.
    pub fn get(&self, k: &str) -> (r: Option<&V>)
        ensures
            match r {
                Some(v) => self.spec_get(k@) == Some(*v),
                None => self.spec_get(k@) is None,
            },
    {
        let n = self.entries.len();
        let mut i: usize = 0;
        proof {
            assert(self.entry_seq().skip(0) =~= self.entry_seq());
        }
        while i < n
            invariant
                i <= n,
                n == self.entry_seq().len(),
                seq_get(self.entry_seq().skip(i as int), k@) == self.spec_get(k@),
            decreases n - i,
        {
            proof {
                assert(self.entry_seq().skip(i as int).first() == self.entry_seq()[i as int]);
                assert(self.entry_seq().skip(i as int).drop_first() =~= self.entry_seq().skip(
                    i as int + 1,
                ));
            }
            if str_eq(self.entries[i].0.as_str(), k) {
                return Some(&self.entries[i].1);
            }
            i = i + 1;
        }
        None
    }

    /// Stores `v` under `k`, replacing the value if `k` is present and
    /// appending a fresh entry otherwise. No other key is disturbed.
    pub fn insert(&mut self, k: String, v: V)
        requires
            old(self).wf(),
        ensures
            final(self).wf(),
            final(self).spec_get(k@) == Some(v),
            forall|k2: Seq<char>|
                k2 != k@ ==> #[trigger] final(self).spec_get(k2) == old(self).spec_get(k2),
            final(self).key_seq() == if old(self).spec_contains(k@) {
                old(self).key_seq()
            } else {
                old(self).key_seq().push(k@)
            },
    {
        let n = self.entries.len();
        let mut i: usize = 0;
        while i < n
            invariant
                *self == *old(self),
                old(self).wf(),
                i <= n,
                n == self.entry_seq().len(),
                forall|j: int| 0 <= j < i ==> self.entry_seq()[j].0@ != k@,
            decreases n - i,
        {
            if str_eq(self.entries[i].0.as_str(), k.as_str()) {
                let ghost orig = *self;
                proof {
                    lemma_seq_get_update(orig.entry_seq(), i as int, v);
                    lemma_seq_get_first_occurrence(orig.entry_seq(), i as int);
                }
                let e = &mut self.entries[i];
                e.1 = v;
                proof {
                    assert(self.entry_seq() == orig.entry_seq().update(
                        i as int,
                        (orig.entry_seq()[i as int].0, v),
                    ));
                    assert(self.key_seq() =~= orig.key_seq());
                    assert forall|a: int, b: int|
                        0 <= a < b < self.key_seq().len() implies #[trigger] self.key_seq()[a]
                        != #[trigger] self.key_seq()[b] by {
                        lemma_wf_distinct(orig, a, b);
                    }
                }
                return ;
            }
            i = i + 1;
        }
        proof {
            lemma_seq_get_push(self.entry_seq(), k, v);
            lemma_seq_get_absent(self.entry_seq(), k@);
            assert(self.entry_seq().push((k, v)).map_values(|p: (String, V)| p.0@)
                =~= self.key_seq().push(k@));
            assert forall|i2: int, j2: int|
                0 <= i2 < j2 < self.key_seq().push(k@).len() implies #[trigger] self.key_seq().push(
                k@,
            )[i2] != #[trigger] self.key_seq().push(k@)[j2] by {
                if j2 < self.key_seq().len() {
                    lemma_wf_distinct(*self, i2, j2);
                } else {
                    assert(self.key_seq()[i2] == self.entry_seq()[i2].0@);
                    assert(self.entry_seq()[i2].0@ != k@);
                }
            }
        }
        self.entries.push((k, v));
    }

    /// Removes the entry under `k`, returning its value.
    pub fn remove(&mut self, k: &str) -> (r: Option<V>)
        requires
            old(self).wf(),
        ensures
            final(self).wf(),
            r == old(self).spec_get(k@),
            final(self).spec_get(k@) is None,
            forall|k2: Seq<char>|
                k2 != k@ ==> #[trigger] final(self).spec_get(k2) == old(self).spec_get(k2),
    {
        let n = self.entries.len();
        let mut i: usize = 0;
        while i < n
            invariant
                *self == *old(self),
                old(self).wf(),
                i <= n,
                n == self.entry_seq().len(),
                forall|j: int| 0 <= j < i ==> self.entry_seq()[j].0@ != k@,
            decreases n - i,
        {
            if str_eq(self.entries[i].0.as_str(), k) {
                proof {
                    lemma_seq_get_first_occurrence(self.entry_seq(), i as int);
                    lemma_seq_get_remove(self.entry_seq(), i as int);
                    let es = self.entry_seq();
                    assert forall|j: int| 0 <= j < es.skip(i as int + 1).len() implies #[trigger] es.skip(
                        i as int + 1,
                    )[j].0@ != k@ by {
                        assert(es.skip(i as int + 1)[j] == es[j + i + 1]);
                        assert(self.key_seq()[i as int] == es[i as int].0@);
                        assert(self.key_seq()[j + i + 1] == es[j + i + 1].0@);
                        lemma_wf_distinct(*self, i as int, j + i + 1);
                    }
                    lemma_seq_get_absent(es.skip(i as int + 1), k@);
                    assert(es.remove(i as int).map_values(|p: (String, V)| p.0@)
                        =~= self.key_seq().remove(i as int));
                    assert forall|i2: int, j2: int|
                        0 <= i2 < j2 < self.key_seq().remove(i as int).len() implies #[trigger] self.key_seq().remove(
                        i as int,
                    )[i2] != #[trigger] self.key_seq().remove(i as int)[j2] by {
                        let ks = self.key_seq();
                        let a: int = if i2 < i { i2 } else { i2 + 1 };
                        let b: int = if j2 < i { j2 } else { j2 + 1 };
                        assert(ks.remove(i as int)[i2] == ks[a]);
                        assert(ks.remove(i as int)[j2] == ks[b]);
                        lemma_wf_distinct(*self, a, b);
                    }
                }
                let (_, v) = self.entries.remove(i);
                return Some(v);
            }
            i = i + 1;
        }
        proof {
            lemma_seq_get_absent(self.entry_seq(), k@);
        }
        None
    }

    /// The keys, as owned strings in insertion order.
    pub fn keys(&self) -> (r: Vec<String>)
        ensures
            crate::strutil::strs_view(r@) == self.key_seq(),
    {
        let mut ret: Vec<String> = Vec::new();
        let n = self.entries.len();
        let mut i: usize = 0;
        while i < n
            invariant
                i <= n,
                n == self.entry_seq().len(),
                crate::strutil::strs_view(ret@) == self.key_seq().take(i as int),
            decreases n - i,
        {
            let s = self.entries[i].0.clone();
            proof {
                assert(crate::strutil::strs_view(ret@.push(s)) =~= crate::strutil::strs_view(
                    ret@,
                ).push(s@));
                assert(self.key_seq().take(i as int + 1) =~= self.key_seq().take(i as int).push(
                    self.key_seq()[i as int],
                ));
            }
            ret.push(s);
            i = i + 1;
        }
        proof {
            assert(self.key_seq().take(n as int) =~= self.key_seq());
        }
        ret
    }
}

/// If no key before `i` reads `s[i]`'s key, lookup lands on entry `i`.
proof fn lemma_seq_get_first_occurrence<V>(s: Seq<(String, V)>, i: int)
    requires
        0 <= i < s.len(),
        forall|j: int| 0 <= j < i ==> s[j].0@ != s[i].0@,
    ensures
        seq_get(s, s[i].0@) == Some(s[i].1),
    decreases i,
{
    if i > 0 {
        assert(s.drop_first()[i - 1] == s[i]);
        lemma_seq_get_first_occurrence(s.drop_first(), i - 1);
    }
}

/// If no key at all reads `k`, lookup misses.
proof fn lemma_seq_get_absent<V>(s: Seq<(String, V)>, k: Seq<char>)
    requires
        forall|j: int| 0 <= j < s.len() ==> s[j].0@ != k,
    ensures
        seq_get(s, k) is None,
    decreases s.len(),
{
    if s.len() > 0 {
        lemma_seq_get_absent(s.drop_first(), k);
    }
}

/// Replacing the value of the first occurrence of a key changes lookup
/// for that key alone.
proof fn lemma_seq_get_update<V>(s: Seq<(String, V)>, i: int, v: V)
    requires
        0 <= i < s.len(),
        forall|j: int| 0 <= j < i ==> s[j].0@ != s[i].0@,
    ensures
        forall|k2: Seq<char>|
            k2 != s[i].0@ ==> #[trigger] seq_get(s.update(i, (s[i].0, v)), k2) == seq_get(s, k2),
        seq_get(s.update(i, (s[i].0, v)), s[i].0@) == Some(v),
    decreases i,
{
    let t = s.update(i, (s[i].0, v));
    if i == 0 {
        assert(t.first() == (s[i].0, v));
        assert(t.drop_first() =~= s.drop_first());
        assert forall|k2: Seq<char>| k2 != s[i].0@ implies #[trigger] seq_get(t, k2) == seq_get(
            s,
            k2,
        ) by {
            assert(seq_get(t, k2) == seq_get(t.drop_first(), k2));
            assert(seq_get(s, k2) == seq_get(s.drop_first(), k2));
        }
    } else {
        assert(s.drop_first()[i - 1] == s[i]);
        assert forall|j: int| 0 <= j < i - 1 implies #[trigger] s.drop_first()[j].0@
            != s.drop_first()[i - 1].0@ by {
            assert(s.drop_first()[j] == s[j + 1]);
        }
        lemma_seq_get_update(s.drop_first(), i - 1, v);
        assert(t.first() == s.first());
        assert(t.drop_first() =~= s.drop_first().update(i - 1, (s[i].0, v)));
        assert(s.first().0@ != s[i].0@);
        assert(seq_get(t, s[i].0@) == seq_get(t.drop_first(), s[i].0@));
        assert forall|k2: Seq<char>| k2 != s[i].0@ implies #[trigger] seq_get(t, k2) == seq_get(
            s,
            k2,
        ) by {
            if k2 != t.first().0@ {
                assert(seq_get(t, k2) == seq_get(t.drop_first(), k2));
                assert(seq_get(s, k2) == seq_get(s.drop_first(), k2));
            }
        }
    }
}

/// Appending an entry with a fresh key changes lookup for that key alone.
proof fn lemma_seq_get_push<V>(s: Seq<(String, V)>, k: String, v: V)
    ensures
        seq_get(s.push((k, v)), k@) == if seq_get(s, k@) is Some {
            seq_get(s, k@)
        } else {
            Some(v)
        },
        forall|k2: Seq<char>|
            k2 != k@ ==> #[trigger] seq_get(s.push((k, v)), k2) == seq_get(s, k2),
    decreases s.len(),
{
    let t = s.push((k, v));
    if s.len() == 0 {
        assert(t.first() == (k, v));
        assert(t.drop_first() =~= Seq::<(String, V)>::empty());
        assert forall|k2: Seq<char>| k2 != k@ implies #[trigger] seq_get(t, k2) == seq_get(
            s,
            k2,
        ) by {
            assert(seq_get(t, k2) == seq_get(t.drop_first(), k2));
        }
    } else {
        lemma_seq_get_push(s.drop_first(), k, v);
        assert(t.first() == s.first());
        assert(t.drop_first() =~= s.drop_first().push((k, v)));
        if s.first().0@ != k@ {
            assert(seq_get(t, k@) == seq_get(t.drop_first(), k@));
        }
        assert forall|k2: Seq<char>| k2 != k@ implies #[trigger] seq_get(t, k2) == seq_get(
            s,
            k2,
        ) by {
            if k2 != s.first().0@ {
                assert(seq_get(t, k2) == seq_get(t.drop_first(), k2));
                assert(seq_get(s, k2) == seq_get(s.drop_first(), k2));
            }
        }
    }
}

/// Removing the first occurrence of a key makes lookup miss for it when
/// it occurred once, and leaves every other key alone.
proof fn lemma_seq_get_remove<V>(s: Seq<(String, V)>, i: int)
    requires
        0 <= i < s.len(),
        forall|j: int| 0 <= j < i ==> s[j].0@ != s[i].0@,
    ensures
        forall|k2: Seq<char>|
            k2 != s[i].0@ ==> #[trigger] seq_get(s.remove(i), k2) == seq_get(s, k2),
        seq_get(s.remove(i), s[i].0@) == seq_get(s.skip(i + 1), s[i].0@),
    decreases i,
{
    let t = s.remove(i);
    if i == 0 {
        assert(t =~= s.drop_first());
        assert(s.skip(1) =~= s.drop_first());
        assert forall|k2: Seq<char>| k2 != s[i].0@ implies #[trigger] seq_get(t, k2) == seq_get(
            s,
            k2,
        ) by {
            assert(seq_get(s, k2) == seq_get(s.drop_first(), k2));
        }
    } else {
        assert(s.drop_first()[i - 1] == s[i]);
        assert forall|j: int| 0 <= j < i - 1 implies #[trigger] s.drop_first()[j].0@
            != s.drop_first()[i - 1].0@ by {
            assert(s.drop_first()[j] == s[j + 1]);
        }
        lemma_seq_get_remove(s.drop_first(), i - 1);
        assert(t.first() == s.first());
        assert(t.drop_first() =~= s.drop_first().remove(i - 1));
        assert(s.drop_first().skip(i) =~= s.skip(i + 1));
        assert(s.first().0@ != s[i].0@);
        assert(seq_get(t, s[i].0@) == seq_get(t.drop_first(), s[i].0@));
        assert(seq_get(s, s[i].0@) == seq_get(s.drop_first(), s[i].0@));
        assert forall|k2: Seq<char>| k2 != s[i].0@ implies #[trigger] seq_get(t, k2) == seq_get(
            s,
            k2,
        ) by {
            if k2 != s.first().0@ {
                assert(seq_get(t, k2) == seq_get(t.drop_first(), k2));
                assert(seq_get(s, k2) == seq_get(s.drop_first(), k2));
            }
        }
    }
}

/// Two positions of a well-formed map hold different keys.
proof fn lemma_wf_distinct<V>(m: StrMap<V>, a: int, b: int)
    requires
        m.wf(),
        0 <= a < b < m.key_seq().len(),
    ensures
        m.key_seq()[a] != m.key_seq()[b],
{
}

} // verus!
