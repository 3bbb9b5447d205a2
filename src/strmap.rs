//! A map keyed by strings, held as a list of entries with distinct keys.

use vstd::prelude::*;

verus! {

/// The map that a list of entries denotes; a later entry wins over an earlier one.
pub open spec fn entries_map<V>(s: Seq<(String, V)>) -> Map<Seq<char>, V>
    decreases s.len(),
{
    if s.len() == 0 {
        Map::empty()
    } else {
        entries_map(s.drop_last()).insert(s.last().0@, s.last().1)
    }
}

/// No two entries share a key.
pub open spec fn keys_distinct<V>(s: Seq<(String, V)>) -> bool {
    forall|i: int, j: int|
        0 <= i < s.len() && 0 <= j < s.len() && i != j ==> s[i].0@ != s[j].0@
}

/// The entries of `m` whose value is not `target`.
pub open spec fn without_value(m: Map<Seq<char>, String>, target: Seq<char>) -> Map<
    Seq<char>,
    String,
> {
    Map::new(|k: Seq<char>| m.contains_key(k) && m[k]@ != target, |k: Seq<char>| m[k])
}

proof fn lemma_lookup<V>(s: Seq<(String, V)>, k: Seq<char>)
    requires
        keys_distinct(s),
    ensures
        entries_map(s).contains_key(k) <==> exists|i: int| 0 <= i < s.len() && s[i].0@ == k,
        forall|i: int| 0 <= i < s.len() && s[i].0@ == k ==> entries_map(s)[k] == s[i].1,
    decreases s.len(),
{
    if s.len() > 0 {
        let t = s.drop_last();
        assert(keys_distinct(t)) by {
            assert forall|i: int, j: int|
                0 <= i < t.len() && 0 <= j < t.len() && i != j implies t[i].0@ != t[j].0@ by {
                assert(t[i] == s[i] && t[j] == s[j]);
            }
        }
        lemma_lookup(t, k);
        let n = s.len() - 1;
        if s.last().0@ == k {
            assert(s[n].0@ == k);
            assert forall|i: int| 0 <= i < s.len() && s[i].0@ == k implies entries_map(s)[k]
                == s[i].1 by {
                assert(i == n);
            }
        } else {
            assert forall|i: int| 0 <= i < s.len() && s[i].0@ == k implies 0 <= i < t.len()
                && t[i].0@ == k by {
                assert(i != n);
                assert(t[i] == s[i]);
            }
            if exists|i: int| 0 <= i < t.len() && t[i].0@ == k {
                let i = choose|i: int| 0 <= i < t.len() && t[i].0@ == k;
                assert(s[i] == t[i]);
            }
        }
    }
}

proof fn lemma_len<V>(s: Seq<(String, V)>)
    requires
        keys_distinct(s),
    ensures
        entries_map(s).dom().finite(),
        entries_map(s).len() == s.len(),
    decreases s.len(),
{
    if s.len() > 0 {
        let t = s.drop_last();
        assert(keys_distinct(t)) by {
            assert forall|i: int, j: int|
                0 <= i < t.len() && 0 <= j < t.len() && i != j implies t[i].0@ != t[j].0@ by {
                assert(t[i] == s[i] && t[j] == s[j]);
            }
        }
        lemma_len(t);
        lemma_lookup(t, s.last().0@);
        assert forall|i: int| 0 <= i < t.len() implies t[i].0@ != s.last().0@ by {
            assert(t[i] == s[i]);
        }
    }
}

proof fn lemma_update<V>(s: Seq<(String, V)>, i: int, k: String, v: V)
    requires
        keys_distinct(s),
        0 <= i < s.len(),
        k@ == s[i].0@,
    ensures
        keys_distinct(s.update(i, (k, v))),
        entries_map(s.update(i, (k, v))) == entries_map(s).insert(k@, v),
    decreases s.len(),
{
    let u = s.update(i, (k, v));
    assert(keys_distinct(u)) by {
        assert forall|a: int, b: int|
            0 <= a < u.len() && 0 <= b < u.len() && a != b implies u[a].0@ != u[b].0@ by {
            assert(u[a].0@ == s[a].0@ && u[b].0@ == s[b].0@);
        }
    }
    let t = s.drop_last();
    assert(keys_distinct(t)) by {
        assert forall|a: int, b: int|
            0 <= a < t.len() && 0 <= b < t.len() && a != b implies t[a].0@ != t[b].0@ by {
            assert(t[a] == s[a] && t[b] == s[b]);
        }
    }
    if i == s.len() - 1 {
        assert(u.drop_last() =~= t);
        assert(entries_map(u) =~= entries_map(s).insert(k@, v));
    } else {
        assert(u.drop_last() =~= t.update(i, (k, v)));
        lemma_update(t, i, k, v);
        assert(s.last().0@ != k@);
        assert(entries_map(u) =~= entries_map(s).insert(k@, v));
    }
}

proof fn lemma_remove<V>(s: Seq<(String, V)>, i: int)
    requires
        keys_distinct(s),
        0 <= i < s.len(),
    ensures
        keys_distinct(s.remove(i)),
        entries_map(s.remove(i)) == entries_map(s).remove(s[i].0@),
    decreases s.len(),
{
    let r = s.remove(i);
    assert(keys_distinct(r)) by {
        assert forall|a: int, b: int|
            0 <= a < r.len() && 0 <= b < r.len() && a != b implies r[a].0@ != r[b].0@ by {
            let a2 = if a < i { a } else { a + 1 };
            let b2 = if b < i { b } else { b + 1 };
            assert(r[a] == s[a2] && r[b] == s[b2]);
        }
    }
    let t = s.drop_last();
    assert(keys_distinct(t)) by {
        assert forall|a: int, b: int|
            0 <= a < t.len() && 0 <= b < t.len() && a != b implies t[a].0@ != t[b].0@ by {
            assert(t[a] == s[a] && t[b] == s[b]);
        }
    }
    let k = s[i].0@;
    if i == s.len() - 1 {
        assert(r =~= t);
        lemma_lookup(t, k);
        assert forall|a: int| 0 <= a < t.len() implies t[a].0@ != k by {
            assert(t[a] == s[a]);
        }
        assert(entries_map(r) =~= entries_map(s).remove(k));
    } else {
        assert(r.drop_last() =~= t.remove(i));
        assert(r.last() == s.last());
        assert(t[i] == s[i]);
        lemma_remove(t, i);
        assert(s.last().0@ != k);
        assert(entries_map(r) =~= entries_map(s).remove(k));
    }
}

/// Whether two strings hold the same characters.
pub fn same_text(a: &str, b: &str) -> (r: bool)
    ensures
        r == (a@ == b@),
{
    a.to_owned() == b.to_owned()
}

/// A map from string keys to values.
#[derive(Debug, Clone)]
pub struct StrMap<V> {
    entries: Vec<(String, V)>,
}

impl<V> View for StrMap<V> {
    type V = Map<Seq<char>, V>;

    closed spec fn view(&self) -> Map<Seq<char>, V> {
        entries_map(self.entries@)
    }
}

impl<V> StrMap<V> {
    /// The entries have distinct keys.
    pub closed spec fn wf(&self) -> bool {
        keys_distinct(self.entries@)
    }

    /// The key set of a well-formed map is finite.
    pub proof fn lemma_finite(&self)
        requires
            self.wf(),
        ensures
            self@.dom().finite(),
    {
        lemma_len(self.entries@);
    }

    pub fn new() -> (r: Self)
        ensures
            r.wf(),
            r@ == Map::<Seq<char>, V>::empty(),
    {
        StrMap { entries: Vec::new() }
    }

    pub fn len(&self) -> (r: usize)
        requires
            self.wf(),
        ensures
            r == self@.len(),
            self@.dom().finite(),
    {
        proof {
            lemma_len(self.entries@);
        }
        self.entries.len()
    }

    pub fn is_empty(&self) -> (r: bool)
        requires
            self.wf(),
        ensures
            r == (self@.len() == 0),
            self@.dom().finite(),
    {
        proof {
            lemma_len(self.entries@);
        }
        self.entries.len() == 0
    }

    /// Position of the entry with key `k`, if there is one.
    fn find(&self, k: &str) -> (r: Option<usize>)
        requires
            self.wf(),
        ensures
            match r {
                Some(i) => i < self.entries.len() && self.entries@[i as int].0@ == k@,
                None => !self@.contains_key(k@),
            },
    {
        let key = k.to_owned();
        let mut i: usize = 0;
        while i < self.entries.len()
            invariant
                self.wf(),
                key@ == k@,
                i <= self.entries.len(),
                forall|j: int| 0 <= j < i ==> self.entries@[j].0@ != k@,
            decreases self.entries.len() - i,
        {
            if self.entries[i].0 == key {
                return Some(i);
            }
            i = i + 1;
        }
        proof {
            lemma_lookup(self.entries@, k@);
        }
        None
    }

    pub fn contains_key(&self, k: &str) -> (r: bool)
        requires
            self.wf(),
        ensures
            r == self@.contains_key(k@),
    {
        proof {
            lemma_lookup(self.entries@, k@);
        }
        self.find(k).is_some()
    }

    pub fn get(&self, k: &str) -> (r: Option<&V>)
        requires
            self.wf(),
        ensures
            match r {
                Some(v) => self@.contains_key(k@) && *v == self@[k@],
                None => !self@.contains_key(k@),
            },
    {
        proof {
            lemma_lookup(self.entries@, k@);
        }
        match self.find(k) {
            Some(i) => Some(&self.entries[i].1),
            None => None,
        }
    }

    /// Some value of the map, if it has any.
    pub fn any_value(&self) -> (r: Option<&V>)
        requires
            self.wf(),
        ensures
            match r {
                Some(v) => exists|k: Seq<char>| self@.contains_key(k) && self@[k] == *v,
                None => self@.len() == 0,
            },
    {
        proof {
            lemma_len(self.entries@);
        }
        if self.entries.len() == 0 {
            None
        } else {
            proof {
                let k0 = self.entries@[0].0@;
                lemma_lookup(self.entries@, k0);
                assert(self@.contains_key(k0) && self@[k0] == self.entries@[0].1);
            }
            Some(&self.entries[0].1)
        }
    }

    /// Sets the value of `k`, adding the key if it is new.
    pub fn insert(&mut self, k: String, v: V)
        requires
            old(self).wf(),
        ensures
            final(self).wf(),
            final(self)@ == old(self)@.insert(k@, v),
    {
        match self.find(k.as_str()) {
            Some(i) => {
                proof {
                    lemma_update(self.entries@, i as int, k, v);
                }
                self.entries.set(i, (k, v));
            },
            None => {
                proof {
                    lemma_lookup(self.entries@, k@);
                }
                self.entries.push((k, v));
                proof {
                    assert(self.entries@.drop_last() =~= old(self).entries@);
                }
            },
        }
    }

    /// A handle on the value of `k`; the key is first added with `v` if it is new.
    pub fn get_or_insert(&mut self, k: &str, v: V) -> (r: &mut V)
        requires
            old(self).wf(),
        ensures
            *r == (if old(self)@.contains_key(k@) {
                old(self)@[k@]
            } else {
                v
            }),
            final(self).wf(),
            final(self)@ == old(self)@.insert(k@, *final(r)),
    {
        proof {
            lemma_lookup(self.entries@, k@);
        }
        let i = match self.find(k) {
            Some(i) => i,
            None => {
                self.entries.push((k.to_owned(), v));
                proof {
                    assert(self.entries@.drop_last() =~= old(self).entries@);
                    assert forall|a: int, b: int|
                        0 <= a < self.entries@.len() && 0 <= b < self.entries@.len() && a != b
                        implies self.entries@[a].0@ != self.entries@[b].0@ by {
                        if a < old(self).entries@.len() && b < old(self).entries@.len() {
                            assert(self.entries@[a] == old(self).entries@[a]);
                            assert(self.entries@[b] == old(self).entries@[b]);
                        } else if a < old(self).entries@.len() {
                            assert(self.entries@[a] == old(self).entries@[a]);
                        } else {
                            assert(self.entries@[b] == old(self).entries@[b]);
                        }
                    }
                    lemma_lookup(self.entries@, k@);
                }
                self.entries.len() - 1
            },
        };
        let ghost mid = self.entries@;
        proof {
            assert forall|w: V|
                #![trigger mid.update(i as int, (mid[i as int].0, w))]
                keys_distinct(mid.update(i as int, (mid[i as int].0, w))) && entries_map(
                    mid.update(i as int, (mid[i as int].0, w)),
                ) == entries_map(mid).insert(k@, w) by {
                lemma_update(mid, i as int, mid[i as int].0, w);
            }
        }
        &mut self.entries[i].1
    }

    /// Removes the entry of `k`, returning its value.
    pub fn remove(&mut self, k: &str) -> (r: Option<V>)
        requires
            old(self).wf(),
        ensures
            final(self).wf(),
            final(self)@ == old(self)@.remove(k@),
            match r {
                Some(v) => old(self)@.contains_key(k@) && v == old(self)@[k@],
                None => !old(self)@.contains_key(k@),
            },
    {
        match self.find(k) {
            Some(i) => {
                proof {
                    lemma_lookup(self.entries@, k@);
                    lemma_remove(self.entries@, i as int);
                }
                let (_, v) = self.entries.remove(i);
                Some(v)
            },
            None => {
                proof {
                    assert(old(self)@.remove(k@) =~= old(self)@);
                }
                None
            },
        }
    }
}

impl StrMap<String> {
    /// Drops every entry whose value is `target`.
    pub fn remove_value(&mut self, target: &str)
        requires
            old(self).wf(),
        ensures
            final(self).wf(),
            final(self)@ == without_value(old(self)@, target@),
    {
        let target_text = target.to_owned();
        let ghost s = self.entries@;
        let mut kept: Vec<(String, String)> = Vec::new();
        let mut j: usize = 0;
        while j < self.entries.len()
            invariant
                self.entries@ == s,
                keys_distinct(s),
                target_text@ == target@,
                j <= s.len(),
                keys_distinct(kept@),
                forall|a: int|
                    0 <= a < kept@.len() ==> exists|b: int|
                        0 <= b < j && #[trigger] kept@[a].0@ == s[b].0@,
                entries_map(kept@) == without_value(entries_map(s.take(j as int)), target@),
            decreases s.len() - j,
        {
            let ghost before = kept@;
            let ghost prefix = s.take(j as int);
            proof {
                assert(s.take(j + 1).drop_last() =~= prefix);
                assert(keys_distinct(prefix)) by {
                    assert forall|a: int, b: int|
                        0 <= a < prefix.len() && 0 <= b < prefix.len() && a != b
                        implies prefix[a].0@ != prefix[b].0@ by {
                        assert(prefix[a] == s[a] && prefix[b] == s[b]);
                    }
                }
                lemma_lookup(prefix, s[j as int].0@);
                assert forall|b: int| 0 <= b < prefix.len() implies prefix[b].0@ != s[j as int].0@ by {
                    assert(prefix[b] == s[b]);
                }
            }
            if self.entries[j].1 != target_text {
                let entry = (self.entries[j].0.clone(), self.entries[j].1.clone());
                kept.push(entry);
                proof {
                    assert(kept@.drop_last() =~= before);
                    assert forall|a: int, b: int|
                        0 <= a < kept@.len() && 0 <= b < kept@.len() && a != b
                        implies kept@[a].0@ != kept@[b].0@ by {
                        if a < before.len() && b < before.len() {
                            assert(kept@[a] == before[a] && kept@[b] == before[b]);
                        } else if a < before.len() {
                            assert(kept@[a] == before[a]);
                        } else {
                            assert(kept@[b] == before[b]);
                        }
                    }
                    assert forall|a: int| 0 <= a < kept@.len() implies exists|b: int|
                        0 <= b < j + 1 && #[trigger] kept@[a].0@ == s[b].0@ by {
                        if a < before.len() {
                            assert(kept@[a] == before[a]);
                        } else {
                            assert(kept@[a].0@ == s[j as int].0@);
                        }
                    }
                    assert(entries_map(kept@) =~= without_value(
                        entries_map(s.take(j + 1)),
                        target@,
                    ));
                }
            } else {
                proof {
                    assert forall|a: int| 0 <= a < kept@.len() implies exists|b: int|
                        0 <= b < j + 1 && #[trigger] kept@[a].0@ == s[b].0@ by {
                        let b = choose|b: int| 0 <= b < j && #[trigger] kept@[a].0@ == s[b].0@;
                        assert(kept@[a].0@ == s[b].0@);
                    }
                    assert(entries_map(kept@) =~= without_value(
                        entries_map(s.take(j + 1)),
                        target@,
                    ));
                }
            }
            j = j + 1;
        }
        proof {
            assert(s.take(s.len() as int) =~= s);
        }
        self.entries = kept;
    }
}

} // verus!
