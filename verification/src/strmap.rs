//! A small string-keyed map on an association list, with a `Map` view.
//! The session tables (echo marks, ack waiters, receive state) are all
//! keyed by short strings and stay small, so a list serves.

use vstd::prelude::*;

use crate::strutil::str_eq;

verus! {

/// No two entries share a key.
pub open spec fn spec_keys_unique<V>(s: Seq<(String, V)>) -> bool {
    forall|i: int, j: int| 0 <= i < j < s.len() ==> (#[trigger] s[i]).0@ != (#[trigger] s[j]).0@
}

/// Some entry has key `k`.
pub open spec fn spec_has_key<V>(s: Seq<(String, V)>, k: Seq<char>) -> bool {
    exists|i: int| 0 <= i < s.len() && (#[trigger] s[i]).0@ == k
}

/// The index of the entry with key `k`.
pub open spec fn spec_key_index<V>(s: Seq<(String, V)>, k: Seq<char>) -> int {
    choose|i: int| 0 <= i < s.len() && (#[trigger] s[i]).0@ == k
}

/// With unique keys, any entry holding `k` stands at `spec_key_index`.
proof fn lemma_key_index_unique<V>(s: Seq<(String, V)>, k: Seq<char>, i: int)
    requires
        spec_keys_unique(s),
        0 <= i < s.len(),
        s[i].0@ == k,
    ensures
        spec_has_key(s, k),
        spec_key_index(s, k) == i,
{
    assert(spec_has_key(s, k));
    let j = spec_key_index(s, k);
    assert(0 <= j < s.len() && s[j].0@ == k);
    if i < j {
        assert(s[i].0@ != s[j].0@);
    } else if j < i {
        assert(s[j].0@ != s[i].0@);
    }
}

/// A map from strings to values, stored as a list of entries with unique
/// keys.
#[derive(Debug)]
pub struct StrMap<V> {
    entries: Vec<(String, V)>,
}

impl<V> StrMap<V> {
    /// The entries as a mathematical map.
    pub closed spec fn view(&self) -> Map<Seq<char>, V> {
        Map::new(
            |k: Seq<char>| spec_has_key(self.entries@, k),
            |k: Seq<char>| self.entries@[spec_key_index(self.entries@, k)].1,
        )
    }

    /// Well-formed: keys are unique. Constructors establish it and every
    /// operation preserves it.
    pub closed spec fn wf(&self) -> bool {
        spec_keys_unique(self.entries@)
    }

    /// How many keys are present (for contracts over the view).
    pub closed spec fn spec_len(&self) -> nat {
        self.entries@.len() as nat
    }

    pub fn new() -> (r: StrMap<V>)
        ensures
            r.wf(),
            r@ == Map::<Seq<char>, V>::empty(),
            r.spec_len() == 0,
    {
        let r = StrMap { entries: Vec::new() };
        proof {
            assert(r@ =~= Map::<Seq<char>, V>::empty());
        }
        r
    }

    /// The position of the entry with key `k`, found by scanning.
    #[verifier::loop_isolation(false)]
    fn find_index(&self, k: &str) -> (r: Option<usize>)
        requires
            self.wf(),
        ensures
            match r {
                Some(i) => i < self.entries@.len() && self.entries@[i as int].0@ == k@ && self@.contains_key(k@),
                None => !self@.contains_key(k@),
            },
    {
        let mut i: usize = 0;
        while i < self.entries.len()
            invariant
                i <= self.entries@.len(),
                forall|j: int| 0 <= j < i ==> (#[trigger] self.entries@[j]).0@ != k@,
            decreases self.entries@.len() - i,
        {
            if str_eq(self.entries[i].0.as_str(), k) {
                proof {
                    lemma_key_index_unique(self.entries@, k@, i as int);
                }
                return Some(i);
            }
            i = i + 1;
        }
        assert(!spec_has_key(self.entries@, k@));
        None
    }

    /// Whether `k` is present.
    pub fn contains(&self, k: &str) -> (r: bool)
        requires
            self.wf(),
        ensures
            r == self@.contains_key(k@),
    {
        self.find_index(k).is_some()
    }

    /// The value stored under `k`.
    pub fn get(&self, k: &str) -> (r: Option<&V>)
        requires
            self.wf(),
        ensures
            match r {
                Some(v) => self@.contains_key(k@) && *v == self@[k@],
                None => !self@.contains_key(k@),
            },
    {
        match self.find_index(k) {
            Some(i) => {
                proof {
                    lemma_key_index_unique(self.entries@, k@, i as int);
                }
                Some(&self.entries[i].1)
            },
            None => None,
        }
    }

    /// Store `v` under `k`, replacing any previous value.
    #[verifier::loop_isolation(false)]
    pub fn insert(&mut self, k: String, v: V)
        requires
            old(self).wf(),
        ensures
            final(self).wf(),
            final(self)@ == old(self)@.insert(k@, v),
    {
        let ghost m0 = self@;
        let ghost e0 = self.entries@;
        let mut i: usize = 0;
        let mut removed = false;
        while i < self.entries.len() && !removed
            invariant
                i <= self.entries@.len(),
                !removed ==> self.entries@ == e0 && (forall|j: int|
                    0 <= j < i ==> (#[trigger] e0[j]).0@ != k@),
                removed ==> i < e0.len() && e0[i as int].0@ == k@ && self.entries@ == e0.remove(
                    i as int,
                ),
            decreases e0.len() - i + (if removed {
                0int
            } else {
                1int
            }),
        {
            if str_eq(self.entries[i].0.as_str(), k.as_str()) {
                self.entries.remove(i);
                removed = true;
            } else {
                i = i + 1;
            }
        }
        proof {
            if removed {
                lemma_key_index_unique(e0, k@, i as int);
                lemma_remove_keeps_unique(e0, i as int);
            } else {
                assert(!spec_has_key(e0, k@));
            }
        }
        let ghost e1 = self.entries@;
        self.entries.push((k, v));
        proof {
            assert(spec_keys_unique(self.entries@)) by {
                assert forall|a: int, b: int|
                    0 <= a < b < self.entries@.len() implies (#[trigger] self.entries@[a]).0@ != (
                #[trigger] self.entries@[b]).0@ by {
                    if b == self.entries@.len() - 1 {
                        if removed {
                            let a0 = if a < i as int {
                                a
                            } else {
                                a + 1
                            };
                            assert(self.entries@[a] == e0[a0]);
                            assert(e0[a0].0@ != e0[i as int].0@);
                        } else {
                            assert(self.entries@[a] == e0[a]);
                        }
                    }
                }
            }
            assert(self@ =~= m0.insert(k@, v)) by {
                lemma_key_index_unique(self.entries@, k@, self.entries@.len() - 1);
                assert forall|k2: Seq<char>| #[trigger]
                    m0.insert(k@, v).contains_key(k2) implies self@.contains_key(k2) && self@[k2]
                    == m0.insert(k@, v)[k2] by {
                    if k2 == k@ {
                        assert(self.entries@[self.entries@.len() - 1].0@ == k2);
                    } else {
                        let j = spec_key_index(e0, k2);
                        assert(0 <= j < e0.len() && e0[j].0@ == k2);
                        if removed {
                            let j2 = if j < i as int {
                                j
                            } else {
                                j - 1
                            };
                            assert(e1[j2] == e0[j]);
                            assert(self.entries@[j2] == e0[j]);
                            lemma_key_index_unique(self.entries@, k2, j2);
                            lemma_key_index_unique(e0, k2, j);
                        } else {
                            assert(self.entries@[j] == e0[j]);
                            lemma_key_index_unique(self.entries@, k2, j);
                            lemma_key_index_unique(e0, k2, j);
                        }
                    }
                }
                assert forall|k2: Seq<char>| #[trigger]
                    self@.contains_key(k2) implies m0.insert(k@, v).contains_key(k2) by {
                    if k2 != k@ {
                        let j = spec_key_index(self.entries@, k2);
                        assert(0 <= j < self.entries@.len() && self.entries@[j].0@ == k2);
                        assert(j < self.entries@.len() - 1);
                        if removed {
                            let j0 = if j < i as int {
                                j
                            } else {
                                j + 1
                            };
                            assert(e0[j0] == e1[j]);
                            lemma_key_index_unique(e0, k2, j0);
                        } else {
                            lemma_key_index_unique(e0, k2, j);
                        }
                    }
                }
            }
        }
    }

    /// Remove `k`, returning the value that was stored under it.
    pub fn remove(&mut self, k: &str) -> (r: Option<V>)
        requires
            old(self).wf(),
        ensures
            final(self).wf(),
            final(self)@ == old(self)@.remove(k@),
            r is Some <==> old(self)@.contains_key(k@),
            r is Some ==> r->0 == old(self)@[k@],
    {
        let ghost m0 = self@;
        let ghost e0 = self.entries@;
        let found = self.find_index(k);
        match found {
            None => {
                proof {
                    assert(self@ =~= m0.remove(k@));
                }
                None
            },
            Some(i) => {
                proof {
                    lemma_key_index_unique(e0, k@, i as int);
                }
                let entry = self.entries.remove(i);
                let v = entry.1;
                proof {
                    lemma_remove_keeps_unique(e0, i as int);
                    assert(self@ =~= m0.remove(k@)) by {
                        assert forall|k2: Seq<char>| #[trigger]
                            m0.remove(k@).contains_key(k2) implies self@.contains_key(k2)
                            && self@[k2] == m0.remove(k@)[k2] by {
                            let j = spec_key_index(e0, k2);
                            assert(0 <= j < e0.len() && e0[j].0@ == k2);
                            let j2 = if j < i as int {
                                j
                            } else {
                                j - 1
                            };
                            assert(self.entries@[j2] == e0[j]);
                            lemma_key_index_unique(self.entries@, k2, j2);
                            lemma_key_index_unique(e0, k2, j);
                        }
                        assert forall|k2: Seq<char>| #[trigger]
                            self@.contains_key(k2) implies m0.remove(k@).contains_key(k2) by {
                            let j = spec_key_index(self.entries@, k2);
                            assert(0 <= j < self.entries@.len() && self.entries@[j].0@ == k2);
                            let j0 = if j < i as int {
                                j
                            } else {
                                j + 1
                            };
                            assert(e0[j0] == self.entries@[j]);
                            lemma_key_index_unique(e0, k2, j0);
                            lemma_remove_has_others(e0, i as int, k2);
                        }
                    }
                }
                Some(v)
            },
        }
    }

    /// Drop every entry.
    pub fn clear(&mut self)
        ensures
            final(self).wf(),
            final(self)@ == Map::<Seq<char>, V>::empty(),
            final(self).spec_len() == 0,
    {
        self.entries.clear();
        proof {
            assert(self@ =~= Map::<Seq<char>, V>::empty());
        }
    }
}

/// Removing an entry keeps the remaining keys unique.
proof fn lemma_remove_keeps_unique<V>(s: Seq<(String, V)>, i: int)
    requires
        spec_keys_unique(s),
        0 <= i < s.len(),
    ensures
        spec_keys_unique(s.remove(i)),
{
    let t = s.remove(i);
    assert forall|a: int, b: int| 0 <= a < b < t.len() implies (#[trigger] t[a]).0@ != (
    #[trigger] t[b]).0@ by {
        let a0 = if a < i {
            a
        } else {
            a + 1
        };
        let b0 = if b < i {
            b
        } else {
            b + 1
        };
        assert(t[a] == s[a0]);
        assert(t[b] == s[b0]);
    }
}

/// After removing the entry at `i`, a key different from the one removed is
/// still present if it was before.
proof fn lemma_remove_has_others<V>(s: Seq<(String, V)>, i: int, k: Seq<char>)
    requires
        spec_keys_unique(s),
        0 <= i < s.len(),
        k != s[i].0@,
        spec_has_key(s, k),
    ensures
        spec_has_key(s.remove(i), k),
{
    let j = spec_key_index(s, k);
    assert(0 <= j < s.len() && s[j].0@ == k);
    let j2 = if j < i {
        j
    } else {
        j - 1
    };
    assert(s.remove(i)[j2] == s[j]);
}

} // verus!
