//! An association list from string keys to values, keeping insertion
//! order and at most one entry per key.
//!
//! Both bookkeeping maps of the dispatcher (the status store and the kill
//! registry) are instances of this type. Its contracts are stated over a
//! mathematical `Map` view, plus an ordered entry view for the callers
//! that render the entries.

use vstd::prelude::*;

verus! {

pub struct AssocList<V> {
    entries: Vec<(String, V)>,
}

impl<V> AssocList<V> {
    /// The entries, as views, in insertion order.
    pub closed spec fn entries_view(self) -> Seq<(Seq<char>, V)> {
        self.entries@.map_values(|p: (String, V)| (p.0@, p.1))
    }

    /// Well-formed: each key occurs at most once.
    pub open spec fn wf(self) -> bool {
        forall|i: int, j: int|
            0 <= i < j < self.entries_view().len() ==> #[trigger] self.entries_view()[i].0
                != #[trigger] self.entries_view()[j].0
    }

    pub open spec fn contains_key(self, k: Seq<char>) -> bool {
        exists|i: int|
            0 <= i < self.entries_view().len() && #[trigger] self.entries_view()[i].0 == k
    }

    pub open spec fn index_of(self, k: Seq<char>) -> int {
        choose|i: int|
            0 <= i < self.entries_view().len() && #[trigger] self.entries_view()[i].0 == k
    }

    pub open spec fn spec_value(self, k: Seq<char>) -> V {
        self.entries_view()[self.index_of(k)].1
    }

    /// The list, as the map it represents.
    pub open spec fn view_map(self) -> Map<Seq<char>, V> {
        Map::new(|k: Seq<char>| self.contains_key(k), |k: Seq<char>| self.spec_value(k))
    }

    /// With unique keys, an entry's position determines the key's index.
    pub proof fn lemma_entry_index(self, k: Seq<char>, i: int)
        requires
            self.wf(),
            0 <= i < self.entries_view().len(),
            self.entries_view()[i].0 == k,
        ensures
            self.contains_key(k),
            self.index_of(k) == i,
            self.spec_value(k) == self.entries_view()[i].1,
            self.view_map().dom().contains(k),
            self.view_map()[k] == self.entries_view()[i].1,
    {
        assert(self.contains_key(k));
        let j = self.index_of(k);
        assert(0 <= j < self.entries_view().len() && self.entries_view()[j].0 == k);
        if i < j {
            assert(self.entries_view()[i].0 != self.entries_view()[j].0);
        } else if j < i {
            assert(self.entries_view()[j].0 != self.entries_view()[i].0);
        }
    }

    pub fn new() -> (r: Self)
        ensures
            r.wf(),
            r.entries_view() =~= Seq::<(Seq<char>, V)>::empty(),
            r.view_map() =~= Map::<Seq<char>, V>::empty(),
    {
        let r = AssocList { entries: Vec::new() };
        proof {
            assert(r.entries_view() =~= Seq::<(Seq<char>, V)>::empty());
            assert forall|k: Seq<char>| !r.contains_key(k) by {}
            assert(r.view_map() =~= Map::<Seq<char>, V>::empty());
        }
        r
    }

    /// Position of a key in the list, if present.
    fn position(&self, key: &String) -> (r: Option<usize>)
        ensures
            match r {
                Some(i) => i < self.entries_view().len() && self.entries_view()[i as int].0
                    == key@,
                None => !self.contains_key(key@),
            },
    {
        let n = self.entries.len();
        let mut i: usize = 0;
        while i < n
            invariant
                i <= n,
                n == self.entries_view().len(),
                forall|j: int| 0 <= j < i ==> #[trigger] self.entries_view()[j].0 != key@,
            decreases n - i,
        {
            proof {
                let ii = i as int;
                assert(self.entries_view()[ii] == (self.entries@[ii].0@, self.entries@[ii].1));
            }
            if self.entries[i].0 == *key {
                return Some(i);
            }
            i += 1;
        }
        None
    }

    pub fn len(&self) -> (r: usize)
        ensures
            r == self.entries_view().len(),
    {
        self.entries.len()
    }

    /// Store `value` under `key`, replacing any existing entry for the
    /// same key (which keeps its position); a new key is appended.
    pub fn insert(&mut self, key: String, value: V)
        requires
            old(self).wf(),
        ensures
            final(self).wf(),
            final(self).view_map() =~= old(self).view_map().insert(key@, value),
            old(self).contains_key(key@) ==> final(self).entries_view() =~= old(
                self,
            ).entries_view().update(old(self).index_of(key@), (key@, value)),
            !old(self).contains_key(key@) ==> final(self).entries_view() =~= old(
                self,
            ).entries_view().push((key@, value)),
    {
        let ghost pre = *old(self);
        match self.position(&key) {
            Some(i) => {
                proof {
                    pre.lemma_entry_index(key@, i as int);
                }
                self.entries.remove(i);
                self.entries.insert(i, (key, value));
                proof {
                    let ghost post = *self;
                    assert(post.entries_view() =~= pre.entries_view().update(
                        i as int,
                        (key@, value),
                    ));
                    assert(post.wf());
                    assert forall|k: Seq<char>| post.contains_key(k) <==> pre.view_map().insert(
                        key@,
                        value,
                    ).dom().contains(k) by {
                        if post.contains_key(k) {
                            let w = choose|w: int|
                                0 <= w < post.entries_view().len()
                                    && #[trigger] post.entries_view()[w].0 == k;
                            assert(pre.entries_view()[w].0 == k || k == key@);
                        }
                        if pre.view_map().insert(key@, value).dom().contains(k) {
                            if k == key@ {
                                assert(post.entries_view()[i as int].0 == k);
                            } else {
                                let w = choose|w: int|
                                    0 <= w < pre.entries_view().len()
                                        && #[trigger] pre.entries_view()[w].0 == k;
                                assert(post.entries_view()[w].0 == k);
                            }
                        }
                    }
                    assert forall|k: Seq<char>| #[trigger]
                        post.view_map().dom().contains(k) implies post.view_map()[k]
                        == pre.view_map().insert(key@, value)[k] by {
                        let w = choose|w: int|
                            0 <= w < post.entries_view().len()
                                && #[trigger] post.entries_view()[w].0 == k;
                        post.lemma_entry_index(k, w);
                        if k == key@ {
                            post.lemma_entry_index(k, i as int);
                        } else {
                            assert(pre.entries_view()[w].0 == k);
                            pre.lemma_entry_index(k, w);
                        }
                    }
                    assert(post.view_map() =~= pre.view_map().insert(key@, value));
                }
            },
            None => {
                proof {
                    assert(!pre.contains_key(key@));
                }
                self.entries.push((key, value));
                proof {
                    let ghost post = *self;
                    assert(post.entries_view() =~= pre.entries_view().push((key@, value)));
                    let n = pre.entries_view().len() as int;
                    assert forall|a: int, b: int|
                        0 <= a < b < post.entries_view().len() implies #[trigger] post
                        .entries_view()[a].0 != #[trigger] post.entries_view()[b].0 by {
                        if b < n {
                            assert(pre.entries_view()[a].0 != pre.entries_view()[b].0);
                        } else {
                            assert(post.entries_view()[b].0 == key@);
                            assert(pre.entries_view()[a].0 != key@);
                        }
                    }
                    assert forall|k: Seq<char>| post.contains_key(k) <==> pre.view_map().insert(
                        key@,
                        value,
                    ).dom().contains(k) by {
                        if post.contains_key(k) {
                            let w = choose|w: int|
                                0 <= w < post.entries_view().len()
                                    && #[trigger] post.entries_view()[w].0 == k;
                            if w < n {
                                assert(pre.entries_view()[w].0 == k);
                            } else {
                                assert(k == key@);
                            }
                        }
                        if pre.view_map().insert(key@, value).dom().contains(k) {
                            if k == key@ {
                                assert(post.entries_view()[n].0 == k);
                            } else {
                                let w = choose|w: int|
                                    0 <= w < pre.entries_view().len()
                                        && #[trigger] pre.entries_view()[w].0 == k;
                                assert(post.entries_view()[w].0 == k);
                            }
                        }
                    }
                    assert forall|k: Seq<char>| #[trigger]
                        post.view_map().dom().contains(k) implies post.view_map()[k]
                        == pre.view_map().insert(key@, value)[k] by {
                        let w = choose|w: int|
                            0 <= w < post.entries_view().len()
                                && #[trigger] post.entries_view()[w].0 == k;
                        post.lemma_entry_index(k, w);
                        if k == key@ {
                            post.lemma_entry_index(k, n);
                        } else {
                            assert(w < n);
                            assert(pre.entries_view()[w].0 == k);
                            pre.lemma_entry_index(k, w);
                        }
                    }
                    assert(post.view_map() =~= pre.view_map().insert(key@, value));
                }
            },
        }
    }

    /// Remove the entry for `key`, handing back its value; later entries
    /// keep their relative order. A missing key is a no-op.
    pub fn remove(&mut self, key: &String) -> (r: Option<V>)
        requires
            old(self).wf(),
        ensures
            final(self).wf(),
            final(self).view_map() =~= old(self).view_map().remove(key@),
            match r {
                Some(v) => old(self).contains_key(key@) && v == old(self).spec_value(key@)
                    && final(self).entries_view() =~= old(self).entries_view().remove(
                    old(self).index_of(key@),
                ),
                None => !old(self).contains_key(key@) && final(self).entries_view() =~= old(
                    self,
                ).entries_view(),
            },
    {
        let ghost pre = *old(self);
        match self.position(key) {
            Some(i) => {
                proof {
                    pre.lemma_entry_index(key@, i as int);
                }
                let (_, v) = self.entries.remove(i);
                proof {
                    let ghost post = *self;
                    assert(post.entries_view() =~= pre.entries_view().remove(i as int));
                    assert forall|a: int, b: int|
                        0 <= a < b < post.entries_view().len() implies #[trigger] post
                        .entries_view()[a].0 != #[trigger] post.entries_view()[b].0 by {
                        let a0 = if a < i as int { a } else { a + 1 };
                        let b0 = if b < i as int { b } else { b + 1 };
                        assert(post.entries_view()[a] == pre.entries_view()[a0]);
                        assert(post.entries_view()[b] == pre.entries_view()[b0]);
                    }
                    assert forall|k: Seq<char>| post.contains_key(k) <==> pre.view_map().remove(
                        key@,
                    ).dom().contains(k) by {
                        if post.contains_key(k) {
                            let w = choose|w: int|
                                0 <= w < post.entries_view().len()
                                    && #[trigger] post.entries_view()[w].0 == k;
                            let w0 = if w < i as int { w } else { w + 1 };
                            assert(pre.entries_view()[w0].0 == k);
                            pre.lemma_entry_index(k, w0);
                            assert(k != key@);
                        }
                        if pre.view_map().remove(key@).dom().contains(k) {
                            let w = choose|w: int|
                                0 <= w < pre.entries_view().len()
                                    && #[trigger] pre.entries_view()[w].0 == k;
                            pre.lemma_entry_index(k, w);
                            assert(w != i as int);
                            let w1 = if w < i as int { w } else { w - 1 };
                            assert(post.entries_view()[w1].0 == k);
                        }
                    }
                    assert forall|k: Seq<char>| #[trigger]
                        post.view_map().dom().contains(k) implies post.view_map()[k]
                        == pre.view_map().remove(key@)[k] by {
                        let w = choose|w: int|
                            0 <= w < post.entries_view().len()
                                && #[trigger] post.entries_view()[w].0 == k;
                        post.lemma_entry_index(k, w);
                        let w0 = if w < i as int { w } else { w + 1 };
                        assert(pre.entries_view()[w0].0 == k);
                        pre.lemma_entry_index(k, w0);
                    }
                    assert(post.view_map() =~= pre.view_map().remove(key@));
                }
                Some(v)
            },
            None => {
                proof {
                    assert(self.view_map() =~= pre.view_map().remove(key@));
                }
                None
            },
        }
    }

    /// Look up the value stored under `key`.
    pub fn get(&self, key: &String) -> (r: Option<&V>)
        requires
            self.wf(),
        ensures
            match r {
                Some(v) => self.contains_key(key@) && *v == self.spec_value(key@),
                None => !self.contains_key(key@),
            },
    {
        match self.position(key) {
            Some(i) => {
                proof {
                    self.lemma_entry_index(key@, i as int);
                }
                Some(&self.entries[i].1)
            },
            None => None,
        }
    }

    /// The entry at a given position, in insertion order.
    pub fn entry_at(&self, i: usize) -> (r: (&String, &V))
        requires
            i < self.entries_view().len(),
        ensures
            r.0@ == self.entries_view()[i as int].0,
            *r.1 == self.entries_view()[i as int].1,
    {
        proof {
            let ii = i as int;
            assert(self.entries_view()[ii] == (self.entries@[ii].0@, self.entries@[ii].1));
        }
        let e = &self.entries[i];
        (&e.0, &e.1)
    }

    /// All keys, in insertion order.
    pub fn keys(&self) -> (r: Vec<String>)
        ensures
            r@.len() == self.entries_view().len(),
            forall|i: int| 0 <= i < r@.len() ==> #[trigger] r@[i]@ == self.entries_view()[i].0,
    {
        let n = self.entries.len();
        let mut r: Vec<String> = Vec::new();
        let mut i: usize = 0;
        while i < n
            invariant
                i <= n,
                n == self.entries_view().len(),
                r@.len() == i,
                forall|j: int| 0 <= j < i ==> #[trigger] r@[j]@ == self.entries_view()[j].0,
            decreases n - i,
        {
            r.push(self.entries[i].0.clone());
            i += 1;
        }
        r
    }
}

} // verus!
