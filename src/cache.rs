use vstd::prelude::*;

verus! {

/// A sequence of key/value pairs with distinct keys that holds exactly the map `m`.
pub open spec fn pairs_hold(s: Seq<(String, String)>, m: Map<Seq<char>, Seq<char>>) -> bool {
    &&& forall|i: int, j: int| 0 <= i < j < s.len() ==> s[i].0@ != s[j].0@
    &&& forall|i: int| 0 <= i < s.len() ==> #[trigger] m.contains_key(s[i].0@) && m[s[i].0@] == s[i].1@
    &&& forall|k: Seq<char>| #[trigger] m.contains_key(k) ==> exists|i: int| 0 <= i < s.len() && s[i].0@ == k
}

/// The local copy of the services seen under a prefix: service key to address.
pub struct ServiceCache {
    entries: Vec<(String, String)>,
    model: Ghost<Map<Seq<char>, Seq<char>>>,
}

impl View for ServiceCache {
    type V = Map<Seq<char>, Seq<char>>;

    closed spec fn view(&self) -> Map<Seq<char>, Seq<char>> {
        self.model@
    }
}

impl ServiceCache {
    pub closed spec fn wf(&self) -> bool {
        pairs_hold(self.entries@, self.model@)
    }

    pub fn new() -> (r: ServiceCache)
        ensures
            r.wf(),
            r@ == Map::<Seq<char>, Seq<char>>::empty(),
    {
        ServiceCache { entries: Vec::new(), model: Ghost(Map::empty()) }
    }

    /// Position of `key` among the entries, if present.
    fn find(&self, key: &String) -> (r: Option<usize>)
        requires
            self.wf(),
        ensures
            match r {
                Some(i) => i < self.entries@.len() && self.entries@[i as int].0@ == key@,
                None => !self@.contains_key(key@),
            },
    {
        let mut i: usize = 0;
        while i < self.entries.len()
            invariant
                self.wf(),
                i <= self.entries@.len(),
                forall|j: int| 0 <= j < i ==> self.entries@[j].0@ != key@,
            decreases self.entries@.len() - i,
        {
            if self.entries[i].0 == *key {
                return Some(i);
            }
            i = i + 1;
        }
        None
    }

    /// Inserts or overwrites the address under `key`.
    pub fn insert(&mut self, key: String, value: String)
        requires
            old(self).wf(),
        ensures
            final(self).wf(),
            final(self)@ == old(self)@.insert(key@, value@),
    {
        self.remove(&key);
        let ghost mid = self.entries@;
        let ghost m = self.model@;
        let ghost k = key@;
        let ghost v = value@;
        self.entries.push((key, value));
        self.model = Ghost(self.model@.insert(k, v));
        proof {
            let s = self.entries@;
            assert(s.last().0@ == k);
            assert forall|i: int| 0 <= i < mid.len() implies s[i] == mid[i] by {}
            assert forall|i: int, j: int| 0 <= i < j < s.len() implies s[i].0@ != s[j].0@ by {
                if j == s.len() - 1 {
                    assert(m.contains_key(mid[i].0@));
                }
            }
            assert forall|i: int| 0 <= i < s.len() implies #[trigger] self.model@.contains_key(s[i].0@)
                && self.model@[s[i].0@] == s[i].1@ by {
                if i < mid.len() {
                    assert(m.contains_key(mid[i].0@));
                }
            }
            assert forall|kk: Seq<char>| #[trigger] self.model@.contains_key(kk) implies exists|i: int|
                0 <= i < s.len() && s[i].0@ == kk by {
                if kk == k {
                    assert(s[s.len() - 1].0@ == kk);
                } else {
                    assert(m.contains_key(kk));
                    let i = choose|i: int| 0 <= i < mid.len() && mid[i].0@ == kk;
                    assert(s[i].0@ == kk);
                }
            }
        }
    }

    /// Removes `key`; nothing changes when it is absent.
    pub fn remove(&mut self, key: &String)
        requires
            old(self).wf(),
        ensures
            final(self).wf(),
            final(self)@ == old(self)@.remove(key@),
    {
        match self.find(key) {
            None => {
                proof {
                    assert(self.model@.remove(key@) =~= self.model@);
                }
            },
            Some(idx) => {
                let ghost old_s = self.entries@;
                let ghost m = self.model@;
                self.entries.remove(idx);
                self.model = Ghost(self.model@.remove(key@));
                proof {
                    let s = self.entries@;
                    let ii = idx as int;
                    assert forall|i: int| 0 <= i < s.len() implies #[trigger] s[i] == (if i < ii {
                        old_s[i]
                    } else {
                        old_s[i + 1]
                    }) by {}
                    assert forall|i: int, j: int| 0 <= i < j < s.len() implies s[i].0@ != s[j].0@ by {
                        let oi = if i < ii { i } else { i + 1 };
                        let oj = if j < ii { j } else { j + 1 };
                        assert(s[i] == old_s[oi]);
                        assert(s[j] == old_s[oj]);
                    }
                    assert forall|i: int| 0 <= i < s.len() implies #[trigger] self.model@.contains_key(s[i].0@)
                        && self.model@[s[i].0@] == s[i].1@ by {
                        let oi = if i < ii { i } else { i + 1 };
                        assert(s[i] == old_s[oi]);
                        assert(old_s[oi].0@ != old_s[ii].0@);
                        assert(m.contains_key(old_s[oi].0@));
                    }
                    assert forall|kk: Seq<char>| #[trigger] self.model@.contains_key(kk) implies exists|i: int|
                        0 <= i < s.len() && s[i].0@ == kk by {
                        assert(m.contains_key(kk));
                        let oi = choose|oi: int| 0 <= oi < old_s.len() && old_s[oi].0@ == kk;
                        assert(oi != ii);
                        let i = if oi < ii { oi } else { oi - 1 };
                        assert(s[i] == old_s[oi]);
                    }
                }
            },
        }
    }

    /// Drops every entry.
    pub fn clear(&mut self)
        requires
            old(self).wf(),
        ensures
            final(self).wf(),
            final(self)@ == Map::<Seq<char>, Seq<char>>::empty(),
    {
        self.entries.clear();
        self.model = Ghost(Map::empty());
    }

    /// A copy of every entry, with distinct keys, in no particular order.
    pub fn to_vec(&self) -> (r: Vec<(String, String)>)
        requires
            self.wf(),
        ensures
            pairs_hold(r@, self@),
    {
        let mut r: Vec<(String, String)> = Vec::new();
        let mut i: usize = 0;
        while i < self.entries.len()
            invariant
                self.wf(),
                i <= self.entries@.len(),
                r@.len() == i,
                forall|j: int| 0 <= j < i ==> #[trigger] r@[j].0@ == self.entries@[j].0@ && r@[j].1@
                    == self.entries@[j].1@,
            decreases self.entries@.len() - i,
        {
            let k = self.entries[i].0.clone();
            let v = self.entries[i].1.clone();
            r.push((k, v));
            i = i + 1;
        }
        proof {
            let s = self.entries@;
            assert forall|i: int, j: int| 0 <= i < j < r@.len() implies r@[i].0@ != r@[j].0@ by {
                assert(r@[i].0@ == s[i].0@);
                assert(r@[j].0@ == s[j].0@);
            }
            assert forall|i: int| 0 <= i < r@.len() implies #[trigger] self@.contains_key(r@[i].0@)
                && self@[r@[i].0@] == r@[i].1@ by {
                assert(r@[i].0@ == s[i].0@);
                assert(self@.contains_key(s[i].0@));
            }
            assert forall|k: Seq<char>| #[trigger] self@.contains_key(k) implies exists|i: int|
                0 <= i < r@.len() && r@[i].0@ == k by {
                let i = choose|i: int| 0 <= i < s.len() && s[i].0@ == k;
                assert(r@[i].0@ == s[i].0@);
            }
        }
        r
    }
}

} // verus!
