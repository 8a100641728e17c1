use vstd::prelude::*;

verus! {

/// A collection keyed by device identifier, holding at most one value per
/// identifier. Its model is a finite map from the identifier's characters to
/// the value.
pub struct DeviceMap<V> {
    entries: Vec<(String, V)>,
}

impl<V> DeviceMap<V> {
    pub closed spec fn view(&self) -> Map<Seq<char>, V> {
        Map::new(
            |k: Seq<char>| exists|i: int| 0 <= i < self.entries@.len() && self.entries@[i].0@ == k,
            |k: Seq<char>|
                self.entries@[choose|i: int| 0 <= i < self.entries@.len() && self.entries@[i].0@ == k].1,
        )
    }

    /// No identifier occurs twice.
    pub closed spec fn wf(&self) -> bool {
        forall|i: int, j: int|
            0 <= i < self.entries@.len() && 0 <= j < self.entries@.len() && i != j
                ==> #[trigger] self.entries@[i].0@ != #[trigger] self.entries@[j].0@
    }

    proof fn lemma_entry(&self, i: int)
        requires
            self.wf(),
            0 <= i < self.entries@.len(),
        ensures
            self@.contains_key(self.entries@[i].0@),
            self@[self.entries@[i].0@] == self.entries@[i].1,
    {
        let k = self.entries@[i].0@;
        assert(self@.dom().contains(k));
        let j = choose|j: int| 0 <= j < self.entries@.len() && self.entries@[j].0@ == k;
        assert(i == j);
    }

    pub fn new() -> (r: Self)
        ensures
            r.wf(),
            r@ == Map::<Seq<char>, V>::empty(),
    {
        let r = DeviceMap { entries: Vec::new() };
        assert(r@ =~= Map::<Seq<char>, V>::empty());
        r
    }

    fn position(&self, id: &String) -> (r: Option<usize>)
        requires
            self.wf(),
        ensures
            match r {
                Some(i) => i < self.entries@.len() && self.entries@[i as int].0@ == id@,
                None => !self@.contains_key(id@),
            },
    {
        let mut i: usize = 0;
        while i < self.entries.len()
            invariant
                i <= self.entries@.len(),
                forall|j: int| 0 <= j < i ==> self.entries@[j].0@ != id@,
            decreases self.entries@.len() - i,
        {
            if self.entries[i].0.eq(id) {
                return Some(i);
            }
            i = i + 1;
        }
        None
    }

    pub fn get(&self, id: &String) -> (r: Option<&V>)
        requires
            self.wf(),
        ensures
            match r {
                Some(v) => self@.contains_key(id@) && *v == self@[id@],
                None => !self@.contains_key(id@),
            },
    {
        match self.position(id) {
            Some(i) => {
                proof {
                    self.lemma_entry(i as int);
                }
                Some(&self.entries[i].1)
            },
            None => None,
        }
    }

    pub fn remove(&mut self, id: &String) -> (r: Option<V>)
        requires
            old(self).wf(),
        ensures
            final(self).wf(),
            final(self)@ == old(self)@.remove(id@),
            match r {
                Some(v) => old(self)@.contains_key(id@) && v == old(self)@[id@],
                None => !old(self)@.contains_key(id@),
            },
    {
        match self.position(id) {
            Some(i) => {
                proof {
                    self.lemma_entry(i as int);
                }
                let ghost before = self.entries@;
                let (_, v) = self.entries.remove(i);
                assert forall|a: int, b: int|
                    0 <= a < self.entries@.len() && 0 <= b < self.entries@.len() && a != b
                        implies #[trigger] self.entries@[a].0@ != #[trigger] self.entries@[b].0@ by {
                    let a0 = if a < i { a } else { a + 1 };
                    let b0 = if b < i { b } else { b + 1 };
                    assert(self.entries@[a] == before[a0]);
                    assert(self.entries@[b] == before[b0]);
                }
                assert forall|k: Seq<char>| #[trigger] self@.contains_key(k) implies k != id@ by {
                    let j = choose|j: int| 0 <= j < self.entries@.len() && self.entries@[j].0@ == k;
                    let j0 = if j < i { j } else { j + 1 };
                    assert(self.entries@[j] == before[j0]);
                }
                assert(self@ =~= old(self)@.remove(id@)) by {
                    assert forall|k: Seq<char>| k != id@ implies (#[trigger] self@.contains_key(k)
                        == old(self)@.contains_key(k)) by {
                        if old(self)@.contains_key(k) {
                            let j0 = choose|j: int| 0 <= j < before.len() && before[j].0@ == k;
                            let j = if j0 < i { j0 } else { j0 - 1 };
                            assert(self.entries@[j] == before[j0]);
                        }
                        if self@.contains_key(k) {
                            let j = choose|j: int| 0 <= j < self.entries@.len() && self.entries@[j].0@ == k;
                            let j0 = if j < i { j } else { j + 1 };
                            assert(self.entries@[j] == before[j0]);
                        }
                    }
                    assert forall|k: Seq<char>| #[trigger] self@.contains_key(k) implies self@[k]
                        == old(self)@[k] by {
                        let j = choose|j: int| 0 <= j < self.entries@.len() && self.entries@[j].0@ == k;
                        let j0 = if j < i { j } else { j + 1 };
                        assert(self.entries@[j] == before[j0]);
                        self.lemma_entry(j);
                        old(self).lemma_entry(j0);
                    }
                }
                Some(v)
            },
            None => {
                assert(self@ =~= old(self)@.remove(id@));
                None
            },
        }
    }

    pub fn insert(&mut self, id: String, v: V)
        requires
            old(self).wf(),
        ensures
            final(self).wf(),
            final(self)@ == old(self)@.insert(id@, v),
    {
        let _ = self.remove(&id);
        let ghost mid = self.entries@;
        let ghost key = id@;
        let ghost val = v;
        let ghost mid_map = self@;
        self.entries.push((id, v));
        let ghost n = mid.len() as int;
        assert forall|a: int, b: int|
            0 <= a < self.entries@.len() && 0 <= b < self.entries@.len() && a != b
                implies #[trigger] self.entries@[a].0@ != #[trigger] self.entries@[b].0@ by {
            if a == n {
                assert(self.entries@[b] == mid[b]);
                if mid[b].0@ == key {
                    assert(mid_map.contains_key(key));
                }
            } else if b == n {
                assert(self.entries@[a] == mid[a]);
                if mid[a].0@ == key {
                    assert(mid_map.contains_key(key));
                }
            } else {
                assert(self.entries@[a] == mid[a]);
                assert(self.entries@[b] == mid[b]);
            }
        }
        assert(self@ =~= mid_map.insert(key, val)) by {
            assert forall|k: Seq<char>| #[trigger] self@.contains_key(k) == mid_map.insert(key, val).contains_key(k) by {
                if k == key {
                    assert(self.entries@[n].0@ == key);
                } else {
                    if mid_map.contains_key(k) {
                        let j = choose|j: int| 0 <= j < mid.len() && mid[j].0@ == k;
                        assert(self.entries@[j] == mid[j]);
                    }
                    if self@.contains_key(k) {
                        let j = choose|j: int| 0 <= j < self.entries@.len() && self.entries@[j].0@ == k;
                        assert(j != n);
                        assert(self.entries@[j] == mid[j]);
                    }
                }
            }
            assert forall|k: Seq<char>| #[trigger] self@.contains_key(k) implies self@[k]
                == mid_map.insert(key, val)[k] by {
                let j = choose|j: int| 0 <= j < self.entries@.len() && self.entries@[j].0@ == k;
                self.lemma_entry(j);
                if j != n {
                    assert(self.entries@[j] == mid[j]);
                    if k == key {
                        assert(mid[j].0@ == key);
                        assert(mid_map.contains_key(key));
                    }
                    assert(k != key);
                    let j0 = choose|j0: int| 0 <= j0 < mid.len() && mid[j0].0@ == k;
                    assert(j0 == j) by {
                        assert(self.entries@[j0] == mid[j0]);
                    }
                    assert(mid_map[k] == mid[j].1);
                }
            }
        }
    }
}

} // verus!
