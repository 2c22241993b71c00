//! A map from text keys to values, kept as parallel lists with each key once.
use vstd::prelude::*;
use crate::text::{owned, str_eq};

verus! {

pub struct Keyed<V> {
    keys: Vec<String>,
    vals: Vec<V>,
}

impl<V> Keyed<V> {
    pub closed spec fn wf(&self) -> bool {
        &&& self.keys@.len() == self.vals@.len()
        &&& forall|i: int, j: int|
            0 <= i < j < self.keys@.len() ==> (#[trigger] self.keys@[i])@ != (#[trigger] self.keys@[j])@
    }

    /// The entries, by key.
    pub closed spec fn map(&self) -> Map<Seq<char>, V> {
        Map::new(
            |k: Seq<char>| exists|i: int| 0 <= i < self.keys@.len() && (#[trigger] self.keys@[i])@ == k,
            |k: Seq<char>|
                self.vals@[choose|i: int| 0 <= i < self.keys@.len() && (#[trigger] self.keys@[i])@ == k],
        )
    }

    proof fn lemma_at(&self, i: int)
        requires
            self.wf(),
            0 <= i < self.keys@.len(),
        ensures
            self.map().contains_key(self.keys@[i]@),
            self.map()[self.keys@[i]@] == self.vals@[i],
    {
        let k = self.keys@[i]@;
        assert(self.map().dom().contains(k));
        let j = choose|j: int| 0 <= j < self.keys@.len() && (#[trigger] self.keys@[j])@ == k;
        if j != i {
            if j < i {
                assert(self.keys@[j]@ != self.keys@[i]@);
            } else {
                assert(self.keys@[i]@ != self.keys@[j]@);
            }
        }
    }

    pub fn new() -> (r: Self)
        ensures
            r.wf(),
            r.map() == Map::<Seq<char>, V>::empty(),
    {
        let r = Keyed { keys: Vec::new(), vals: Vec::new() };
        assert(r.map() =~= Map::<Seq<char>, V>::empty());
        r
    }

    /// Where `key` is held, if it is.
    fn position(&self, key: &str) -> (r: Option<usize>)
        requires
            self.wf(),
        ensures
            match r {
                Some(i) => i < self.keys@.len() && self.keys@[i as int]@ == key@,
                None => !self.map().contains_key(key@),
            },
    {
        let mut i: usize = 0;
        while i < self.keys.len()
            invariant
                0 <= i <= self.keys@.len(),
                forall|j: int| 0 <= j < i ==> (#[trigger] self.keys@[j])@ != key@,
            decreases self.keys@.len() - i,
        {
            if str_eq(self.keys[i].as_str(), key) {
                return Some(i);
            }
            i = i + 1;
        }
        None
    }

    pub fn get(&self, key: &str) -> (r: Option<&V>)
        requires
            self.wf(),
        ensures
            match r {
                Some(v) => self.map().contains_key(key@) && *v == self.map()[key@],
                None => !self.map().contains_key(key@),
            },
    {
        match self.position(key) {
            Some(i) => {
                proof {
                    self.lemma_at(i as int);
                }
                Some(&self.vals[i])
            },
            None => None,
        }
    }

    /// Sets the value of `key`, adding it when absent.
    pub fn insert(&mut self, key: &str, v: V)
        requires
            old(self).wf(),
        ensures
            final(self).wf(),
            final(self).map() == old(self).map().insert(key@, v),
    {
        let ghost pre = self.map();
        match self.position(key) {
            Some(i) => {
                self.vals.set(i, v);
                proof {
                    assert forall|k: Seq<char>| #[trigger] self.map().contains_key(k) <==> pre.insert(key@, v).contains_key(k) by {
                        if pre.contains_key(k) {
                            let j = choose|j: int| 0 <= j < old(self).keys@.len() && (#[trigger] old(self).keys@[j])@ == k;
                            assert(self.keys@[j]@ == k);
                        }
                        if self.map().contains_key(k) {
                            let j = choose|j: int| 0 <= j < self.keys@.len() && (#[trigger] self.keys@[j])@ == k;
                            assert(old(self).keys@[j]@ == k);
                        }
                    }
                    assert forall|k: Seq<char>| #[trigger] self.map().contains_key(k) implies self.map()[k] == pre.insert(key@, v)[k] by {
                        let j = choose|j: int| 0 <= j < self.keys@.len() && (#[trigger] self.keys@[j])@ == k;
                        self.lemma_at(j);
                        if j == i {
                        } else {
                            old(self).lemma_at(j);
                        }
                    }
                    assert(self.map() =~= pre.insert(key@, v));
                }
            },
            None => {
                self.keys.push(owned(key));
                self.vals.push(v);
                proof {
                    let n = self.keys@.len() - 1;
                    assert(self.keys@[n]@ == key@);
                    assert forall|i: int, j: int|
                        0 <= i < j < self.keys@.len() implies (#[trigger] self.keys@[i])@ != (#[trigger] self.keys@[j])@ by {
                        if j == n {
                            assert(old(self).keys@[i] == self.keys@[i]);
                            if self.keys@[i]@ == key@ {
                                assert(pre.contains_key(key@));
                            }
                        } else {
                            assert(old(self).keys@[i] == self.keys@[i]);
                            assert(old(self).keys@[j] == self.keys@[j]);
                        }
                    }
                    assert forall|k: Seq<char>| #[trigger] self.map().contains_key(k) <==> pre.insert(key@, v).contains_key(k) by {
                        if pre.contains_key(k) {
                            let j = choose|j: int| 0 <= j < old(self).keys@.len() && (#[trigger] old(self).keys@[j])@ == k;
                            assert(self.keys@[j]@ == k);
                        }
                        if k == key@ {
                            assert(self.keys@[n]@ == k);
                        }
                        if self.map().contains_key(k) {
                            let j = choose|j: int| 0 <= j < self.keys@.len() && (#[trigger] self.keys@[j])@ == k;
                            if j < n {
                                assert(old(self).keys@[j]@ == k);
                            }
                        }
                    }
                    assert forall|k: Seq<char>| #[trigger] self.map().contains_key(k) implies self.map()[k] == pre.insert(key@, v)[k] by {
                        let j = choose|j: int| 0 <= j < self.keys@.len() && (#[trigger] self.keys@[j])@ == k;
                        self.lemma_at(j);
                        if j < n {
                            old(self).lemma_at(j);
                        }
                    }
                    assert(self.map() =~= pre.insert(key@, v));
                }
            },
        }
    }

    /// Takes `key` out, if it is there.
    pub fn remove(&mut self, key: &str)
        requires
            old(self).wf(),
        ensures
            final(self).wf(),
            final(self).map() == old(self).map().remove(key@),
    {
        let ghost pre = self.map();
        match self.position(key) {
            Some(i) => {
                let ghost ok = self.keys@;
                let ghost ov = self.vals@;
                self.keys.remove(i);
                self.vals.remove(i);
                proof {
                    assert(self.keys@ =~= ok.remove(i as int));
                    assert(self.vals@ =~= ov.remove(i as int));
                    assert forall|a: int, b: int|
                        0 <= a < b < self.keys@.len() implies (#[trigger] self.keys@[a])@ != (#[trigger] self.keys@[b])@ by {
                        let a0 = if a < i { a } else { a + 1 };
                        let b0 = if b < i { b } else { b + 1 };
                        assert(self.keys@[a] == ok[a0]);
                        assert(self.keys@[b] == ok[b0]);
                    }
                    assert forall|k: Seq<char>| #[trigger] self.map().contains_key(k) <==> pre.remove(key@).contains_key(k) by {
                        if self.map().contains_key(k) {
                            let j = choose|j: int| 0 <= j < self.keys@.len() && (#[trigger] self.keys@[j])@ == k;
                            let j0 = if j < i { j } else { j + 1 };
                            assert(ok[j0]@ == k);
                            assert(j0 != i);
                            assert(k != key@);
                        }
                        if pre.remove(key@).contains_key(k) {
                            let j = choose|j: int| 0 <= j < ok.len() && (#[trigger] ok[j])@ == k;
                            assert(j != i);
                            let j1 = if j < i { j } else { j - 1 };
                            assert(self.keys@[j1]@ == k);
                        }
                    }
                    assert forall|k: Seq<char>| #[trigger] self.map().contains_key(k) implies self.map()[k] == pre.remove(key@)[k] by {
                        let j = choose|j: int| 0 <= j < self.keys@.len() && (#[trigger] self.keys@[j])@ == k;
                        self.lemma_at(j);
                        let j0 = if j < i { j } else { j + 1 };
                        old(self).lemma_at(j0);
                    }
                    assert(self.map() =~= pre.remove(key@));
                }
            },
            None => {
                assert(self.map() =~= pre.remove(key@));
            },
        }
    }
}

} // verus!
