use vstd::prelude::*;

verus! {

/// A map from stream identifiers to per-stream state, with unique keys.
pub struct StreamTable<V> {
    pub keys: Vec<String>,
    pub values: Vec<V>,
}

impl<V> StreamTable<V> {
    pub open spec fn has(&self, key: Seq<char>) -> bool {
        exists|i: int| 0 <= i < self.keys@.len() && #[trigger] self.keys@[i]@ == key
    }

    pub open spec fn index_of(&self, key: Seq<char>) -> int {
        choose|i: int| 0 <= i < self.keys@.len() && #[trigger] self.keys@[i]@ == key
    }

    pub open spec fn view(&self) -> Map<Seq<char>, V> {
        Map::new(|k: Seq<char>| self.has(k), |k: Seq<char>| self.values@[self.index_of(k)])
    }

    /// Keys and values pair up, and no key appears twice.
    pub open spec fn wf(&self) -> bool {
        &&& self.keys@.len() == self.values@.len()
        &&& forall|i: int, j: int|
            0 <= i < j < self.keys@.len() ==> #[trigger] self.keys@[i]@ != #[trigger] self.keys@[j]@
    }

    proof fn lemma_index_of(&self, i: int)
        requires
            self.wf(),
            0 <= i < self.keys@.len(),
        ensures
            self.has(self.keys@[i]@),
            self.index_of(self.keys@[i]@) == i,
    {
        let k = self.keys@[i]@;
        assert(self.has(k));
        let j = self.index_of(k);
        if j != i {
            if j < i {
                assert(self.keys@[j]@ != self.keys@[i]@);
            } else {
                assert(self.keys@[i]@ != self.keys@[j]@);
            }
        }
    }

    pub fn new() -> (r: StreamTable<V>)
        ensures
            r.wf(),
            r@ == Map::<Seq<char>, V>::empty(),
    {
        let r = StreamTable { keys: Vec::new(), values: Vec::new() };
        assert(r@ =~= Map::<Seq<char>, V>::empty());
        r
    }

    pub fn len(&self) -> (r: usize)
        requires
            self.wf(),
        ensures
            r == self@.dom().len(),
    {
        proof {
            self.lemma_dom_len();
        }
        self.keys.len()
    }

    pub proof fn lemma_dom_len(&self)
        requires
            self.wf(),
        ensures
            self@.dom().finite(),
            self@.dom().len() == self.keys@.len(),
            self@.dom() == self.keys@.map_values(|k: String| k@).to_set(),
    {
        let ks = self.keys@.map_values(|k: String| k@);
        assert forall|k: Seq<char>| self@.dom().contains(k) <==> ks.to_set().contains(k) by {
            if self.has(k) {
                let i = self.index_of(k);
                assert(ks[i] == k);
            }
            if ks.to_set().contains(k) {
                let i = choose|i: int| 0 <= i < ks.len() && ks[i] == k;
                assert(self.keys@[i]@ == k);
            }
        };
        assert(self@.dom() =~= ks.to_set());
        assert forall|i: int, j: int| 0 <= i < ks.len() && 0 <= j < ks.len() && i != j implies ks[i]
            != ks[j] by {
            if i < j {
                assert(self.keys@[i]@ != self.keys@[j]@);
            } else {
                assert(self.keys@[j]@ != self.keys@[i]@);
            }
        };
        assert(ks.no_duplicates());
        ks.unique_seq_to_set();
    }

    /// The position of `key`, if it is present.
    pub fn find(&self, key: &str) -> (r: Option<usize>)
        requires
            self.wf(),
        ensures
            r.is_some() == self@.dom().contains(key@),
            r.is_some() ==> r->0 < self.keys@.len() && self.keys@[r->0 as int]@ == key@
                && r->0 == self.index_of(key@),
    {
        let mut i: usize = 0;
        while i < self.keys.len()
            invariant
                self.wf(),
                i <= self.keys@.len(),
                forall|j: int| 0 <= j < i ==> self.keys@[j]@ != key@,
            decreases self.keys@.len() - i,
        {
            if str_eq(self.keys[i].as_str(), key) {
                proof {
                    self.lemma_index_of(i as int);
                }
                return Some(i);
            }
            i = i + 1;
        }
        None
    }

    pub fn contains_key(&self, key: &str) -> (r: bool)
        requires
            self.wf(),
        ensures
            r == self@.dom().contains(key@),
    {
        self.find(key).is_some()
    }

    /// The value stored under `key`, if any.
    pub fn get(&self, key: &str) -> (r: Option<&V>)
        requires
            self.wf(),
        ensures
            r.is_some() == self@.dom().contains(key@),
            r.is_some() ==> *r->0 == self@[key@],
    {
        match self.find(key) {
            Some(i) => Some(&self.values[i]),
            None => None,
        }
    }

    /// Takes the value stored under `key` out of the table.
    pub fn remove(&mut self, key: &str) -> (r: Option<V>)
        requires
            old(self).wf(),
        ensures
            final(self).wf(),
            r.is_some() == old(self)@.dom().contains(key@),
            r.is_some() ==> r->0 == old(self)@[key@],
            final(self)@ == old(self)@.remove(key@),
    {
        match self.find(key) {
            Some(i) => {
                let ghost o = *self;
                let _k = self.keys.remove(i);
                let v = self.values.remove(i);
                proof {
                    assert forall|a: int, b: int|
                        0 <= a < b < self.keys@.len() implies #[trigger] self.keys@[a]@
                        != #[trigger] self.keys@[b]@ by {
                        let oa = if a < i { a } else { a + 1 };
                        let ob = if b < i { b } else { b + 1 };
                        assert(o.keys@[oa]@ != o.keys@[ob]@);
                    };
                    assert forall|k: Seq<char>| #[trigger]
                        self@.dom().contains(k) <==> o@.remove(key@).dom().contains(k) by {
                        if self.has(k) {
                            let j = self.index_of(k);
                            let oj = if j < i { j } else { j + 1 };
                            assert(o.keys@[oj]@ == k);
                            assert(o.has(k));
                            assert(k != key@) by {
                                o.lemma_index_of(oj);
                            };
                        }
                        if o.has(k) && k != key@ {
                            let oj = o.index_of(k);
                            assert(oj != i);
                            let j = if oj < i { oj } else { oj - 1 };
                            assert(self.keys@[j]@ == k);
                        }
                    };
                    assert forall|k: Seq<char>| #[trigger]
                        self@.dom().contains(k) implies self@[k] == o@.remove(key@)[k] by {
                        let j = self.index_of(k);
                        self.lemma_index_of(j);
                        let oj = if j < i { j } else { j + 1 };
                        assert(o.keys@[oj]@ == k);
                        o.lemma_index_of(oj);
                    };
                    assert(self@ =~= o@.remove(key@));
                }
                Some(v)
            },
            None => {
                assert(self@ =~= old(self)@.remove(key@));
                None
            },
        }
    }

    /// Stores `value` under `key`, replacing what was there.
    pub fn insert(&mut self, key: String, value: V)
        requires
            old(self).wf(),
        ensures
            final(self).wf(),
            final(self)@ == old(self)@.insert(key@, value),
    {
        let _old_value = self.remove(key.as_str());
        let ghost o = *self;
        self.keys.push(key);
        self.values.push(value);
        proof {
            let n = o.keys@.len() as int;
            assert forall|a: int, b: int|
                0 <= a < b < self.keys@.len() implies #[trigger] self.keys@[a]@
                != #[trigger] self.keys@[b]@ by {
                assert(self.keys@[a] == o.keys@[a]);
                if b == n {
                    assert(self.keys@[b]@ == key@);
                    assert(!o@.dom().contains(key@));
                    if o.keys@[a]@ == key@ {
                        o.lemma_index_of(a);
                        assert(o@.dom().contains(key@));
                    }
                } else {
                    assert(self.keys@[b] == o.keys@[b]);
                    assert(o.keys@[a]@ != o.keys@[b]@);
                }
            };
            self.lemma_index_of(n);
            assert forall|k: Seq<char>| #[trigger]
                self@.dom().contains(k) <==> o@.insert(key@, value).dom().contains(k) by {
                if self.has(k) && k != key@ {
                    let j = self.index_of(k);
                    assert(j != n);
                    assert(o.keys@[j]@ == k);
                }
                if o.has(k) {
                    let j = o.index_of(k);
                    assert(self.keys@[j]@ == k);
                }
            };
            assert forall|k: Seq<char>| #[trigger]
                self@.dom().contains(k) implies self@[k] == o@.insert(key@, value)[k] by {
                if k != key@ {
                    let j = self.index_of(k);
                    self.lemma_index_of(j);
                    assert(j != n);
                    assert(o.keys@[j]@ == k);
                    o.lemma_index_of(j);
                }
            };
            assert(self@ =~= o@.insert(key@, value));
        }
    }

    /// The keys, in table order.
    pub fn key_list(&self) -> (r: Vec<String>)
        requires
            self.wf(),
        ensures
            r@.len() == self@.dom().len(),
            forall|i: int| 0 <= i < r@.len() ==> self@.dom().contains(#[trigger] r@[i]@),
            forall|i: int, j: int| 0 <= i < j < r@.len() ==> (#[trigger] r@[i])@ != (#[trigger] r@[j])@,
            forall|k: Seq<char>| #[trigger]
                self@.dom().contains(k) ==> exists|i: int| 0 <= i < r@.len() && r@[i]@ == k,
    {
        proof {
            self.lemma_dom_len();
        }
        let mut r: Vec<String> = Vec::new();
        let mut i: usize = 0;
        while i < self.keys.len()
            invariant
                self.wf(),
                i <= self.keys@.len(),
                r@.len() == i,
                forall|j: int| 0 <= j < i ==> (#[trigger] r@[j])@ == self.keys@[j]@,
            decreases self.keys@.len() - i,
        {
            r.push(self.keys[i].clone());
            proof {
                self.lemma_index_of(i as int);
            }
            i = i + 1;
        }
        assert forall|j: int| 0 <= j < r@.len() implies self@.dom().contains(#[trigger] r@[j]@) by {
            self.lemma_index_of(j);
        };
        assert forall|k: Seq<char>| #[trigger]
            self@.dom().contains(k) implies exists|i: int| 0 <= i < r@.len() && r@[i]@ == k by {
            let i = self.index_of(k);
            assert(r@[i]@ == k);
        };
        r
    }
}

/// Whether two strings hold the same characters.
pub fn str_eq(a: &str, b: &str) -> (r: bool)
    ensures
        r == (a@ == b@),
{
    let n = a.unicode_len();
    if n != b.unicode_len() {
        return false;
    }
    let mut i: usize = 0;
    while i < n
        invariant
            n == a@.len(),
            n == b@.len(),
            i <= n,
            forall|j: int| 0 <= j < i ==> a@[j] == b@[j],
        decreases n - i,
    {
        if a.get_char(i) != b.get_char(i) {
            return false;
        }
        i = i + 1;
    }
    assert(a@ =~= b@);
    true
}

} // verus!
