//! A key-unique mapping from string labels to sequences of integers,
//! stored as parallel vectors of keys and values. Lookup and insertion
//! are by key equality; the entries can also be walked by position.

use vstd::prelude::*;

verus! {

/// A mapping from string labels to integer sequences with unique keys.
pub struct LabelMap {
    keys: Vec<String>,
    vals: Vec<Vec<i32>>,
}

impl LabelMap {
    /// The keys, in the order they were first inserted.
    pub closed spec fn key_seq(&self) -> Seq<Seq<char>> {
        self.keys@.map_values(|k: String| k@)
    }

    /// The values, positionally matching `key_seq`.
    pub closed spec fn val_seq(&self) -> Seq<Seq<i32>> {
        self.vals@.map_values(|v: Vec<i32>| v@)
    }

    /// Keys and values pair up, and no key occurs twice.
    pub closed spec fn wf(&self) -> bool {
        &&& self.keys@.len() == self.vals@.len()
        &&& forall|i: int, j: int|
            0 <= i < j < self.keys@.len() ==> self.keys@[i]@ != self.keys@[j]@
    }

    /// The mapping as a mathematical map from label to value.
    pub closed spec fn view(&self) -> Map<Seq<char>, Seq<i32>> {
        Map::new(
            |k: Seq<char>| exists|i: int| 0 <= i < self.keys@.len() && self.keys@[i]@ == k,
            |k: Seq<char>|
                {
                    let i = choose|i: int| 0 <= i < self.keys@.len() && self.keys@[i]@ == k;
                    self.vals@[i]@
                },
        )
    }

    /// An empty mapping.
    pub fn new() -> (r: LabelMap)
        ensures
            r.wf(),
            r@ == Map::<Seq<char>, Seq<i32>>::empty(),
            r.key_seq() == Seq::<Seq<char>>::empty(),
    {
        let r = LabelMap { keys: Vec::new(), vals: Vec::new() };
        proof {
            assert(r@ =~= Map::<Seq<char>, Seq<i32>>::empty());
            assert(r.key_seq() =~= Seq::<Seq<char>>::empty());
        }
        r
    }

    /// Reports at run time whether keys and values pair up and no key
    /// occurs twice.
    pub fn check_wf(&self) -> (b: bool)
        ensures
            b == self.wf(),
    {
        if self.keys.len() != self.vals.len() {
            return false;
        }
        let n = self.keys.len();
        let mut i: usize = 0;
        while i < n
            invariant
                n == self.keys@.len(),
                i <= n,
                forall|p: int, q: int| 0 <= p < q < i ==> self.keys@[p]@ != self.keys@[q]@,
                forall|p: int, q: int| 0 <= p < i && p < q < n ==> self.keys@[p]@ != self.keys@[q]@,
            decreases n - i,
        {
            let mut j: usize = i + 1;
            while j < n
                invariant
                    n == self.keys@.len(),
                    i < n,
                    i + 1 <= j <= n,
                    forall|q: int| i < q < j ==> self.keys@[i as int]@ != self.keys@[q]@,
                decreases n - j,
            {
                if self.keys[i].eq(&self.keys[j]) {
                    return false;
                }
                j = j + 1;
            }
            i = i + 1;
        }
        true
    }

    /// The number of entries held.
    pub fn num_entries(&self) -> (n: usize)
        ensures
            n == self.key_seq().len(),
    {
        self.keys.len()
    }

    /// Inserts `v` under the label `k`, replacing any value already held
    /// under that label. A new label is appended to the key order; an old
    /// one keeps its position.
    #[verifier::loop_isolation(false)]
    pub fn insert(&mut self, k: String, v: Vec<i32>)
        requires
            old(self).wf(),
        ensures
            final(self).wf(),
            final(self)@ == old(self)@.insert(k@, v@),
            old(self)@.contains_key(k@) ==> final(self).key_seq() == old(self).key_seq(),
            !old(self)@.contains_key(k@) ==> final(self).key_seq() == old(self).key_seq().push(
                k@,
            ),
    {
        let n = self.keys.len();
        let mut i: usize = 0;
        while i < n
            invariant
                n == self.keys@.len(),
                i <= n,
                *self == *old(self),
                forall|j: int| 0 <= j < i ==> self.keys@[j]@ != k@,
            decreases n - i,
        {
            if self.keys[i].eq(&k) {
                self.vals.set(i, v);
                proof {
                    assert(self.keys@[i as int]@ == k@);
                    assert(old(self)@.contains_key(k@));
                    assert forall|k2: Seq<char>| #[trigger] self@.contains_key(k2) implies self@[k2]
                        == old(self)@.insert(k@, v@)[k2] by {
                        let w = choose|j: int|
                            0 <= j < self.keys@.len() && self.keys@[j]@ == k2;
                        if w != i && self.keys@[w]@ == self.keys@[i as int]@ {
                            if w < i {
                                assert(self.keys@[w]@ != self.keys@[i as int]@);
                            } else {
                                assert(self.keys@[i as int]@ != self.keys@[w]@);
                            }
                        }
                        if k2 != k@ {
                            let w0 = choose|j: int|
                                0 <= j < old(self).keys@.len() && old(self).keys@[j]@ == k2;
                            assert(old(self).keys@[w]@ == k2);
                            if w0 != w && old(self).keys@[w0]@ == old(self).keys@[w]@ {
                                if w0 < w {
                                    assert(old(self).keys@[w0]@ != old(self).keys@[w]@);
                                } else {
                                    assert(old(self).keys@[w]@ != old(self).keys@[w0]@);
                                }
                            }
                            assert(w0 == w);
                            assert(self.vals@[w]@ == old(self).vals@[w]@);
                        }
                    }
                    assert(self@ =~= old(self)@.insert(k@, v@));
                    assert(self.key_seq() =~= old(self).key_seq());
                }
                return ;
            }
            i = i + 1;
        }
        proof {
            assert(!old(self)@.contains_key(k@));
        }
        self.keys.push(k);
        self.vals.push(v);
        proof {
            let m = old(self).keys@.len() as int;
            assert(self.keys@[m]@ == k@);
            assert forall|k2: Seq<char>|
                self@.contains_key(k2) == old(self)@.insert(k@, v@).contains_key(k2) by {
                if self@.contains_key(k2) {
                    let w = choose|j: int| 0 <= j < self.keys@.len() && self.keys@[j]@ == k2;
                    if w < m {
                        assert(old(self).keys@[w]@ == k2);
                    }
                }
                if old(self)@.contains_key(k2) {
                    let w0 = choose|j: int|
                        0 <= j < old(self).keys@.len() && old(self).keys@[j]@ == k2;
                    assert(self.keys@[w0]@ == k2);
                }
            }
            assert forall|k2: Seq<char>| #[trigger] self@.contains_key(k2) implies self@[k2]
                == old(self)@.insert(k@, v@)[k2] by {
                let w = choose|j: int| 0 <= j < self.keys@.len() && self.keys@[j]@ == k2;
                if k2 == k@ {
                    assert(forall|j: int| 0 <= j < m ==> self.keys@[j]@ != k@);
                    assert(w == m);
                } else {
                    assert(self.keys@[w]@ == k2);
                    assert(w != m);
                    assert(old(self).keys@[w]@ == k2);
                    let w0 = choose|j: int|
                        0 <= j < old(self).keys@.len() && old(self).keys@[j]@ == k2;
                    if w0 != w && old(self).keys@[w0]@ == old(self).keys@[w]@ {
                        if w0 < w {
                            assert(old(self).keys@[w0]@ != old(self).keys@[w]@);
                        } else {
                            assert(old(self).keys@[w]@ != old(self).keys@[w0]@);
                        }
                    }
                    assert(self.vals@[w]@ == old(self).vals@[w]@);
                }
            }
            assert(self@ =~= old(self)@.insert(k@, v@));
            assert(self.key_seq() =~= old(self).key_seq().push(k@));
        }
    }

    /// Looks the label `k` up: the value held under it, or `None` when the
    /// label is absent.
    #[verifier::loop_isolation(false)]
    pub fn get(&self, k: &String) -> (r: Option<&Vec<i32>>)
        requires
            self.wf(),
        ensures
            match r {
                Some(v) => self@.contains_key(k@) && v@ == self@[k@],
                None => !self@.contains_key(k@),
            },
    {
        let n = self.keys.len();
        let mut i: usize = 0;
        while i < n
            invariant
                n == self.keys@.len(),
                i <= n,
                self.wf(),
                forall|j: int| 0 <= j < i ==> self.keys@[j]@ != k@,
            decreases n - i,
        {
            if self.keys[i].eq(k) {
                proof {
                    let w = choose|j: int| 0 <= j < self.keys@.len() && self.keys@[j]@ == k@;
                    assert(w == i);
                }
                return Some(&self.vals[i]);
            }
            i = i + 1;
        }
        None
    }

    /// The label at position `i` of the key order.
    pub fn key_at(&self, i: usize) -> (k: &String)
        requires
            self.wf(),
            i < self.key_seq().len(),
        ensures
            k@ == self.key_seq()[i as int],
            self@.contains_key(k@),
    {
        &self.keys[i]
    }

    /// The value held under the label at position `i` of the key order.
    pub fn value_at(&self, i: usize) -> (v: &Vec<i32>)
        requires
            self.wf(),
            i < self.key_seq().len(),
        ensures
            v@ == self@[self.key_seq()[i as int]],
    {
        proof {
            let k2 = self.keys@[i as int]@;
            let w = choose|j: int| 0 <= j < self.keys@.len() && self.keys@[j]@ == k2;
            assert(w == i);
        }
        &self.vals[i]
    }
}

} // verus!
