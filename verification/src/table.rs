//! An owning table from `u64` identifiers to resources.
//!
//! This is the storage behind the window registry and the timer/interval
//! scheduler: a pair of parallel vectors with unique keys, abstracted as a
//! [`Map`] view. Entries can be checked out by value (`remove`), mutated in
//! place (`get_mut`) and checked back in (`insert`); `keys` takes the
//! snapshot of live identifiers that the scheduler's tick scans.

use vstd::prelude::*;

verus! {

/// The mathematical contents of parallel key/value sequences.
spec fn map_of<V>(ks: Seq<u64>, vs: Seq<V>) -> Map<u64, V>
    decreases ks.len(),
{
    if ks.len() == 0 || vs.len() == 0 {
        Map::empty()
    } else {
        map_of(ks.drop_last(), vs.drop_last()).insert(ks.last(), vs.last())
    }
}

proof fn lemma_map_of_contains<V>(ks: Seq<u64>, vs: Seq<V>)
    requires
        ks.len() == vs.len(),
    ensures
        forall|k: u64| #[trigger] map_of(ks, vs).contains_key(k) <==> ks.contains(k),
        map_of(ks, vs).dom().finite(),
    decreases ks.len(),
{
    if ks.len() == 0 {
        assert(forall|k: u64| !ks.contains(k));
    } else {
        let dk = ks.drop_last();
        let dv = vs.drop_last();
        lemma_map_of_contains(dk, dv);
        assert forall|k: u64| #[trigger] map_of(ks, vs).contains_key(k) <==> ks.contains(k) by {
            if map_of(ks, vs).contains_key(k) {
                if k == ks.last() {
                    assert(ks[ks.len() - 1] == k);
                } else {
                    let i: int = choose|i: int| 0 <= i < dk.len() && dk[i] == k;
                    assert(ks[i] == k);
                }
            }
            if ks.contains(k) {
                let i: int = choose|i: int| 0 <= i < ks.len() && ks[i] == k;
                if i < ks.len() - 1 {
                    assert(dk[i] == k);
                }
            }
        }
    }
}

proof fn lemma_map_of_len<V>(ks: Seq<u64>, vs: Seq<V>)
    requires
        ks.len() == vs.len(),
        ks.no_duplicates(),
    ensures
        map_of(ks, vs).dom().finite(),
        map_of(ks, vs).len() == ks.len(),
    decreases ks.len(),
{
    if ks.len() > 0 {
        let dk = ks.drop_last();
        let dv = vs.drop_last();
        lemma_map_of_len(dk, dv);
        lemma_map_of_contains(dk, dv);
        assert(!dk.contains(ks.last()));
        vstd::set::axiom_set_insert_len(map_of(dk, dv).dom(), ks.last());
    }
}

proof fn lemma_map_of_index<V>(ks: Seq<u64>, vs: Seq<V>, i: int)
    requires
        ks.len() == vs.len(),
        ks.no_duplicates(),
        0 <= i < ks.len(),
    ensures
        map_of(ks, vs).contains_key(ks[i]),
        map_of(ks, vs)[ks[i]] == vs[i],
    decreases ks.len(),
{
    if i < ks.len() - 1 {
        lemma_map_of_index(ks.drop_last(), vs.drop_last(), i);
        assert(ks[i] != ks.last());
    }
}

proof fn lemma_map_of_update<V>(ks: Seq<u64>, vs: Seq<V>, i: int, x: V)
    requires
        ks.len() == vs.len(),
        ks.no_duplicates(),
        0 <= i < ks.len(),
    ensures
        map_of(ks, vs.update(i, x)) == map_of(ks, vs).insert(ks[i], x),
    decreases ks.len(),
{
    let n: int = ks.len() - 1;
    let upd = vs.update(i, x);
    if i == n {
        assert(upd.drop_last() =~= vs.drop_last());
        assert(map_of(ks, upd) =~= map_of(ks, vs).insert(ks[i], x));
    } else {
        assert(upd.drop_last() =~= vs.drop_last().update(i, x));
        lemma_map_of_update(ks.drop_last(), vs.drop_last(), i, x);
        assert(ks[i] == ks.drop_last()[i]);
        assert(ks[i] != ks.last());
        assert(map_of(ks, upd) =~= map_of(ks, vs).insert(ks[i], x));
    }
}

proof fn lemma_map_of_remove<V>(ks: Seq<u64>, vs: Seq<V>, i: int)
    requires
        ks.len() == vs.len(),
        ks.no_duplicates(),
        0 <= i < ks.len(),
    ensures
        map_of(ks.remove(i), vs.remove(i)) == map_of(ks, vs).remove(ks[i]),
    decreases ks.len(),
{
    let n: int = ks.len() - 1;
    lemma_map_of_contains(ks.drop_last(), vs.drop_last());
    if i == n {
        assert(ks.remove(i) =~= ks.drop_last());
        assert(vs.remove(i) =~= vs.drop_last());
        assert(!ks.drop_last().contains(ks[i]));
        assert(map_of(ks.remove(i), vs.remove(i)) =~= map_of(ks, vs).remove(ks[i]));
    } else {
        assert(ks.remove(i).drop_last() =~= ks.drop_last().remove(i));
        assert(vs.remove(i).drop_last() =~= vs.drop_last().remove(i));
        assert(ks.remove(i).last() == ks.last());
        assert(vs.remove(i).last() == vs.last());
        lemma_map_of_remove(ks.drop_last(), vs.drop_last(), i);
        assert(ks[i] == ks.drop_last()[i]);
        assert(ks[i] != ks.last());
        assert(map_of(ks.remove(i), vs.remove(i)) =~= map_of(ks, vs).remove(ks[i]));
    }
}

proof fn lemma_map_of_push<V>(ks: Seq<u64>, vs: Seq<V>, k: u64, v: V)
    requires
        ks.len() == vs.len(),
    ensures
        map_of(ks.push(k), vs.push(v)) == map_of(ks, vs).insert(k, v),
{
    assert(ks.push(k).drop_last() =~= ks);
    assert(vs.push(v).drop_last() =~= vs);
}

/// An owning map from `u64` identifiers to values of type `V`.
pub struct Table<V> {
    keys: Vec<u64>,
    vals: Vec<V>,
}

impl<V> View for Table<V> {
    type V = Map<u64, V>;

    closed spec fn view(&self) -> Map<u64, V> {
        map_of(self.keys@, self.vals@)
    }
}

impl<V> Table<V> {
    /// Parallel vectors of equal length holding pairwise-distinct keys.
    pub closed spec fn wf(self) -> bool {
        &&& self.keys@.len() == self.vals@.len()
        &&& self.keys@.no_duplicates()
    }

    pub fn new() -> (r: Self)
        ensures
            r.wf(),
            r@ == Map::<u64, V>::empty(),
    {
        Table { keys: Vec::new(), vals: Vec::new() }
    }

    /// A well-formed table holds finitely many entries.
    pub proof fn lemma_view_finite(&self)
        requires
            self.wf(),
        ensures
            self@.dom().finite(),
    {
        lemma_map_of_contains(self.keys@, self.vals@);
    }

    pub fn len(&self) -> (r: usize)
        requires
            self.wf(),
        ensures
            r == self@.len(),
        no_unwind
    {
        proof {
            lemma_map_of_len(self.keys@, self.vals@);
        }
        self.keys.len()
    }

    /// The index of `key` among the live keys, if present.
    fn index_of_key(&self, key: u64) -> (r: Option<usize>)
        ensures
            match r {
                Some(i) => i < self.keys@.len() && self.keys@[i as int] == key,
                None => !self.keys@.contains(key),
            },
        no_unwind
    {
        let n: usize = self.keys.len();
        let mut i: usize = 0;
        while i < n
            invariant
                n == self.keys@.len(),
                i <= n,
                forall|j: int| 0 <= j < i ==> self.keys@[j] != key,
            decreases n - i,
        {
            if self.keys[i] == key {
                return Some(i);
            }
            i = i + 1;
        }
        None
    }

    pub fn get(&self, key: u64) -> (r: Option<&V>)
        requires
            self.wf(),
        ensures
            match r {
                Some(v) => self@.contains_key(key) && *v == self@[key],
                None => !self@.contains_key(key),
            },
        no_unwind
    {
        proof {
            lemma_map_of_contains(self.keys@, self.vals@);
        }
        match self.index_of_key(key) {
            Some(i) => {
                proof {
                    lemma_map_of_index(self.keys@, self.vals@, i as int);
                }
                Some(&self.vals[i])
            },
            None => None,
        }
    }

    pub fn get_mut(&mut self, key: u64) -> (r: Option<&mut V>)
        requires
            old(self).wf(),
        ensures
            final(self).wf(),
            match r {
                Some(v) => {
                    &&& old(self)@.contains_key(key)
                    &&& *v == old(self)@[key]
                    &&& final(self)@ == old(self)@.insert(key, *final(v))
                },
                None => {
                    &&& !old(self)@.contains_key(key)
                    &&& *final(self) == *old(self)
                },
            },
        no_unwind
    {
        proof {
            lemma_map_of_contains(self.keys@, self.vals@);
        }
        match self.index_of_key(key) {
            Some(i) => {
                proof {
                    lemma_map_of_index(self.keys@, self.vals@, i as int);
                    assert forall|x: V|
                        map_of(self.keys@, #[trigger] self.vals@.update(i as int, x)) == map_of(
                            self.keys@,
                            self.vals@,
                        ).insert(key, x) by {
                        lemma_map_of_update(self.keys@, self.vals@, i as int, x);
                    }
                }
                Some(&mut self.vals[i])
            },
            None => None,
        }
    }

    pub fn insert(&mut self, key: u64, val: V) -> (r: Option<V>)
        requires
            old(self).wf(),
        ensures
            final(self).wf(),
            final(self)@ == old(self)@.insert(key, val),
            match r {
                Some(v) => old(self)@.contains_key(key) && v == old(self)@[key],
                None => !old(self)@.contains_key(key),
            },
    {
        proof {
            lemma_map_of_contains(self.keys@, self.vals@);
        }
        match self.index_of_key(key) {
            Some(i) => {
                proof {
                    lemma_map_of_index(self.keys@, self.vals@, i as int);
                    lemma_map_of_update(self.keys@, self.vals@, i as int, val);
                }
                let mut v = val;
                std::mem::swap(&mut v, &mut self.vals[i]);
                Some(v)
            },
            None => {
                proof {
                    lemma_map_of_push(self.keys@, self.vals@, key, val);
                }
                self.keys.push(key);
                self.vals.push(val);
                None
            },
        }
    }

    pub fn remove(&mut self, key: u64) -> (r: Option<V>)
        requires
            old(self).wf(),
        ensures
            final(self).wf(),
            final(self)@ == old(self)@.remove(key),
            match r {
                Some(v) => old(self)@.contains_key(key) && v == old(self)@[key],
                None => !old(self)@.contains_key(key) && *final(self) == *old(self),
            },
    {
        proof {
            lemma_map_of_contains(self.keys@, self.vals@);
        }
        match self.index_of_key(key) {
            Some(i) => {
                proof {
                    lemma_map_of_index(self.keys@, self.vals@, i as int);
                    lemma_map_of_remove(self.keys@, self.vals@, i as int);
                }
                self.keys.remove(i);
                Some(self.vals.remove(i))
            },
            None => {
                proof {
                    assert(old(self)@.remove(key) =~= old(self)@);
                }
                None
            },
        }
    }

    /// A snapshot of the live identifiers.
    pub fn keys(&self) -> (r: Vec<u64>)
        requires
            self.wf(),
        ensures
            r@.no_duplicates(),
            forall|k: u64| #[trigger] r@.contains(k) <==> self@.contains_key(k),
            forall|i: int| 0 <= i < r@.len() ==> self@.contains_key(#[trigger] r@[i]),
            r@.len() == self@.len(),
    {
        proof {
            lemma_map_of_contains(self.keys@, self.vals@);
            lemma_map_of_len(self.keys@, self.vals@);
        }
        let n: usize = self.keys.len();
        let mut r: Vec<u64> = Vec::new();
        let mut i: usize = 0;
        while i < n
            invariant
                n == self.keys@.len(),
                i <= n,
                r@ =~= self.keys@.take(i as int),
            decreases n - i,
        {
            r.push(self.keys[i]);
            proof {
                assert(r@ =~= self.keys@.take(i + 1 as int));
            }
            i = i + 1;
        }
        proof {
            assert(r@ =~= self.keys@);
            assert forall|i: int| 0 <= i < r@.len() implies self@.contains_key(#[trigger] r@[i]) by {
                assert(self.keys@.contains(self.keys@[i]));
            }
        }
        r
    }
}

} // verus!
