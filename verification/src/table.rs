//! Tables that hold one value for each key.
use vstd::prelude::*;

verus! {

/// Something under which a table holds a value.
pub trait Key: Copy {
    /// Decides whether two keys are the same.
    fn same(&self, other: &Self) -> (r: bool)
        ensures
            r == (*self == *other),
    ;
}

/// One value for each key.
#[derive(Debug)]
pub struct Table<K, V> {
    pub keys: Vec<K>,
    pub values: Vec<V>,
}

impl<K, V> View for Table<K, V> {
    type V = Map<K, V>;

    open spec fn view(&self) -> Map<K, V> {
        Map::new(|key: K| self.keys@.contains(key), |key: K| self.values@[self.keys@.index_of(key)])
    }
}

impl<K: Key, V> Table<K, V> {
    /// Whether no key stands in the table twice.
    pub open spec fn wf(&self) -> bool {
        &&& self.keys@.len() == self.values@.len()
        &&& self.keys@.no_duplicates()
    }

    /// What stands at a place of a table stands under the key at that place.
    proof fn place_holds(&self, i: int)
        requires
            self.wf(),
            0 <= i < self.keys@.len(),
        ensures
            self@.dom().contains(self.keys@[i]),
            self@[self.keys@[i]] == self.values@[i],
            self.keys@.index_of(self.keys@[i]) == i,
    {
        let key = self.keys@[i];
        assert(self.keys@.contains(key));
        let at = self.keys@.index_of(key);
        assert(0 <= at < self.keys@.len() && self.keys@[at] == key);
    }

    /// A table without entries.
    pub fn new() -> (r: Self)
        ensures
            r.wf(),
            r@ == Map::<K, V>::empty(),
    {
        let table = Table { keys: Vec::new(), values: Vec::new() };
        assert(table@ =~= Map::<K, V>::empty());
        table
    }

    /// Decides whether a table has no entries.
    pub fn is_empty(&self) -> (r: bool)
        requires
            self.wf(),
        ensures
            r == (self@ == Map::<K, V>::empty()),
    {
        proof {
            if self.keys@.len() > 0 {
                self.place_holds(0);
            } else {
                assert(self@ =~= Map::<K, V>::empty());
            }
        }
        self.keys.len() == 0
    }

    /// The place at which a key stands.
    pub fn find(&self, key: &K) -> (r: Option<usize>)
        requires
            self.wf(),
        ensures
            match r {
                Some(at) => {
                    &&& at < self.keys@.len()
                    &&& self.keys@[at as int] == *key
                    &&& self@.dom().contains(*key)
                    &&& self@[*key] == self.values@[at as int]
                },
                None => !self@.dom().contains(*key),
            },
    {
        let mut i: usize = 0;
        while i < self.keys.len()
            invariant
                self.wf(),
                i <= self.keys@.len(),
                forall|k: int| 0 <= k < i ==> self.keys@[k] != *key,
            decreases self.keys@.len() - i,
        {
            if self.keys[i].same(key) {
                proof {
                    self.place_holds(i as int);
                }
                return Some(i);
            }
            i = i + 1;
        }
        None
    }

    /// What stands under a key.
    pub fn get(&self, key: &K) -> (r: Option<&V>)
        requires
            self.wf(),
        ensures
            match r {
                Some(value) => self@.dom().contains(*key) && self@[*key] == *value,
                None => !self@.dom().contains(*key),
            },
    {
        match self.find(key) {
            Some(at) => Some(&self.values[at]),
            None => None,
        }
    }

    /// Puts a value under a key, in place of the one that stood there.
    pub fn insert(&mut self, key: K, value: V)
        requires
            old(self).wf(),
        ensures
            final(self).wf(),
            final(self)@ == old(self)@.insert(key, value),
    {
        let ghost before = *self;
        match self.find(&key) {
            Some(at) => {
                self.values.set(at, value);
                proof {
                    assert forall|k: K| #[trigger] self@.dom().contains(k) implies self@[k]
                        == before@.insert(key, value)[k] by {
                        let place = self.keys@.index_of(k);
                        assert(0 <= place < self.keys@.len() && self.keys@[place] == k);
                        before.place_holds(place);
                        before.place_holds(at as int);
                    }
                    before.place_holds(at as int);
                    assert(self@ =~= before@.insert(key, value));
                }
            },
            None => {
                self.keys.push(key);
                self.values.push(value);
                proof {
                    let last = before.keys@.len() as int;
                    assert(self.keys@.no_duplicates()) by {
                        assert forall|a: int, b: int|
                            0 <= a < b < self.keys@.len() implies self.keys@[a]
                            != self.keys@[b] by {
                            if b == last {
                                assert(before.keys@.contains(before.keys@[a]));
                            }
                        }
                    }
                    assert forall|k: K|
                        self@.dom().contains(k) <==> before@.insert(key, value).dom().contains(
                            k,
                        ) by {
                        if before.keys@.contains(k) {
                            let place = before.keys@.index_of(k);
                            assert(self.keys@[place] == k);
                        }
                        if k == key {
                            assert(self.keys@[last] == k);
                        }
                        if self.keys@.contains(k) && k != key {
                            let place = self.keys@.index_of(k);
                            assert(before.keys@[place] == k);
                        }
                    }
                    assert forall|k: K| #[trigger] self@.dom().contains(k) implies self@[k]
                        == before@.insert(key, value)[k] by {
                        let place = self.keys@.index_of(k);
                        assert(0 <= place < self.keys@.len() && self.keys@[place] == k);
                        self.place_holds(place);
                        if place < last {
                            before.place_holds(place);
                        }
                    }
                    assert(self@ =~= before@.insert(key, value));
                }
            },
        }
    }

    /// Takes out what stands at a place.
    pub fn remove_at(&mut self, at: usize) -> (r: V)
        requires
            old(self).wf(),
            at < old(self).keys@.len(),
        ensures
            final(self).wf(),
            final(self)@ == old(self)@.remove(old(self).keys@[at as int]),
            final(self).keys@ == old(self).keys@.remove(at as int),
            r == old(self).values@[at as int],
    {
        let ghost before = *self;
        let ghost key = self.keys@[at as int];
        self.keys.remove(at);
        let value = self.values.remove(at);
        proof {
            assert forall|k: K|
                self@.dom().contains(k) <==> before@.remove(key).dom().contains(k) by {
                if before.keys@.contains(k) && k != key {
                    let place = before.keys@.index_of(k);
                    assert(0 <= place < before.keys@.len() && before.keys@[place] == k);
                    let moved = if place < at {
                        place
                    } else {
                        place - 1
                    };
                    assert(self.keys@[moved] == k);
                }
                if self.keys@.contains(k) {
                    let place = self.keys@.index_of(k);
                    assert(0 <= place < self.keys@.len() && self.keys@[place] == k);
                    let from = if place < at {
                        place
                    } else {
                        place + 1
                    };
                    assert(before.keys@[from] == k);
                }
            }
            assert forall|k: K| #[trigger] self@.dom().contains(k) implies self@[k]
                == before@.remove(key)[k] by {
                let place = self.keys@.index_of(k);
                assert(0 <= place < self.keys@.len() && self.keys@[place] == k);
                let from = if place < at {
                    place
                } else {
                    place + 1
                };
                before.place_holds(from);
                self.place_holds(place);
            }
            assert(self@ =~= before@.remove(key));
        }
        value
    }

    /// Takes out what stands under a key.
    pub fn remove(&mut self, key: &K) -> (r: Option<V>)
        requires
            old(self).wf(),
        ensures
            final(self).wf(),
            final(self)@ == old(self)@.remove(*key),
            match r {
                Some(value) => old(self)@.dom().contains(*key) && old(self)@[*key] == value,
                None => !old(self)@.dom().contains(*key),
            },
    {
        match self.find(key) {
            Some(at) => Some(self.remove_at(at)),
            None => {
                assert(self@ =~= self@.remove(*key));
                None
            },
        }
    }

    /// Takes out every entry that is not marked to stay.
    pub fn keep(&mut self, stays: &Vec<bool>)
        requires
            old(self).wf(),
            stays@.len() == old(self).keys@.len(),
        ensures
            final(self).wf(),
            forall|key: K| #[trigger]
                final(self)@.dom().contains(key) <==> old(self)@.dom().contains(key)
                    && stays@[old(self).keys@.index_of(key)],
            forall|key: K| #[trigger]
                final(self)@.dom().contains(key) ==> final(self)@[key] == old(self)@[key],
    {
        let ghost before = *self;
        let mut i: usize = self.keys.len();
        while i > 0
            invariant
                before.wf(),
                self.wf(),
                stays@.len() == before.keys@.len(),
                i <= self.keys@.len(),
                i <= stays@.len(),
                self.keys@.take(i as int) == before.keys@.take(i as int),
                forall|key: K| #[trigger]
                    self@.dom().contains(key) <==> before@.dom().contains(key) && (
                    before.keys@.index_of(key) < i || stays@[before.keys@.index_of(key)]),
                forall|key: K| #[trigger]
                    self@.dom().contains(key) ==> self@[key] == before@[key],
            decreases i,
        {
            i = i - 1;
            let ghost older = *self;
            let ghost key = self.keys@[i as int];
            proof {
                assert(self.keys@.take(i + 1)[i as int] == before.keys@.take(i + 1)[i as int]);
                before.place_holds(i as int);
                assert forall|k: K|
                    before@.dom().contains(k) && before.keys@.index_of(k) == i implies k
                    == key by {
                    assert(before.keys@[before.keys@.index_of(k)] == k);
                }
            }
            if !stays[i] {
                let _ = self.remove_at(i);
                assert(self.keys@.take(i as int) =~= older.keys@.take(i + 1).take(i as int));
                assert(before.keys@.take(i as int) =~= before.keys@.take(i + 1).take(i as int));
            } else {
                assert(self.keys@.take(i as int) =~= older.keys@.take(i + 1).take(i as int));
                assert(before.keys@.take(i as int) =~= before.keys@.take(i + 1).take(i as int));
            }
        }
        assert forall|key: K| #[trigger] self@.dom().contains(key) <==> before@.dom().contains(key)
            && stays@[before.keys@.index_of(key)] by {
            if before@.dom().contains(key) {
                assert(before.keys@[before.keys@.index_of(key)] == key);
            }
        }
    }
}

} // verus!
