use vstd::prelude::*;
use crate::address::Address;

verus! {

/// One stored value under its address.
#[derive(Clone, Copy, Debug)]
pub struct Entry<T> {
    pub key: Address,
    pub value: T,
}

/// A store of values keyed by address: the model of the ledger's accounts.
/// No two entries share a key.
pub struct Table<T> {
    pub entries: Vec<Entry<T>>,
}

pub open spec fn has_key_at<T>(s: Seq<Entry<T>>, i: int, k: Seq<u8>) -> bool {
    0 <= i < s.len() && s[i].key@ == k
}

impl<T> View for Table<T> {
    type V = Map<Seq<u8>, T>;

    open spec fn view(&self) -> Map<Seq<u8>, T> {
        Map::new(
            |k: Seq<u8>| exists|i: int| has_key_at(self.entries@, i, k),
            |k: Seq<u8>| self.entries@[choose|i: int| has_key_at(self.entries@, i, k)].value,
        )
    }
}

impl<T: Copy> Table<T> {
    pub open spec fn wf(&self) -> bool {
        forall|i: int, j: int|
            0 <= i < self.entries@.len() && 0 <= j < self.entries@.len() && i != j
                ==> self.entries@[i].key@ != self.entries@[j].key@
    }

    /// The entry at `i` is what the view holds under its key.
    pub proof fn lemma_entry(&self, i: int)
        requires
            self.wf(),
            0 <= i < self.entries@.len(),
        ensures
            self@.contains_key(self.entries@[i].key@),
            self@[self.entries@[i].key@] == self.entries@[i].value,
    {
        let k = self.entries@[i].key@;
        assert(has_key_at(self.entries@, i, k));
        let j = choose|j: int| has_key_at(self.entries@, j, k);
        assert(j == i);
    }

    pub fn new() -> (r: Table<T>)
        ensures
            r.wf(),
            r@ == Map::<Seq<u8>, T>::empty(),
    {
        let r = Table { entries: Vec::new() };
        assert(r@ =~= Map::<Seq<u8>, T>::empty());
        r
    }

    /// Position of the entry under `key`, if any.
    pub fn find(&self, key: &Address) -> (r: Option<usize>)
        requires
            self.wf(),
        ensures
            match r {
                Some(i) => i < self.entries@.len() && self.entries@[i as int].key@ == key@,
                None => !self@.contains_key(key@),
            },
    {
        let mut i: usize = 0;
        while i < self.entries.len()
            invariant
                0 <= i <= self.entries@.len(),
                forall|j: int| 0 <= j < i ==> self.entries@[j].key@ != key@,
            decreases self.entries@.len() - i,
        {
            if self.entries[i].key.same(key) {
                return Some(i);
            }
            i = i + 1;
        }
        None
    }

    pub fn get(&self, key: &Address) -> (r: Option<T>)
        requires
            self.wf(),
        ensures
            r == self@.get(key@),
    {
        match self.find(key) {
            Some(i) => {
                proof {
                    self.lemma_entry(i as int);
                }
                Some(self.entries[i].value)
            },
            None => None,
        }
    }

    /// Stores `value` under `key`, replacing what was there.
    pub fn set(&mut self, key: Address, value: T)
        requires
            old(self).wf(),
        ensures
            final(self).wf(),
            final(self)@ == old(self)@.insert(key@, value),
    {
        let ghost before = *self;
        match self.find(&key) {
            Some(i) => {
                self.entries.set(i, Entry { key, value });
                proof {
                    self.lemma_entry(i as int);
                    assert forall|k: Seq<u8>| #[trigger] self@.contains_key(k) == before@.insert(key@, value).contains_key(k) by {
                        if self@.contains_key(k) {
                            let j = choose|j: int| has_key_at(self.entries@, j, k);
                            assert(has_key_at(before.entries@, j, k));
                        }
                        if before@.contains_key(k) {
                            let j = choose|j: int| has_key_at(before.entries@, j, k);
                            assert(has_key_at(self.entries@, j, k));
                        }
                    }
                    assert forall|k: Seq<u8>| #[trigger] self@.contains_key(k) && k != key@ implies self@[k] == before@[k] by {
                        let j = choose|j: int| has_key_at(self.entries@, j, k);
                        self.lemma_entry(j);
                        before.lemma_entry(j);
                    }
                    assert(self@ =~= before@.insert(key@, value));
                }
            },
            None => {
                self.entries.push(Entry { key, value });
                proof {
                    let n = before.entries@.len() as int;
                    assert forall|j: int| 0 <= j < n implies before.entries@[j].key@ != key@ by {
                        if before.entries@[j].key@ == key@ {
                            assert(has_key_at(before.entries@, j, key@));
                        }
                    }
                    assert(self.entries@[n] == Entry { key, value });
                    assert forall|a: int, b: int|
                        0 <= a < self.entries@.len() && 0 <= b < self.entries@.len() && a != b
                        implies self.entries@[a].key@ != self.entries@[b].key@ by {
                        if a < n {
                            assert(self.entries@[a] == before.entries@[a]);
                        }
                        if b < n {
                            assert(self.entries@[b] == before.entries@[b]);
                        }
                    }
                    self.lemma_entry(n);
                    assert forall|k: Seq<u8>| #[trigger] self@.contains_key(k) == before@.insert(key@, value).contains_key(k) by {
                        if self@.contains_key(k) && k != key@ {
                            let j = choose|j: int| has_key_at(self.entries@, j, k);
                            assert(has_key_at(before.entries@, j, k));
                        }
                        if before@.contains_key(k) {
                            let j = choose|j: int| has_key_at(before.entries@, j, k);
                            assert(has_key_at(self.entries@, j, k));
                        }
                    }
                    assert forall|k: Seq<u8>| #[trigger] self@.contains_key(k) && k != key@ implies self@[k] == before@[k] by {
                        let j = choose|j: int| has_key_at(self.entries@, j, k);
                        self.lemma_entry(j);
                        before.lemma_entry(j);
                    }
                    assert(self@ =~= before@.insert(key@, value));
                }
            },
        }
    }

    /// Drops the entry under `key`, if any.
    pub fn remove(&mut self, key: &Address)
        requires
            old(self).wf(),
        ensures
            final(self).wf(),
            final(self)@ == old(self)@.remove(key@),
    {
        let ghost before = *self;
        match self.find(key) {
            Some(i) => {
                self.entries.remove(i);
                proof {
                    let ghost idx = i as int;
                    assert forall|a: int, b: int|
                        0 <= a < self.entries@.len() && 0 <= b < self.entries@.len() && a != b
                        implies self.entries@[a].key@ != self.entries@[b].key@ by {
                        let a0 = if a < idx { a } else { a + 1 };
                        let b0 = if b < idx { b } else { b + 1 };
                        assert(self.entries@[a] == before.entries@[a0]);
                        assert(self.entries@[b] == before.entries@[b0]);
                    }
                    assert forall|k: Seq<u8>| #[trigger] self@.contains_key(k) == before@.remove(key@).contains_key(k) by {
                        if self@.contains_key(k) {
                            let j = choose|j: int| has_key_at(self.entries@, j, k);
                            let j0 = if j < idx { j } else { j + 1 };
                            assert(self.entries@[j] == before.entries@[j0]);
                            assert(has_key_at(before.entries@, j0, k));
                        }
                        if before@.contains_key(k) && k != key@ {
                            let j = choose|j: int| has_key_at(before.entries@, j, k);
                            assert(j != idx);
                            let j1 = if j < idx { j } else { j - 1 };
                            assert(self.entries@[j1] == before.entries@[j]);
                            assert(has_key_at(self.entries@, j1, k));
                        }
                    }
                    assert forall|k: Seq<u8>| #[trigger] self@.contains_key(k) implies self@[k] == before@[k] by {
                        let j = choose|j: int| has_key_at(self.entries@, j, k);
                        let j0 = if j < idx { j } else { j + 1 };
                        assert(self.entries@[j] == before.entries@[j0]);
                        self.lemma_entry(j);
                        before.lemma_entry(j0);
                    }
                    assert(self@ =~= before@.remove(key@));
                }
            },
            None => {
                assert(before@ =~= before@.remove(key@));
            },
        }
    }

    /// A second table with the same contents.
    pub fn duplicate(&self) -> (r: Table<T>)
        requires
            self.wf(),
        ensures
            r.wf(),
            r@ == self@,
            r.entries@ == self.entries@,
    {
        let mut entries: Vec<Entry<T>> = Vec::new();
        let mut i: usize = 0;
        while i < self.entries.len()
            invariant
                0 <= i <= self.entries@.len(),
                entries@ == self.entries@.subrange(0, i as int),
            decreases self.entries@.len() - i,
        {
            let e = self.entries[i];
            entries.push(e);
            i = i + 1;
            assert(entries@ =~= self.entries@.subrange(0, i as int));
        }
        assert(entries@ =~= self.entries@);
        Table { entries }
    }
}

} // verus!
