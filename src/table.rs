use vstd::prelude::*;
use crate::error::CrudError;

verus! {

/// A key whose equality can be decided at run time by its view.
pub trait Key: View + Sized {
    fn same_key(&self, other: &Self) -> (r: bool)
        ensures
            r == (self@ == other@);
}

impl Key for u64 {
    fn same_key(&self, other: &u64) -> (r: bool) {
        *self == *other
    }
}

impl Key for String {
    fn same_key(&self, other: &String) -> (r: bool) {
        *self == *other
    }
}

/// One stored row together with its key.
pub struct Entry<K, R> {
    pub key: K,
    pub row: R,
}

/// A table of rows with unique keys, kept in insertion order.
pub struct Table<K: View, R> {
    pub entries: Vec<Entry<K, R>>,
    /// The key that the next row with a surrogate key receives.
    pub next_id: u64,
    pub contents: Ghost<Map<K::V, R>>,
}

impl<K: View, R> View for Table<K, R> {
    type V = Map<K::V, R>;

    open spec fn view(&self) -> Map<K::V, R> {
        self.contents@
    }
}

impl<K: Key, R> Table<K, R> {
    pub open spec fn keys_unique(&self) -> bool {
        forall|i: int, j: int|
            0 <= i < self.entries@.len() && 0 <= j < self.entries@.len()
                && #[trigger] self.entries@[i].key@ == #[trigger] self.entries@[j].key@ ==> i == j
    }

    /// The entries hold exactly the rows of the view, each key once.
    pub open spec fn wf(&self) -> bool {
        &&& self.keys_unique()
        &&& forall|i: int|
            #![trigger self.entries@[i]]
            0 <= i < self.entries@.len() ==> self@.contains_key(self.entries@[i].key@)
                && self@[self.entries@[i].key@] == self.entries@[i].row
        &&& forall|k: K::V|
            #[trigger] self@.contains_key(k) ==> exists|i: int|
                0 <= i < self.entries@.len() && #[trigger] self.entries@[i].key@ == k
    }

    pub fn new() -> (t: Self)
        ensures
            t.wf(),
            t@ == Map::<K::V, R>::empty(),
            t.next_id == 1,
    {
        Table { entries: Vec::new(), next_id: 1, contents: Ghost(Map::empty()) }
    }

    /// The position of the entry with the given key.
    pub fn find(&self, key: &K) -> (r: Option<usize>)
        requires
            self.wf(),
        ensures
            r is None <==> !self@.contains_key(key@),
            r matches Some(i) ==> i < self.entries@.len() && self.entries@[i as int].key@ == key@,
    {
        let mut i: usize = 0;
        while i < self.entries.len()
            invariant
                self.wf(),
                i <= self.entries@.len(),
                forall|j: int| 0 <= j < i ==> self.entries@[j].key@ != key@,
            decreases self.entries@.len() - i,
        {
            if self.entries[i].key.same_key(key) {
                return Some(i);
            }
            i = i + 1;
        }
        None
    }

    /// The row stored under the key.
    pub fn get(&self, key: &K) -> (r: Option<&R>)
        requires
            self.wf(),
        ensures
            r is Some <==> self@.contains_key(key@),
            r matches Some(v) ==> *v == self@[key@],
    {
        match self.find(key) {
            Some(i) => Some(&self.entries[i].row),
            None => None,
        }
    }

    /// Adds a row under a key that no row has yet.
    pub fn insert(&mut self, key: K, row: R) -> (r: Result<(), CrudError>)
        requires
            old(self).wf(),
        ensures
            final(self).wf(),
            final(self).next_id == old(self).next_id,
            r is Ok <==> !old(self)@.contains_key(key@),
            r matches Err(e) ==> e == CrudError::ConstraintViolation && final(self)@ == old(self)@,
            r is Ok ==> final(self)@ == old(self)@.insert(key@, row),
    {
        if self.find(&key).is_some() {
            return Err(CrudError::ConstraintViolation);
        }
        let ghost k = key@;
        let ghost old_entries = self.entries@;
        self.contents = Ghost(self.contents@.insert(k, row));
        self.entries.push(Entry { key, row });
        proof {
            let n = old_entries.len() as int;
            assert(self.entries@[n].key@ == k);
            assert forall|k2: K::V| #[trigger] self@.contains_key(k2) implies exists|i: int|
                0 <= i < self.entries@.len() && #[trigger] self.entries@[i].key@ == k2 by {
                if k2 != k {
                    let i = choose|i: int| 0 <= i < old_entries.len() && #[trigger] old_entries[i].key@ == k2;
                    assert(self.entries@[i] == old_entries[i]);
                }
            }
            assert forall|i: int| 0 <= i < self.entries@.len() implies
                self@.contains_key(self.entries@[i].key@) && self@[self.entries@[i].key@] == self.entries@[i].row by {
                if i < n {
                    assert(self.entries@[i] == old_entries[i]);
                }
            }
            assert forall|i: int, j: int|
                0 <= i < self.entries@.len() && 0 <= j < self.entries@.len()
                    && #[trigger] self.entries@[i].key@ == #[trigger] self.entries@[j].key@ implies i == j by {
                if i < n {
                    assert(self.entries@[i] == old_entries[i]);
                }
                if j < n {
                    assert(self.entries@[j] == old_entries[j]);
                }
            }
        }
        Ok(())
    }

    /// Overwrites the whole row stored under the key.
    pub fn replace(&mut self, key: &K, row: R) -> (r: Result<(), CrudError>)
        requires
            old(self).wf(),
        ensures
            final(self).wf(),
            final(self).next_id == old(self).next_id,
            r is Ok <==> old(self)@.contains_key(key@),
            r matches Err(e) ==> e == CrudError::NotFound && final(self)@ == old(self)@,
            r is Ok ==> final(self)@ == old(self)@.insert(key@, row),
    {
        match self.find(key) {
            None => Err(CrudError::NotFound),
            Some(i) => {
                let ghost k = key@;
                let ghost old_entries = self.entries@;
                self.contents = Ghost(self.contents@.insert(k, row));
                self.entries[i].row = row;
                proof {
                    assert forall|k2: K::V| #[trigger] self@.contains_key(k2) implies exists|j: int|
                        0 <= j < self.entries@.len() && #[trigger] self.entries@[j].key@ == k2 by {
                        if k2 != k {
                            let j = choose|j: int| 0 <= j < old_entries.len() && #[trigger] old_entries[j].key@ == k2;
                            assert(self.entries@[j].key@ == old_entries[j].key@);
                        } else {
                            assert(self.entries@[i as int].key@ == k2);
                        }
                    }
                    assert forall|j: int| 0 <= j < self.entries@.len() implies
                        self@.contains_key(self.entries@[j].key@) && self@[self.entries@[j].key@] == self.entries@[j].row by {
                        if j != i {
                            assert(self.entries@[j] == old_entries[j]);
                        }
                    }
                    assert forall|a: int, b: int|
                        0 <= a < self.entries@.len() && 0 <= b < self.entries@.len()
                            && #[trigger] self.entries@[a].key@ == #[trigger] self.entries@[b].key@ implies a == b by {
                        assert(self.entries@[a].key@ == old_entries[a].key@);
                        assert(self.entries@[b].key@ == old_entries[b].key@);
                    }
                }
                Ok(())
            },
        }
    }

    /// Deletes the row stored under the key.
    pub fn remove(&mut self, key: &K) -> (r: Result<(), CrudError>)
        requires
            old(self).wf(),
        ensures
            final(self).wf(),
            final(self).next_id == old(self).next_id,
            r is Ok <==> old(self)@.contains_key(key@),
            r matches Err(e) ==> e == CrudError::NotFound && final(self)@ == old(self)@,
            r is Ok ==> final(self)@ == old(self)@.remove(key@),
    {
        match self.find(key) {
            None => Err(CrudError::NotFound),
            Some(i) => {
                let ghost k = key@;
                let ghost old_entries = self.entries@;
                self.contents = Ghost(self.contents@.remove(k));
                let _gone = self.entries.remove(i);
                proof {
                    let ii = i as int;
                    assert forall|j: int| 0 <= j < self.entries@.len() implies
                        #[trigger] self.entries@[j] == (if j < ii { old_entries[j] } else { old_entries[j + 1] }) by {}
                    assert forall|k2: K::V| #[trigger] self@.contains_key(k2) implies exists|j: int|
                        0 <= j < self.entries@.len() && #[trigger] self.entries@[j].key@ == k2 by {
                        let j = choose|j: int| 0 <= j < old_entries.len() && #[trigger] old_entries[j].key@ == k2;
                        assert(j != ii);
                        if j < ii {
                            assert(self.entries@[j] == old_entries[j]);
                        } else {
                            assert(self.entries@[j - 1] == old_entries[j]);
                        }
                    }
                    assert forall|j: int| 0 <= j < self.entries@.len() implies
                        self@.contains_key(self.entries@[j].key@) && self@[self.entries@[j].key@] == self.entries@[j].row by {
                        let oj = if j < ii { j } else { j + 1 };
                        assert(self.entries@[j] == old_entries[oj]);
                        assert(old_entries[oj].key@ != k);
                    }
                    assert forall|a: int, b: int|
                        0 <= a < self.entries@.len() && 0 <= b < self.entries@.len()
                            && #[trigger] self.entries@[a].key@ == #[trigger] self.entries@[b].key@ implies a == b by {
                        let oa = if a < ii { a } else { a + 1 };
                        let ob = if b < ii { b } else { b + 1 };
                        assert(self.entries@[a] == old_entries[oa]);
                        assert(self.entries@[b] == old_entries[ob]);
                    }
                }
                Ok(())
            },
        }
    }
}

impl<R> Table<u64, R> {
    /// Every key in use lies below the next surrogate key.
    pub open spec fn ids_below_next(&self) -> bool {
        forall|k: u64| #[trigger] self@.contains_key(k) ==> k < self.next_id
    }

    /// Adds a row under the next surrogate key and returns that key.
    pub fn insert_next(&mut self, row: R) -> (r: Result<u64, CrudError>)
        requires
            old(self).wf(),
            old(self).ids_below_next(),
        ensures
            final(self).wf(),
            final(self).ids_below_next(),
            r is Ok <==> old(self).next_id < u64::MAX,
            r matches Err(e) ==> e == CrudError::ConstraintViolation && *final(self) == *old(self),
            r matches Ok(id) ==> id == old(self).next_id && final(self).next_id == id + 1
                && final(self)@ == old(self)@.insert(id, row),
    {
        if self.next_id == u64::MAX {
            return Err(CrudError::ConstraintViolation);
        }
        let id = self.next_id;
        let r = self.insert(id, row);
        assert(r is Ok);
        let ghost before = *self;
        self.next_id = id + 1;
        assert(self.entries@ == before.entries@ && self@ == before@);
        assert(self.keys_unique());
        Ok(id)
    }
}

} // verus!
