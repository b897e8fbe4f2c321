//! A small keyed table: an insertion-ordered list of entries in which no key
//! occurs twice, seen in contracts as a `Map` from key views to value views.

use vstd::prelude::*;

verus! {

/// What a [`Table`] can hold: a value that can be copied, view for view.
pub trait Content: View + Sized {
    fn duplicate(&self) -> (r: Self)
        ensures
            r@ == self@,
    ;
}

impl Content for () {
    fn duplicate(&self) -> (r: Self) {
        ()
    }
}

/// A key of a [`Table`]: two keys are the same key when their views agree.
pub trait Label: Content {
    fn same(&self, other: &Self) -> (r: bool)
        ensures
            r == (self@ == other@),
    ;
}

/// The views of the keys of `entries`, in order.
pub open spec fn key_views<K: View, V>(entries: Seq<(K, V)>) -> Seq<K::V> {
    Seq::new(entries.len(), |i: int| entries[i].0@)
}

/// A map from keys to values that remembers the order of insertion. Two
/// tables compare equal with `==` when they hold equal entries in the same
/// order.
#[derive(Debug, PartialEq)]
pub struct Table<K: Label, V: Content> {
    entries: Vec<(K, V)>,
}

impl<K: Label, V: Content> View for Table<K, V> {
    type V = Map<K::V, V::V>;

    closed spec fn view(&self) -> Map<K::V, V::V> {
        let ks = key_views(self.entries@);
        Map::new(|k: K::V| ks.contains(k), |k: K::V| self.entries@[ks.index_of(k)].1@)
    }
}

impl<K: Label, V: Content> Clone for Table<K, V> {
    fn clone(&self) -> (r: Self)
        ensures
            r@ == self@,
            r.order() == self.order(),
            r.values() == self.values(),
    {
        proof {
            use_type_invariant(self);
        }
        let mut entries: Vec<(K, V)> = Vec::new();
        let mut i: usize = 0;
        while i < self.entries.len()
            invariant
                i <= self.entries@.len(),
                entries@.len() == i,
                forall|j: int|
                    0 <= j < i ==> entries@[j].0@ == self.entries@[j].0@ && entries@[j].1@
                        == self.entries@[j].1@,
            decreases self.entries@.len() - i,
        {
            entries.push((self.entries[i].0.duplicate(), self.entries[i].1.duplicate()));
            i += 1;
        }
        proof {
            assert(key_views(entries@) =~= key_views(self.entries@));
        }
        let r = Table { entries };
        proof {
            assert(r.values() =~= self.values());
            assert(r@ =~= self@);
        }
        r
    }
}

impl<K: Label, V: Content> Content for Table<K, V> {
    fn duplicate(&self) -> (r: Self) {
        self.clone()
    }
}

impl<K: Label, V: Content> Table<K, V> {
    #[verifier::type_invariant]
    closed spec fn inv(&self) -> bool {
        key_views(self.entries@).no_duplicates()
    }

    /// The keys in the order in which they were inserted.
    pub closed spec fn order(&self) -> Seq<K::V> {
        key_views(self.entries@)
    }

    /// The value views, in the order of [`Self::order`].
    pub closed spec fn values(&self) -> Seq<V::V> {
        Seq::new(self.entries@.len(), |i: int| self.entries@[i].1@)
    }

    /// An empty table.
    pub fn new() -> (r: Self)
        ensures
            r@ == Map::<K::V, V::V>::empty(),
            r.order() == Seq::<K::V>::empty(),
    {
        let r = Table { entries: Vec::new() };
        assert(r@ =~= Map::<K::V, V::V>::empty());
        assert(r.order() =~= Seq::<K::V>::empty());
        r
    }

    /// The number of entries. The order lists each key of the map once, and
    /// the values stand at the positions of their keys.
    pub fn len(&self) -> (n: usize)
        ensures
            n == self.order().len(),
            n == self.values().len(),
            n == self@.dom().len(),
            self@.dom().finite(),
            self.order().no_duplicates(),
            self@.dom() =~= self.order().to_set(),
            forall|i: int|
                0 <= i < self.order().len() ==> #[trigger] self@[self.order()[i]]
                    == self.values()[i],
    {
        proof {
            use_type_invariant(self);
            let ks = key_views(self.entries@);
            assert forall|i: int| 0 <= i < ks.len() implies #[trigger] self@[ks[i]]
                == self.values()[i] by {
                assert(ks.contains(ks[i]));
                let j = ks.index_of(ks[i]);
                assert(ks[j] == ks[i]);
            }
            assert forall|k: K::V| self@.dom().contains(k) <==> ks.to_set().contains(k) by {}
            ks.unique_seq_to_set();
            vstd::seq_lib::seq_to_set_is_finite(ks);
        }
        self.entries.len()
    }

    /// The position of `key`, if the table holds it.
    fn position(&self, key: &K) -> (r: Option<usize>)
        ensures
            match r {
                Some(i) => i < self.entries@.len() && self.entries@[i as int].0@ == key@,
                None => !key_views(self.entries@).contains(key@),
            },
    {
        let mut i: usize = 0;
        while i < self.entries.len()
            invariant
                i <= self.entries@.len(),
                forall|j: int| 0 <= j < i ==> self.entries@[j].0@ != key@,
            decreases self.entries@.len() - i,
        {
            if self.entries[i].0.same(key) {
                return Some(i);
            }
            i += 1;
        }
        None
    }

    /// Whether the table holds `key`.
    pub fn contains_key(&self, key: &K) -> (r: bool)
        ensures
            r == self@.contains_key(key@),
    {
        let found = self.position(key);
        proof {
            if let Some(i) = found {
                assert(key_views(self.entries@)[i as int] == key@);
            }
        }
        found.is_some()
    }

    /// The value of `key`, if the table holds it.
    pub fn get(&self, key: &K) -> (r: Option<&V>)
        ensures
            match r {
                Some(v) => self@.contains_key(key@) && v@ == self@[key@],
                None => !self@.contains_key(key@),
            },
    {
        proof {
            use_type_invariant(self);
        }
        match self.position(key) {
            Some(i) => {
                proof {
                    let ks = key_views(self.entries@);
                    assert(ks[i as int] == key@);
                    assert(ks.contains(key@));
                    let j = ks.index_of(key@);
                    assert(ks[j] == key@);
                }
                Some(&self.entries[i].1)
            },
            None => None,
        }
    }

    /// The key at position `i` of the insertion order.
    pub fn key_at(&self, i: usize) -> (r: &K)
        requires
            i < self.order().len(),
        ensures
            r@ == self.order()[i as int],
    {
        &self.entries[i].0
    }

    /// The value at position `i` of the insertion order.
    pub fn value_at(&self, i: usize) -> (r: &V)
        requires
            i < self.order().len(),
        ensures
            r@ == self.values()[i as int],
    {
        &self.entries[i].1
    }

    /// Binds `key` to `value`. A key that was present keeps its position, and
    /// a new key goes to the end.
    pub fn insert(&mut self, key: K, value: V)
        ensures
            final(self)@ == old(self)@.insert(key@, value@),
            final(self).order() == if old(self)@.contains_key(key@) {
                old(self).order()
            } else {
                old(self).order().push(key@)
            },
    {
        proof {
            use_type_invariant(&*self);
        }
        let ghost before = self.entries@;
        let ghost old_ks = key_views(self.entries@);
        match self.position(&key) {
            Some(i) => {
                let mut entries: Vec<(K, V)> = Vec::new();
                core::mem::swap(&mut self.entries, &mut entries);
                entries.set(i, (key, value));
                proof {
                    assert(key_views(entries@) =~= old_ks);
                }
                self.entries = entries;
                proof {
                    let ks = key_views(self.entries@);
                    assert(ks =~= old_ks);
                    assert forall|k: K::V| ks.contains(k) implies #[trigger] self@[k] == old(
                        self,
                    )@.insert(key@, value@)[k] by {
                        let j = ks.index_of(k);
                        assert(ks[j] == k);
                        assert(old_ks[i as int] == key@);
                        if k == key@ {
                            assert(j == i);
                        } else {
                            assert(j != i);
                            assert(self.entries@[j] == before[j]);
                        }
                    }
                    assert(ks.contains(key@)) by {
                        assert(ks[i as int] == key@);
                    }
                    assert(old(self)@.contains_key(key@));
                    assert(self@ =~= old(self)@.insert(key@, value@));
                }
            },
            None => {
                let mut entries: Vec<(K, V)> = Vec::new();
                core::mem::swap(&mut self.entries, &mut entries);
                entries.push((key, value));
                proof {
                    assert(key_views(entries@) =~= old_ks.push(key@));
                }
                self.entries = entries;
                proof {
                    let ks = key_views(self.entries@);
                    let n = old_ks.len() as int;
                    assert(ks =~= old_ks.push(key@));
                    assert forall|k: K::V| ks.contains(k) <==> (old_ks.contains(k) || k
                        == key@) by {
                        if old_ks.contains(k) {
                            let j = old_ks.index_of(k);
                            assert(ks[j] == k);
                        }
                        if k == key@ {
                            assert(ks[n] == k);
                        }
                    }
                    assert forall|k: K::V| ks.contains(k) implies #[trigger] self@[k] == old(
                        self,
                    )@.insert(key@, value@)[k] by {
                        let j = ks.index_of(k);
                        assert(ks[j] == k);
                        if k != key@ {
                            let j0 = old_ks.index_of(k);
                            assert(old_ks[j0] == k);
                            assert(ks[j0] == k);
                        }
                    }
                    assert(self@ =~= old(self)@.insert(key@, value@));
                }
            },
        }
    }

    /// Removes `key` if the table holds it; the other keys keep their order.
    pub fn remove(&mut self, key: &K)
        ensures
            final(self)@ == old(self)@.remove(key@),
            final(self).order() == if old(self)@.contains_key(key@) {
                old(self).order().remove(old(self).order().index_of(key@))
            } else {
                old(self).order()
            },
    {
        proof {
            use_type_invariant(&*self);
        }
        let ghost old_ks = key_views(self.entries@);
        match self.position(key) {
            Some(i) => {
                let mut entries: Vec<(K, V)> = Vec::new();
                core::mem::swap(&mut self.entries, &mut entries);
                let _ = entries.remove(i);
                proof {
                    let ks = key_views(entries@);
                    assert(ks =~= old_ks.remove(i as int));
                    assert forall|a: int, b: int|
                        0 <= a < ks.len() && 0 <= b < ks.len() && a != b implies ks[a]
                        != ks[b] by {
                        let a0 = if a < i { a } else { a + 1 };
                        let b0 = if b < i { b } else { b + 1 };
                        assert(ks[a] == old_ks[a0]);
                        assert(ks[b] == old_ks[b0]);
                    }
                }
                self.entries = entries;
                proof {
                    let ks = key_views(self.entries@);
                    assert(old_ks.contains(key@)) by {
                        assert(old_ks[i as int] == key@);
                    }
                    assert(old_ks.index_of(key@) == i) by {
                        let j = old_ks.index_of(key@);
                        assert(old_ks[j] == key@);
                        assert(old_ks[i as int] == key@);
                    }
                    assert forall|k: K::V| ks.contains(k) <==> (old_ks.contains(k) && k
                        != key@) by {
                        assert(old_ks[i as int] == key@);
                        if ks.contains(k) {
                            let j = ks.index_of(k);
                            let j0 = if j < i { j } else { j + 1 };
                            assert(ks[j] == k);
                            assert(old_ks[j0] == k);
                            assert(j0 != i);
                        }
                        if old_ks.contains(k) && k != key@ {
                            let j0 = old_ks.index_of(k);
                            assert(old_ks[j0] == k);
                            let j = if j0 < i { j0 } else { j0 - 1 };
                            assert(ks[j] == k);
                        }
                    }
                    assert forall|k: K::V| ks.contains(k) implies #[trigger] self@[k] == old(
                        self,
                    )@[k] by {
                        let j = ks.index_of(k);
                        assert(ks[j] == k);
                        let j0 = if j < i { j } else { j + 1 };
                        assert(old_ks[j0] == k);
                        let j1 = old_ks.index_of(k);
                        assert(old_ks[j1] == k);
                    }
                    assert(self@ =~= old(self)@.remove(key@));
                }
            },
            None => {
                proof {
                    assert(self@ =~= old(self)@.remove(key@));
                }
            },
        }
    }

    /// Removes every entry.
    pub fn clear(&mut self)
        ensures
            final(self)@ == Map::<K::V, V::V>::empty(),
    {
        self.entries = Vec::new();
        proof {
            assert(self@ =~= Map::<K::V, V::V>::empty());
        }
    }
}

/// A set of keys, held in the order in which they were inserted.
#[derive(Debug, PartialEq)]
pub struct Group<K: Label> {
    table: Table<K, ()>,
}

impl<K: Label> View for Group<K> {
    type V = Set<K::V>;

    closed spec fn view(&self) -> Set<K::V> {
        self.table@.dom()
    }
}

impl<K: Label> Clone for Group<K> {
    fn clone(&self) -> (r: Self)
        ensures
            r@ == self@,
            r.order() == self.order(),
    {
        Group { table: self.table.clone() }
    }
}

impl<K: Label> Content for Group<K> {
    fn duplicate(&self) -> (r: Self) {
        self.clone()
    }
}

impl<K: Label> Group<K> {
    /// The members in the order in which they were inserted.
    pub closed spec fn order(&self) -> Seq<K::V> {
        self.table.order()
    }

    /// An empty set.
    pub fn new() -> (r: Self)
        ensures
            r@ == Set::<K::V>::empty(),
            r.order() == Seq::<K::V>::empty(),
    {
        let r = Group { table: Table::new() };
        assert(r@ =~= Set::<K::V>::empty());
        r
    }

    /// The number of members. The order lists each member once.
    pub fn len(&self) -> (n: usize)
        ensures
            n == self.order().len(),
            n == self@.len(),
            self@.finite(),
            self.order().no_duplicates(),
            self@ =~= self.order().to_set(),
    {
        self.table.len()
    }

    /// Whether `key` is a member.
    pub fn contains(&self, key: &K) -> (r: bool)
        ensures
            r == self@.contains(key@),
    {
        self.table.contains_key(key)
    }

    /// The member at position `i` of the insertion order.
    pub fn key_at(&self, i: usize) -> (r: &K)
        requires
            i < self.order().len(),
        ensures
            r@ == self.order()[i as int],
    {
        self.table.key_at(i)
    }

    /// Adds `key`. A member keeps its position, and a new one goes to the end.
    pub fn insert(&mut self, key: K)
        ensures
            final(self)@ == old(self)@.insert(key@),
            final(self).order() == if old(self)@.contains(key@) {
                old(self).order()
            } else {
                old(self).order().push(key@)
            },
    {
        self.table.insert(key, ());
        assert(self@ =~= old(self)@.insert(key@));
    }
}

} // verus!
