//! A small map from identities to values that remembers insertion order.
//!
//! Tray item counts are small, so the map is a list of slots searched in
//! order. No identity occupies two slots.

use vstd::prelude::*;

verus! {

struct Slot<V> {
    key: String,
    val: V,
}

/// Map from identity to value, iterable by position.
pub struct IdMap<V: View> {
    slots: Vec<Slot<V>>,
}

impl<V: View> View for IdMap<V> {
    type V = Map<Seq<char>, V::V>;

    /// The mapping from each stored identity to the view of its value.
    closed spec fn view(&self) -> Map<Seq<char>, V::V> {
        Map::new(
            |k: Seq<char>| self.ids().contains(k),
            |k: Seq<char>| self.slots[self.ids().index_of(k)].val@,
        )
    }
}

impl<V: View> IdMap<V> {
    #[verifier::type_invariant]
    spec fn distinct(self) -> bool {
        forall|i: int, j: int|
            0 <= i < j < self.slots.len() ==> self.slots[i].key@ != self.slots[j].key@
    }

    /// The stored identities, in the order in which they were first inserted.
    pub closed spec fn ids(&self) -> Seq<Seq<char>> {
        Seq::new(self.slots.len() as nat, |i: int| self.slots[i].key@)
    }

    /// What the positions say about the mapping: every position holds a
    /// distinct identity of the map, and every identity of the map has a
    /// position.
    pub open spec fn positions_agree(&self) -> bool {
        &&& self.ids().no_duplicates()
        &&& self@.dom() =~= self.ids().to_set()
        &&& self@.dom().finite()
        &&& self@.dom().len() == self.ids().len()
    }

    proof fn lemma_slot(self, i: int)
        requires
            self.distinct(),
            0 <= i < self.slots.len(),
        ensures
            self.ids()[i] == self.slots[i].key@,
            self.ids().contains(self.slots[i].key@),
            self.ids().index_of(self.slots[i].key@) == i,
            self@.contains_key(self.slots[i].key@),
            self@[self.slots[i].key@] == self.slots[i].val@,
    {
        let k = self.slots[i].key@;
        assert(self.ids()[i] == k);
    }

    proof fn lemma_positions(self)
        requires
            self.distinct(),
        ensures
            self.positions_agree(),
    {
        let ids = self.ids();
        ids.unique_seq_to_set();
        vstd::seq_lib::seq_to_set_is_finite(ids);
    }

    /// An empty map.
    pub fn new() -> (r: Self)
        ensures
            r@ == Map::<Seq<char>, V::V>::empty(),
            r.ids() == Seq::<Seq<char>>::empty(),
    {
        IdMap { slots: Vec::new() }
    }

    /// Number of stored identities.
    pub fn len(&self) -> (n: usize)
        ensures
            n == self.ids().len(),
            self.positions_agree(),
    {
        proof {
            use_type_invariant(self);
            self.lemma_positions();
        }
        self.slots.len()
    }

    /// Position of `id`, if it is stored.
    pub fn find(&self, id: &String) -> (r: Option<usize>)
        ensures
            match r {
                Some(i) => i < self.ids().len() && self.ids()[i as int] == id@
                    && self@.contains_key(id@),
                None => !self@.contains_key(id@) && !self.ids().contains(id@),
            },
    {
        proof {
            use_type_invariant(self);
        }
        let mut i: usize = 0;
        while i < self.slots.len()
            invariant
                i <= self.slots.len(),
                self.distinct(),
                forall|k: int| 0 <= k < i ==> self.slots[k].key@ != id@,
            decreases self.slots.len() - i,
        {
            if self.slots[i].key == *id {
                proof {
                    self.lemma_slot(i as int);
                }
                return Some(i);
            }
            i = i + 1;
        }
        None
    }

    /// Whether `id` is stored.
    pub fn contains(&self, id: &String) -> (b: bool)
        ensures
            b == self@.contains_key(id@),
    {
        self.find(id).is_some()
    }

    /// The value stored under `id`.
    pub fn get(&self, id: &String) -> (r: Option<&V>)
        ensures
            match r {
                Some(v) => self@.contains_key(id@) && self@[id@] == v@,
                None => !self@.contains_key(id@),
            },
    {
        match self.find(id) {
            Some(i) => {
                proof {
                    use_type_invariant(self);
                    self.lemma_slot(i as int);
                }
                Some(&self.slots[i].val)
            },
            None => None,
        }
    }

    /// The identity at position `i`.
    pub fn key_at(&self, i: usize) -> (k: &String)
        requires
            i < self.ids().len(),
        ensures
            k@ == self.ids()[i as int],
            self@.contains_key(k@),
            self.positions_agree(),
    {
        proof {
            use_type_invariant(self);
            self.lemma_slot(i as int);
            self.lemma_positions();
        }
        &self.slots[i].key
    }

    /// The value at position `i`.
    pub fn value_at(&self, i: usize) -> (v: &V)
        requires
            i < self.ids().len(),
        ensures
            self@.contains_key(self.ids()[i as int]),
            v@ == self@[self.ids()[i as int]],
    {
        proof {
            use_type_invariant(self);
            self.lemma_slot(i as int);
        }
        &self.slots[i].val
    }

    /// Stores `val` under `id`. A known identity keeps its position; a new one
    /// goes last.
    pub fn insert(&mut self, id: String, val: V)
        ensures
            final(self)@ == old(self)@.insert(id@, val@),
            final(self).ids() == if old(self)@.contains_key(id@) {
                old(self).ids()
            } else {
                old(self).ids().push(id@)
            },
    {
        proof {
            use_type_invariant(&*self);
        }
        let ghost before = *self;
        let ghost k = id@;
        let ghost v = val@;
        match self.find(&id) {
            Some(i) => {
                let mut slots: Vec<Slot<V>> = Vec::new();
                std::mem::swap(&mut self.slots, &mut slots);
                slots.set(i, Slot { key: id, val });
                std::mem::swap(&mut self.slots, &mut slots);
                proof {
                    let after = *self;
                    assert(after.ids() =~= before.ids());
                    assert forall|x: Seq<char>| #[trigger] after@.contains_key(x) implies after@[x]
                        == before@.insert(k, v)[x] by {
                        let j = after.ids().index_of(x);
                        after.lemma_slot(j);
                        before.lemma_slot(j);
                    }
                }
            },
            None => {
                let mut slots: Vec<Slot<V>> = Vec::new();
                std::mem::swap(&mut self.slots, &mut slots);
                slots.push(Slot { key: id, val });
                assert forall|a: int, b: int| 0 <= a < b < slots.len() implies slots[a].key@
                    != slots[b].key@ by {
                    if b >= before.slots.len() {
                        assert(before.ids()[a] == before.slots[a].key@);
                    }
                }
                std::mem::swap(&mut self.slots, &mut slots);
                proof {
                    let after = *self;
                    let n = before.slots.len() as int;
                    assert forall|x: Seq<char>| #[trigger]
                        before@.insert(k, v).contains_key(x) implies after@.contains_key(x)
                        && after@[x] == before@.insert(k, v)[x] by {
                        if x == k {
                            after.lemma_slot(n);
                        } else {
                            let j = before.ids().index_of(x);
                            before.lemma_slot(j);
                            after.lemma_slot(j);
                        }
                    }
                    assert forall|x: Seq<char>| #[trigger]
                        after@.contains_key(x) implies before@.insert(k, v).contains_key(x) by {
                        let j = after.ids().index_of(x);
                        if j < n {
                            assert(before.ids()[j] == x);
                        }
                    }
                }
            },
        }
    }

    /// Takes `id` and its value out. The other identities keep their order.
    pub fn remove(&mut self, id: &String) -> (r: Option<V>)
        ensures
            final(self)@ == old(self)@.remove(id@),
            match r {
                Some(v) => old(self)@.contains_key(id@) && old(self)@[id@] == v@,
                None => !old(self)@.contains_key(id@),
            },
            final(self).ids() == if old(self)@.contains_key(id@) {
                old(self).ids().remove(old(self).ids().index_of(id@))
            } else {
                old(self).ids()
            },
    {
        proof {
            use_type_invariant(&*self);
        }
        let ghost before = *self;
        let ghost k = id@;
        match self.find(id) {
            Some(i) => {
                proof {
                    before.lemma_slot(i as int);
                }
                let mut slots: Vec<Slot<V>> = Vec::new();
                std::mem::swap(&mut self.slots, &mut slots);
                let slot = slots.remove(i);
                assert forall|a: int, b: int| 0 <= a < b < slots.len() implies slots[a].key@
                    != slots[b].key@ by {}
                std::mem::swap(&mut self.slots, &mut slots);
                proof {
                    let after = *self;
                    let n = i as int;
                    assert forall|x: Seq<char>| #[trigger]
                        before@.remove(k).contains_key(x) implies after@.contains_key(x)
                        && after@[x] == before@.remove(k)[x] by {
                        let j = before.ids().index_of(x);
                        before.lemma_slot(j);
                        if j < n {
                            after.lemma_slot(j);
                        } else {
                            after.lemma_slot(j - 1);
                        }
                    }
                    assert forall|x: Seq<char>| #[trigger]
                        after@.contains_key(x) implies before@.remove(k).contains_key(x) by {
                        let j = after.ids().index_of(x);
                        if j < n {
                            before.lemma_slot(j);
                        } else {
                            before.lemma_slot(j + 1);
                        }
                    }
                }
                Some(slot.val)
            },
            None => {
                None
            },
        }
    }

    /// Puts `val` in the place of the value at position `i` and hands the old
    /// value out. The identities and their order stay as they are.
    pub fn swap_value(&mut self, i: usize, val: V) -> (prev: V)
        requires
            i < old(self).ids().len(),
        ensures
            final(self)@ == old(self)@.insert(old(self).ids()[i as int], val@),
            final(self).ids() == old(self).ids(),
            old(self)@.contains_key(old(self).ids()[i as int]),
            prev@ == old(self)@[old(self).ids()[i as int]],
    {
        proof {
            use_type_invariant(&*self);
        }
        let ghost before = *self;
        let ghost k = before.ids()[i as int];
        let ghost v = val@;
        proof {
            before.lemma_slot(i as int);
        }
        let mut slots: Vec<Slot<V>> = Vec::new();
        std::mem::swap(&mut self.slots, &mut slots);
        let slot = slots.remove(i);
        slots.insert(i, Slot { key: slot.key, val });
        std::mem::swap(&mut self.slots, &mut slots);
        proof {
            let after = *self;
            assert(after.ids() =~= before.ids());
            assert forall|x: Seq<char>| #[trigger] after@.contains_key(x) implies after@[x]
                == before@.insert(k, v)[x] by {
                let j = after.ids().index_of(x);
                after.lemma_slot(j);
                before.lemma_slot(j);
            }
        }
        slot.val
    }
}

} // verus!
