//! Values held under an identity.

use vstd::prelude::*;

verus! {

/// A key that is known by what it stands for.
pub trait Identity: View + Sized {
    /// Whether two keys stand for the same.
    fn same(&self, other: &Self) -> (yes: bool)
        ensures
            yes == (self@ == other@),
    ;
}

/// One value with the key that it is held under.
pub struct Slot<K, V> {
    pub key: K,
    pub value: V,
}

/// No two slots have the same key.
pub open spec fn distinct<K: View, V>(slots: Seq<Slot<K, V>>) -> bool {
    forall|i: int, j: int|
        0 <= i < slots.len() && 0 <= j < slots.len() && (#[trigger] slots[i]).key@ == (
        #[trigger] slots[j]).key@ ==> i == j
}

/// Some slot has this key.
pub open spec fn has_slot<K: View, V>(slots: Seq<Slot<K, V>>, key: K::V) -> bool {
    exists|i: int| 0 <= i < slots.len() && (#[trigger] slots[i]).key@ == key
}

/// The map that slots hold.
pub open spec fn slot_map<K: View, V>(slots: Seq<Slot<K, V>>) -> Map<K::V, V> {
    Map::new(
        |key: K::V| has_slot(slots, key),
        |key: K::V|
            slots[choose|i: int| 0 <= i < slots.len() && (#[trigger] slots[i]).key@ == key].value,
    )
}

proof fn lemma_slot_in_map<K: View, V>(slots: Seq<Slot<K, V>>, at: int)
    requires
        distinct(slots),
        0 <= at < slots.len(),
    ensures
        slot_map(slots).dom().contains(slots[at].key@),
        slot_map(slots)[slots[at].key@] == slots[at].value,
{
    let key = slots[at].key@;
    let found = choose|i: int| 0 <= i < slots.len() && (#[trigger] slots[i]).key@ == key;
    assert(slots[found].key@ == slots[at].key@);
}

/// A map from identities to values.
pub struct Slots<K: Identity, V> {
    slots: Vec<Slot<K, V>>,
}

impl<K: Identity, V> View for Slots<K, V> {
    type V = Map<K::V, V>;

    closed spec fn view(&self) -> Map<K::V, V> {
        slot_map(self.slots@)
    }
}

impl<K: Identity, V> Slots<K, V> {
    #[verifier::type_invariant]
    spec fn unambiguous(self) -> bool {
        distinct(self.slots@)
    }

    /// No values yet.
    pub fn new() -> (slots: Self)
        ensures
            slots@ == Map::<K::V, V>::empty(),
    {
        let slots = Slots { slots: Vec::new() };
        assert(slots@ =~= Map::<K::V, V>::empty());
        slots
    }

    /// Where the slot of a key is, or the number of slots where it has none.
    fn position(&self, key: &K) -> (at: usize)
        ensures
            at <= self.slots@.len(),
            at < self.slots@.len() <==> self@.dom().contains(key@),
            at < self.slots@.len() ==> self.slots@[at as int].key@ == key@,
    {
        let mut at: usize = 0;
        while at < self.slots.len() && !self.slots[at].key.same(key)
            invariant
                at <= self.slots@.len(),
                forall|i: int| 0 <= i < at ==> (#[trigger] self.slots@[i]).key@ != key@,
            decreases self.slots@.len() - at,
        {
            at = at + 1;
        }
        at
    }

    /// The value of a key.
    pub fn get(&self, key: &K) -> (found: Option<&V>)
        ensures
            found is Some <==> self@.dom().contains(key@),
            found matches Some(value) ==> *value == self@[key@],
    {
        let at = self.position(key);
        proof {
            use_type_invariant(self);
        }
        if at < self.slots.len() {
            proof {
                lemma_slot_in_map(self.slots@, at as int);
            }
            Some(&self.slots[at].value)
        } else {
            None
        }
    }

    /// Takes the value of a key out.
    pub fn remove(&mut self, key: &K) -> (taken: Option<V>)
        ensures
            taken is Some <==> old(self)@.dom().contains(key@),
            taken matches Some(value) ==> value == old(self)@[key@],
            final(self)@ == old(self)@.remove(key@),
    {
        proof {
            use_type_invariant(&*self);
        }
        let at = self.position(key);
        if at == self.slots.len() {
            assert(self@.remove(key@) =~= self@);
            return None;
        }
        let ghost before = self.slots@;
        let mut slots: Vec<Slot<K, V>> = Vec::new();
        std::mem::swap(&mut slots, &mut self.slots);
        let slot = slots.remove(at);
        proof {
            let kept = slots@;
            lemma_slot_in_map(before, at as int);
            assert forall|i: int, j: int|
                0 <= i < kept.len() && 0 <= j < kept.len() && (#[trigger] kept[i]).key@ == (
                #[trigger] kept[j]).key@ implies i == j by {
                let m = if i < at { i } else { i + 1 };
                let n = if j < at { j } else { j + 1 };
                assert(before[m] == kept[i] && before[n] == kept[j]);
            }
            assert forall|k: K::V| has_slot(kept, k) <==> has_slot(before, k) && k != key@ by {
                if has_slot(kept, k) {
                    let i = choose|i: int| 0 <= i < kept.len() && (#[trigger] kept[i]).key@ == k;
                    let j = if i < at { i } else { i + 1 };
                    assert(before[j] == kept[i]);
                    assert(before[at as int].key@ == key@);
                }
                if has_slot(before, k) && k != key@ {
                    let j = choose|i: int| 0 <= i < before.len() && (#[trigger] before[i]).key@ == k;
                    let i = if j < at { j } else { j - 1 };
                    assert(kept[i] == before[j]);
                }
            }
            assert forall|k: K::V| has_slot(kept, k) implies slot_map(kept)[k] == slot_map(before)[k] by {
                let i = choose|i: int| 0 <= i < kept.len() && (#[trigger] kept[i]).key@ == k;
                let j = if i < at { i } else { i + 1 };
                lemma_slot_in_map(kept, i);
                lemma_slot_in_map(before, j);
            }
            assert(slot_map(kept) =~= slot_map(before).remove(key@));
        }
        self.slots = slots;
        Some(slot.value)
    }

    /// Sets the value of a key.
    pub fn insert(&mut self, key: K, value: V)
        ensures
            final(self)@ == old(self)@.insert(key@, value),
    {
        let _ = self.remove(&key);
        proof {
            use_type_invariant(&*self);
        }
        let ghost kept = self.slots@;
        let ghost id = key@;
        let mut slots: Vec<Slot<K, V>> = Vec::new();
        std::mem::swap(&mut slots, &mut self.slots);
        slots.push(Slot { key, value });
        proof {
            let after = slots@;
            assert(!slot_map(kept).dom().contains(id));
            assert forall|i: int, j: int|
                0 <= i < after.len() && 0 <= j < after.len() && (#[trigger] after[i]).key@ == (
                #[trigger] after[j]).key@ implies i == j by {
                if i < kept.len() {
                    assert(after[i] == kept[i]);
                    assert(has_slot(kept, kept[i].key@));
                }
                if j < kept.len() {
                    assert(after[j] == kept[j]);
                    assert(has_slot(kept, kept[j].key@));
                }
            }
            assert forall|k: K::V| has_slot(after, k) <==> has_slot(kept, k) || k == id by {
                if has_slot(after, k) && k != id {
                    let i = choose|i: int| 0 <= i < after.len() && (#[trigger] after[i]).key@ == k;
                    assert(kept[i] == after[i]);
                }
                if has_slot(kept, k) {
                    let i = choose|i: int| 0 <= i < kept.len() && (#[trigger] kept[i]).key@ == k;
                    assert(after[i] == kept[i]);
                }
                assert(after[kept.len() as int].key@ == id);
            }
            assert forall|k: K::V| has_slot(kept, k) implies slot_map(after)[k] == slot_map(kept)[k] by {
                let i = choose|i: int| 0 <= i < kept.len() && (#[trigger] kept[i]).key@ == k;
                assert(after[i] == kept[i]);
                lemma_slot_in_map(after, i);
                lemma_slot_in_map(kept, i);
            }
            lemma_slot_in_map(after, kept.len() as int);
            assert(slot_map(after) =~= slot_map(kept).insert(id, value));
            assert(slot_map(kept).insert(id, value) =~= old(self)@.insert(id, value));
        }
        self.slots = slots;
    }
}

} // verus!
