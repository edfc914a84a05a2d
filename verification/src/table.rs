use vstd::prelude::*;

verus! {

/// One key of a [`Table`] with the value stored under it.
pub struct Slot<V> {
    pub key: String,
    pub value: V,
}

/// A small map from text keys to values.
///
/// The slots are kept in a vector in which no key occurs twice, so every key
/// names at most one slot.
pub struct Table<V> {
    slots: Vec<Slot<V>>,
}

/// No key of `slots` occurs at two places.
pub open spec fn distinct_keys<V>(slots: Seq<Slot<V>>) -> bool {
    forall|i: int, j: int|
        0 <= i < slots.len() && 0 <= j < slots.len() && i != j ==> slots[i].key@ != slots[j].key@
}

/// `key` occurs among the keys of `slots`.
pub open spec fn has_key<V>(slots: Seq<Slot<V>>, key: Seq<char>) -> bool {
    exists|i: int| 0 <= i < slots.len() && #[trigger] slots[i].key@ == key
}

/// A place at which `key` stands in `slots`, when it occurs there.
pub open spec fn place_of<V>(slots: Seq<Slot<V>>, key: Seq<char>) -> int {
    choose|i: int| 0 <= i < slots.len() && #[trigger] slots[i].key@ == key
}

/// The mapping that `slots` stands for.
pub open spec fn mapping_of<V>(slots: Seq<Slot<V>>) -> Map<Seq<char>, V> {
    Map::new(|k: Seq<char>| has_key(slots, k), |k: Seq<char>| slots[place_of(slots, k)].value)
}

impl<V> Table<V> {
    #[verifier::type_invariant]
    spec fn inv(self) -> bool {
        distinct_keys(self.slots@)
    }

    /// The mapping from keys to values that the table holds.
    pub closed spec fn view(&self) -> Map<Seq<char>, V> {
        mapping_of(self.slots@)
    }

    /// An empty table.
    pub fn new() -> (table: Self)
        ensures
            table@ == Map::<Seq<char>, V>::empty(),
    {
        let table = Table { slots: Vec::new() };
        assert(table@ =~= Map::<Seq<char>, V>::empty());
        table
    }

    /// The place of `key` among the slots, if it is present.
    fn find(&self, key: &str) -> (place: Option<usize>)
        ensures
            match place {
                Some(i) => i < self.slots@.len() && self.slots@[i as int].key@ == key@,
                None => !has_key(self.slots@, key@),
            },
    {
        let wanted = key.to_owned();
        let mut i: usize = 0;
        while i < self.slots.len()
            invariant
                i <= self.slots@.len(),
                wanted@ == key@,
                forall|j: int| 0 <= j < i ==> self.slots@[j].key@ != key@,
            decreases self.slots@.len() - i,
        {
            if self.slots[i].key == wanted {
                return Some(i);
            }
            i += 1;
        }
        None
    }

    /// Whether a value is stored under `key`.
    pub fn contains_key(&self, key: &str) -> (present: bool)
        ensures
            present == self@.contains_key(key@),
    {
        self.find(key).is_some()
    }

    /// The value stored under `key`, if any.
    pub fn get(&self, key: &str) -> (value: Option<&V>)
        ensures
            match value {
                Some(v) => self@.contains_key(key@) && *v == self@[key@],
                None => !self@.contains_key(key@),
            },
    {
        proof {
            use_type_invariant(self);
        }
        match self.find(key) {
            Some(i) => {
                Some(&self.slots[i].value)
            },
            None => None,
        }
    }

    /// Stores `value` under `key` and hands back the value it displaced.
    pub fn insert(&mut self, key: &str, value: V) -> (displaced: Option<V>)
        ensures
            final(self)@ == old(self)@.insert(key@, value),
            match displaced {
                Some(v) => old(self)@.contains_key(key@) && v == old(self)@[key@],
                None => !old(self)@.contains_key(key@),
            },
    {
        proof {
            use_type_invariant(&*self);
        }
        let ghost before = self.slots@;
        let found = self.find(key);
        let mut slots: Vec<Slot<V>> = Vec::new();
        core::mem::swap(&mut self.slots, &mut slots);
        let displaced = match found {
            Some(i) => {
                proof {
                    lemma_lookup(before, i as int);
                    lemma_remove(before, i as int);
                }
                let slot = slots.remove(i);
                Some(slot.value)
            },
            None => None,
        };
        let ghost middle = slots@;
        let slot = Slot { key: key.to_owned(), value };
        proof {
            lemma_push(middle, slot);
            assert(mapping_of(middle).insert(key@, value) =~= mapping_of(before).insert(
                key@,
                value,
            ));
        }
        slots.push(slot);
        core::mem::swap(&mut self.slots, &mut slots);
        displaced
    }

    /// Takes the value stored under `key` out of the table.
    pub fn remove(&mut self, key: &str) -> (taken: Option<V>)
        ensures
            final(self)@ == old(self)@.remove(key@),
            match taken {
                Some(v) => old(self)@.contains_key(key@) && v == old(self)@[key@],
                None => !old(self)@.contains_key(key@),
            },
    {
        proof {
            use_type_invariant(&*self);
        }
        let ghost before = self.slots@;
        match self.find(key) {
            Some(i) => {
                proof {
                    lemma_lookup(before, i as int);
                    lemma_remove(before, i as int);
                }
                let mut slots: Vec<Slot<V>> = Vec::new();
                core::mem::swap(&mut self.slots, &mut slots);
                let slot = slots.remove(i);
                core::mem::swap(&mut self.slots, &mut slots);
                Some(slot.value)
            },
            None => {
                assert(mapping_of(before).remove(key@) =~= mapping_of(before));
                None
            },
        }
    }

    /// The number of keys in the table.
    pub fn len(&self) -> (n: usize)
        ensures
            n == self@.dom().len(),
            self@.dom().finite(),
    {
        proof {
            use_type_invariant(self);
            lemma_domain(self.slots@);
        }
        self.slots.len()
    }
}

/// In a sequence without repeated keys, the mapping gives each slot's value
/// under that slot's key.
pub proof fn lemma_lookup<V>(slots: Seq<Slot<V>>, i: int)
    requires
        distinct_keys(slots),
        0 <= i < slots.len(),
    ensures
        has_key(slots, slots[i].key@),
        mapping_of(slots).contains_key(slots[i].key@),
        mapping_of(slots)[slots[i].key@] == slots[i].value,
        place_of(slots, slots[i].key@) == i,
{
    assert(slots[i].key@ == slots[i].key@);
}

/// Appending a slot with a fresh key inserts it into the mapping.
pub proof fn lemma_push<V>(slots: Seq<Slot<V>>, slot: Slot<V>)
    requires
        distinct_keys(slots),
        !has_key(slots, slot.key@),
    ensures
        distinct_keys(slots.push(slot)),
        mapping_of(slots.push(slot)) =~= mapping_of(slots).insert(slot.key@, slot.value),
{
    let grown = slots.push(slot);
    assert(distinct_keys(grown)) by {
        assert forall|i: int, j: int|
            0 <= i < grown.len() && 0 <= j < grown.len() && i != j implies grown[i].key@
            != grown[j].key@ by {
            if i < slots.len() && j < slots.len() {
                assert(grown[i] == slots[i] && grown[j] == slots[j]);
            } else if i < slots.len() {
                assert(slots[i].key@ == grown[i].key@);
            } else {
                assert(slots[j].key@ == grown[j].key@);
            }
        }
    }
    assert forall|k: Seq<char>| has_key(grown, k) <==> (k == slot.key@ || has_key(slots, k)) by {
        if has_key(grown, k) {
            let i = place_of(grown, k);
            if i < slots.len() {
                assert(slots[i].key@ == k);
            }
        }
        if has_key(slots, k) {
            let i = place_of(slots, k);
            assert(grown[i].key@ == k);
        }
        if k == slot.key@ {
            assert(grown[slots.len() as int].key@ == k);
        }
    }
    assert forall|k: Seq<char>| has_key(grown, k) implies mapping_of(grown)[k] == mapping_of(
        slots,
    ).insert(slot.key@, slot.value)[k] by {
        let i = place_of(grown, k);
        lemma_lookup(grown, i);
        if i < slots.len() {
            assert(slots[i].key@ == k);
            lemma_lookup(slots, i);
        }
    }
}

/// Removing a slot removes its key from the mapping and leaves the others.
pub proof fn lemma_remove<V>(slots: Seq<Slot<V>>, i: int)
    requires
        distinct_keys(slots),
        0 <= i < slots.len(),
    ensures
        distinct_keys(slots.remove(i)),
        !has_key(slots.remove(i), slots[i].key@),
        mapping_of(slots.remove(i)) =~= mapping_of(slots).remove(slots[i].key@),
{
    let rest = slots.remove(i);
    let key = slots[i].key@;
    assert forall|a: int| 0 <= a < rest.len() implies rest[a] == slots[if a < i {
        a
    } else {
        a + 1
    }] by {}
    assert(distinct_keys(rest)) by {
        assert forall|a: int, b: int|
            0 <= a < rest.len() && 0 <= b < rest.len() && a != b implies rest[a].key@
            != rest[b].key@ by {
            let a2 = if a < i { a } else { a + 1 };
            let b2 = if b < i { b } else { b + 1 };
            assert(rest[a] == slots[a2] && rest[b] == slots[b2]);
        }
    }
    assert(!has_key(rest, key)) by {
        if has_key(rest, key) {
            let a = place_of(rest, key);
            let a2 = if a < i { a } else { a + 1 };
            assert(rest[a] == slots[a2]);
        }
    }
    assert forall|k: Seq<char>| has_key(rest, k) <==> (k != key && has_key(slots, k)) by {
        if has_key(rest, k) {
            let a = place_of(rest, k);
            let a2 = if a < i { a } else { a + 1 };
            assert(rest[a] == slots[a2]);
            assert(slots[a2].key@ == k);
        }
        if k != key && has_key(slots, k) {
            let a = place_of(slots, k);
            let a2 = if a < i { a } else { a - 1 };
            assert(rest[a2] == slots[a]);
            assert(rest[a2].key@ == k);
        }
    }
    assert forall|k: Seq<char>| has_key(rest, k) implies mapping_of(rest)[k] == mapping_of(
        slots,
    ).remove(key)[k] by {
        let a = place_of(rest, k);
        lemma_lookup(rest, a);
        let a2 = if a < i { a } else { a + 1 };
        assert(rest[a] == slots[a2]);
        lemma_lookup(slots, a2);
    }
}

/// The keys of a sequence without repeated keys are as many as its slots.
pub proof fn lemma_domain<V>(slots: Seq<Slot<V>>)
    requires
        distinct_keys(slots),
    ensures
        mapping_of(slots).dom().finite(),
        mapping_of(slots).dom().len() == slots.len(),
    decreases slots.len(),
{
    if slots.len() == 0 {
        assert(mapping_of(slots).dom() =~= Set::<Seq<char>>::empty());
    } else {
        let last = slots.len() - 1;
        let rest = slots.remove(last);
        lemma_remove(slots, last);
        lemma_lookup(slots, last);
        lemma_domain(rest);
        assert(mapping_of(slots).dom() =~= mapping_of(rest).dom().insert(slots[last].key@));
    }
}

} // verus!
