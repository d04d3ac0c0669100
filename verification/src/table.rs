//! A small table that maps texts to values.
//!
//! The table keeps its entries in the order in which their keys first came.
//! It is meant for the handful of entries that a registry or a test holds:
//! every operation walks the entries.

use vstd::prelude::*;
use crate::text::same;

verus! {

struct Slot<V> {
    key: String,
    value: V,
}

/// A table from texts to values.
pub struct TextMap<V> {
    slots: Vec<Slot<V>>,
}

spec fn keys<V>(slots: Seq<Slot<V>>) -> Seq<Seq<char>> {
    Seq::new(slots.len(), |i: int| slots[i].key@)
}

spec fn holds_key<V>(slots: Seq<Slot<V>>, key: Seq<char>) -> bool {
    exists|i: int| 0 <= i < slots.len() && #[trigger] slots[i].key@ == key
}

spec fn place<V>(slots: Seq<Slot<V>>, key: Seq<char>) -> int {
    choose|i: int| 0 <= i < slots.len() && #[trigger] slots[i].key@ == key
}

spec fn chart<V>(slots: Seq<Slot<V>>) -> Map<Seq<char>, V> {
    Map::new(|key: Seq<char>| holds_key(slots, key), |key: Seq<char>| slots[place(slots, key)].value)
}

proof fn chart_at<V>(slots: Seq<Slot<V>>, at: int)
    requires
        keys(slots).no_duplicates(),
        0 <= at < slots.len(),
    ensures
        chart(slots).contains_key(slots[at].key@),
        chart(slots)[slots[at].key@] == slots[at].value,
{
    let key = slots[at].key@;
    assert(holds_key(slots, key));
    let found = place(slots, key);
    assert(keys(slots)[found] == keys(slots)[at]);
}

proof fn chart_after_update<V>(slots: Seq<Slot<V>>, at: int, slot: Slot<V>)
    requires
        keys(slots).no_duplicates(),
        0 <= at < slots.len(),
        slot.key@ == slots[at].key@,
    ensures
        keys(slots.update(at, slot)).no_duplicates(),
        chart(slots.update(at, slot)) == chart(slots).insert(slot.key@, slot.value),
{
    let after = slots.update(at, slot);
    assert(keys(after) =~= keys(slots));
    assert forall|key: Seq<char>| holds_key(after, key) == holds_key(slots, key) by {
        if holds_key(after, key) {
            let i = place(after, key);
            assert(slots[i].key@ == key);
        }
        if holds_key(slots, key) {
            let i = place(slots, key);
            assert(after[i].key@ == key);
        }
    }
    assert forall|key: Seq<char>| holds_key(after, key) implies #[trigger] chart(after)[key]
        == chart(slots).insert(slot.key@, slot.value)[key] by {
        let i = place(after, key);
        chart_at(after, i);
        if i != at {
            chart_at(slots, i);
            assert(keys(slots)[i] != keys(slots)[at]);
        }
    }
    assert(chart(after) =~= chart(slots).insert(slot.key@, slot.value));
}

proof fn chart_after_push<V>(slots: Seq<Slot<V>>, slot: Slot<V>)
    requires
        keys(slots).no_duplicates(),
        !holds_key(slots, slot.key@),
    ensures
        keys(slots.push(slot)).no_duplicates(),
        chart(slots.push(slot)) == chart(slots).insert(slot.key@, slot.value),
{
    let after = slots.push(slot);
    assert(keys(after) =~= keys(slots).push(slot.key@));
    assert forall|i: int, j: int|
        0 <= i < keys(after).len() && 0 <= j < keys(after).len() && i != j implies keys(after)[i]
        != keys(after)[j] by {
        if i < slots.len() && j < slots.len() {
            assert(keys(slots)[i] != keys(slots)[j]);
        } else if i < slots.len() {
            assert(slots[i].key@ != slot.key@);
        } else {
            assert(slots[j].key@ != slot.key@);
        }
    }
    assert forall|key: Seq<char>| holds_key(after, key) == (holds_key(slots, key) || key
        == slot.key@) by {
        if holds_key(after, key) {
            let i = place(after, key);
            if i < slots.len() {
                assert(slots[i].key@ == key);
            }
        }
        if holds_key(slots, key) {
            let i = place(slots, key);
            assert(after[i].key@ == key);
        }
        if key == slot.key@ {
            assert(after[slots.len() as int].key@ == key);
        }
    }
    assert forall|key: Seq<char>| holds_key(after, key) implies #[trigger] chart(after)[key]
        == chart(slots).insert(slot.key@, slot.value)[key] by {
        let i = place(after, key);
        chart_at(after, i);
        if i < slots.len() {
            chart_at(slots, i);
            assert(slots[i].key@ != slot.key@);
        }
    }
    assert(chart(after) =~= chart(slots).insert(slot.key@, slot.value));
}

proof fn chart_is_finite<V>(slots: Seq<Slot<V>>)
    requires
        keys(slots).no_duplicates(),
    ensures
        chart(slots).dom().finite(),
        chart(slots).dom().len() == slots.len(),
{
    let names = keys(slots);
    names.unique_seq_to_set();
    vstd::seq_lib::seq_to_set_is_finite(names);
    assert forall|key: Seq<char>| names.to_set().contains(key) == chart(slots).dom().contains(
        key,
    ) by {
        if names.to_set().contains(key) {
            let i = choose|i: int| 0 <= i < names.len() && names[i] == key;
            assert(slots[i].key@ == key);
        }
        if holds_key(slots, key) {
            let i = place(slots, key);
            assert(names[i] == key);
        }
    }
    assert(names.to_set() =~= chart(slots).dom());
}

impl<V> View for TextMap<V> {
    type V = Map<Seq<char>, V>;

    closed spec fn view(&self) -> Map<Seq<char>, V> {
        chart(self.slots@)
    }
}

impl<V> TextMap<V> {
    #[verifier::type_invariant]
    spec fn keys_differ(self) -> bool {
        keys(self.slots@).no_duplicates()
    }

    /// A table without entries.
    pub fn new() -> (table: TextMap<V>)
        ensures
            table@ == Map::<Seq<char>, V>::empty(),
    {
        let table = TextMap { slots: Vec::new() };
        assert(table@ =~= Map::<Seq<char>, V>::empty());
        table
    }

    /// How many entries the table has.
    pub fn len(&self) -> (count: usize)
        ensures
            self@.dom().finite(),
            count == self@.dom().len(),
    {
        proof {
            use_type_invariant(self);
            chart_is_finite(self.slots@);
        }
        self.slots.len()
    }

    #[verifier::loop_isolation(false)]
    fn find(&self, key: &str) -> (at: Option<usize>)
        ensures
            match at {
                Some(at) => at < self.slots@.len() && self.slots@[at as int].key@ == key@,
                None => !holds_key(self.slots@, key@),
            },
    {
        let mut i: usize = 0;
        while i < self.slots.len()
            invariant
                i <= self.slots@.len(),
                forall|j: int| 0 <= j < i ==> self.slots@[j].key@ != key@,
            decreases self.slots@.len() - i,
        {
            if same(self.slots[i].key.as_str(), key) {
                return Some(i);
            }
            i += 1;
        }
        None
    }

    /// The value kept under a key, if there is one.
    pub fn get(&self, key: &str) -> (value: Option<&V>)
        ensures
            value is Some <==> self@.contains_key(key@),
            value is Some ==> *value->0 == self@[key@],
    {
        proof {
            use_type_invariant(self);
        }
        match self.find(key) {
            Some(at) => {
                proof {
                    chart_at(self.slots@, at as int);
                }
                Some(&self.slots[at].value)
            },
            None => None,
        }
    }

    /// Whether a value is kept under a key.
    pub fn contains_key(&self, key: &str) -> (held: bool)
        ensures
            held == self@.contains_key(key@),
    {
        self.find(key).is_some()
    }

    /// Keeps a value under a key, in place of what was kept under it.
    pub fn insert(&mut self, key: &str, value: V)
        ensures
            final(self)@ == old(self)@.insert(key@, value),
    {
        proof {
            use_type_invariant(&*self);
        }
        let slot = Slot { key: key.to_owned(), value };
        let found = self.find(key);
        let mut slots: Vec<Slot<V>> = Vec::new();
        std::mem::swap(&mut self.slots, &mut slots);
        match found {
            Some(at) => {
                proof {
                    chart_after_update(slots@, at as int, slot);
                }
                slots.set(at, slot);
            },
            None => {
                proof {
                    chart_after_push(slots@, slot);
                }
                slots.push(slot);
            },
        }
        self.slots = slots;
    }
}

} // verus!
