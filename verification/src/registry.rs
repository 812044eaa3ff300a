//! A map from numeric keys to values that remembers the order in which its keys
//! were first inserted, so that walking it is a function of its history alone.

use vstd::prelude::*;

verus! {

/// Map from `u64` keys to values, walked in order of first insertion.
pub struct Registry<V> {
    keys: Vec<u64>,
    values: Vec<V>,
}

impl<V> Registry<V> {
    /// The keys, in order of first insertion.
    pub closed spec fn keys(&self) -> Seq<u64> {
        self.keys@
    }

    /// The values, each at the position of its key.
    pub closed spec fn values(&self) -> Seq<V> {
        self.values@
    }

    /// Every key occurs once, and has its value.
    pub closed spec fn wf(&self) -> bool {
        &&& self.keys@.len() == self.values@.len()
        &&& self.keys@.no_duplicates()
    }

    /// Whether `key` is present.
    pub open spec fn has(&self, key: u64) -> bool {
        self.keys().contains(key)
    }

    /// Position of `key`, where it is present.
    pub open spec fn position_of(&self, key: u64) -> int {
        self.keys().index_of(key)
    }

    /// The value of `key`, where it is present.
    pub open spec fn value_of(&self, key: u64) -> V {
        self.values()[self.position_of(key)]
    }

    /// The value of `key`, or `None`.
    pub open spec fn lookup(&self, key: u64) -> Option<V> {
        if self.has(key) {
            Some(self.value_of(key))
        } else {
            None
        }
    }

    /// In a well-formed registry there is a value for each key.
    pub proof fn lemma_lengths(&self)
        requires
            self.wf(),
        ensures
            self.keys().len() == self.values().len(),
            self.keys().no_duplicates(),
    {
    }

    /// The position of a present key is that of its one occurrence.
    pub proof fn lemma_position(&self, key: u64, i: int)
        requires
            self.wf(),
            0 <= i < self.keys().len(),
            self.keys()[i] == key,
        ensures
            self.has(key),
            self.position_of(key) == i,
    {
        let j = self.keys().index_of(key);
        assert(self.keys().contains(key));
    }

    /// Whether each key is what `key_of` gives for its value.
    pub open spec fn keyed_by(&self, key_of: spec_fn(V) -> u64) -> bool {
        forall|i: int|
            0 <= i < self.keys().len() ==> #[trigger] self.keys()[i] == key_of(self.values()[i])
    }

    /// Where the keys are taken one-to-one from the values, a value is present
    /// exactly when its key is, at the same position, and no value occurs twice.
    pub proof fn lemma_keyed(&self, key_of: spec_fn(V) -> u64, value: V)
        requires
            self.wf(),
            self.keyed_by(key_of),
            forall|a: V, b: V| #![trigger key_of(a), key_of(b)] key_of(a) == key_of(b) ==> a == b,
        ensures
            self.values().no_duplicates(),
            self.values().contains(value) <==> self.has(key_of(value)),
            self.has(key_of(value)) ==> self.values().index_of(value) == self.position_of(
                key_of(value),
            ) && self.value_of(key_of(value)) == value,
    {
        let keys = self.keys();
        let values = self.values();
        assert forall|a: int, b: int|
            0 <= a < values.len() && 0 <= b < values.len() && a != b implies values[a]
            != values[b] by {
            assert(keys[a] == key_of(values[a]));
            assert(keys[b] == key_of(values[b]));
        }
        if values.contains(value) {
            let i = values.index_of(value);
            assert(keys[i] == key_of(values[i]));
            assert(keys.contains(key_of(value)));
        }
        if keys.contains(key_of(value)) {
            let i = keys.index_of(key_of(value));
            assert(keys[i] == key_of(values[i]));
            assert(values[i] == value);
            assert(values.contains(value));
            let j = values.index_of(value);
            assert(values[j] == value);
        }
    }

    pub fn new() -> (registry: Self)
        ensures
            registry.wf(),
            registry.keys() == Seq::<u64>::empty(),
            registry.values() == Seq::<V>::empty(),
    {
        Registry { keys: Vec::new(), values: Vec::new() }
    }

    pub fn len(&self) -> (len: usize)
        requires
            self.wf(),
        ensures
            len == self.keys().len(),
            len == self.values().len(),
    {
        self.keys.len()
    }

    /// Position of `key`, if it is present.
    pub fn position(&self, key: u64) -> (found: Option<usize>)
        requires
            self.wf(),
        ensures
            found is Some <==> self.has(key),
            found is Some ==> found->0 == self.position_of(key) && 0 <= found->0 < self.keys().len()
                && self.keys()[found->0 as int] == key,
    {
        let mut i: usize = 0;
        while i < self.keys.len()
            invariant
                self.wf(),
                i <= self.keys@.len(),
                forall|j: int| 0 <= j < i ==> self.keys@[j] != key,
            decreases self.keys@.len() - i,
        {
            if self.keys[i] == key {
                proof {
                    self.lemma_position(key, i as int);
                }
                return Some(i);
            }
            i += 1;
        }
        None
    }

    pub fn contains_key(&self, key: u64) -> (present: bool)
        requires
            self.wf(),
        ensures
            present == self.has(key),
    {
        self.position(key).is_some()
    }

    /// The value of `key`, if it is present.
    pub fn get(&self, key: u64) -> (found: Option<&V>)
        requires
            self.wf(),
        ensures
            found is Some <==> self.has(key),
            found is Some ==> *found->0 == self.value_of(key),
    {
        match self.position(key) {
            Some(i) => Some(&self.values[i]),
            None => None,
        }
    }

    /// The key at a position.
    pub fn key_at(&self, i: usize) -> (key: u64)
        requires
            self.wf(),
            i < self.keys().len(),
        ensures
            key == self.keys()[i as int],
    {
        self.keys[i]
    }

    /// The value at a position.
    pub fn value_at(&self, i: usize) -> (value: &V)
        requires
            self.wf(),
            i < self.values().len(),
        ensures
            *value == self.values()[i as int],
    {
        &self.values[i]
    }

    /// The value at a position, to be changed in its place.
    pub fn value_at_mut(&mut self, i: usize) -> (value: &mut V)
        requires
            old(self).wf(),
            i < old(self).values().len(),
        ensures
            *value == old(self).values()[i as int],
            final(self).wf(),
            final(self).keys() == old(self).keys(),
            final(self).values() == old(self).values().update(i as int, *final(value)),
    {
        &mut self.values[i]
    }

    /// Gives `key` the value `value`. A key that is new comes last; one that was
    /// present keeps its place, and its former value is returned.
    pub fn insert(&mut self, key: u64, value: V) -> (former: Option<V>)
        requires
            old(self).wf(),
        ensures
            final(self).wf(),
            former == old(self).lookup(key),
            old(self).has(key) ==> final(self).keys() == old(self).keys() && final(self).values()
                == old(self).values().update(old(self).position_of(key), value),
            !old(self).has(key) ==> final(self).keys() == old(self).keys().push(key)
                && final(self).values() == old(self).values().push(value),
    {
        match self.position(key) {
            Some(i) => {
                self.values.push(value);
                let former = self.values.swap_remove(i);
                assert(self.values@ =~= old(self).values@.update(i as int, value));
                Some(former)
            },
            None => {
                self.keys.push(key);
                self.values.push(value);
                assert(self.keys@.no_duplicates()) by {
                    assert forall|a: int, b: int|
                        0 <= a < self.keys@.len()
                            && 0 <= b < self.keys@.len()
                            && a != b implies self.keys@[a]
                        != self.keys@[b] by {
                        if a < old(self).keys@.len() {
                            assert(old(self).keys@.contains(self.keys@[a]));
                        }
                        if b < old(self).keys@.len() {
                            assert(old(self).keys@.contains(self.keys@[b]));
                        }
                    }
                }
                None
            },
        }
    }

    /// Takes `key` out, with its value. The other keys keep their order.
    pub fn remove(&mut self, key: u64) -> (former: Option<V>)
        requires
            old(self).wf(),
        ensures
            final(self).wf(),
            former == old(self).lookup(key),
            !final(self).has(key),
            old(self).has(key) ==> final(self).keys() == old(self).keys().remove(
                old(self).position_of(key),
            ) && final(self).values() == old(self).values().remove(old(self).position_of(key)),
            !old(self).has(key) ==> final(self).keys() == old(self).keys() && final(self).values()
                == old(self).values(),
    {
        match self.position(key) {
            Some(i) => {
                self.keys.remove(i);
                let former = self.values.remove(i);
                proof {
                    let before = old(self).keys@;
                    let after = self.keys@;
                    assert forall|a: int, b: int|
                        0 <= a < after.len() && 0 <= b < after.len() && a != b implies after[a]
                        != after[b] by {
                        let a0 = if a < i { a } else { a + 1 };
                        let b0 = if b < i { b } else { b + 1 };
                        assert(after[a] == before[a0]);
                        assert(after[b] == before[b0]);
                    }
                    if after.contains(key) {
                        let a = after.index_of(key);
                        let a0 = if a < i { a } else { a + 1 };
                        assert(after[a] == before[a0]);
                        assert(before[i as int] == key);
                    }
                }
                Some(former)
            },
            None => None,
        }
    }
}

impl<V: Copy> Registry<V> {
    /// The values, in the order of their keys.
    pub fn to_values(&self) -> (values: Vec<V>)
        requires
            self.wf(),
        ensures
            values@ == self.values(),
    {
        let mut values: Vec<V> = Vec::new();
        let mut i: usize = 0;
        while i < self.values.len()
            invariant
                i <= self.values@.len(),
                values@ == self.values@.subrange(0, i as int),
            decreases self.values@.len() - i,
        {
            values.push(self.values[i]);
            assert(self.values@.subrange(0, i + 1) =~= self.values@.subrange(0, i as int).push(
                self.values@[i as int],
            ));
            i += 1;
        }
        assert(self.values@.subrange(0, i as int) =~= self.values@);
        values
    }
}

} // verus!
