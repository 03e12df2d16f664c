//! A small map from byte strings to values, kept as a list in which no key
//! occurs twice.
use vstd::prelude::*;
use crate::bytes::bytes_equal;

verus! {

/// One binding of a [`KeyedList`].
pub struct Binding<V> {
    key: Vec<u8>,
    value: V,
}

/// A map from byte strings to values.
pub struct KeyedList<V> {
    bindings: Vec<Binding<V>>,
}

/// Whether some binding of `bindings` has key `key`.
pub closed spec fn bound<V>(bindings: Seq<Binding<V>>, key: Seq<u8>) -> bool {
    exists|i: int| 0 <= i < bindings.len() && #[trigger] bindings[i].key@ == key
}

/// The place of the binding with key `key`.
pub closed spec fn place<V>(bindings: Seq<Binding<V>>, key: Seq<u8>) -> int {
    choose|i: int| 0 <= i < bindings.len() && #[trigger] bindings[i].key@ == key
}

/// No key occurs twice.
pub closed spec fn distinct<V>(bindings: Seq<Binding<V>>) -> bool {
    forall|i: int, j: int|
        0 <= i < bindings.len() && 0 <= j < bindings.len() && i != j ==> #[trigger] bindings[i].key@
            != #[trigger] bindings[j].key@
}

/// The list as a map.
pub closed spec fn as_map<V>(bindings: Seq<Binding<V>>) -> Map<Seq<u8>, V> {
    Map::new(|key: Seq<u8>| bound(bindings, key), |key: Seq<u8>| bindings[place(bindings, key)].value)
}

proof fn lemma_place<V>(bindings: Seq<Binding<V>>, i: int)
    requires
        distinct(bindings),
        0 <= i < bindings.len(),
    ensures
        bound(bindings, bindings[i].key@),
        place(bindings, bindings[i].key@) == i,
        as_map(bindings).contains_key(bindings[i].key@),
        as_map(bindings)[bindings[i].key@] == bindings[i].value,
{
    assert(bindings[i].key@ == bindings[i].key@);
}

proof fn lemma_unbound<V>(bindings: Seq<Binding<V>>, key: Seq<u8>)
    requires
        forall|i: int| 0 <= i < bindings.len() ==> bindings[i].key@ != key,
    ensures
        !bound(bindings, key),
        !as_map(bindings).contains_key(key),
{
}

proof fn lemma_remove<V>(bindings: Seq<Binding<V>>, i: int)
    requires
        distinct(bindings),
        0 <= i < bindings.len(),
    ensures
        distinct(bindings.remove(i)),
        as_map(bindings.remove(i)) == as_map(bindings).remove(bindings[i].key@),
{
    let rest = bindings.remove(i);
    let key = bindings[i].key@;
    assert forall|a: int, b: int| 0 <= a < rest.len() && 0 <= b < rest.len() && a != b implies #[trigger] rest[a].key@
        != #[trigger] rest[b].key@ by {
        let a0 = if a < i { a } else { a + 1 };
        let b0 = if b < i { b } else { b + 1 };
        assert(rest[a] == bindings[a0] && rest[b] == bindings[b0]);
    }
    assert forall|k: Seq<u8>| #[trigger] bound(rest, k) == (bound(bindings, k) && k != key) by {
        if bound(rest, k) {
            let a = choose|a: int| 0 <= a < rest.len() && #[trigger] rest[a].key@ == k;
            let a0 = if a < i { a } else { a + 1 };
            assert(rest[a] == bindings[a0]);
            assert(bindings[a0].key@ == k);
        }
        if bound(bindings, k) && k != key {
            let a0 = choose|a: int| 0 <= a < bindings.len() && #[trigger] bindings[a].key@ == k;
            let a = if a0 < i { a0 } else { a0 - 1 };
            assert(rest[a] == bindings[a0]);
            assert(rest[a].key@ == k);
        }
    }
    assert forall|k: Seq<u8>| bound(rest, k) implies #[trigger] as_map(rest)[k] == as_map(bindings)[k] by {
        let a = place(rest, k);
        let a0 = if a < i { a } else { a + 1 };
        assert(rest[a] == bindings[a0]);
        lemma_place(bindings, a0);
    }
    assert(as_map(rest) =~= as_map(bindings).remove(key));
}

proof fn lemma_push<V>(bindings: Seq<Binding<V>>, binding: Binding<V>)
    requires
        distinct(bindings),
        !bound(bindings, binding.key@),
    ensures
        distinct(bindings.push(binding)),
        as_map(bindings.push(binding)) == as_map(bindings).insert(binding.key@, binding.value),
{
    let more = bindings.push(binding);
    let key = binding.key@;
    let i = bindings.len() as int;
    assert forall|a: int| 0 <= a < bindings.len() implies #[trigger] bindings[a].key@ != key by {
        if bindings[a].key@ == key {
            assert(bound(bindings, key));
        }
    }
    assert forall|a: int, b: int| 0 <= a < more.len() && 0 <= b < more.len() && a != b implies #[trigger] more[a].key@
        != #[trigger] more[b].key@ by {
        if a != i {
            assert(more[a] == bindings[a]);
        }
        if b != i {
            assert(more[b] == bindings[b]);
        }
    }
    assert(more[i] == binding);
    lemma_place(more, i);
    assert forall|k: Seq<u8>| #[trigger] bound(more, k) == (bound(bindings, k) || k == key) by {
        if bound(more, k) && k != key {
            let a = choose|a: int| 0 <= a < more.len() && #[trigger] more[a].key@ == k;
            assert(more[a] == bindings[a]);
            assert(bindings[a].key@ == k);
        }
        if bound(bindings, k) {
            let a = choose|a: int| 0 <= a < bindings.len() && #[trigger] bindings[a].key@ == k;
            assert(more[a] == bindings[a]);
            assert(more[a].key@ == k);
        }
    }
    assert forall|k: Seq<u8>| bound(bindings, k) implies #[trigger] as_map(more)[k] == as_map(bindings)[k] by {
        let a = place(bindings, k);
        assert(more[a] == bindings[a]);
        lemma_place(more, a);
    }
    assert(as_map(more) =~= as_map(bindings).insert(key, binding.value));
}

impl<V> View for KeyedList<V> {
    type V = Map<Seq<u8>, V>;

    closed spec fn view(&self) -> Map<Seq<u8>, V> {
        as_map(self.bindings@)
    }
}

impl<V> KeyedList<V> {
    /// No key is bound twice.
    pub closed spec fn wf(&self) -> bool {
        distinct(self.bindings@)
    }

    /// The number of bindings.
    pub closed spec fn spec_len(&self) -> nat {
        self.bindings@.len()
    }

    /// A map without bindings.
    pub fn new() -> (list: Self)
        ensures
            list.wf(),
            list@ == Map::<Seq<u8>, V>::empty(),
            list.spec_len() == 0,
    {
        let list = KeyedList { bindings: Vec::new() };
        assert(list@ =~= Map::<Seq<u8>, V>::empty());
        list
    }

    fn find(&self, key: &[u8]) -> (slot: Option<usize>)
        requires
            self.wf(),
        ensures
            match slot {
                Some(i) => i < self.bindings.len() && self.bindings[i as int].key@ == key@ && self@.contains_key(
                    key@,
                ) && self@[key@] == self.bindings[i as int].value,
                None => !self@.contains_key(key@),
            },
    {
        let mut i: usize = 0;
        while i < self.bindings.len()
            invariant
                self.wf(),
                i <= self.bindings.len(),
                forall|j: int| 0 <= j < i ==> self.bindings[j].key@ != key@,
            decreases self.bindings.len() - i,
        {
            if bytes_equal(self.bindings[i].key.as_slice(), key) {
                proof {
                    lemma_place(self.bindings@, i as int);
                }
                return Some(i);
            }
            i = i + 1;
        }
        proof {
            lemma_unbound(self.bindings@, key@);
        }
        None
    }

    /// A map with a binding has a positive number of bindings.
    pub proof fn lemma_len_positive(&self, key: Seq<u8>)
        requires
            self@.contains_key(key),
        ensures
            self.spec_len() > 0,
    {
        assert(bound(self.bindings@, key));
    }

    /// The number of bindings.
    pub fn len(&self) -> (n: usize)
        ensures
            n == self.spec_len(),
    {
        self.bindings.len()
    }

    /// Tells whether `key` is bound.
    pub fn contains_key(&self, key: &[u8]) -> (found: bool)
        requires
            self.wf(),
        ensures
            found == self@.contains_key(key@),
    {
        self.find(key).is_some()
    }

    /// The value bound to `key`, if any.
    pub fn get(&self, key: &[u8]) -> (found: Option<&V>)
        requires
            self.wf(),
        ensures
            match found {
                Some(value) => self@.contains_key(key@) && *value == self@[key@],
                None => !self@.contains_key(key@),
            },
    {
        match self.find(key) {
            Some(i) => Some(&self.bindings[i].value),
            None => None,
        }
    }

    /// Unbinds `key` and returns the value it was bound to, if any.
    pub fn remove(&mut self, key: &[u8]) -> (removed: Option<V>)
        requires
            old(self).wf(),
        ensures
            final(self).wf(),
            final(self)@ == old(self)@.remove(key@),
            final(self).spec_len() == old(self).spec_len() - (if old(self)@.contains_key(key@) {
                1nat
            } else {
                0nat
            }),
            match removed {
                Some(value) => old(self)@.contains_key(key@) && value == old(self)@[key@],
                None => !old(self)@.contains_key(key@),
            },
    {
        match self.find(key) {
            Some(i) => {
                proof {
                    lemma_remove(self.bindings@, i as int);
                }
                let binding = self.bindings.remove(i);
                Some(binding.value)
            },
            None => {
                assert(self@ =~= self@.remove(key@));
                None
            },
        }
    }

    /// Binds `key` to `value` and returns the value it was bound to before, if
    /// any.
    pub fn insert(&mut self, key: Vec<u8>, value: V) -> (replaced: Option<V>)
        requires
            old(self).wf(),
        ensures
            final(self).wf(),
            final(self)@ == old(self)@.insert(key@, value),
            final(self).spec_len() == old(self).spec_len() + (if old(self)@.contains_key(key@) {
                0nat
            } else {
                1nat
            }),
            match replaced {
                Some(before) => old(self)@.contains_key(key@) && before == old(self)@[key@],
                None => !old(self)@.contains_key(key@),
            },
    {
        let replaced = self.remove(key.as_slice());
        let binding = Binding { key, value };
        proof {
            assert(!self@.contains_key(binding.key@));
            lemma_push(self.bindings@, binding);
            assert(old(self)@.remove(key@).insert(key@, value) =~= old(self)@.insert(key@, value));
        }
        self.bindings.push(binding);
        replaced
    }
}

} // verus!
