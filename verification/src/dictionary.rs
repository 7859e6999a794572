//! A dictionary keyed by text, as the native surfaces exchange them: each
//! key occurs once, and setting a key that is present replaces its value.

use vstd::prelude::*;

verus! {

/// A finite map from text keys to values. Its view is the mathematical map
/// from each key's characters to the view of its value.
pub struct Dictionary<V> {
    entries: Vec<(String, V)>,
}

impl<V> Dictionary<V> {
    /// No key occurs twice.
    #[verifier::type_invariant]
    spec fn distinct_keys(&self) -> bool {
        forall|i: int, j: int|
            0 <= i < j < self.entries.len() ==> self.entries[i].0@ != self.entries[j].0@
    }

    /// The entry at `i` holds `key`.
    spec fn holds_at(&self, key: Seq<char>, i: int) -> bool {
        0 <= i < self.entries.len() && self.entries[i].0@ == key
    }

    /// The number of entries.
    pub closed spec fn spec_len(&self) -> nat {
        self.entries.len() as nat
    }

    /// The key of the entry at `i`.
    pub closed spec fn spec_key_at(&self, i: int) -> Seq<char> {
        self.entries[i].0@
    }

}

impl<V: View> Dictionary<V> {
    pub fn new() -> (r: Self)
        ensures
            r@ == Map::<Seq<char>, V::V>::empty(),
            r.spec_len() == 0,
    {
        let r = Dictionary { entries: Vec::new() };
        assert(r@ =~= Map::<Seq<char>, V::V>::empty());
        r
    }

    /// A dictionary that differs from `before` in the entry at `at` alone,
    /// which holds `key` with `value`, is `before` with `key` set to
    /// `value`: whether the entry took the place of the one entry that
    /// held `key` before, or is a new entry at the end.
    proof fn lemma_set(before: Self, after: Self, key: Seq<char>, value: V::V, at: int)
        requires
            before.distinct_keys(),
            after.distinct_keys(),
            after.holds_at(key, at),
            after.entries[at].1@ == value,
            at < before.entries.len() ==> before.holds_at(key, at),
            forall|j: int| before.holds_at(key, j) ==> j == at,
            forall|j: int|
                0 <= j < before.entries.len() && j != at ==> j < after.entries.len()
                    && after.entries[j] == before.entries[j],
            after.entries.len() == before.entries.len() || (after.entries.len()
                == before.entries.len() + 1 && at == before.entries.len()),
        ensures
            after@ == before@.insert(key, value),
    {
        assert forall|other: Seq<char>| after@.contains_key(other) == before@.insert(
            key,
            value,
        ).contains_key(other) by {
            if before@.contains_key(other) && other != key {
                let j = choose|j: int| before.holds_at(other, j);
                assert(after.holds_at(other, j));
            }
            if after@.contains_key(other) && other != key {
                let j = choose|j: int| after.holds_at(other, j);
                assert(before.holds_at(other, j));
            }
        }
        assert forall|other: Seq<char>| after@.contains_key(other) implies after@[other]
            == before@.insert(key, value)[other] by {
            let j = choose|j: int| after.holds_at(other, j);
            if other == key {
                assert(j == at);
            } else {
                assert(before.holds_at(other, j));
                let j0 = choose|j0: int| before.holds_at(other, j0);
                assert(after.holds_at(other, j0));
                assert(j0 == j);
            }
        }
        assert(after@ =~= before@.insert(key, value));
    }

    /// Gives `key` the value `value`, whether or not `key` was present.
    pub fn set(&mut self, key: String, value: V)
        ensures
            final(self)@ == old(self)@.insert(key@, value@),
    {
        proof {
            use_type_invariant(&*self);
        }
        let ghost before = *self;
        let ghost k = key@;
        let ghost v = value@;
        let mut taken = Dictionary { entries: Vec::new() };
        core::mem::swap(self, &mut taken);
        let Dictionary { entries: mut entries } = taken;
        let mut i: usize = 0;
        while i < entries.len()
            invariant
                entries == before.entries,
                before == *old(self),
                before.distinct_keys(),
                key@ == k,
                value@ == v,
                i <= entries.len(),
                forall|j: int| 0 <= j < i ==> entries[j].0@ != key@,
            decreases entries.len() - i,
        {
            if entries[i].0 == key {
                entries.set(i, (key, value));
                *self = Dictionary { entries };
                proof {
                    Self::lemma_set(before, *self, k, v, i as int);
                }
                return ;
            }
            i += 1;
        }
        entries.push((key, value));
        *self = Dictionary { entries };
        proof {
            Self::lemma_set(before, *self, k, v, before.entries.len() as int);
        }
    }

    /// The value of `key`, if `key` is present.
    pub fn get(&self, key: &str) -> (r: Option<&V>)
        ensures
            match r {
                Some(value) => self@.contains_key(key@) && self@[key@] == value@,
                None => !self@.contains_key(key@),
            },
    {
        proof {
            use_type_invariant(self);
        }
        let wanted = key.to_owned();
        let mut i: usize = 0;
        while i < self.entries.len()
            invariant
                wanted@ == key@,
                self.distinct_keys(),
                i <= self.entries.len(),
                forall|j: int| 0 <= j < i ==> self.entries[j].0@ != key@,
            decreases self.entries.len() - i,
        {
            if self.entries[i].0 == wanted {
                proof {
                    assert(self.holds_at(key@, i as int));
                    let j = choose|j: int| self.holds_at(key@, j);
                    assert(j == i);
                }
                return Some(&self.entries[i].1);
            }
            i += 1;
        }
        assert(forall|j: int| !self.holds_at(key@, j));
        None
    }

    /// The number of entries. Every key of the dictionary is the key of
    /// exactly one entry below this number.
    pub fn len(&self) -> (r: usize)
        ensures
            r == self.spec_len(),
            forall|key: Seq<char>|
                self@.contains_key(key) <==> exists|i: int|
                    0 <= i < self.spec_len() && #[trigger] self.spec_key_at(i) == key,
            forall|i: int, j: int|
                0 <= i < j < self.spec_len() ==> self.spec_key_at(i) != self.spec_key_at(j),
    {
        proof {
            use_type_invariant(self);
            assert forall|key: Seq<char>| self@.contains_key(key) implies exists|i: int|
                0 <= i < self.spec_len() && #[trigger] self.spec_key_at(i) == key by {
                let j = choose|j: int| self.holds_at(key, j);
                assert(self.spec_key_at(j) == key);
            }
            assert forall|key: Seq<char>|
                (exists|i: int|
                    0 <= i < self.spec_len() && #[trigger] self.spec_key_at(i)
                        == key) implies self@.contains_key(key) by {
                let j = choose|i: int|
                    0 <= i < self.spec_len() && #[trigger] self.spec_key_at(i) == key;
                assert(self.holds_at(key, j));
            }
        }
        self.entries.len()
    }

    /// The key of the entry at `i`.
    pub fn key_at(&self, i: usize) -> (r: &String)
        requires
            i < self.spec_len(),
        ensures
            r@ == self.spec_key_at(i as int),
            self@.contains_key(r@),
    {
        assert(self.holds_at(self.entries[i as int].0@, i as int));
        &self.entries[i].0
    }

    /// The value of the entry at `i`.
    pub fn value_at(&self, i: usize) -> (r: &V)
        requires
            i < self.spec_len(),
        ensures
            r@ == self@[self.spec_key_at(i as int)],
    {
        proof {
            use_type_invariant(self);
            let key = self.entries[i as int].0@;
            assert(self.holds_at(key, i as int));
            let j = choose|j: int| self.holds_at(key, j);
            assert(j == i);
        }
        &self.entries[i].1
    }
}

impl<V: View> View for Dictionary<V> {
    type V = Map<Seq<char>, V::V>;

    closed spec fn view(&self) -> Map<Seq<char>, V::V> {
        Map::new(
            |key: Seq<char>| exists|i: int| self.holds_at(key, i),
            |key: Seq<char>| self.entries[choose|i: int| self.holds_at(key, i)].1@,
        )
    }
}

} // verus!
