//! A map from texts to values that is walked in the lexicographic order of its
//! keys.
use vstd::prelude::*;

use crate::text::{same_text, text_precedes};

verus! {

/// Values by text, each key once, kept in lexicographic key order.
pub struct TextMap<V> {
    entries: Vec<(String, V)>,
}

impl<V: View> View for TextMap<V> {
    type V = Map<Seq<char>, V::V>;

    closed spec fn view(&self) -> Map<Seq<char>, V::V> {
        Map::new(
            |k: Seq<char>| exists|i: int| 0 <= i < self.entries@.len() && self.key(i) == k,
            |k: Seq<char>| self.entries@[self.position(k)].1@,
        )
    }
}

impl<V> TextMap<V> {
    spec fn key(&self, i: int) -> Seq<char> {
        self.entries@[i].0@
    }

    spec fn position(&self, k: Seq<char>) -> int {
        choose|i: int| 0 <= i < self.entries@.len() && self.key(i) == k
    }

    /// The keys in the order in which the map is walked.
    pub closed spec fn keys(&self) -> Seq<Seq<char>> {
        Seq::new(self.entries@.len(), |i: int| self.key(i))
    }

    /// The keys stand in strictly increasing order.
    pub open spec fn wf(&self) -> bool {
        forall|i: int, j: int|
            0 <= i < j < self.keys().len() ==> crate::text::precedes(
                #[trigger] self.keys()[i],
                #[trigger] self.keys()[j],
            )
    }
}

impl<V: View> TextMap<V> {
    proof fn position_of_key(&self, i: int)
        requires
            self.wf(),
            0 <= i < self.entries@.len(),
        ensures
            self.position(self.key(i)) == i,
            self@.dom().contains(self.key(i)),
            self@[self.key(i)] == self.entries@[i].1@,
    {
        let j = self.position(self.key(i));
        assert(0 <= j < self.entries@.len() && self.key(j) == self.key(i));
        assert(self.keys()[i] == self.keys()[j]);
        crate::text::precedes_is_irreflexive(self.key(i));
        if i < j {
            assert(crate::text::precedes(self.keys()[i], self.keys()[j]));
        } else if j < i {
            assert(crate::text::precedes(self.keys()[j], self.keys()[i]));
        }
    }

    /// The walk visits exactly the keys of the map.
    pub proof fn keys_are_the_domain(&self)
        ensures
            forall|k: Seq<char>| self@.dom().contains(k) <==> #[trigger] self.keys().contains(k),
    {
        assert forall|k: Seq<char>| self@.dom().contains(k) <==> #[trigger] self.keys().contains(
            k,
        ) by {
            if self@.dom().contains(k) {
                let i = self.position(k);
                assert(self.keys()[i] == k);
            }
            if self.keys().contains(k) {
                let i = choose|i: int| 0 <= i < self.keys().len() && self.keys()[i] == k;
                assert(self.key(i) == k);
            }
        }
    }

    /// A map without entries.
    pub fn new() -> (map: Self)
        ensures
            map.wf(),
            map@ == Map::<Seq<char>, V::V>::empty(),
            map.keys().len() == 0,
    {
        let map = TextMap { entries: Vec::new() };
        assert(map@ =~= Map::<Seq<char>, V::V>::empty());
        map
    }

    /// How many keys the map has.
    pub fn len(&self) -> (n: usize)
        ensures
            n == self.keys().len(),
    {
        self.entries.len()
    }

    /// The key at a position of the walk.
    pub fn key_at(&self, i: usize) -> (key: &String)
        requires
            i < self.keys().len(),
        ensures
            key@ == self.keys()[i as int],
    {
        &self.entries[i].0
    }

    /// The value at a position of the walk.
    pub fn value_at(&self, i: usize) -> (value: &V)
        requires
            self.wf(),
            i < self.keys().len(),
        ensures
            self@.dom().contains(self.keys()[i as int]),
            value@ == self@[self.keys()[i as int]],
    {
        proof {
            self.position_of_key(i as int);
        }
        &self.entries[i].1
    }

    /// The value of a key, if the map has it.
    pub fn get(&self, key: &str) -> (value: Option<&V>)
        requires
            self.wf(),
        ensures
            value is Some <==> self@.dom().contains(key@),
            value matches Some(v) ==> v@ == self@[key@],
    {
        let mut i: usize = 0;
        while i < self.entries.len()
            invariant
                i <= self.entries@.len(),
                self.wf(),
                forall|j: int| 0 <= j < i ==> #[trigger] self.key(j) != key@,
            decreases self.entries@.len() - i,
        {
            if same_text(self.entries[i].0.as_str(), key) {
                proof {
                    self.position_of_key(i as int);
                }
                return Some(&self.entries[i].1);
            }
            assert(self.key(i as int) != key@);
            i += 1;
        }
        None
    }

    /// Gives `key` the value `value`, whether or not it had one.
    pub fn insert(&mut self, key: String, value: V)
        requires
            old(self).wf(),
        ensures
            final(self).wf(),
            final(self)@ == old(self)@.insert(key@, value@),
    {
        let mut i: usize = 0;
        while i < self.entries.len() && text_precedes(self.entries[i].0.as_str(), key.as_str())
            invariant
                i <= self.entries@.len(),
                *self == *old(self),
                self.wf(),
                forall|j: int| 0 <= j < i ==> crate::text::precedes(#[trigger] self.key(j), key@),
            decreases self.entries@.len() - i,
        {
            assert(crate::text::precedes(self.key(i as int), key@));
            i += 1;
        }
        let ghost k = key@;
        let ghost v = value@;
        let ghost before = *self;
        if i < self.entries.len() && same_text(self.entries[i].0.as_str(), key.as_str()) {
            self.entries.set(i, (key, value));
            proof {
                assert(self.keys() =~= before.keys());
                self.replaced_entry(before, i as int, k, v);
            }
        } else {
            self.entries.insert(i, (key, value));
            proof {
                assert(self.keys() =~= before.keys().insert(i as int, k));
                assert forall|a: int, b: int| 0 <= a < b < self.keys().len() implies crate::text::precedes(
                    #[trigger] self.keys()[a],
                    #[trigger] self.keys()[b],
                ) by {
                    if a == i {
                        assert(self.keys()[b] == before.keys()[b - 1]);
                        assert(before.keys()[i as int] == before.key(i as int));
                        if b - 1 > i {
                            assert(crate::text::precedes(before.keys()[i as int], before.keys()[b - 1]));
                            crate::text::precedes_is_transitive(
                                k,
                                before.keys()[i as int],
                                before.keys()[b - 1],
                            );
                        }
                    } else if b == i {
                        assert(self.keys()[a] == before.key(a));
                    } else {
                        let x = if a < i {
                            a
                        } else {
                            a - 1
                        };
                        let y = if b < i {
                            b
                        } else {
                            b - 1
                        };
                        assert(self.keys()[a] == before.keys()[x]);
                        assert(self.keys()[b] == before.keys()[y]);
                    }
                }
                self.inserted_entry(before, i as int, k, v);
            }
        }
    }

    proof fn replaced_entry(&self, before: Self, at: int, k: Seq<char>, v: V::V)
        requires
            self.wf(),
            before.wf(),
            0 <= at < before.entries@.len(),
            before.key(at) == k,
            self.entries@ == before.entries@.update(at, self.entries@[at]),
            self.key(at) == k,
            self.entries@[at].1@ == v,
        ensures
            self@ == before@.insert(k, v),
    {
        assert forall|key: Seq<char>| self@.dom().contains(key) <==> before@.insert(
            k,
            v,
        ).dom().contains(key) by {
            if self@.dom().contains(key) {
                let i = self.position(key);
                if i != at {
                    before.position_of_key(i);
                    assert(before.key(i) == key);
                }
            }
            if before@.dom().contains(key) {
                let i = before.position(key);
                assert(self.key(i) == key);
            }
            if key == k {
                self.position_of_key(at);
            }
        }
        assert forall|key: Seq<char>| self@.dom().contains(key) implies self@[key]
            == before@.insert(k, v)[key] by {
            let i = self.position(key);
            self.position_of_key(i);
            if i != at {
                before.position_of_key(i);
                assert(before.key(i) == key);
                if key == k {
                    self.position_of_key(at);
                }
            }
        }
        assert(self@ =~= before@.insert(k, v));
    }

    proof fn inserted_entry(&self, before: Self, at: int, k: Seq<char>, v: V::V)
        requires
            self.wf(),
            before.wf(),
            0 <= at <= before.entries@.len(),
            self.entries@ == before.entries@.insert(at, self.entries@[at]),
            self.key(at) == k,
            self.entries@[at].1@ == v,
        ensures
            self@ == before@.insert(k, v),
    {
        assert forall|key: Seq<char>| self@.dom().contains(key) <==> before@.insert(
            k,
            v,
        ).dom().contains(key) by {
            if self@.dom().contains(key) {
                let i = self.position(key);
                if i < at {
                    before.position_of_key(i);
                    assert(before.key(i) == key);
                } else if i > at {
                    before.position_of_key(i - 1);
                    assert(before.key(i - 1) == key);
                }
            }
            if before@.dom().contains(key) {
                let i = before.position(key);
                if i < at {
                    assert(self.key(i) == key);
                } else {
                    assert(self.key(i + 1) == key);
                }
            }
            if key == k {
                self.position_of_key(at);
            }
        }
        assert forall|key: Seq<char>| self@.dom().contains(key) implies self@[key]
            == before@.insert(k, v)[key] by {
            let i = self.position(key);
            self.position_of_key(i);
            if i != at {
                if key == k {
                    self.position_of_key(at);
                }
                if i < at {
                    before.position_of_key(i);
                    assert(before.key(i) == key);
                } else {
                    before.position_of_key(i - 1);
                    assert(before.key(i - 1) == key);
                }
            }
        }
        assert(self@ =~= before@.insert(k, v));
    }

    /// Takes the key at a position of the walk out of the map.
    pub fn remove_at(&mut self, i: usize)
        requires
            old(self).wf(),
            i < old(self).keys().len(),
        ensures
            final(self).wf(),
            final(self).keys() == old(self).keys().remove(i as int),
            final(self)@ == old(self)@.remove(old(self).keys()[i as int]),
    {
        let ghost before = *self;
        let _ = self.entries.remove(i);
        proof {
            let at = i as int;
            let k = before.keys()[at];
            assert(self.keys() =~= before.keys().remove(at));
            assert forall|a: int, b: int| 0 <= a < b < self.keys().len() implies crate::text::precedes(
                #[trigger] self.keys()[a],
                #[trigger] self.keys()[b],
            ) by {
                let x = if a < at {
                    a
                } else {
                    a + 1
                };
                let y = if b < at {
                    b
                } else {
                    b + 1
                };
                assert(self.keys()[a] == before.keys()[x]);
                assert(self.keys()[b] == before.keys()[y]);
            }
            before.position_of_key(at);
            assert forall|key: Seq<char>| self@.dom().contains(key) <==> before@.remove(
                k,
            ).dom().contains(key) by {
                if self@.dom().contains(key) {
                    let j = self.position(key);
                    let x = if j < at {
                        j
                    } else {
                        j + 1
                    };
                    assert(before.key(x) == key);
                    before.position_of_key(x);
                }
                if before@.remove(k).dom().contains(key) {
                    let x = before.position(key);
                    before.position_of_key(x);
                    let j = if x < at {
                        x
                    } else {
                        x - 1
                    };
                    assert(self.key(j) == key);
                }
            }
            assert forall|key: Seq<char>| self@.dom().contains(key) implies self@[key]
                == before@.remove(k)[key] by {
                let j = self.position(key);
                self.position_of_key(j);
                let x = if j < at {
                    j
                } else {
                    j + 1
                };
                assert(before.key(x) == key);
                before.position_of_key(x);
            }
            assert(self@ =~= before@.remove(k));
        }
    }
}

} // verus!
