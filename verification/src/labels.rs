//! The labels of a docker container: a map from label name to value.

use vstd::prelude::*;
use crate::text::str_eq;

verus! {

/// `entries` holds the label `k` at position `i`.
pub open spec fn key_at(entries: Seq<(String, String)>, k: Seq<char>, i: int) -> bool {
    0 <= i < entries.len() && entries[i].0@ == k
}

/// The labels of a container, as the docker daemon reports them.
pub struct ContainerLabels {
    entries: Vec<(String, String)>,
}

impl View for ContainerLabels {
    type V = Map<Seq<char>, Seq<char>>;

    closed spec fn view(&self) -> Map<Seq<char>, Seq<char>> {
        Map::new(
            |k: Seq<char>| exists|i: int| key_at(self.entries@, k, i),
            |k: Seq<char>| self.entries@[choose|i: int| key_at(self.entries@, k, i)].1@,
        )
    }
}

impl ContainerLabels {
    /// No label name occurs twice.
    #[verifier::type_invariant]
    spec fn names_distinct(self) -> bool {
        forall|i: int, j: int|
            0 <= i < self.entries@.len() && 0 <= j < self.entries@.len() && i != j
                ==> #[trigger] self.entries@[i].0@ != #[trigger] self.entries@[j].0@
    }

    proof fn lemma_value_at(self, i: int)
        requires
            self.names_distinct(),
            0 <= i < self.entries@.len(),
        ensures
            self@.contains_key(self.entries@[i].0@),
            self@[self.entries@[i].0@] == self.entries@[i].1@,
    {
        let k = self.entries@[i].0@;
        assert(key_at(self.entries@, k, i));
        let c = choose|c: int| key_at(self.entries@, k, c);
        assert(c == i);
    }

    /// A container without labels.
    pub fn new() -> (res: Self)
        ensures
            res@ == Map::<Seq<char>, Seq<char>>::empty(),
    {
        let res = ContainerLabels { entries: Vec::new() };
        assert(res@ =~= Map::<Seq<char>, Seq<char>>::empty());
        res
    }

    /// The position of the label `key`, if the container has it.
    fn position(&self, key: &str) -> (res: Option<usize>)
        ensures
            match res {
                Some(i) => key_at(self.entries@, key@, i as int),
                None => forall|i: int| !key_at(self.entries@, key@, i),
            },
    {
        let mut i: usize = 0;
        while i < self.entries.len()
            invariant
                i <= self.entries@.len(),
                forall|m: int| 0 <= m < i ==> !key_at(self.entries@, key@, m),
            decreases self.entries@.len() - i,
        {
            if str_eq(self.entries[i].0.as_str(), key) {
                return Some(i);
            }
            i = i + 1;
        }
        None
    }

    /// Sets the label `key` to `value`, replacing any value it had.
    pub fn insert(&mut self, key: String, value: String)
        ensures
            final(self)@ == old(self)@.insert(key@, value@),
    {
        proof {
            use_type_invariant(&*self);
        }
        let ghost old_entries = self.entries@;
        let ghost k = key@;
        let ghost v = value@;
        let pos = self.position(key.as_str());
        let mut entries: Vec<(String, String)> = Vec::new();
        std::mem::swap(&mut entries, &mut self.entries);
        assert(entries@ == old_entries);
        match pos {
            Some(j) => {
                entries.set(j, (key, value));
                let ghost e = entries@;
                assert(e == old_entries.update(j as int, e[j as int]));
                proof {
                    assert forall|a: int, b: int|
                        0 <= a < e.len() && 0 <= b < e.len() && a != b implies #[trigger] e[a].0@
                        != #[trigger] e[b].0@ by {
                        if a != j && b != j {
                            assert(old_entries[a].0@ != old_entries[b].0@);
                        } else if a == j {
                            assert(old_entries[j as int].0@ != old_entries[b].0@);
                        } else {
                            assert(old_entries[a].0@ != old_entries[j as int].0@);
                        }
                    }
                }
            },
            None => {
                entries.push((key, value));
                let ghost e = entries@;
                proof {
                    assert forall|a: int, b: int|
                        0 <= a < e.len() && 0 <= b < e.len() && a != b implies #[trigger] e[a].0@
                        != #[trigger] e[b].0@ by {
                        if a < old_entries.len() && b < old_entries.len() {
                            assert(e[a] == old_entries[a]);
                            assert(e[b] == old_entries[b]);
                        } else if a < old_entries.len() {
                            assert(e[a] == old_entries[a]);
                            assert(!key_at(old_entries, k, a));
                        } else {
                            assert(e[b] == old_entries[b]);
                            assert(!key_at(old_entries, k, b));
                        }
                    }
                }
            },
        }
        self.entries = entries;
        proof {
            use_type_invariant(&*self);
            let old_view = Map::new(
                |kk: Seq<char>| exists|i: int| key_at(old_entries, kk, i),
                |kk: Seq<char>| old_entries[choose|i: int| key_at(old_entries, kk, i)].1@,
            );
            let e = self.entries@;
            assert forall|kk: Seq<char>| #[trigger]
                self@.contains_key(kk) <==> old_view.insert(k, v).contains_key(kk) by {
                if kk != k {
                    if self@.contains_key(kk) {
                        let i = choose|i: int| key_at(e, kk, i);
                        assert(key_at(old_entries, kk, i));
                    }
                    if old_view.contains_key(kk) {
                        let i = choose|i: int| key_at(old_entries, kk, i);
                        assert(key_at(e, kk, i));
                    }
                } else {
                    match pos {
                        Some(j) => assert(key_at(e, k, j as int)),
                        None => assert(key_at(e, k, old_entries.len() as int)),
                    }
                }
            }
            assert forall|kk: Seq<char>| #[trigger] self@.contains_key(kk) implies self@[kk]
                == old_view.insert(k, v)[kk] by {
                let i = choose|i: int| key_at(e, kk, i);
                self.lemma_value_at(i);
                if kk == k {
                    match pos {
                        Some(j) => assert(i == j),
                        None => {
                            if i < old_entries.len() {
                                assert(e[i] == old_entries[i]);
                                assert(key_at(old_entries, k, i));
                            }
                        },
                    }
                } else {
                    assert(key_at(old_entries, kk, i));
                    let c = choose|c: int| key_at(old_entries, kk, c);
                    assert(old_entries[c].0@ == old_entries[i].0@);
                    assert(c == i);
                }
            }
            assert(self@ =~= old_view.insert(k, v));
        }
    }

    /// The value of the label `key`, if the container has it.
    pub fn get(&self, key: &str) -> (res: Option<&String>)
        ensures
            res is Some <==> self@.contains_key(key@),
            res matches Some(v) ==> v@ == self@[key@],
    {
        proof {
            use_type_invariant(self);
        }
        match self.position(key) {
            Some(i) => {
                proof {
                    self.lemma_value_at(i as int);
                }
                Some(&self.entries[i].1)
            },
            None => None,
        }
    }

    /// Whether the container has the label `key`.
    pub fn contains_key(&self, key: &str) -> (res: bool)
        ensures
            res == self@.contains_key(key@),
    {
        self.get(key).is_some()
    }
}

} // verus!
