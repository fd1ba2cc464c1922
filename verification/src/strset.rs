//! A set of strings that remembers the order in which items arrived.

use vstd::prelude::*;

use crate::history::strings_view;

verus! {

/// A duplicate-free list of strings, in insertion order.
#[derive(Debug)]
pub struct StringSet {
    items: Vec<String>,
}

impl View for StringSet {
    type V = Seq<Seq<char>>;

    closed spec fn view(&self) -> Seq<Seq<char>> {
        strings_view(self.items@)
    }
}

impl StringSet {
    #[verifier::type_invariant]
    spec fn unique(self) -> bool {
        strings_view(self.items@).no_duplicates()
    }

    /// The items as a mathematical set.
    pub open spec fn set(&self) -> Set<Seq<char>> {
        self@.to_set()
    }

    /// The empty set.
    pub fn new() -> (s: Self)
        ensures
            s@ == Seq::<Seq<char>>::empty(),
    {
        let s = StringSet { items: Vec::new() };
        assert(s@ =~= Seq::<Seq<char>>::empty());
        s
    }

    /// Index of `x` in the list, if present.
    fn position(&self, x: &String) -> (r: Option<usize>)
        ensures
            match r {
                Some(i) => i < self@.len() && self@[i as int] == x@,
                None => !self@.contains(x@),
            },
    {
        let mut i: usize = 0;
        while i < self.items.len()
            invariant
                i <= self.items@.len(),
                self@ == strings_view(self.items@),
                forall|j: int| 0 <= j < i ==> self@[j] != x@,
            decreases self.items@.len() - i,
        {
            if self.items[i] == *x {
                return Some(i);
            }
            i += 1;
        }
        None
    }

    /// Whether `x` is in the set.
    pub fn contains(&self, x: &String) -> (r: bool)
        ensures
            r == self@.contains(x@),
    {
        self.position(x).is_some()
    }

    /// Number of items.
    pub fn len(&self) -> (n: usize)
        ensures
            n == self@.len(),
            n == self.set().len(),
            self@.no_duplicates(),
    {
        proof {
            use_type_invariant(self);
            self@.unique_seq_to_set();
        }
        self.items.len()
    }

    /// Adds `x` at the end unless already present; returns whether it was added.
    pub fn insert(&mut self, x: String) -> (added: bool)
        ensures
            added == !old(self)@.contains(x@),
            final(self)@ == if added { old(self)@.push(x@) } else { old(self)@ },
            final(self).set() == old(self).set().insert(x@),
    {
        proof {
            use_type_invariant(&*self);
        }
        if self.contains(&x) {
            proof {
                assert(self.set().insert(x@) =~= self.set());
            }
            false
        } else {
            let ghost before = self@;
            let mut items: Vec<String> = Vec::new();
                std::mem::swap(&mut items, &mut self.items);
            items.push(x);
            proof {
                assert(strings_view(items@) =~= before.push(x@));
                assert(before.push(x@).no_duplicates()) by {
                    assert forall|i: int, j: int|
                        0 <= i < j < before.push(x@).len() implies before.push(x@)[i] != before.push(x@)[j]
                    by {
                        if j == before.len() {
                            assert(before[i] == before.push(x@)[i]);
                        }
                    }
                }
                assert(before.push(x@).to_set() =~= before.to_set().insert(x@)) by {
                    broadcast use vstd::seq_lib::group_seq_properties;
                }
            }
            self.items = items;
            true
        }
    }

    /// Removes `x` if present, keeping the order of the rest; returns whether
    /// it was present.
    pub fn remove(&mut self, x: &String) -> (removed: bool)
        ensures
            removed == old(self)@.contains(x@),
            removed ==> exists|i: int|
                0 <= i < old(self)@.len() && old(self)@[i] == x@ && final(self)@ == old(self)@.remove(i),
            !removed ==> final(self)@ == old(self)@,
            final(self).set() == old(self).set().remove(x@),
    {
        proof {
            use_type_invariant(&*self);
        }
        match self.position(x) {
            None => {
                proof {
                    assert(self.set().remove(x@) =~= self.set());
                }
                false
            },
            Some(i) => {
                let ghost before = self@;
                let mut items: Vec<String> = Vec::new();
                std::mem::swap(&mut items, &mut self.items);
                let _ = items.remove(i);
                proof {
                    assert(strings_view(items@) =~= before.remove(i as int));
                    before.remove_ensures(i as int);
                    assert(before.remove(i as int).no_duplicates()) by {
                        assert forall|a: int, b: int|
                            0 <= a < b < before.remove(i as int).len() implies
                            before.remove(i as int)[a] != before.remove(i as int)[b]
                        by {
                            let a2 = if a < i { a } else { a + 1 };
                            let b2 = if b < i { b } else { b + 1 };
                            assert(before.remove(i as int)[a] == before[a2]);
                            assert(before.remove(i as int)[b] == before[b2]);
                        }
                    }
                    assert(before.remove(i as int).to_set() =~= before.to_set().remove(x@)) by {
                        assert forall|y: Seq<char>| before.remove(i as int).to_set().contains(y)
                            <==> before.to_set().remove(x@).contains(y)
                        by {
                            if before.remove(i as int).contains(y) {
                                let k = choose|k: int| 0 <= k < before.remove(i as int).len()
                                    && before.remove(i as int)[k] == y;
                                let k2 = if k < i { k } else { k + 1 };
                                assert(before[k2] == y);
                                assert(k2 != i);
                            }
                            if before.contains(y) && y != x@ {
                                let k = choose|k: int| 0 <= k < before.len() && before[k] == y;
                                assert(k != i);
                                let k2 = if k < i { k } else { k - 1 };
                                assert(before.remove(i as int)[k2] == y);
                            }
                        }
                    }
                }
                self.items = items;
                true
            },
        }
    }

    /// The items, in insertion order.
    pub fn items(&self) -> (r: &Vec<String>)
        ensures
            strings_view(r@) == self@,
    {
        &self.items
    }

    /// A copy of the set.
    pub fn duplicate(&self) -> (r: Self)
        ensures
            r@ == self@,
    {
        proof {
            use_type_invariant(self);
        }
        let mut r = StringSet::new();
        let mut i: usize = 0;
        while i < self.items.len()
            invariant
                i <= self.items@.len(),
                self@ == strings_view(self.items@),
                self@.no_duplicates(),
                r@ == self@.subrange(0, i as int),
            decreases self.items@.len() - i,
        {
            proof {
                assert(!r@.contains(self@[i as int])) by {
                    if r@.contains(self@[i as int]) {
                        let k = choose|k: int| 0 <= k < r@.len() && r@[k] == self@[i as int];
                        assert(self@[k] == self@[i as int]);
                    }
                }
            }
            r.insert(self.items[i].clone());
            proof {
                assert(r@ =~= self@.subrange(0, i + 1));
            }
            i += 1;
        }
        proof {
            assert(self@.subrange(0, self@.len() as int) =~= self@);
        }
        r
    }

    /// The set of the given strings, each kept once, in order of first
    /// appearance.
    pub fn from_strings(v: Vec<String>) -> (r: Self)
        ensures
            r.set() == strings_view(v@).to_set(),
    {
        let mut r = StringSet::new();
        let mut i: usize = 0;
        while i < v.len()
            invariant
                i <= v@.len(),
                r.set() == strings_view(v@.subrange(0, i as int)).to_set(),
            decreases v@.len() - i,
        {
            r.insert(v[i].clone());
            proof {
                assert(strings_view(v@.subrange(0, i + 1)) =~= strings_view(v@.subrange(0, i as int)).push(
                    v@[i as int]@,
                ));
                broadcast use vstd::seq_lib::group_seq_properties;
            }
            i += 1;
        }
        proof {
            assert(v@.subrange(0, v@.len() as int) =~= v@);
        }
        r
    }
}

} // verus!
