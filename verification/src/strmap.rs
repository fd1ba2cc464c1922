//! A map from strings to strings, as a list of entries with distinct keys.

use vstd::prelude::*;

verus! {

/// The keys of a list of entries.
pub open spec fn entry_keys(v: Seq<(String, String)>) -> Seq<Seq<char>> {
    v.map_values(|e: (String, String)| e.0@)
}

/// The map a list of entries with distinct keys stands for.
pub open spec fn entries_map(v: Seq<(String, String)>) -> Map<Seq<char>, Seq<char>>
    decreases v.len(),
{
    if v.len() == 0 {
        Map::empty()
    } else {
        entries_map(v.drop_last()).insert(v.last().0@, v.last().1@)
    }
}

proof fn lemma_entries_map_dom(v: Seq<(String, String)>)
    ensures
        entries_map(v).dom() == entry_keys(v).to_set(),
    decreases v.len(),
{
    if v.len() > 0 {
        lemma_entries_map_dom(v.drop_last());
        assert(entry_keys(v.drop_last()) =~= entry_keys(v).drop_last());
        assert(entry_keys(v) =~= entry_keys(v.drop_last()).push(v.last().0@));
        broadcast use vstd::seq_lib::group_seq_properties;
    }
    assert(entries_map(v).dom() =~= entry_keys(v).to_set());
}

proof fn lemma_entries_map_index(v: Seq<(String, String)>, i: int)
    requires
        0 <= i < v.len(),
        entry_keys(v).no_duplicates(),
    ensures
        entries_map(v).contains_key(v[i].0@),
        entries_map(v)[v[i].0@] == v[i].1@,
    decreases v.len(),
{
    lemma_entries_map_dom(v);
    assert(entry_keys(v)[i] == v[i].0@);
    if i < v.len() - 1 {
        assert(entry_keys(v.drop_last()) =~= entry_keys(v).subrange(0, v.len() - 1));
        lemma_entries_map_index(v.drop_last(), i);
        assert(entry_keys(v)[v.len() - 1] != entry_keys(v)[i]);
    }
}

/// A map from strings to strings.
#[derive(Debug)]
pub struct StringMap {
    entries: Vec<(String, String)>,
}

impl View for StringMap {
    type V = Map<Seq<char>, Seq<char>>;

    closed spec fn view(&self) -> Map<Seq<char>, Seq<char>> {
        entries_map(self.entries@)
    }
}

impl StringMap {
    #[verifier::type_invariant]
    spec fn distinct_keys(self) -> bool {
        entry_keys(self.entries@).no_duplicates()
    }

    /// The empty map.
    pub fn new() -> (m: Self)
        ensures
            m@ == Map::<Seq<char>, Seq<char>>::empty(),
    {
        let m = StringMap { entries: Vec::new() };
        assert(entry_keys(m.entries@) =~= Seq::<Seq<char>>::empty());
        m
    }

    fn position(&self, key: &String) -> (r: Option<usize>)
        ensures
            match r {
                Some(i) => i < self.entries@.len() && self.entries@[i as int].0@ == key@,
                None => !entry_keys(self.entries@).contains(key@),
            },
    {
        let mut i: usize = 0;
        while i < self.entries.len()
            invariant
                i <= self.entries@.len(),
                forall|j: int| 0 <= j < i ==> self.entries@[j].0@ != key@,
            decreases self.entries@.len() - i,
        {
            if self.entries[i].0 == *key {
                return Some(i);
            }
            i += 1;
        }
        proof {
            if entry_keys(self.entries@).contains(key@) {
                let k = choose|k: int| 0 <= k < entry_keys(self.entries@).len()
                    && entry_keys(self.entries@)[k] == key@;
                assert(self.entries@[k].0@ == key@);
            }
        }
        None
    }

    /// The value stored for `key`.
    pub fn get(&self, key: &String) -> (r: Option<String>)
        ensures
            match r {
                Some(v) => self@.contains_key(key@) && self@[key@] == v@,
                None => !self@.contains_key(key@),
            },
    {
        proof {
            use_type_invariant(self);
            lemma_entries_map_dom(self.entries@);
        }
        match self.position(key) {
            Some(i) => {
                proof {
                    lemma_entries_map_index(self.entries@, i as int);
                }
                Some(self.entries[i].1.clone())
            },
            None => None,
        }
    }

    /// Whether `key` has a value.
    pub fn contains_key(&self, key: &String) -> (r: bool)
        ensures
            r == self@.contains_key(key@),
    {
        self.get(key).is_some()
    }

    /// Number of keys.
    pub fn len(&self) -> (n: usize)
        ensures
            n == self@.dom().len(),
    {
        proof {
            use_type_invariant(self);
            lemma_entries_map_dom(self.entries@);
            entry_keys(self.entries@).unique_seq_to_set();
        }
        self.entries.len()
    }

    /// Sets the value of `key`, replacing any earlier value.
    pub fn insert(&mut self, key: String, value: String)
        ensures
            final(self)@ == old(self)@.insert(key@, value@),
    {
        proof {
            use_type_invariant(&*self);
        }
        let ghost m0 = self@;
        self.remove(&key);
        proof {
            use_type_invariant(&*self);
        }
        let ghost before = self.entries@;
        let mut entries: Vec<(String, String)> = Vec::new();
        std::mem::swap(&mut entries, &mut self.entries);
        let ghost kv = (key, value);
        entries.push((key, value));
        proof {
            lemma_entries_map_dom(before);
            assert(!entries_map(before).contains_key(key@));
            assert(!entry_keys(before).to_set().contains(key@));
            assert(!entry_keys(before).contains(key@));
            assert(entries@.drop_last() =~= before);
            assert(entry_keys(entries@) =~= entry_keys(before).push(key@));
            assert(entry_keys(entries@).no_duplicates()) by {
                assert forall|i: int, j: int|
                    0 <= i < j < entry_keys(entries@).len() implies entry_keys(entries@)[i]
                    != entry_keys(entries@)[j]
                by {
                    if j == before.len() {
                        assert(entry_keys(before)[i] == entry_keys(entries@)[i]);
                        assert(entry_keys(entries@)[j] == key@);
                        assert(entry_keys(before).contains(entry_keys(before)[i]));
                    } else {
                        assert(entry_keys(before)[i] == entry_keys(entries@)[i]);
                        assert(entry_keys(before)[j] == entry_keys(entries@)[j]);
                    }
                }
            }
            assert(entries_map(entries@) =~= m0.insert(key@, value@));
        }
        self.entries = entries;
    }

    /// Removes `key` and its value.
    pub fn remove(&mut self, key: &String)
        ensures
            final(self)@ == old(self)@.remove(key@),
    {
        proof {
            use_type_invariant(&*self);
            lemma_entries_map_dom(self.entries@);
        }
        match self.position(key) {
            None => {
                assert(self@.remove(key@) =~= self@);
            },
            Some(i) => {
                let ghost before = self.entries@;
                let mut entries: Vec<(String, String)> = Vec::new();
                std::mem::swap(&mut entries, &mut self.entries);
                let _ = entries.remove(i);
                proof {
                    let after = entries@;
                    assert(after =~= before.remove(i as int));
                    assert(entry_keys(after) =~= entry_keys(before).remove(i as int));
                    assert(entry_keys(after).no_duplicates()) by {
                        assert forall|a: int, b: int|
                            0 <= a < b < entry_keys(after).len() implies entry_keys(after)[a]
                            != entry_keys(after)[b]
                        by {
                            let a2 = if a < i { a } else { a + 1 };
                            let b2 = if b < i { b } else { b + 1 };
                            assert(entry_keys(after)[a] == entry_keys(before)[a2]);
                            assert(entry_keys(after)[b] == entry_keys(before)[b2]);
                        }
                    }
                    lemma_entries_map_dom(after);
                    assert forall|k: Seq<char>| #[trigger] entries_map(after).contains_key(k)
                        implies entries_map(before).contains_key(k) && k != key@
                        && entries_map(after)[k] == entries_map(before)[k]
                    by {
                        assert(entry_keys(after).contains(k));
                        let j = choose|j: int| 0 <= j < entry_keys(after).len() && entry_keys(after)[j] == k;
                        let j2 = if j < i { j } else { j + 1 };
                        assert(after[j] == before[j2]);
                        lemma_entries_map_index(after, j);
                        lemma_entries_map_index(before, j2);
                        assert(entry_keys(before)[j2] == k);
                        assert(entry_keys(before)[i as int] == key@);
                    }
                    assert forall|k: Seq<char>| entries_map(before).contains_key(k) && k != key@
                        implies #[trigger] entries_map(after).contains_key(k)
                    by {
                        assert(entry_keys(before).contains(k));
                        let j = choose|j: int| 0 <= j < entry_keys(before).len() && entry_keys(before)[j] == k;
                        assert(j != i);
                        let j2 = if j < i { j } else { j - 1 };
                        assert(entry_keys(after)[j2] == k);
                    }
                    assert(entries_map(after) =~= entries_map(before).remove(key@));
                }
                self.entries = entries;
            },
        }
    }
}

} // verus!
