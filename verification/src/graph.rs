//! Who is connected to whom: for each peer, the set of its neighbours.

use vstd::prelude::*;

use crate::strset::StringSet;

verus! {

/// The peers of a list of adjacency entries.
pub open spec fn graph_keys(v: Seq<(String, StringSet)>) -> Seq<Seq<char>> {
    v.map_values(|e: (String, StringSet)| e.0@)
}

/// The map a list of adjacency entries with distinct peers stands for.
pub open spec fn graph_map(v: Seq<(String, StringSet)>) -> Map<Seq<char>, Set<Seq<char>>>
    decreases v.len(),
{
    if v.len() == 0 {
        Map::empty()
    } else {
        graph_map(v.drop_last()).insert(v.last().0@, v.last().1.set())
    }
}

proof fn lemma_graph_dom(v: Seq<(String, StringSet)>)
    ensures
        graph_map(v).dom() == graph_keys(v).to_set(),
    decreases v.len(),
{
    if v.len() > 0 {
        lemma_graph_dom(v.drop_last());
        assert(graph_keys(v.drop_last()) =~= graph_keys(v).drop_last());
        assert(graph_keys(v) =~= graph_keys(v.drop_last()).push(v.last().0@));
        broadcast use vstd::seq_lib::group_seq_properties;
    }
    assert(graph_map(v).dom() =~= graph_keys(v).to_set());
}

proof fn lemma_graph_index(v: Seq<(String, StringSet)>, i: int)
    requires
        0 <= i < v.len(),
        graph_keys(v).no_duplicates(),
    ensures
        graph_map(v).contains_key(v[i].0@),
        graph_map(v)[v[i].0@] == v[i].1.set(),
    decreases v.len(),
{
    lemma_graph_dom(v);
    assert(graph_keys(v)[i] == v[i].0@);
    if i < v.len() - 1 {
        assert(graph_keys(v.drop_last()) =~= graph_keys(v).subrange(0, v.len() - 1));
        lemma_graph_index(v.drop_last(), i);
        assert(graph_keys(v)[v.len() - 1] != graph_keys(v)[i]);
    }
}

/// The neighbours of each peer, as far as peers have been recorded.
#[derive(Debug)]
pub struct PeerGraph {
    entries: Vec<(String, StringSet)>,
}

impl View for PeerGraph {
    type V = Map<Seq<char>, Set<Seq<char>>>;

    closed spec fn view(&self) -> Map<Seq<char>, Set<Seq<char>>> {
        graph_map(self.entries@)
    }
}

/// `m` with `b` added to the neighbours of `a`, `a` recorded if it was not.
pub open spec fn graph_link(m: Map<Seq<char>, Set<Seq<char>>>, a: Seq<char>, b: Seq<char>) -> Map<
    Seq<char>,
    Set<Seq<char>>,
> {
    let old_set = if m.contains_key(a) { m[a] } else { Set::empty() };
    m.insert(a, old_set.insert(b))
}

/// `m` with `b` taken from the neighbours of `a`, where `a` is recorded.
pub open spec fn graph_unlink(m: Map<Seq<char>, Set<Seq<char>>>, a: Seq<char>, b: Seq<char>) -> Map<
    Seq<char>,
    Set<Seq<char>>,
> {
    if m.contains_key(a) {
        m.insert(a, m[a].remove(b))
    } else {
        m
    }
}

impl PeerGraph {
    #[verifier::type_invariant]
    spec fn distinct_peers(self) -> bool {
        graph_keys(self.entries@).no_duplicates()
    }

    /// No peer recorded.
    pub fn new() -> (g: Self)
        ensures
            g@ == Map::<Seq<char>, Set<Seq<char>>>::empty(),
    {
        let g = PeerGraph { entries: Vec::new() };
        assert(graph_keys(g.entries@) =~= Seq::<Seq<char>>::empty());
        g
    }

    fn position(&self, key: &String) -> (r: Option<usize>)
        ensures
            match r {
                Some(i) => i < self.entries@.len() && self.entries@[i as int].0@ == key@,
                None => !graph_keys(self.entries@).contains(key@),
            },
    {
        let mut i: usize = 0;
        while i < self.entries.len()
            invariant
                i <= self.entries@.len(),
                forall|j: int| 0 <= j < i ==> self.entries@[j].0@ != key@,
            decreases self.entries@.len() - i,
        {
            if self.entries[i].0 == *key {
                return Some(i);
            }
            i += 1;
        }
        proof {
            if graph_keys(self.entries@).contains(key@) {
                let k = choose|k: int| 0 <= k < graph_keys(self.entries@).len()
                    && graph_keys(self.entries@)[k] == key@;
                assert(self.entries@[k].0@ == key@);
            }
        }
        None
    }

    /// The neighbours recorded for `key`.
    pub fn get(&self, key: &String) -> (r: Option<&StringSet>)
        ensures
            match r {
                Some(s) => self@.contains_key(key@) && self@[key@] == s.set(),
                None => !self@.contains_key(key@),
            },
    {
        proof {
            use_type_invariant(self);
            lemma_graph_dom(self.entries@);
        }
        match self.position(key) {
            Some(i) => {
                proof {
                    lemma_graph_index(self.entries@, i as int);
                }
                Some(&self.entries[i].1)
            },
            None => None,
        }
    }

    /// Removes `key` with its neighbours and hands the neighbours back.
    fn take(&mut self, key: &String) -> (r: Option<StringSet>)
        ensures
            final(self)@ == old(self)@.remove(key@),
            match r {
                Some(s) => old(self)@.contains_key(key@) && old(self)@[key@] == s.set(),
                None => !old(self)@.contains_key(key@),
            },
    {
        proof {
            use_type_invariant(&*self);
            lemma_graph_dom(self.entries@);
        }
        match self.position(key) {
            None => {
                assert(self@.remove(key@) =~= self@);
                None
            },
            Some(i) => {
                let ghost before = self.entries@;
                proof {
                    lemma_graph_index(before, i as int);
                }
                let mut entries: Vec<(String, StringSet)> = Vec::new();
                std::mem::swap(&mut entries, &mut self.entries);
                let (_, set) = entries.remove(i);
                proof {
                    let after = entries@;
                    assert(after =~= before.remove(i as int));
                    assert(graph_keys(after) =~= graph_keys(before).remove(i as int));
                    assert(graph_keys(after).no_duplicates()) by {
                        assert forall|a: int, b: int|
                            0 <= a < b < graph_keys(after).len() implies graph_keys(after)[a]
                            != graph_keys(after)[b]
                        by {
                            let a2 = if a < i { a } else { a + 1 };
                            let b2 = if b < i { b } else { b + 1 };
                            assert(graph_keys(after)[a] == graph_keys(before)[a2]);
                            assert(graph_keys(after)[b] == graph_keys(before)[b2]);
                        }
                    }
                    lemma_graph_dom(after);
                    assert forall|k: Seq<char>| #[trigger] graph_map(after).contains_key(k)
                        implies graph_map(before).contains_key(k) && k != key@
                        && graph_map(after)[k] == graph_map(before)[k]
                    by {
                        assert(graph_keys(after).contains(k));
                        let j = choose|j: int| 0 <= j < graph_keys(after).len() && graph_keys(after)[j] == k;
                        let j2 = if j < i { j } else { j + 1 };
                        assert(after[j] == before[j2]);
                        lemma_graph_index(after, j);
                        lemma_graph_index(before, j2);
                        assert(graph_keys(before)[j2] == k);
                        assert(graph_keys(before)[i as int] == key@);
                    }
                    assert forall|k: Seq<char>| graph_map(before).contains_key(k) && k != key@
                        implies #[trigger] graph_map(after).contains_key(k)
                    by {
                        assert(graph_keys(before).contains(k));
                        let j = choose|j: int| 0 <= j < graph_keys(before).len() && graph_keys(before)[j] == k;
                        assert(j != i);
                        let j2 = if j < i { j } else { j - 1 };
                        assert(graph_keys(after)[j2] == k);
                    }
                    assert(graph_map(after) =~= graph_map(before).remove(key@));
                }
                self.entries = entries;
                Some(set)
            },
        }
    }

    /// Records `set` as the neighbours of `key`, which is not recorded yet.
    fn put(&mut self, key: String, set: StringSet)
        requires
            !old(self)@.contains_key(key@),
        ensures
            final(self)@ == old(self)@.insert(key@, set.set()),
    {
        proof {
            use_type_invariant(&*self);
            lemma_graph_dom(self.entries@);
        }
        let ghost before = self.entries@;
        let ghost kset = set.set();
        let ghost k = key@;
        let mut entries: Vec<(String, StringSet)> = Vec::new();
        std::mem::swap(&mut entries, &mut self.entries);
        entries.push((key, set));
        proof {
            assert(!graph_keys(before).to_set().contains(k));
            assert(!graph_keys(before).contains(k));
            assert(entries@.drop_last() =~= before);
            assert(graph_keys(entries@) =~= graph_keys(before).push(k));
            assert(graph_keys(entries@).no_duplicates()) by {
                assert forall|i: int, j: int|
                    0 <= i < j < graph_keys(entries@).len() implies graph_keys(entries@)[i]
                    != graph_keys(entries@)[j]
                by {
                    assert(graph_keys(before)[i] == graph_keys(entries@)[i]);
                    if j == before.len() {
                        assert(graph_keys(before).contains(graph_keys(before)[i]));
                    } else {
                        assert(graph_keys(before)[j] == graph_keys(entries@)[j]);
                    }
                }
            }
            assert(graph_map(entries@) =~= graph_map(before).insert(k, kset));
        }
        self.entries = entries;
    }

    /// Records `key` with no neighbours, forgetting any it had.
    pub fn reset(&mut self, key: String)
        ensures
            final(self)@ == old(self)@.insert(key@, Set::empty()),
    {
        let _ = self.take(&key);
        let s = StringSet::new();
        proof {
            assert(s.set() =~= Set::<Seq<char>>::empty());
        }
        self.put(key, s);
        proof {
            assert(self@ =~= old(self)@.insert(key@, Set::empty()));
        }
    }

    /// Adds `b` to the neighbours of `a`, recording `a` if needed.
    pub fn link(&mut self, a: String, b: String)
        ensures
            final(self)@ == graph_link(old(self)@, a@, b@),
    {
        let mut s = match self.take(&a) {
            Some(s) => s,
            None => {
                let e = StringSet::new();
                assert(e.set() =~= Set::<Seq<char>>::empty());
                e
            },
        };
        s.insert(b);
        self.put(a, s);
        proof {
            assert(self@ =~= graph_link(old(self)@, a@, b@));
        }
    }

    /// Removes `b` from the neighbours of `a`, where `a` is recorded.
    pub fn unlink(&mut self, a: &String, b: &String)
        ensures
            final(self)@ == graph_unlink(old(self)@, a@, b@),
    {
        match self.take(a) {
            Some(mut s) => {
                s.remove(b);
                self.put(a.clone(), s);
                proof {
                    assert(self@ =~= graph_unlink(old(self)@, a@, b@));
                }
            },
            None => {
                proof {
                    assert(self@ =~= old(self)@);
                }
            },
        }
    }
}

} // verus!
