//! Ordered sets of peers, kept in an `indexmap::IndexSet`.

use indexmap::IndexSet;
use std::hash::RandomState;

use vstd::prelude::*;

use crate::history::strings_view;

verus! {

#[verifier::external_type_specification]
#[verifier::external_body]
#[verifier::reject_recursive_types(T)]
#[verifier::reject_recursive_types(S)]
pub struct ExIndexSet<T, S>(IndexSet<T, S>);

/// The peers an ordered set holds, in their positions.
pub uninterp spec fn index_set_items(s: IndexSet<String, RandomState>) -> Seq<Seq<char>>;

/// An empty set, by `IndexSet::default`.
#[verifier::external_body]
pub(crate) fn peer_set_new() -> (s: IndexSet<String, RandomState>)
    ensures
        index_set_items(s) == Seq::<Seq<char>>::empty(),
        index_set_items(s).no_duplicates(),
{
    IndexSet::default()
}

/// Number of peers held, by `IndexSet::len`.
#[verifier::external_body]
pub(crate) fn peer_set_len(s: &IndexSet<String, RandomState>) -> (n: usize)
    ensures
        n == index_set_items(*s).len(),
{
    s.len()
}

/// Whether `p` is held, by `IndexSet::contains`.
#[verifier::external_body]
pub(crate) fn peer_set_contains(s: &IndexSet<String, RandomState>, p: &String) -> (b: bool)
    ensures
        b == index_set_items(*s).contains(p@),
{
    s.contains(p)
}

/// The peer at position `i`, cloned, by `IndexSet::get_index`.
#[verifier::external_body]
pub(crate) fn peer_set_get(s: &IndexSet<String, RandomState>, i: usize) -> (r: Option<String>)
    ensures
        match r {
            Some(p) => i < index_set_items(*s).len() && p@ == index_set_items(*s)[i as int],
            None => i >= index_set_items(*s).len(),
        },
{
    s.get_index(i).cloned()
}

/// Adds `p` at the end unless an equal peer is held, by `IndexSet::insert`;
/// the set holds each peer once, `p` among them.
#[verifier::external_body]
pub(crate) fn peer_set_insert(s: &mut IndexSet<String, RandomState>, p: String) -> (added: bool)
    ensures
        added == !index_set_items(*old(s)).contains(p@),
        index_set_items(*final(s)) == if added {
            index_set_items(*old(s)).push(p@)
        } else {
            index_set_items(*old(s))
        },
        index_set_items(*final(s)).no_duplicates(),
        index_set_items(*final(s)).contains(p@),
{
    s.insert(p)
}

/// Removes `p` by moving the last peer into its position, by
/// `IndexSet::swap_remove`; the set holds each peer once, and no longer `p`.
#[verifier::external_body]
pub(crate) fn peer_set_swap_remove(s: &mut IndexSet<String, RandomState>, p: &String) -> (removed: bool)
    ensures
        removed == index_set_items(*old(s)).contains(p@),
        removed ==> exists|i: int|
            0 <= i < index_set_items(*old(s)).len() && index_set_items(*old(s))[i] == p@
                && index_set_items(*final(s)) == index_set_items(*old(s)).update(
                i,
                index_set_items(*old(s)).last(),
            ).drop_last(),
        !removed ==> index_set_items(*final(s)) == index_set_items(*old(s)),
        index_set_items(*final(s)).no_duplicates(),
        !index_set_items(*final(s)).contains(p@),
{
    s.swap_remove(p)
}

/// The peers of a set, in order.
pub fn peer_set_items(s: &IndexSet<String, RandomState>) -> (v: Vec<String>)
    ensures
        strings_view(v@) == index_set_items(*s),
{
    let n = peer_set_len(s);
    let mut v: Vec<String> = Vec::new();
    let mut i: usize = 0;
    while i < n
        invariant
            n == index_set_items(*s).len(),
            i <= n,
            strings_view(v@) == index_set_items(*s).subrange(0, i as int),
        decreases n - i,
    {
        let ghost v0 = v@;
        match peer_set_get(s, i) {
            Some(p) => {
                let ghost pv = p@;
                assert(strings_view(v0).len() == v0.len());
                assert(v0.len() == i);
                assert(pv == index_set_items(*s)[i as int]);
                v.push(p);
                proof {
                    assert(v@.len() == v0.len() + 1);
                    assert(v@[i as int]@ == pv);
                    assert(strings_view(v@)[i as int] == pv);
                    assert(strings_view(v0) =~= index_set_items(*s).subrange(0, i as int));
                    assert(strings_view(v@) =~= index_set_items(*s).subrange(0, i + 1));
                }
            },
            None => {},
        }
        i += 1;
    }
    proof {
        assert(index_set_items(*s).subrange(0, n as int) =~= index_set_items(*s));
    }
    v
}

} // verus!
