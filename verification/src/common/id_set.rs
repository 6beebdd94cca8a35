//! Sets of identifiers, held in std's `HashSet`.
use vstd::prelude::*;

use std::collections::HashSet;
use vstd::std_specs::hash::spec_hash_keys_iter;
use vstd::std_specs::iter::IteratorSpec;

verus! {

broadcast use vstd::std_specs::hash::group_hash_axioms;

/// Adds every id of `other` to `set`.
pub fn extend_ids(set: &mut HashSet<u128>, other: &HashSet<u128>)
    ensures
        final(set)@ == old(set)@.union(other@),
{
    let ghost base = set@;
    let ghost keys = spec_hash_keys_iter(other).remaining().unref();
    proof {
        assert(keys.to_set() == other@);
    }
    for x in it: other.iter()
        invariant
            it.seq().unref() == keys,
            keys.to_set() == other@,
            forall|k: u128| #[trigger] set@.contains(k) <==> (base.contains(k) || exists|j: int|
                0 <= j < it.index() && keys[j] == k),
    {
        set.insert(*x);
    }
    proof {
        assert forall|k: u128| #[trigger] set@.contains(k) <==> base.union(other@).contains(k) by {
            if other@.contains(k) {
                assert(keys.to_set().contains(k));
                let j = choose|j: int| 0 <= j < keys.len() && keys[j] == k;
            }
            if exists|j: int| 0 <= j < keys.len() && keys[j] == k {
                let j = choose|j: int| 0 <= j < keys.len() && keys[j] == k;
                assert(keys.to_set().contains(k));
            }
        }
        assert(set@ =~= base.union(other@));
    }
}


/// Removes from `set` every id that `other` holds.
pub fn remove_ids(set: &mut HashSet<u128>, other: &HashSet<u128>)
    ensures
        final(set)@ == old(set)@.difference(other@),
{
    let ghost base = set@;
    let ghost keys = spec_hash_keys_iter(other).remaining().unref();
    proof {
        assert(keys.to_set() == other@);
    }
    for x in it: other.iter()
        invariant
            it.seq().unref() == keys,
            keys.to_set() == other@,
            forall|k: u128| #[trigger] set@.contains(k) <==> (base.contains(k) && !exists|j: int|
                0 <= j < it.index() && keys[j] == k),
    {
        set.remove(x);
    }
    proof {
        assert forall|k: u128| #[trigger] set@.contains(k) <==> base.difference(other@).contains(k) by {
            if other@.contains(k) {
                assert(keys.to_set().contains(k));
                let j = choose|j: int| 0 <= j < keys.len() && keys[j] == k;
            }
            if exists|j: int| 0 <= j < keys.len() && keys[j] == k {
                let j = choose|j: int| 0 <= j < keys.len() && keys[j] == k;
                assert(keys.to_set().contains(k));
            }
        }
        assert(set@ =~= base.difference(other@));
    }
}


/// Appends the ids of `set` to `out`, in the set's iteration order: what
/// `out` held stays in front, and each id of the set follows exactly once.
pub fn collect_ids(set: &HashSet<u128>, out: &mut Vec<u128>)
    ensures
        final(out)@.len() == old(out)@.len() + set@.len(),
        final(out)@.take(old(out)@.len() as int) == old(out)@,
        final(out)@.skip(old(out)@.len() as int).to_set() == set@,
        final(out)@.skip(old(out)@.len() as int).no_duplicates(),
{
    let ghost keys = spec_hash_keys_iter(set).remaining().unref();
    let ghost start = out@;
    proof {
        assert(keys.to_set() == set@);
        assert(keys.no_duplicates());
        assert(keys.len() == set@.len());
    }
    for x in it: set.iter()
        invariant
            it.seq().unref() == keys,
            keys.to_set() == set@,
            out@ == start + keys.take(it.index()),
    {
        proof {
            assert(keys.take(it.index() + 1) =~= keys.take(it.index()).push(*x));
        }
        out.push(*x);
    }
    proof {
        assert(keys.take(keys.len() as int) =~= keys);
        assert(out@.take(start.len() as int) =~= start);
        assert(out@.skip(start.len() as int) =~= keys);
    }
}

} // verus!
