//! The order in which destinations are visited: ascending by identifier.

use std::collections::BTreeMap;
use vstd::prelude::*;
use vstd::std_specs::btree::{axiom_increasing_seq_meaning, axiom_spec_keys_iter, spec_keys_iter};
use vstd::std_specs::cmp::OrdSpec;
use vstd::std_specs::iter::IteratorSpec;

verus! {

/// Every identifier is smaller than those that follow it.
pub open spec fn ascending(ids: Seq<u64>) -> bool {
    forall|i: int, j: int| 0 <= i < j < ids.len() ==> ids[i] < ids[j]
}

/// References to identifiers are ordered as the identifiers are.
proof fn lemma_borrowed_ids_ordered()
    ensures
        vstd::laws_cmp::obeys_cmp::<&u64>(),
{
    broadcast use vstd::laws_eq::group_laws_eq;
    broadcast use vstd::laws_cmp::group_laws_cmp;

    reveal(vstd::laws_eq::obeys_eq_spec_properties);
    reveal(vstd::laws_cmp::obeys_partial_cmp_spec_properties);
    reveal(vstd::laws_cmp::obeys_cmp_partial_ord);
    reveal(vstd::laws_cmp::obeys_cmp_ord);
    assert(vstd::laws_cmp::obeys_cmp::<u64>());
    assert(vstd::laws_eq::obeys_eq::<&u64>());
}

/// The keys of `map`, each once, in ascending order.
pub fn sorted_keys<V>(map: &BTreeMap<u64, V>) -> (keys: Vec<u64>)
    ensures
        keys@.to_set() == map@.dom(),
        keys@.len() == map@.dom().len(),
        ascending(keys@),
{
    broadcast use vstd::std_specs::btree::group_btree_axioms;

    let mut keys: Vec<u64> = Vec::new();
    for key in it: map.keys()
        invariant
            keys.len() == it.index(),
            forall|i: int| 0 <= i < keys.len() ==> keys@[i] == *it.seq()[i],
            it.seq() == spec_keys_iter(map).remaining(),
    {
        keys.push(*key);
    }
    proof {
        let remaining = spec_keys_iter(map).remaining();
        axiom_spec_keys_iter(map);
        assert(keys@ =~= remaining.unref());
        lemma_borrowed_ids_ordered();
        axiom_increasing_seq_meaning::<&u64>(remaining);
        assert forall|i: int, j: int| 0 <= i < j < keys@.len() implies keys@[i] < keys@[j] by {
            assert(OrdSpec::cmp_spec(&remaining[i], &remaining[j]) is Less);
        }
    }
    keys
}

} // verus!
