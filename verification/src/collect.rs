//! Copying the values of an ordered map into a vector.
use std::collections::BTreeMap;

use vstd::prelude::*;
use vstd::std_specs::btree::{increasing_seq, spec_values_iter};
use vstd::std_specs::iter::IteratorSpec;

use crate::models::Duplicate;
use crate::order::{in_key_order, lemma_increasing_u32, lemma_key_order_is};

verus! {

/// The views of the values of `m`.
pub open spec fn map_views<V: View>(m: Map<u32, V>) -> Map<u32, V::V> {
    m.map_values(|v: V| v@)
}

/// Copies of the values of `m`, in ascending key order.
pub fn values_in_order<V: Duplicate>(m: &BTreeMap<u32, V>) -> (r: Vec<V>)
    ensures
        r@.map_values(|v: V| v@) == in_key_order(map_views(m@)),
{
    let ghost all = spec_values_iter(m).remaining();
    let mut r: Vec<V> = Vec::new();
    for x in it: m.values()
        invariant
            it.seq() == all,
            r@.len() == it.index(),
            forall|j: int| 0 <= j < it.index() ==> (#[trigger] r@[j])@ == (*all[j])@,
    {
        r.push(x.duplicate());
    }
    proof {
        let ks = choose|ks: Seq<u32>|
            increasing_seq(ks) && ks.to_set() == m@.dom() && ks.no_duplicates()
                && spec_values_iter(m).remaining() == ks.map(|i: int, k: u32| &m@[k]);
        lemma_increasing_u32(ks);
        assert(map_views(m@).dom() =~= m@.dom());
        lemma_key_order_is(ks, map_views(m@).dom());
        assert(r@.map_values(|v: V| v@) =~= in_key_order(map_views(m@)));
    }
    r
}

} // verus!
