//! Specification helpers over sequences and maps.
use vstd::prelude::*;

verus! {

/// The items `f` maps to `Some`, in order.
pub open spec fn filter_map<A, B>(s: Seq<A>, f: spec_fn(A) -> Option<B>) -> Seq<B>
    decreases s.len(),
{
    if s.len() == 0 {
        Seq::empty()
    } else {
        let prev = filter_map(s.drop_last(), f);
        match f(s.last()) {
            Some(b) => prev.push(b),
            None => prev,
        }
    }
}

/// One more item of `s` taken into a `filter_map`.
pub proof fn lemma_filter_map_step<A, B>(s: Seq<A>, f: spec_fn(A) -> Option<B>, i: int)
    requires
        0 <= i < s.len(),
    ensures
        filter_map(s.take(i + 1), f) == match f(s[i]) {
            Some(b) => filter_map(s.take(i), f).push(b),
            None => filter_map(s.take(i), f),
        },
{
    assert(s.take(i + 1).drop_last() =~= s.take(i));
}

/// `m` with each item of `s` inserted under its key, in order: a later item
/// replaces an earlier one with the same key.
pub open spec fn insert_all<V>(m: Map<u32, V>, s: Seq<V>, key: spec_fn(V) -> u32) -> Map<u32, V>
    decreases s.len(),
{
    if s.len() == 0 {
        m
    } else {
        insert_all(m, s.drop_last(), key).insert(key(s.last()), s.last())
    }
}

} // verus!

verus! {

/// The set of a prefix grows by the next item.
pub proof fn lemma_take_to_set_step<A>(s: Seq<A>, i: int)
    requires
        0 <= i < s.len(),
    ensures
        s.take(i + 1).to_set() == s.take(i).to_set().insert(s[i]),
{
    let t = s.take(i + 1);
    let u = s.take(i);
    assert forall|x: A| t.to_set().contains(x) implies u.to_set().insert(s[i]).contains(x) by {
        let k = choose|k: int| 0 <= k < t.len() && t[k] == x;
        if k < i {
            assert(u[k] == x);
        }
    }
    assert forall|x: A| u.to_set().insert(s[i]).contains(x) implies t.to_set().contains(x) by {
        if x == s[i] {
            assert(t[i] == x);
        } else {
            let k = choose|k: int| 0 <= k < u.len() && u[k] == x;
            assert(t[k] == x);
        }
    }
    assert(t.to_set() =~= u.to_set().insert(s[i]));
}

} // verus!
