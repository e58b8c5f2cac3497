//! Facts about key order in `BTreeMap` iteration.
use vstd::prelude::*;
use vstd::std_specs::btree::increasing_seq;
use vstd::std_specs::cmp::OrdSpec;

verus! {

/// A sequence of `u32` that the standard library calls increasing is
/// strictly ascending.
pub proof fn lemma_increasing_u32(ks: Seq<u32>)
    requires
        increasing_seq(ks),
    ensures
        forall|i: int, j: int| 0 <= i < j < ks.len() ==> ks[i] < ks[j],
{
    assert forall|i: int, j: int| 0 <= i < j < ks.len() implies ks[i] < ks[j] by {
        assert(ks[i].cmp_spec(&ks[j]) is Less);
    }
}

} // verus!

verus! {

/// Strictly ascending.
pub open spec fn ascending(ks: Seq<u32>) -> bool {
    forall|i: int, j: int| 0 <= i < j < ks.len() ==> ks[i] < ks[j]
}

/// The elements of `d` in ascending order (meaningful for finite `d`).
pub open spec fn key_order(d: Set<u32>) -> Seq<u32> {
    choose|ks: Seq<u32>| ascending(ks) && ks.to_set() == d
}

/// The values of `m` in ascending order of their keys.
pub open spec fn in_key_order<V>(m: Map<u32, V>) -> Seq<V> {
    key_order(m.dom()).map_values(|k: u32| m[k])
}

proof fn lemma_ascending_drop_first(a: Seq<u32>)
    requires
        ascending(a),
        a.len() > 0,
    ensures
        ascending(a.drop_first()),
        a.drop_first().to_set() == a.to_set().remove(a[0]),
        forall|x: u32| a.to_set().contains(x) ==> a[0] <= x,
{
    assert forall|x: u32| a.to_set().contains(x) implies a[0] <= x by {
        let k = choose|k: int| 0 <= k < a.len() && a[k] == x;
        if k > 0 {
            assert(a[0] < a[k]);
        }
    }
    assert forall|x: u32| #[trigger] a.drop_first().to_set().contains(x) <==> a.to_set().remove(a[0]).contains(x) by {
        if a.drop_first().to_set().contains(x) {
            let k = choose|k: int| 0 <= k < a.drop_first().len() && a.drop_first()[k] == x;
            assert(a[k + 1] == x);
            assert(a[0] < a[k + 1]);
        }
        if a.to_set().remove(a[0]).contains(x) {
            let k = choose|k: int| 0 <= k < a.len() && a[k] == x;
            assert(k != 0);
            assert(a.drop_first()[k - 1] == x);
        }
    }
    assert(a.drop_first().to_set() =~= a.to_set().remove(a[0]));
}

/// Two ascending sequences with the same elements are equal.
pub proof fn lemma_key_order_unique(a: Seq<u32>, b: Seq<u32>)
    requires
        ascending(a),
        ascending(b),
        a.to_set() == b.to_set(),
    ensures
        a == b,
    decreases a.len(),
{
    if a.len() == 0 {
        if b.len() > 0 {
            assert(b.to_set().contains(b[0]));
        }
        assert(a =~= b);
    } else {
        assert(a.to_set().contains(a[0]));
        if b.len() == 0 {
            assert(b.to_set().contains(a[0]));
            let k = choose|k: int| 0 <= k < b.len() && b[k] == a[0];
        }
        assert(b.to_set().contains(b[0]));
        lemma_ascending_drop_first(a);
        lemma_ascending_drop_first(b);
        assert(a[0] == b[0]);
        lemma_key_order_unique(a.drop_first(), b.drop_first());
        assert(a =~= b) by {
            assert forall|i: int| 0 <= i < a.len() implies a[i] == b[i] by {
                if i > 0 {
                    assert(a[i] == a.drop_first()[i - 1]);
                    assert(b[i] == b.drop_first()[i - 1]);
                }
            }
        }
    }
}

/// Any ascending sequence of the keys is the key order.
pub proof fn lemma_key_order_is(ks: Seq<u32>, d: Set<u32>)
    requires
        ascending(ks),
        ks.to_set() == d,
    ensures
        key_order(d) == ks,
        ascending(key_order(d)),
        key_order(d).to_set() == d,
{
    let k = key_order(d);
    assert(ascending(k) && k.to_set() == d);
    lemma_key_order_unique(k, ks);
}

/// Every finite set of keys has an ascending sequence of its elements.
pub proof fn lemma_ascending_exists(d: Set<u32>)
    requires
        d.finite(),
    ensures
        exists|ks: Seq<u32>| ascending(ks) && ks.to_set() == d,
    decreases d.len(),
{
    if d.len() == 0 {
        let ks = Seq::<u32>::empty();
        assert(d =~= Set::empty());
        assert(ks.to_set() =~= d);
        assert(ascending(ks) && ks.to_set() == d);
    } else {
        let leq = |a: u32, b: u32| a <= b;
        assert(vstd::relations::total_ordering(leq));
        d.find_unique_maximal_ensures(leq);
        let m = d.find_unique_maximal(leq);
        assert forall|x: u32| d.contains(x) implies x <= m by {
            assert(vstd::relations::is_maximal(leq, m, d));
            assert(d.contains(x) && leq(m, x) ==> leq(x, m));
            if !(x <= m) {
                assert(leq(m, x));
            }
        }
        lemma_ascending_exists(d.remove(m));
        let ks0 = choose|ks: Seq<u32>| ascending(ks) && ks.to_set() == d.remove(m);
        let ks = ks0.push(m);
        assert forall|i: int| 0 <= i < ks0.len() implies ks0[i] < m by {
            assert(ks0.to_set().contains(ks0[i]));
        }
        assert(ascending(ks)) by {
            assert forall|i: int, j: int| 0 <= i < j < ks.len() implies ks[i] < ks[j] by {
                if j == ks0.len() {
                    assert(ks[i] == ks0[i]);
                } else {
                    assert(ks[i] == ks0[i] && ks[j] == ks0[j]);
                }
            }
        }
        assert forall|x: u32| #[trigger] ks.to_set().contains(x) <==> d.contains(x) by {
            if ks.to_set().contains(x) {
                let k = choose|k: int| 0 <= k < ks.len() && ks[k] == x;
                if k < ks0.len() {
                    assert(ks0[k] == x);
                    assert(ks0.to_set().contains(x));
                }
            }
            if d.contains(x) {
                if x == m {
                    assert(ks[ks0.len() as int] == x);
                } else {
                    assert(d.remove(m).contains(x));
                    assert(ks0.to_set().contains(x));
                    let k = choose|k: int| 0 <= k < ks0.len() && ks0[k] == x;
                    assert(ks[k] == x);
                }
            }
        }
        assert(ks.to_set() =~= d);
    }
}

/// The key order of a finite set lists each of its elements once, in
/// strictly ascending order.
pub proof fn law_key_order_is_ascending(d: Set<u32>)
    requires
        d.finite(),
    ensures
        ascending(key_order(d)),
        key_order(d).to_set() == d,
        key_order(d).no_duplicates(),
        key_order(d).len() == d.len(),
{
    lemma_ascending_exists(d);
    let ks = choose|ks: Seq<u32>| ascending(ks) && ks.to_set() == d;
    lemma_key_order_is(ks, d);
    let k = key_order(d);
    assert(k.no_duplicates()) by {
        assert forall|i: int, j: int| 0 <= i < k.len() && 0 <= j < k.len() && i != j implies k[i] != k[j] by {
            if i < j {
                assert(k[i] < k[j]);
            } else {
                assert(k[j] < k[i]);
            }
        }
    }
    k.unique_seq_to_set();
}

} // verus!
