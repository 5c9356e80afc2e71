//! Sums of the values of a finite map.
use vstd::prelude::*;

verus! {

/// The sum of all values of `m`, for a map with a finite domain.
pub open spec fn map_sum<K>(m: Map<K, int>) -> int
    decreases m.dom().len(),
{
    if m.dom().finite() && m.dom().len() > 0 {
        let k = m.dom().choose();
        m[k] + map_sum(m.remove(k))
    } else {
        0
    }
}

/// The value of `k` in `m`, or 0 where `m` has none.
pub open spec fn value_or_zero<K>(m: Map<K, int>, k: K) -> int {
    if m.contains_key(k) { m[k] } else { 0 }
}

/// Taking any key out of a finite map lowers its sum by that key's value.
pub proof fn lemma_map_sum_remove<K>(m: Map<K, int>, k: K)
    requires
        m.dom().finite(),
        m.contains_key(k),
    ensures
        map_sum(m) == m[k] + map_sum(m.remove(k)),
    decreases m.dom().len(),
{
    let c = m.dom().choose();
    assert(m.dom().contains(c));
    if c != k {
        let mc = m.remove(c);
        let mk = m.remove(k);
        assert(mc.dom().len() < m.dom().len());
        lemma_map_sum_remove(mc, k);
        lemma_map_sum_remove(mk, c);
        assert(mc.remove(k) =~= mk.remove(c));
    }
}

/// The sum of a finite map after one insertion.
pub proof fn lemma_map_sum_insert<K>(m: Map<K, int>, k: K, v: int)
    requires
        m.dom().finite(),
    ensures
        m.insert(k, v).dom().finite(),
        map_sum(m.insert(k, v)) == map_sum(m) - value_or_zero(m, k) + v,
{
    let n = m.insert(k, v);
    lemma_map_sum_remove(n, k);
    if m.contains_key(k) {
        lemma_map_sum_remove(m, k);
        assert(n.remove(k) =~= m.remove(k));
    } else {
        assert(n.remove(k) =~= m);
    }
}

/// The sum of the empty map is zero.
pub proof fn lemma_map_sum_empty<K>()
    ensures
        map_sum(Map::<K, int>::empty()) == 0,
{
    assert(Map::<K, int>::empty().dom().len() == 0);
}

} // verus!
