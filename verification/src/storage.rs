//! Storage maps keyed by accounts and indices, where reading a key that
//! was never written gives the default value.
use vstd::prelude::*;
use std::collections::HashMap;

verus! {

broadcast use vstd::std_specs::hash::group_hash_axioms;

/// The value of `k` in `m`, or 0 where `m` has none.
pub open spec fn u64_or_zero(m: Map<u64, u64>, k: u64) -> u64 {
    if m.contains_key(k) { m[k] } else { 0 }
}

/// The value of `k` in `m`, or 0 where `m` has none.
pub fn get_u64(m: &HashMap<u64, u64>, k: u64) -> (r: u64)
    ensures
        r == u64_or_zero(m@, k),
{
    match m.get(&k) {
        Some(v) => *v,
        None => 0,
    }
}

/// A map from pairs of keys to values, kept as one inner map per first key.
pub struct DoubleMap {
    outer: HashMap<u64, HashMap<u64, u64>>,
}

/// The pairs that `outer` holds.
pub open spec fn pairs_of(outer: Map<u64, HashMap<u64, u64>>) -> Map<(u64, u64), u64> {
    Map::new(
        |k: (u64, u64)| outer.contains_key(k.0) && outer[k.0]@.contains_key(k.1),
        |k: (u64, u64)| outer[k.0]@[k.1],
    )
}

/// The value of `(a, b)` in `m`, or 0 where `m` has none.
pub open spec fn pair_or_zero(m: Map<(u64, u64), u64>, a: u64, b: u64) -> u64 {
    if m.contains_key((a, b)) { m[(a, b)] } else { 0 }
}

impl View for DoubleMap {
    type V = Map<(u64, u64), u64>;

    closed spec fn view(&self) -> Map<(u64, u64), u64> {
        pairs_of(self.outer@)
    }
}

impl DoubleMap {
    /// A map with no pairs.
    pub fn new() -> (r: DoubleMap)
        ensures
            r@ == Map::<(u64, u64), u64>::empty(),
    {
        let r = DoubleMap { outer: HashMap::new() };
        assert(r@ =~= Map::<(u64, u64), u64>::empty());
        r
    }

    /// The value of `(a, b)`, or 0 where there is none.
    pub fn get(&self, a: u64, b: u64) -> (r: u64)
        ensures
            r == pair_or_zero(self@, a, b),
    {
        match self.outer.get(&a) {
            Some(inner) => match inner.get(&b) {
                Some(v) => *v,
                None => 0,
            },
            None => 0,
        }
    }

    /// Sets `(a, b)` to `v`.
    pub fn insert(&mut self, a: u64, b: u64, v: u64)
        ensures
            final(self)@ == old(self)@.insert((a, b), v),
    {
        let mut inner = match self.outer.remove(&a) {
            Some(m) => m,
            None => HashMap::new(),
        };
        inner.insert(b, v);
        self.outer.insert(a, inner);
        assert(self@ =~= old(self)@.insert((a, b), v));
    }
}

} // verus!
