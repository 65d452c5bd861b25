//! The sum of the values of a finite map, and the arithmetic of updating it.

use vstd::prelude::*;

verus! {

/// The amount a map records under `key`; a missing key counts as zero.
pub open spec fn amount_at<K>(m: Map<K, nat>, key: K) -> nat {
    if m.contains_key(key) {
        m[key]
    } else {
        0
    }
}

/// The sum of all values of a finite map.
pub open spec fn sum_of<K>(m: Map<K, nat>) -> nat
    decreases m.dom().len(),
    when m.dom().finite()
{
    if m.dom().is_empty() {
        0
    } else {
        let key = m.dom().choose();
        m[key] + sum_of(m.remove(key))
    }
}

/// Any entry may be split off the sum, not only the one the definition picks.
pub proof fn lemma_sum_split<K>(m: Map<K, nat>, key: K)
    requires
        m.dom().finite(),
        m.contains_key(key),
    ensures
        sum_of(m) == m[key] + sum_of(m.remove(key)),
    decreases m.dom().len(),
{
    let picked = m.dom().choose();
    if picked != key {
        lemma_sum_split(m.remove(picked), key);
        lemma_sum_split(m.remove(key), picked);
        assert(m.remove(picked).remove(key) =~= m.remove(key).remove(picked));
    }
}

/// Writing `value` under `key` replaces that key's share of the sum.
pub proof fn lemma_sum_insert<K>(m: Map<K, nat>, key: K, value: nat)
    requires
        m.dom().finite(),
    ensures
        m.insert(key, value).dom().finite(),
        sum_of(m.insert(key, value)) == sum_of(m) - amount_at(m, key) + value,
{
    let written = m.insert(key, value);
    lemma_sum_split(written, key);
    assert(written.remove(key) =~= m.remove(key));
    if m.contains_key(key) {
        lemma_sum_split(m, key);
    } else {
        assert(m.remove(key) =~= m);
    }
}

/// No single entry exceeds the sum.
pub proof fn lemma_sum_bounds_entry<K>(m: Map<K, nat>, key: K)
    requires
        m.dom().finite(),
    ensures
        amount_at(m, key) <= sum_of(m),
{
    if m.contains_key(key) {
        lemma_sum_split(m, key);
    }
}

} // verus!
