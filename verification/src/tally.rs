//! The sum of the amounts held in a finite map.

use vstd::prelude::*;

verus! {

/// What `m` holds under `k`: the stored amount, or nothing where there is no
/// entry.
pub open spec fn held<K>(m: Map<K, u128>, k: K) -> u128 {
    if m.contains_key(k) {
        m[k]
    } else {
        0
    }
}

/// The step of the sum: the running total and one more key's amount.
pub open spec fn add_amount<K>(m: Map<K, u128>) -> spec_fn(nat, K) -> nat {
    |acc: nat, k: K| acc + m[k] as nat
}

/// The amounts of `m` under the keys in `keys`, added up.
pub open spec fn total_over<K>(m: Map<K, u128>, keys: Set<K>) -> nat {
    keys.fold(0nat, add_amount(m))
}

/// Everything that `m` holds, added up.
pub open spec fn total<K>(m: Map<K, u128>) -> nat {
    total_over(m, m.dom())
}

proof fn lemma_add_commutes<K>(m: Map<K, u128>)
    ensures
        vstd::set::fold::is_fun_commutative(add_amount(m)),
{
    let f = add_amount(m);
    assert forall|a1: K, a2: K, b: nat| #[trigger] f(f(b, a2), a1) == f(f(b, a1), a2) by {}
}

/// Taking one key out of the keys takes its amount out of the sum.
pub proof fn lemma_total_over_split<K>(m: Map<K, u128>, keys: Set<K>, k: K)
    requires
        keys.finite(),
        keys.contains(k),
    ensures
        total_over(m, keys) == total_over(m, keys.remove(k)) + m[k],
{
    lemma_add_commutes(m);
    vstd::set::fold::lemma_fold_insert(keys.remove(k), 0nat, add_amount(m), k);
    assert(keys.remove(k).insert(k) =~= keys);
}

/// Two maps that agree on every key in `keys` have the same sum over them.
pub proof fn lemma_total_over_agree<K>(m1: Map<K, u128>, m2: Map<K, u128>, keys: Set<K>)
    requires
        keys.finite(),
        forall|k: K| keys.contains(k) ==> m1[k] == m2[k],
    ensures
        total_over(m1, keys) == total_over(m2, keys),
    decreases keys.len(),
{
    if keys.len() == 0 {
        assert(keys =~= Set::<K>::empty());
        vstd::set::fold::lemma_fold_empty(0nat, add_amount(m1));
        vstd::set::fold::lemma_fold_empty(0nat, add_amount(m2));
    } else {
        let k = keys.choose();
        lemma_total_over_split(m1, keys, k);
        lemma_total_over_split(m2, keys, k);
        lemma_total_over_agree(m1, m2, keys.remove(k));
    }
}

/// A map without entries holds nothing.
pub proof fn lemma_total_empty<K>()
    ensures
        total(Map::<K, u128>::empty()) == 0,
{
    assert(Map::<K, u128>::empty().dom() =~= Set::<K>::empty());
    vstd::set::fold::lemma_fold_empty(0nat, add_amount(Map::<K, u128>::empty()));
}

/// Removing an entry lowers the sum by what the entry held.
pub proof fn lemma_total_remove<K>(m: Map<K, u128>, k: K)
    requires
        m.dom().finite(),
    ensures
        total(m.remove(k)) == total(m) - held(m, k),
{
    if m.contains_key(k) {
        lemma_total_over_split(m, m.dom(), k);
        assert(m.remove(k).dom() =~= m.dom().remove(k));
        lemma_total_over_agree(m, m.remove(k), m.dom().remove(k));
    } else {
        assert(m.remove(k) =~= m);
    }
}

/// Storing `v` under `k` changes the sum by the difference between `v` and
/// what `k` held before.
pub proof fn lemma_total_insert<K>(m: Map<K, u128>, k: K, v: u128)
    requires
        m.dom().finite(),
    ensures
        total(m.insert(k, v)) == total(m) - held(m, k) + v,
{
    let n = m.insert(k, v);
    lemma_total_remove(n, k);
    lemma_total_remove(m, k);
    assert(n.remove(k) =~= m.remove(k));
}

/// No single entry holds more than the whole.
pub proof fn lemma_total_bounds_entry<K>(m: Map<K, u128>, k: K)
    requires
        m.dom().finite(),
    ensures
        held(m, k) <= total(m),
{
    lemma_total_remove(m, k);
}

/// Two distinct entries together hold no more than the whole.
pub proof fn lemma_total_bounds_pair<K>(m: Map<K, u128>, j: K, k: K)
    requires
        m.dom().finite(),
        j != k,
    ensures
        held(m, j) + held(m, k) <= total(m),
{
    lemma_total_remove(m, j);
    lemma_total_remove(m.remove(j), k);
}

} // verus!
