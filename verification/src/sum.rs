//! Sums of an integer-valued function over a finite set.
use vstd::prelude::*;

verus! {

broadcast use vstd::set::group_set_axioms;

/// The sum of `g` over the finite set `keys`.
pub open spec fn sum_over<K>(keys: Set<K>, g: spec_fn(K) -> int) -> int
    decreases keys.len(),
    when keys.finite()
{
    if keys.len() == 0 {
        0
    } else {
        let k = keys.choose();
        g(k) + sum_over(keys.remove(k), g)
    }
}

/// Any element can be taken out of the sum first.
pub proof fn lemma_sum_remove<K>(s: Set<K>, g: spec_fn(K) -> int, a: K)
    requires
        s.finite(),
        s.contains(a),
    ensures
        sum_over(s, g) == g(a) + sum_over(s.remove(a), g),
    decreases s.len(),
{
    let k = s.choose();
    if k != a {
        assert(s.remove(k).contains(a));
        assert(s.remove(a).contains(k));
        lemma_sum_remove(s.remove(k), g, a);
        lemma_sum_remove(s.remove(a), g, k);
        assert(s.remove(k).remove(a) =~= s.remove(a).remove(k));
    }
}

/// Adding a new element adds its value.
pub proof fn lemma_sum_insert<K>(s: Set<K>, g: spec_fn(K) -> int, a: K)
    requires
        s.finite(),
        !s.contains(a),
    ensures
        sum_over(s.insert(a), g) == sum_over(s, g) + g(a),
{
    lemma_sum_remove(s.insert(a), g, a);
    assert(s.insert(a).remove(a) =~= s);
}

/// Functions that agree on the set have the same sum.
pub proof fn lemma_sum_agree<K>(s: Set<K>, g: spec_fn(K) -> int, h: spec_fn(K) -> int)
    requires
        s.finite(),
        forall|k: K| s.contains(k) ==> g(k) == h(k),
    ensures
        sum_over(s, g) == sum_over(s, h),
    decreases s.len(),
{
    if s.len() > 0 {
        let k = s.choose();
        lemma_sum_agree(s.remove(k), g, h);
    }
}

/// A function that is zero on the set sums to zero.
pub proof fn lemma_sum_zero<K>(s: Set<K>, g: spec_fn(K) -> int)
    requires
        s.finite(),
        forall|k: K| s.contains(k) ==> g(k) == 0,
    ensures
        sum_over(s, g) == 0,
    decreases s.len(),
{
    if s.len() > 0 {
        let k = s.choose();
        lemma_sum_zero(s.remove(k), g);
    }
}

/// Changing the value at one element `a` (and adding `a` if absent)
/// changes the sum by the difference.
pub proof fn lemma_sum_point_update<K>(s: Set<K>, g: spec_fn(K) -> int, h: spec_fn(K) -> int, a: K)
    requires
        s.finite(),
        forall|k: K| s.contains(k) && k != a ==> g(k) == h(k),
    ensures
        sum_over(s.insert(a), h) == sum_over(s, g) - (if s.contains(a) {
            g(a)
        } else {
            0
        }) + h(a),
{
    if s.contains(a) {
        assert(s.insert(a) =~= s);
        lemma_sum_remove(s, h, a);
        lemma_sum_remove(s, g, a);
        lemma_sum_agree(s.remove(a), g, h);
    } else {
        lemma_sum_insert(s, h, a);
        lemma_sum_agree(s, g, h);
    }
}

} // verus!
