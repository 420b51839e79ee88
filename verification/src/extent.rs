//! Arithmetic on shapes: how many elements a sequence of extents spans, and
//! when that number can be held in a machine word.

use vstd::prelude::*;

verus! {

/// A shape is valid when none of its extents is negative.
pub open spec fn extents_valid(shape: Seq<i64>) -> bool {
    forall|i: int| 0 <= i < shape.len() ==> shape[i] >= 0
}

/// The product of all extents of a shape; 1 for the shape of rank 0, which
/// describes a single element.
pub open spec fn extent_product(shape: Seq<i64>) -> int
    decreases shape.len(),
{
    if shape.len() == 0 {
        1
    } else {
        extent_product(shape.drop_last()) * (shape.last() as int)
    }
}

/// Taking one more extent into a prefix multiplies the prefix's product by
/// that extent.
pub proof fn lemma_product_step(shape: Seq<i64>, k: int)
    requires
        0 <= k < shape.len(),
    ensures
        extent_product(shape.take(k + 1)) == extent_product(shape.take(k)) * (shape[k] as int),
{
    assert(shape.take(k + 1).drop_last() =~= shape.take(k));
}

/// A shape with an extent of 0 spans no element, whatever its other extents
/// are.
pub proof fn lemma_product_zero(shape: Seq<i64>, k: int)
    requires
        0 <= k < shape.len(),
        shape[k] == 0,
    ensures
        extent_product(shape) == 0,
    decreases shape.len(),
{
    let rest = shape.drop_last();
    if k == shape.len() - 1 {
        assert(extent_product(rest) * 0 == 0);
    } else {
        lemma_product_zero(rest, k);
        assert(0 * (shape.last() as int) == 0);
    }
}

/// Where every extent is at least 1, the product of a prefix is at least 1
/// and no larger than the product of the whole shape.
pub proof fn lemma_product_prefix(shape: Seq<i64>, k: int)
    requires
        0 <= k <= shape.len(),
        forall|i: int| 0 <= i < shape.len() ==> shape[i] >= 1,
    ensures
        1 <= extent_product(shape.take(k)) <= extent_product(shape),
    decreases shape.len() - k,
{
    if k == shape.len() {
        assert(shape.take(k) =~= shape);
        lemma_product_at_least_one(shape);
    } else {
        lemma_product_prefix(shape, k + 1);
        lemma_product_step(shape, k);
        lemma_product_at_least_one(shape.take(k));
        let p = extent_product(shape.take(k));
        let e = shape[k] as int;
        assert(p <= p * e) by (nonlinear_arith)
            requires
                p >= 1,
                e >= 1,
        ;
    }
}

/// Where every extent is at least 1, the shape spans at least one element.
pub proof fn lemma_product_at_least_one(shape: Seq<i64>)
    requires
        forall|i: int| 0 <= i < shape.len() ==> shape[i] >= 1,
    ensures
        extent_product(shape) >= 1,
    decreases shape.len(),
{
    if shape.len() > 0 {
        lemma_product_at_least_one(shape.drop_last());
        let p = extent_product(shape.drop_last());
        let e = shape.last() as int;
        assert(p * e >= 1) by (nonlinear_arith)
            requires
                p >= 1,
                e >= 1,
        ;
    }
}

/// A valid shape spans a number of elements that is not negative.
pub proof fn lemma_product_nonnegative(shape: Seq<i64>)
    requires
        extents_valid(shape),
    ensures
        extent_product(shape) >= 0,
    decreases shape.len(),
{
    if shape.len() > 0 {
        lemma_product_nonnegative(shape.drop_last());
        let p = extent_product(shape.drop_last());
        let e = shape.last() as int;
        assert(p * e >= 0) by (nonlinear_arith)
            requires
                p >= 0,
                e >= 0,
        ;
    }
}

/// Tells whether a shape is valid.
pub fn extents_nonnegative(shape: &[i64]) -> (ok: bool)
    ensures
        ok == extents_valid(shape@),
{
    let mut i: usize = 0;
    while i < shape.len()
        invariant
            i <= shape.len(),
            forall|j: int| 0 <= j < i ==> shape@[j] >= 0,
        decreases shape.len() - i,
    {
        if shape[i] < 0 {
            return false;
        }
        i += 1;
    }
    true
}

/// The number of elements that a shape spans: `Some` exactly when the shape
/// is valid and the product of its extents fits in 64 bits, and then that
/// product.
pub fn checked_extent_product(shape: &[i64]) -> (count: Option<u64>)
    ensures
        count is Some <==> extents_valid(shape@) && extent_product(shape@) <= u64::MAX,
        count matches Some(n) ==> n == extent_product(shape@),
{
    let mut zero_seen: bool = false;
    let ghost mut zero_at: int = 0;
    let mut i: usize = 0;
    while i < shape.len()
        invariant
            i <= shape.len(),
            forall|j: int| 0 <= j < i ==> shape@[j] >= 0,
            zero_seen ==> 0 <= zero_at < i && shape@[zero_at] == 0,
            !zero_seen ==> forall|j: int| 0 <= j < i ==> shape@[j] >= 1,
        decreases shape.len() - i,
    {
        if shape[i] < 0 {
            return None;
        }
        if shape[i] == 0 {
            zero_seen = true;
            proof {
                zero_at = i as int;
            }
        }
        i += 1;
    }
    if zero_seen {
        proof {
            lemma_product_zero(shape@, zero_at);
        }
        return Some(0);
    }
    let mut acc: u64 = 1;
    let mut k: usize = 0;
    while k < shape.len()
        invariant
            k <= shape.len(),
            forall|j: int| 0 <= j < shape.len() ==> shape@[j] >= 1,
            acc == extent_product(shape@.take(k as int)),
        decreases shape.len() - k,
    {
        proof {
            lemma_product_step(shape@, k as int);
            lemma_product_prefix(shape@, k as int + 1);
        }
        let extent: u64 = shape[k] as u64;
        match acc.checked_mul(extent) {
            None => {
                return None;
            },
            Some(next) => {
                acc = next;
            },
        }
        k += 1;
    }
    proof {
        assert(shape@.take(shape.len() as int) =~= shape@);
    }
    Some(acc)
}

} // verus!
