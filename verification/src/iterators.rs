//! Iteration pipeline: squaring a sequence, keeping the elements above
//! a threshold, and folding a sequence to its sum.

use vstd::prelude::*;

verus! {

/// The sum of the elements of `s`, folded left to right from 0.
pub open spec fn spec_sum(s: Seq<i32>) -> int
    decreases s.len(),
{
    if s.len() == 0 {
        0
    } else {
        spec_sum(s.drop_last()) + s.last()
    }
}

/// Every partial left-to-right sum of `s` stays within `i32`, so a
/// running `i32` accumulator never overflows.
pub open spec fn partial_sums_fit(s: Seq<i32>) -> bool {
    forall|i: int| 0 <= i <= s.len() ==> i32::MIN <= spec_sum(#[trigger] s.take(i)) <= i32::MAX
}

/// Maps each element of `v` to its square, in order.
pub fn square_all(v: &Vec<i32>) -> (r: Vec<i32>)
    requires
        forall|i: int| 0 <= i < v@.len() ==> v@[i] * v@[i] <= i32::MAX,
    ensures
        r@.len() == v@.len(),
        forall|i: int| 0 <= i < v@.len() ==> r@[i] == v@[i] * v@[i],
{
    let mut r: Vec<i32> = Vec::new();
    let mut k: usize = 0;
    while k < v.len()
        invariant
            k <= v@.len(),
            r@.len() == k,
            forall|i: int| 0 <= i < v@.len() ==> v@[i] * v@[i] <= i32::MAX,
            forall|i: int| 0 <= i < k ==> r@[i] == v@[i] * v@[i],
        decreases v@.len() - k,
    {
        let x = v[k];
        proof {
            assert(x * x >= 0) by (nonlinear_arith);
        }
        r.push(x * x);
        k = k + 1;
    }
    r
}

/// Keeps, in order, exactly the elements of `v` strictly greater than
/// `threshold`.
pub fn filter_greater_than(v: &Vec<i32>, threshold: i32) -> (r: Vec<i32>)
    ensures
        r@ == v@.filter(|x: i32| x > threshold),
{
    let mut r: Vec<i32> = Vec::new();
    let mut k: usize = 0;
    proof {
        assert(v@.take(0) =~= Seq::<i32>::empty());
        reveal(Seq::filter);
    }
    while k < v.len()
        invariant
            k <= v@.len(),
            r@ == v@.take(k as int).filter(|x: i32| x > threshold),
        decreases v@.len() - k,
    {
        let x = v[k];
        proof {
            reveal(Seq::filter);
            assert(v@.take(k + 1).drop_last() =~= v@.take(k as int));
            assert(v@.take(k + 1).last() == v@[k as int]);
        }
        if x > threshold {
            r.push(x);
        }
        k = k + 1;
    }
    proof {
        assert(v@.take(v@.len() as int) =~= v@);
    }
    r
}

/// Folds `v` to the sum of its elements, starting from 0 and adding
/// left to right.
pub fn fold_sum(v: &Vec<i32>) -> (s: i32)
    requires
        partial_sums_fit(v@),
    ensures
        s == spec_sum(v@),
{
    let mut s: i32 = 0;
    let mut k: usize = 0;
    proof {
        assert(v@.take(0) =~= Seq::<i32>::empty());
    }
    while k < v.len()
        invariant
            k <= v@.len(),
            partial_sums_fit(v@),
            s == spec_sum(v@.take(k as int)),
        decreases v@.len() - k,
    {
        proof {
            assert(v@.take(k + 1).drop_last() =~= v@.take(k as int));
            assert(v@.take(k + 1).last() == v@[k as int]);
            assert(i32::MIN <= spec_sum(v@.take(k + 1)) <= i32::MAX);
        }
        s = s + v[k];
        k = k + 1;
    }
    proof {
        assert(v@.take(v@.len() as int) =~= v@);
    }
    s
}

} // verus!
