//! The decisions of the `Quaternion` strategy.
//!
//! The rotation is the eigenvector of the key matrix that belongs to its
//! largest eigenvalue, so the largest of four has to be picked. The aligned
//! residual is the root of a difference of two sums that nearly
//! cancel where the point sets already fit. Rounding may then leave the
//! difference a little below zero, and a root taken of it would be a NaN.

use vstd::prelude::*;
use crate::binary64::encodes_finite;
use crate::binary64::encodes_negative;
use crate::binary64::is_after;
use crate::binary64::is_finite;
use crate::binary64::is_negative;
use crate::binary64::lemma_kinds;
use crate::binary64::rank;
use crate::binary64::ZERO;

verus! {

/// No eigenvalue comes after the one at `i`, and those before it in the list
/// come before it in rank: `i` is the first of the largest.
pub open spec fn is_first_largest(eigenvalues: Seq<u64>, i: int) -> bool {
    &&& 0 <= i < eigenvalues.len()
    &&& forall|j: int| 0 <= j < eigenvalues.len() ==> rank(#[trigger] eigenvalues[j]) <= rank(eigenvalues[i])
    &&& forall|j: int| 0 <= j < i ==> rank(#[trigger] eigenvalues[j]) < rank(eigenvalues[i])
}

/// Picks the eigenvalue whose eigenvector gives the rotation: the
/// algebraically largest, and the first of them where several are equal.
///
/// A NaN among the eigenvalues is picked before any number, so that it
/// reaches the residual and is found there, and the first NaN where there
/// are several.
pub fn select_eigenvalue(eigenvalues: &[u64; 4]) -> (i: usize)
    ensures
        is_first_largest(eigenvalues@, i as int),
{
    let mut best: usize = 0;
    let mut k: usize = 1;
    while k < 4
        invariant
            1 <= k <= 4,
            best < k,
            eigenvalues@.len() == 4,
            forall|j: int| 0 <= j < k ==> rank(#[trigger] eigenvalues@[j]) <= rank(eigenvalues@[best as int]),
            forall|j: int| 0 <= j < best ==> rank(#[trigger] eigenvalues@[j]) < rank(eigenvalues@[best as int]),
        decreases 4 - k,
    {
        if is_after(eigenvalues[k], eigenvalues[best]) {
            best = k;
        }
        k += 1;
    }
    best
}

/// The number that goes under the root: zero in place of a finite number
/// below zero, and every other number as it is.
pub open spec fn clamped(numerator: u64) -> u64 {
    if encodes_finite(numerator) && encodes_negative(numerator) {
        ZERO
    } else {
        numerator
    }
}

/// Clamps the numerator of the squared residual before the root is taken.
///
/// A finite numerator comes out finite and not below zero, so its root is a
/// number. An infinity or a NaN is left as it is: it tells of a failure
/// further up, which is not to be hidden.
pub fn clamp_residual(numerator: u64) -> (r: u64)
    ensures
        r == clamped(numerator),
        encodes_finite(numerator) ==> !encodes_negative(r),
        encodes_finite(r) == encodes_finite(numerator),
{
    proof {
        lemma_kinds(numerator);
    }
    if is_finite(numerator) && is_negative(numerator) {
        ZERO
    } else {
        numerator
    }
}

} // verus!
