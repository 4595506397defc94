//! Judging a transformed point set.
//!
//! Point `i` of a set keeps its place through every transform, so the first
//! point in the output with a coordinate that is not finite names the first
//! point for which the transform failed.

use vstd::prelude::*;
use crate::binary64::all_finite;
use crate::binary64::are_finite;
use crate::error::FailureSite;
use crate::error::SuperposeError;

verus! {

/// Every coordinate of every point is finite.
pub open spec fn points_finite(points: Seq<[u64; 3]>) -> bool {
    forall|j: int| 0 <= j < points.len() ==> all_finite(#[trigger] points[j]@)
}

/// Point `i` holds a coordinate that is not finite, and no point before it
/// does.
pub open spec fn is_first_failure(points: Seq<[u64; 3]>, i: int) -> bool {
    &&& 0 <= i < points.len()
    &&& !all_finite(points[i]@)
    &&& forall|j: int| 0 <= j < i ==> all_finite(#[trigger] points[j]@)
}

/// A point set has at most one first failure, and none where all of its
/// points are finite.
pub proof fn lemma_first_failure_is_unique(points: Seq<[u64; 3]>, i: int, j: int)
    requires
        is_first_failure(points, i),
    ensures
        !points_finite(points),
        is_first_failure(points, j) ==> i == j,
{
    if is_first_failure(points, j) {
        if i < j {
            assert(all_finite(points[i]@));
        } else if j < i {
            assert(all_finite(points[j]@));
        }
    }
}

/// Judges a point set, each coordinate given as its encoding.
///
/// The set passes where every coordinate is finite. Otherwise the failure is
/// reported at the first point that holds an infinity or a NaN.
pub fn check_points(points: &[[u64; 3]]) -> (r: Result<(), SuperposeError>)
    ensures
        r is Ok <==> points_finite(points@),
        r matches Err(e) ==> e matches SuperposeError::NumericalFailure {
            site: FailureSite::Point(i),
        } && is_first_failure(points@, i as int),
        r matches Err(e) ==> !e.is_size_mismatch(),
{
    let mut i: usize = 0;
    while i < points.len()
        invariant
            i <= points.len(),
            forall|j: int| 0 <= j < i ==> all_finite(#[trigger] points@[j]@),
        decreases points.len() - i,
    {
        if !are_finite(points[i].as_slice()) {
            return Err(SuperposeError::NumericalFailure { site: FailureSite::Point(i) });
        }
        i += 1;
    }
    Ok(())
}

} // verus!
