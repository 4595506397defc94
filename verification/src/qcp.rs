//! The decisions of the `QCP` strategy.
//!
//! The strategy finds the largest eigenvalue of the key matrix by Newton's
//! method on its characteristic polynomial, and reads the rotation off a
//! row of the adjugate of the shifted matrix. The arithmetic is done
//! elsewhere. Decided here are whether anything needs to be searched for,
//! when the search for the eigenvalue stops, and which row gives the
//! rotation, if any does.

use vstd::prelude::*;
use crate::binary64::is_below;
use crate::binary64::magnitude_below;

verus! {

/// The most steps that one search for the eigenvalue may take.
pub const NEWTON_LIMIT: usize = 50;

/// The encoding of `1e-6`. A row of the adjugate whose squared norm is
/// smaller is too short to give a direction.
pub const EVEC_PREC: u64 = 0x3eb0_c6f7_a0b5_ed8d;

/// The encoding of `1e-22`. Centered point sets whose mean squared distance
/// is smaller already coincide.
pub const COINCIDENT: u64 = 0x3b5e_3920_1017_5ee6;

/// What follows a step of the search.
#[derive(Clone, Copy, Debug, PartialEq, Eq, Structural)]
pub enum NewtonStep {
    /// Take another step.
    Again,
    /// The last step moved the estimate by less than the tolerance: stop.
    Converged,
    /// The budget is spent and the estimate still moves: stop, and go on
    /// with the estimate as it is.
    Exhausted,
}

/// The decision after `done` steps, the last of which moved the estimate by
/// `change` where `tolerance` was allowed. Both are signed; their
/// magnitudes are compared.
pub open spec fn newton_verdict(done: usize, change: u64, tolerance: u64) -> NewtonStep {
    if magnitude_below(change, tolerance) {
        NewtonStep::Converged
    } else if done >= NEWTON_LIMIT {
        NewtonStep::Exhausted
    } else {
        NewtonStep::Again
    }
}

/// Decides what follows the step just taken, `done` counting it.
///
/// Convergence is honoured first, also on the last step of the budget. A
/// change or a tolerance that is a NaN never counts as convergence. Another
/// step is granted only while fewer than [`NEWTON_LIMIT`] were taken, so no
/// search takes more.
pub fn newton_step(done: usize, change: u64, tolerance: u64) -> (s: NewtonStep)
    ensures
        s == newton_verdict(done, change, tolerance),
        s is Again ==> done < NEWTON_LIMIT,
{
    if is_below(change, tolerance) {
        NewtonStep::Converged
    } else if done >= NEWTON_LIMIT {
        NewtonStep::Exhausted
    } else {
        NewtonStep::Again
    }
}

/// A squared norm that is not below [`EVEC_PREC`]. A NaN counts as long
/// enough, so that it reaches the rotation and is found there.
pub open spec fn is_long_enough(norm: u64) -> bool {
    !magnitude_below(norm, EVEC_PREC)
}

/// Row `k` is long enough, and no row before it is.
pub open spec fn is_first_long_enough(norms: Seq<u64>, k: int) -> bool {
    &&& 0 <= k < norms.len()
    &&& is_long_enough(norms[k])
    &&& forall|j: int| 0 <= j < k ==> !is_long_enough(#[trigger] norms[j])
}

/// No row is long enough.
pub open spec fn all_too_short(norms: Seq<u64>) -> bool {
    forall|j: int| 0 <= j < norms.len() ==> !is_long_enough(#[trigger] norms[j])
}

/// Whether the centered point sets already coincide, `unrotated` being the
/// mean squared distance between them as they stand.
///
/// Where they do, no rotation is wanted: the strategy leaves it out, the
/// identity takes its place, and nothing is searched for. That also keeps
/// the search away from a key matrix that is all zeros, on which its first
/// step would divide zero by zero. A NaN coincides with nothing.
pub fn already_coincide(unrotated: u64) -> (r: bool)
    ensures
        r == magnitude_below(unrotated, COINCIDENT),
{
    is_below(unrotated, COINCIDENT)
}

/// Chooses the row of the adjugate from which the rotation is built, `norms`
/// holding the squared norm of each of the four rows.
///
/// The first row that is long enough is chosen. Where every row is too
/// short, none is: the rotation is then left out, and the identity takes
/// its place.
pub fn pick_row(norms: &[u64; 4]) -> (r: Option<usize>)
    ensures
        r matches Some(k) ==> is_first_long_enough(norms@, k as int),
        r is None ==> all_too_short(norms@),
{
    let mut k: usize = 0;
    while k < 4
        invariant
            k <= 4,
            norms@.len() == 4,
            forall|j: int| 0 <= j < k ==> !is_long_enough(#[trigger] norms@[j]),
        decreases 4 - k,
    {
        if !is_below(norms[k], EVEC_PREC) {
            return Some(k);
        }
        k += 1;
    }
    None
}

} // verus!
