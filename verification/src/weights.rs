//! The sum of the weights.
//!
//! Each point set is centered on its weighted mean, which divides by the sum
//! of the weights. Weights are not negative, so their sum is above zero
//! unless all of them vanish; a sum that is not clearly above zero leaves
//! the centers, and all that is built on them, unreliable.

use vstd::prelude::*;
use crate::binary64::encodes_nan;
use crate::binary64::is_nan;
use crate::binary64::magnitude;
use crate::binary64::MAGNITUDE_MASK;
use crate::binary64::SIGN_MASK;

verus! {

/// The encoding of `2^-52`, the distance from one to the next number above
/// it. A sum of weights below it counts as zero.
pub const WEIGHT_FLOOR: u64 = 0x3cb0_0000_0000_0000;

/// The sum is a NaN, carries a minus sign, or is smaller than
/// [`WEIGHT_FLOOR`].
pub open spec fn is_degenerate(total: u64) -> bool {
    ||| encodes_nan(total)
    ||| total & SIGN_MASK != 0
    ||| magnitude(total) < WEIGHT_FLOOR
}

/// Whether a sum of weights is too close to zero, or on the wrong side of
/// it, for the weighted mean to be relied on. This is a warning to pass on,
/// not a reason to refuse the request.
pub fn weights_are_degenerate(total: u64) -> (r: bool)
    ensures
        r == is_degenerate(total),
{
    is_nan(total) || (total & SIGN_MASK) != 0 || (total & MAGNITUDE_MASK) < WEIGHT_FLOOR
}

} // verus!
