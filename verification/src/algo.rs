//! The choice of solver.

use vstd::prelude::*;

verus! {

/// The strategy that computes the optimal rotation.
///
/// Both strategies answer the same question and agree on well-conditioned
/// input; they differ in cost and in how they treat point sets that already
/// coincide.
#[derive(Clone, Copy, Debug, PartialEq, Eq, Structural)]
pub enum SuperpositionAlgo {
    /// Newton iteration on the characteristic polynomial of the key matrix.
    QCP,
    /// Full eigen-decomposition of the key matrix.
    Quaternion,
}

impl Default for SuperpositionAlgo {
    /// The default strategy is `QCP`.
    fn default() -> (r: Self)
        ensures
            r == SuperpositionAlgo::QCP,
    {
        SuperpositionAlgo::QCP
    }
}

} // verus!
