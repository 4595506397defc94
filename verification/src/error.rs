//! What can go wrong with a superposition.

use vstd::prelude::*;
use crate::algo::SuperpositionAlgo;

verus! {

/// Where a value that is not finite was found.
#[derive(Clone, Copy, Debug, PartialEq, Eq, Structural)]
pub enum FailureSite {
    /// In the output of the named solver: its residual, its translation or
    /// its rotation.
    Solver(SuperpositionAlgo),
    /// In the transformed point at this index.
    Point(usize),
}

/// The reasons for which a request is refused or a result withheld.
#[derive(Clone, Copy, Debug, PartialEq, Eq, Structural)]
pub enum SuperposeError {
    /// The reference does not hold as many points as the candidate.
    PointsSizeMismatch { expected: usize, found: usize },
    /// Weights were given, but not one for each point.
    WeightsSizeMismatch { expected: usize, found: usize },
    /// A computed value is infinite or not a number.
    NumericalFailure { site: FailureSite },
}

impl SuperposeError {
    /// Whether the error was raised by validation, before any computation.
    pub open spec fn is_size_mismatch(self) -> bool {
        self is PointsSizeMismatch || self is WeightsSizeMismatch
    }

    /// The text of the error, as a sequence of characters.
    pub open spec fn message_text(self) -> Seq<char> {
        match self {
            SuperposeError::PointsSizeMismatch { .. } => "points size mismatch!"@,
            SuperposeError::WeightsSizeMismatch { .. } => "weights size mismatch!"@,
            SuperposeError::NumericalFailure { site: FailureSite::Solver(_) } =>
                "solver output is not finite"@,
            SuperposeError::NumericalFailure { site: FailureSite::Point(_) } =>
                "transformed point is not finite"@,
        }
    }

    /// A short description of the error.
    pub fn message(&self) -> (text: String)
        ensures
            text@ == self.message_text(),
    {
        match self {
            SuperposeError::PointsSizeMismatch { .. } => "points size mismatch!".to_string(),
            SuperposeError::WeightsSizeMismatch { .. } => "weights size mismatch!".to_string(),
            SuperposeError::NumericalFailure { site: FailureSite::Solver(_) } =>
                "solver output is not finite".to_string(),
            SuperposeError::NumericalFailure { site: FailureSite::Point(_) } =>
                "transformed point is not finite".to_string(),
        }
    }
}

} // verus!
