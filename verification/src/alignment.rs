//! The orchestrator: what may be superposed, and what becomes of a solver's
//! answer.
//!
//! A superposition pairs point `i` of the candidate with point `i` of the
//! reference, so both sets, and the weights if there are any, must have the
//! same length. That is settled before any solver runs. Whether the solver's
//! numbers are usable is settled after it returns, and before anything is
//! handed back to the caller.

use vstd::prelude::*;
use crate::algo::SuperpositionAlgo;
use crate::binary64::all_finite;
use crate::binary64::are_finite;
use crate::binary64::encodes_finite;
use crate::binary64::is_finite;
use crate::binary64::lemma_kinds;
use crate::binary64::ONE;
use crate::binary64::ZERO;
use crate::error::FailureSite;
use crate::error::SuperposeError;

verus! {

/// Whether a reference of `nref` points, and `nweights` weights if any were
/// given, fit a candidate of `npts` points.
pub open spec fn sizes_agree(npts: usize, nref: usize, nweights: Option<usize>) -> bool {
    &&& nref == npts
    &&& nweights matches Some(n) ==> n == npts
}

/// The mismatch that is reported of sizes that do not agree.
///
/// The reference is looked at first: when it does not fit, its mismatch is
/// the one reported, whatever the weights are.
pub open spec fn size_mismatch(npts: usize, nref: usize, nweights: Option<usize>) -> SuperposeError
    recommends
        !sizes_agree(npts, nref, nweights),
{
    if nref != npts {
        SuperposeError::PointsSizeMismatch { expected: npts, found: nref }
    } else {
        SuperposeError::WeightsSizeMismatch { expected: npts, found: nweights.unwrap() }
    }
}

/// Validates the sizes of a request: `Ok` where they agree, and otherwise the
/// mismatch that [`size_mismatch`] names.
pub fn check_sizes(npts: usize, nref: usize, nweights: Option<usize>) -> (r: Result<
    (),
    SuperposeError,
>)
    ensures
        sizes_agree(npts, nref, nweights) ==> r == Ok::<(), SuperposeError>(()),
        !sizes_agree(npts, nref, nweights) ==> r == Err::<(), SuperposeError>(
            size_mismatch(npts, nref, nweights),
        ),
        r matches Err(e) ==> e.is_size_mismatch(),
{
    if nref != npts {
        return Err(SuperposeError::PointsSizeMismatch { expected: npts, found: nref });
    }
    match nweights {
        Some(n) => {
            if n != npts {
                return Err(SuperposeError::WeightsSizeMismatch { expected: npts, found: n });
            }
        },
        None => {},
    }
    Ok(())
}

/// The rows of the identity matrix, one after the other, as encodings.
pub open spec fn identity_rotation() -> Seq<u64> {
    seq![ONE, ZERO, ZERO, ZERO, ONE, ZERO, ZERO, ZERO, ONE]
}

/// What a solver hands back, each number as its encoding.
#[derive(Clone, Copy, Debug, PartialEq, Eq)]
pub struct SolverOutput {
    /// The residual that is left once the candidate is rotated and moved.
    pub rmsd: u64,
    /// The translation that follows the rotation.
    pub translation: [u64; 3],
    /// The rotation matrix, row by row; `None` where the solver judged a
    /// rotation unnecessary.
    pub rotation: Option<[u64; 9]>,
}

impl SolverOutput {
    /// No part of the output holds an infinity or a NaN.
    pub open spec fn is_finite(self) -> bool {
        &&& encodes_finite(self.rmsd)
        &&& all_finite(self.translation@)
        &&& self.rotation matches Some(m) ==> all_finite(m@)
    }

    /// The rotation that a superposition built from this output carries: the
    /// solver's where it gave one, the identity where it did not.
    pub open spec fn rotation_or_identity(self) -> Seq<u64> {
        match self.rotation {
            Some(m) => m@,
            None => identity_rotation(),
        }
    }
}

/// How to superimpose: a rotation, then a translation, with the residual
/// that they leave. Each number is held as its encoding.
#[derive(Clone, Copy, Debug, PartialEq, Eq)]
pub struct Superposition {
    /// The residual of the aligned point sets.
    pub rmsd: u64,
    /// The translation vector.
    pub translation: [u64; 3],
    /// The rotation matrix, row by row.
    pub rotation_matrix: [u64; 9],
}

impl Superposition {
    /// Every number of the superposition is finite. It holds of every value
    /// that [`Admission::conclude`] returns.
    pub open spec fn wf(self) -> bool {
        &&& encodes_finite(self.rmsd)
        &&& all_finite(self.translation@)
        &&& all_finite(self.rotation_matrix@)
    }
}

/// A request that passed validation and may be handed to a solver.
///
/// It can be had from [`Alignment::superpose`] only, so whoever holds one
/// knows that the sizes were checked.
#[derive(Clone, Copy, Debug)]
pub struct Admission {
    npts: usize,
    weighted: bool,
    algorithm: SuperpositionAlgo,
}

impl Admission {
    /// The number of points in the candidate, hence in the reference.
    pub closed spec fn points(self) -> usize {
        self.npts
    }

    /// Whether the request came with weights, one for each point.
    pub closed spec fn has_weights(self) -> bool {
        self.weighted
    }

    /// The strategy that was selected when the request was admitted.
    pub closed spec fn solver(self) -> SuperpositionAlgo {
        self.algorithm
    }

    /// Executable form of [`points`](Self::points).
    #[verifier::when_used_as_spec(points)]
    pub fn npts(self) -> (n: usize)
        ensures
            n == self.points(),
    {
        self.npts
    }

    /// Executable form of [`has_weights`](Self::has_weights).
    #[verifier::when_used_as_spec(has_weights)]
    pub fn weighted(self) -> (w: bool)
        ensures
            w == self.has_weights(),
    {
        self.weighted
    }

    /// Executable form of [`solver`](Self::solver).
    #[verifier::when_used_as_spec(solver)]
    pub fn algorithm(self) -> (a: SuperpositionAlgo)
        ensures
            a == self.solver(),
    {
        self.algorithm
    }

    /// Judges the solver's output and packages it.
    ///
    /// An output with anything not finite in it is a numerical failure of
    /// the admitted strategy. Otherwise the superposition stands, with the
    /// solver's residual and translation as they are, and with the solver's
    /// rotation where it gave one and exactly the identity where it did not.
    pub fn conclude(self, output: SolverOutput) -> (r: Result<Superposition, SuperposeError>)
        ensures
            output.is_finite() <==> r is Ok,
            r matches Ok(sp) ==> {
                &&& sp.rmsd == output.rmsd
                &&& sp.translation == output.translation
                &&& sp.rotation_matrix@ == output.rotation_or_identity()
                &&& sp.wf()
            },
            r matches Err(e) ==> e == (SuperposeError::NumericalFailure {
                site: FailureSite::Solver(self.solver()),
            }) && !e.is_size_mismatch(),
    {
        let failure = SuperposeError::NumericalFailure {
            site: FailureSite::Solver(self.algorithm),
        };
        if !is_finite(output.rmsd) || !are_finite(output.translation.as_slice()) {
            return Err(failure);
        }
        let rotation_matrix = match output.rotation {
            Some(m) => {
                if !are_finite(m.as_slice()) {
                    return Err(failure);
                }
                m
            },
            None => {
                let id: [u64; 9] = [ONE, ZERO, ZERO, ZERO, ONE, ZERO, ZERO, ZERO, ONE];
                proof {
                    lemma_kinds(ZERO);
                    assert(id@ =~= identity_rotation());
                }
                id
            },
        };
        Ok(Superposition { rmsd: output.rmsd, translation: output.translation, rotation_matrix })
    }
}

/// The alignment of a candidate onto references that are yet to come.
#[derive(Clone, Copy, Debug)]
pub struct Alignment {
    /// The number of points in the candidate.
    pub npts: usize,
    /// The strategy that the next superposition will use.
    pub algorithm: SuperpositionAlgo,
}

impl Alignment {
    /// An alignment of a candidate of `npts` points, by the default
    /// strategy. The strategy may be changed afterwards.
    pub fn new(npts: usize) -> (a: Alignment)
        ensures
            a.npts == npts,
            a.algorithm == SuperpositionAlgo::QCP,
    {
        Alignment { npts, algorithm: SuperpositionAlgo::QCP }
    }

    /// Asks for the superposition of the candidate onto a reference of
    /// `nref` points, weighted by `nweights` weights if any are given. The
    /// request is granted or refused for its sizes, exactly as
    /// [`check_sizes`] decides, and before anything is computed.
    pub fn superpose(&self, nref: usize, nweights: Option<usize>) -> (r: Result<
        Admission,
        SuperposeError,
    >)
        ensures
            sizes_agree(self.npts, nref, nweights) <==> r is Ok,
            r matches Ok(a) ==> a.points() == self.npts && a.has_weights() == (nweights is Some)
                && a.solver() == self.algorithm,
            r matches Err(e) ==> e == size_mismatch(self.npts, nref, nweights)
                && e.is_size_mismatch(),
    {
        match check_sizes(self.npts, nref, nweights) {
            Ok(()) => Ok(
                Admission {
                    npts: self.npts,
                    weighted: nweights.is_some(),
                    algorithm: self.algorithm,
                },
            ),
            Err(e) => Err(e),
        }
    }
}

} // verus!
