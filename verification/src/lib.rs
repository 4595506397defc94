//! The decisions of a rigid superposition: which requests are admissible,
//! when a solver's iteration stops and which of its rows gives the rotation,
//! and how its output turns into a transform or an error.
//!
//! The crate computes nothing with real numbers. Where a decision depends on
//! one, the number comes in as its IEEE 754 binary64 encoding, a `u64`, and
//! is looked at, not calculated with: see [`binary64`]. The arithmetic of a
//! superposition (centers, correlation and key matrices, eigenvalues) is the
//! caller's; every rule around it is stated, and proved, here.

pub mod alignment;
pub mod algo;
pub mod binary64;
pub mod error;
pub mod points;
pub mod qcp;
pub mod quaternion;
pub mod weights;

pub use crate::alignment::check_sizes;
pub use crate::alignment::Admission;
pub use crate::alignment::Alignment;
pub use crate::alignment::SolverOutput;
pub use crate::alignment::Superposition;
pub use crate::algo::SuperpositionAlgo;
pub use crate::error::FailureSite;
pub use crate::error::SuperposeError;
pub use crate::points::check_points;
pub use crate::qcp::already_coincide;
pub use crate::qcp::newton_step;
pub use crate::qcp::pick_row;
pub use crate::qcp::NewtonStep;
pub use crate::qcp::NEWTON_LIMIT;
pub use crate::quaternion::clamp_residual;
pub use crate::quaternion::select_eigenvalue;
pub use crate::weights::weights_are_degenerate;
