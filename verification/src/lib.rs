//! Zero and pole location for complex functions by the Argument Principle.
//!
//! This crate holds the discrete decisions of the search: the sign convention
//! of a search target, the per-cell root counts and refinement rules, the
//! choice of shifted split lines after a boundary singularity, and the plan
//! that turns root-counting leaves into point or cluster estimates.

pub mod argument;
pub mod cell;
pub mod function;
pub mod localisation;
pub mod oracle;
pub mod output;
pub mod subdivision;
pub mod target;

pub use argument::{LogDerivative, LogDerivativeMoment, MinimalIntegratorError};
pub use cell::ArgumentCell;
pub use function::HolomorphicFunction;
pub use localisation::{
    LocalisationError, LocalisationTarget, SingularPointEstimateKind, plan_localisation,
};
pub use output::ArgumentLeaf;
pub use oracle::{ScoreRule, rectangle_corners, score_rule};
pub use subdivision::{ShiftSplitOnBoundary, SplitShift, retry_shifts};
pub use target::SearchTarget;
