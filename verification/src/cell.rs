use vstd::prelude::*;
use vstd::std_specs::cmp::PartialOrdSpec;

verus! {

/// Data stored on a quadtree leaf during argument-principle refinement.
///
/// It holds only what root counting and refinement control need: the
/// estimated number of enclosed targets, the distance of the computed winding
/// from that integer, the integration error estimate and the refinement
/// score. A score of zero means the cell is considered resolved.
#[derive(Debug, Clone)]
pub struct ArgumentCell<F> {
    /// Estimated number of targets enclosed by the cell contour, counted
    /// with multiplicity (signed by the search target's convention).
    pub root_count: isize,
    /// Distance between the computed winding number and the nearest integer.
    pub residual: F,
    /// Error estimate reported by the contour integration backend.
    pub integration_error: F,
    /// Scalar refinement score consumed by the quadtree policy.
    pub score: F,
}

impl<F> ArgumentCell<F> {
    /// Creates a new argument-principle cell payload.
    pub fn new(root_count: isize, residual: F, integration_error: F, score: F) -> (cell: Self)
        ensures
            cell.root_count == root_count,
            cell.residual == residual,
            cell.integration_error == integration_error,
            cell.score == score,
    {
        ArgumentCell { root_count, residual, integration_error, score }
    }

    /// Whether the cell encloses at least one target.
    pub open spec fn spec_contains_roots(&self) -> bool {
        self.root_count > 0
    }

    /// Returns true if the cell contains at least one root.
    pub fn contains_roots(&self) -> (contains: bool)
        ensures
            contains == self.spec_contains_roots(),
    {
        self.root_count > 0
    }
}

impl<F: PartialOrd + Default> ArgumentCell<F> {
    /// Returns true if the cell's score is at most zero, the default value of
    /// the score type.
    ///
    /// The result is what the score type's `<=` returns for the score and
    /// that zero; where the type's ordering follows its specification, this
    /// is exactly whether `score <= zero`.
    pub fn is_resolved(&self) -> (resolved: bool)
        ensures
            exists|zero: F|
                {
                    &&& call_ensures(F::default, (), zero)
                    &&& call_ensures(F::le, (&self.score, &zero), resolved)
                    &&& F::obeys_partial_cmp_spec() ==> (resolved <==> self.score.partial_cmp_spec(
                        &zero,
                    ) matches Some(core::cmp::Ordering::Less | core::cmp::Ordering::Equal))
                },
    {
        let zero = F::default();
        self.score <= zero
    }
}

} // verus!
