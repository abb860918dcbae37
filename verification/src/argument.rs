use vstd::prelude::*;

verus! {

/// The integration failures that the contour integration backend reports,
/// apart from failures of the integrand itself.
#[derive(Debug, PartialEq, Clone)]
pub enum MinimalIntegratorError<T> {
    /// The maximum number of function evaluations was exceeded before
    /// convergence.
    ExceededMaxFunctionEvaluations,
    /// The error estimate was not finite.
    NonFiniteErrorEstimate,
    /// No segments were found.
    NoSegments,
    /// An integration segment was empty.
    EmptySegment,
    /// The integrand was not finite at `point`.
    NonFiniteIntegrand { point: T },
    /// A possible singularity lies at `singularity`.
    PossibleSingularity { singularity: T },
    /// A refined contour piece became smaller than the minimum.
    PieceTooSmall,
}

/// Integrand corresponding to the logarithmic derivative `f'(z) / f(z)`.
///
/// Integrating it around a closed contour yields the Argument Principle
/// integral from which the enclosed count is obtained. Contour points where
/// `|f(z)|` is at most `zero_tol` are reported as near-singular.
pub struct LogDerivative<'a, F, T> {
    pub function: &'a F,
    pub zero_tol: T,
}

/// Integrand `z^power f'(z) / f(z)` for contour moments of the logarithmic
/// derivative.
///
/// The zeroth moment counts the enclosed targets; the first moment is their
/// sum, counted with multiplicity.
pub struct LogDerivativeMoment<'a, F, T> {
    pub function: &'a F,
    pub power: usize,
    pub zero_tol: T,
}

} // verus!
