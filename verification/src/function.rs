use vstd::prelude::*;

verus! {

/// A complex function supplied together with its first derivative.
///
/// The pair is used to evaluate the logarithmic derivative `f'(z) / f(z)`
/// whose contour integral is the Argument Principle count. Functions are
/// assumed analytic inside the search domain, except at isolated poles when
/// poles are what is being searched for.
pub trait HolomorphicFunction {
    type Complex;

    /// Evaluates the function at `z`.
    fn value(&self, z: Self::Complex) -> Self::Complex;

    /// Evaluates the first derivative at `z`.
    fn derivative(&self, z: Self::Complex) -> Self::Complex;
}

} // verus!
