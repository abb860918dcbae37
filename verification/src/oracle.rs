use vstd::prelude::*;

verus! {

/// How the refinement score of a freshly evaluated cell is formed.
#[derive(Copy, Debug, Clone, PartialEq, Eq, Structural)]
pub enum ScoreRule {
    /// The cell is resolved: its score is zero.
    Zero,
    /// The score is the larger of the winding residual and the integration
    /// error estimate.
    ResidualOrError,
}

/// Chooses the refinement score rule of a cell from its root count and from
/// whether its winding residual is within the configured tolerance.
///
/// A cell whose winding is not close enough to an integer stays eligible for
/// refinement whatever its count; a cell with a trustworthy count of zero is
/// resolved; a cell that still encloses targets keeps a score equal to its
/// numerical uncertainty.
pub fn score_rule(root_count: isize, residual_within_tolerance: bool) -> (rule: ScoreRule)
    ensures
        (rule is Zero) <==> (root_count == 0 && residual_within_tolerance),
        (rule is ResidualOrError) <==> !(root_count == 0 && residual_within_tolerance),
{
    if residual_within_tolerance && root_count == 0 {
        ScoreRule::Zero
    } else {
        ScoreRule::ResidualOrError
    }
}

/// The corner points of the closed contour that surrounds a rectangle.
///
/// The contour starts at the lower-left corner and runs through the
/// lower-right, upper-right and upper-left corners back to its start: once
/// around the rectangle, counter-clockwise, which is the orientation under
/// which the Argument Principle integral counts enclosed zeros positively.
pub fn rectangle_corners<T: Copy>(x_min: T, x_max: T, y_min: T, y_max: T) -> (corners: Vec<(T, T)>)
    ensures
        corners@ == seq![(x_min, y_min), (x_max, y_min), (x_max, y_max), (x_min, y_max), (x_min, y_min)],
        corners@.len() == 5,
        corners@.first() == corners@.last(),
{
    let mut corners: Vec<(T, T)> = Vec::new();
    corners.push((x_min, y_min));
    corners.push((x_max, y_min));
    corners.push((x_max, y_max));
    corners.push((x_min, y_max));
    corners.push((x_min, y_min));
    corners
}

} // verus!
