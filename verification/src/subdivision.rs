use vstd::prelude::*;

verus! {

/// Subdivision policy that retries a failed split with split lines moved
/// away from a boundary singularity.
///
/// Each split line is moved from the parent's centre by `shift_fraction`
/// times the parent's width (for the vertical line) or height (for the
/// horizontal line).
pub struct ShiftSplitOnBoundary<T> {
    pub shift_fraction: T,
}

/// The side of the parent's centre on which a retried split line is placed.
#[derive(Copy, Debug, Clone, PartialEq, Eq, Structural)]
pub enum SplitShift {
    /// The split line is placed at `centre - fraction * extent`.
    BelowCentre,
    /// The split line is placed at `centre + fraction * extent`.
    AboveCentre,
}

/// Decides how a failed subdivision is retried.
///
/// Only a boundary singularity is recoverable: any other failure is handed
/// back unchanged (`None`). For a boundary singularity, each split line is
/// moved to the side of the centre opposite to the singular point, so that
/// the point falls inside a child rather than on its edge: a coordinate at
/// or past the centre moves the line below the centre, a coordinate before
/// it moves the line above.
pub fn retry_shifts(
    is_boundary_singularity: bool,
    x_at_or_past_centre: bool,
    y_at_or_past_centre: bool,
) -> (shifts: Option<(SplitShift, SplitShift)>)
    ensures
        shifts is Some <==> is_boundary_singularity,
        shifts matches Some((x_shift, y_shift)) ==> {
            &&& (x_shift is BelowCentre <==> x_at_or_past_centre)
            &&& (y_shift is BelowCentre <==> y_at_or_past_centre)
        },
{
    if !is_boundary_singularity {
        return None;
    }
    let x_shift = if x_at_or_past_centre {
        SplitShift::BelowCentre
    } else {
        SplitShift::AboveCentre
    };
    let y_shift = if y_at_or_past_centre {
        SplitShift::BelowCentre
    } else {
        SplitShift::AboveCentre
    };
    Some((x_shift, y_shift))
}

} // verus!
