use vstd::prelude::*;

use crate::cell::ArgumentCell;

verus! {

/// An axis-aligned rectangle of the quadtree (`quadtree_core::Rect`), carried
/// through unchanged: its coordinates are floating-point values that the
/// logic here never reads.
#[verifier::external_type_specification]
#[verifier::external_body]
#[verifier::reject_recursive_types(T)]
pub struct ExRect<T>(quadtree_core::Rect<T>);

/// `Clone` of `quadtree_core::Rect`, which is derived there and clones each
/// coordinate. Nothing is claimed of the result: for a general coordinate
/// type the clone of a coordinate is whatever that type's `clone` returns.
pub assume_specification<T: Clone>[ <quadtree_core::Rect<T> as Clone>::clone ](
    rect: &quadtree_core::Rect<T>,
) -> quadtree_core::Rect<T>;

/// A final leaf of the refinement: its raw-coordinate bounds, its depth in
/// the quadtree and the argument-principle data computed for it.
#[derive(Debug, Clone)]
#[verifier::reject_recursive_types(T)]
pub struct ArgumentLeaf<T> {
    pub bounds: quadtree_core::Rect<T>,
    pub depth: usize,
    pub data: ArgumentCell<T>,
}

} // verus!
