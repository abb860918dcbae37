# argloc

Locates zeros and poles of complex functions with the Argument Principle,
contour integration and adaptive quadtree refinement.

- `src/` is the verified library: the sign convention of a search target,
  the argument-principle cell and its score rule, the choice of shifted split
  lines after a boundary singularity, the corner order of a cell's contour,
  and the plan that turns the final leaves into point or cluster estimates,
  with the laws that these decisions obey (`target::lemma_sign_convention`,
  `localisation::lemma_plan_*`).
- `app/` connects those decisions to the floating-point contour integrals of
  `quad_rs` and the refinement engine of `quadtree_core`, and holds the
  high-level `find_zeros`, `find_poles` and `find_singularities`.
- `tests/` exercises the library on concrete values.
