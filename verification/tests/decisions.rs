use argloc::{
    plan_localisation, rectangle_corners, retry_shifts, score_rule, ArgumentCell, ArgumentLeaf,
    LocalisationError, LocalisationTarget, MinimalIntegratorError, ScoreRule, SearchTarget,
    SingularPointEstimateKind, SplitShift,
};
use quadtree_core::Rect;

fn leaf(count: isize) -> ArgumentLeaf<f64> {
    ArgumentLeaf {
        bounds: Rect::new(0.0, 1.0, 0.0, 1.0).unwrap(),
        depth: 1,
        data: ArgumentCell::new(count, 0.0, 0.0, 0.0),
    }
}

fn leaves(counts: &[isize]) -> Vec<ArgumentLeaf<f64>> {
    counts.iter().map(|&c| leaf(c)).collect()
}

#[test]
fn sign_isize_is_one_for_zeros_and_minus_one_for_poles() {
    assert_eq!(SearchTarget::Zeros.sign_isize(), 1);
    assert_eq!(SearchTarget::Poles.sign_isize(), -1);
}

#[test]
fn reading_a_count_twice_with_the_same_target_gives_it_back() {
    for target in [SearchTarget::Zeros, SearchTarget::Poles] {
        let count: isize = -3;
        assert_eq!(target.sign_isize() * (target.sign_isize() * count), count);
    }
    assert_eq!(SearchTarget::Poles.sign_isize(), -SearchTarget::Zeros.sign_isize());
}

#[test]
fn cell_new_stores_its_fields() {
    let cell = ArgumentCell::new(2, 0.25, 0.5, 0.75);
    assert_eq!(cell.root_count, 2);
    assert_eq!(cell.residual, 0.25);
    assert_eq!(cell.integration_error, 0.5);
    assert_eq!(cell.score, 0.75);
}

#[test]
fn contains_roots_only_for_positive_counts() {
    assert!(ArgumentCell::new(1, 0.0, 0.0, 0.0).contains_roots());
    assert!(ArgumentCell::new(3, 0.0, 0.0, 0.0).contains_roots());
    assert!(!ArgumentCell::new(0, 0.0, 0.0, 0.0).contains_roots());
    assert!(!ArgumentCell::new(-1, 0.0, 0.0, 0.0).contains_roots());
}

#[test]
fn is_resolved_when_score_is_at_most_zero() {
    assert!(ArgumentCell::new(0, 0.0, 0.0, 0.0_f64).is_resolved());
    assert!(ArgumentCell::new(0, 0.0, 0.0, -1.0_f64).is_resolved());
    assert!(!ArgumentCell::new(1, 0.0, 0.0, 1e-9_f64).is_resolved());
    assert!(!ArgumentCell::new(1, 0.0, 0.0, f64::NAN).is_resolved());
}

#[test]
fn score_rule_resolves_only_trustworthy_empty_cells() {
    assert_eq!(score_rule(0, true), ScoreRule::Zero);
    assert_eq!(score_rule(0, false), ScoreRule::ResidualOrError);
    assert_eq!(score_rule(1, true), ScoreRule::ResidualOrError);
    assert_eq!(score_rule(2, false), ScoreRule::ResidualOrError);
    assert_eq!(score_rule(-1, true), ScoreRule::ResidualOrError);
}

#[test]
fn retry_is_declined_for_other_failures() {
    assert_eq!(retry_shifts(false, true, true), None);
    assert_eq!(retry_shifts(false, false, false), None);
}

#[test]
fn retry_moves_split_lines_away_from_the_singular_point() {
    // A point on the centre line in x and below the centre in y: the
    // vertical split moves below the centre, the horizontal one above it.
    assert_eq!(
        retry_shifts(true, true, false),
        Some((SplitShift::BelowCentre, SplitShift::AboveCentre))
    );
    assert_eq!(
        retry_shifts(true, false, true),
        Some((SplitShift::AboveCentre, SplitShift::BelowCentre))
    );
    assert_eq!(
        retry_shifts(true, true, true),
        Some((SplitShift::BelowCentre, SplitShift::BelowCentre))
    );
    assert_eq!(
        retry_shifts(true, false, false),
        Some((SplitShift::AboveCentre, SplitShift::AboveCentre))
    );
}

#[test]
fn kind_is_single_point_only_for_multiplicity_one() {
    assert_eq!(
        SingularPointEstimateKind::for_multiplicity(1),
        SingularPointEstimateKind::SinglePoint
    );
    assert_eq!(
        SingularPointEstimateKind::for_multiplicity(2),
        SingularPointEstimateKind::ClusterCentroid
    );
    assert_eq!(
        SingularPointEstimateKind::for_multiplicity(7),
        SingularPointEstimateKind::ClusterCentroid
    );
}

#[test]
fn plan_skips_empty_leaves_and_keeps_leaf_order() {
    let plan = plan_localisation(&leaves(&[0, 1, 0, 2, 3]), SearchTarget::Zeros).unwrap();
    assert_eq!(
        plan,
        vec![
            LocalisationTarget {
                leaf: 1,
                multiplicity: 1,
                kind: SingularPointEstimateKind::SinglePoint,
            },
            LocalisationTarget {
                leaf: 3,
                multiplicity: 2,
                kind: SingularPointEstimateKind::ClusterCentroid,
            },
            LocalisationTarget {
                leaf: 4,
                multiplicity: 3,
                kind: SingularPointEstimateKind::ClusterCentroid,
            },
        ]
    );
}

#[test]
fn plan_multiplicities_add_up_to_the_enclosed_count() {
    let counts = [2, 0, 1, 1, 0, 4];
    let plan = plan_localisation(&leaves(&counts), SearchTarget::Zeros).unwrap();
    let total: usize = plan.iter().map(|t| t.multiplicity).sum();
    assert_eq!(total, 8);
}

#[test]
fn plan_of_leaves_without_targets_is_empty() {
    assert!(plan_localisation(&leaves(&[0, 0, 0, 0]), SearchTarget::Zeros).unwrap().is_empty());
    assert!(plan_localisation::<f64>(&[], SearchTarget::Zeros).unwrap().is_empty());
}

#[test]
fn plan_reports_the_first_negative_count() {
    let err = plan_localisation(&leaves(&[1, 0, -1, 2, -2]), SearchTarget::Zeros).unwrap_err();
    assert_eq!(err, LocalisationError::NegativeRootCount { leaf: 2, count: -1 });
}

#[test]
fn rectangle_corners_run_once_around_counter_clockwise() {
    let corners = rectangle_corners(10.0, 20.0, -5.0, 5.0);
    assert_eq!(
        corners,
        vec![(10.0, -5.0), (20.0, -5.0), (20.0, 5.0), (10.0, 5.0), (10.0, -5.0)]
    );
}

#[test]
fn minimal_integrator_errors_compare_by_variant_and_point() {
    let a: MinimalIntegratorError<f64> = MinimalIntegratorError::PossibleSingularity { singularity: 0.5 };
    assert_eq!(a.clone(), a);
    assert_ne!(a, MinimalIntegratorError::NonFiniteIntegrand { point: 0.5 });
}

#[test]
fn leaf_clone_keeps_bounds_depth_and_data() {
    let original = ArgumentLeaf {
        bounds: Rect::new(-1.0, 2.0, 0.5, 1.5).unwrap(),
        depth: 3,
        data: ArgumentCell::new(2, 1e-9, 1e-12, 1e-9),
    };
    let copy = original.clone();
    assert_eq!(copy.bounds, original.bounds);
    assert_eq!(copy.depth, 3);
    assert_eq!(copy.data.root_count, 2);
    assert_eq!(copy.data.score, 1e-9);
}

#[test]
fn plan_marks_exactly_the_root_containing_leaves() {
    let ls = leaves(&[3, 0, 1, 0]);
    let plan = plan_localisation(&ls, SearchTarget::Zeros).unwrap();
    for (i, l) in ls.iter().enumerate() {
        let planned = plan.iter().any(|t| t.leaf == i);
        assert_eq!(planned, l.data.contains_roots());
    }
}

#[test]
fn pole_search_skips_leaves_with_negative_counts() {
    let plan = plan_localisation(&leaves(&[-1, 2, 0, -2, 1]), SearchTarget::Poles).unwrap();
    assert_eq!(
        plan,
        vec![
            LocalisationTarget {
                leaf: 1,
                multiplicity: 2,
                kind: SingularPointEstimateKind::ClusterCentroid,
            },
            LocalisationTarget {
                leaf: 4,
                multiplicity: 1,
                kind: SingularPointEstimateKind::SinglePoint,
            },
        ]
    );
    assert!(plan_localisation(&leaves(&[-1, -3, 0]), SearchTarget::Poles).unwrap().is_empty());
}
