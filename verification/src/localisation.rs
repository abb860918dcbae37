use vstd::prelude::*;

use crate::output::ArgumentLeaf;
use crate::target::SearchTarget;

verus! {

/// Whether an estimate stands for one target or for the centroid of several.
#[derive(Copy, Debug, Clone, PartialEq, Eq, Structural)]
pub enum SingularPointEstimateKind {
    SinglePoint,
    ClusterCentroid,
}

impl SingularPointEstimateKind {
    /// The kind of the estimate drawn from a cell that encloses
    /// `multiplicity` targets.
    pub open spec fn spec_for_multiplicity(multiplicity: int) -> SingularPointEstimateKind {
        if multiplicity == 1 {
            SingularPointEstimateKind::SinglePoint
        } else {
            SingularPointEstimateKind::ClusterCentroid
        }
    }

    /// A cell enclosing exactly one target (counted with multiplicity) gives a
    /// point estimate; a cell enclosing more gives a cluster centroid.
    pub fn for_multiplicity(multiplicity: usize) -> (kind: SingularPointEstimateKind)
        ensures
            kind == Self::spec_for_multiplicity(multiplicity as int),
    {
        if multiplicity == 1 {
            SingularPointEstimateKind::SinglePoint
        } else {
            SingularPointEstimateKind::ClusterCentroid
        }
    }
}

/// One estimate to compute: the leaf whose contour moment is taken, the
/// number of targets it encloses and the kind of the resulting estimate.
///
/// The estimate's location is the first moment of the leaf divided by
/// `multiplicity`.
#[derive(Copy, Debug, Clone, PartialEq, Eq, Structural)]
pub struct LocalisationTarget {
    pub leaf: usize,
    pub multiplicity: usize,
    pub kind: SingularPointEstimateKind,
}

/// The estimate planned for leaf `index` whose root count is `count`.
pub open spec fn planned_target(index: int, count: int) -> LocalisationTarget {
    LocalisationTarget {
        leaf: index as usize,
        multiplicity: count as usize,
        kind: SingularPointEstimateKind::spec_for_multiplicity(count),
    }
}

/// The estimates drawn from leaves with the given root counts: one for each
/// leaf whose count is positive, in leaf order.
pub open spec fn localisation_plan(counts: Seq<isize>) -> Seq<LocalisationTarget>
    decreases counts.len(),
{
    if counts.len() == 0 {
        seq![]
    } else {
        let earlier = localisation_plan(counts.drop_last());
        if counts.last() > 0 {
            earlier.push(planned_target(counts.len() - 1, counts.last() as int))
        } else {
            earlier
        }
    }
}

/// The number of targets enclosed by the leaves, counting only leaves with a
/// positive count.
pub open spec fn positive_count_total(counts: Seq<isize>) -> int
    decreases counts.len(),
{
    if counts.len() == 0 {
        0
    } else {
        positive_count_total(counts.drop_last()) + if counts.last() > 0 {
            counts.last() as int
        } else {
            0
        }
    }
}

/// The total multiplicity of a sequence of estimates.
pub open spec fn multiplicity_total(plan: Seq<LocalisationTarget>) -> int
    decreases plan.len(),
{
    if plan.len() == 0 {
        0
    } else {
        multiplicity_total(plan.drop_last()) + plan.last().multiplicity as int
    }
}

/// The root counts of a sequence of leaves.
pub open spec fn leaf_counts<T>(leaves: Seq<ArgumentLeaf<T>>) -> Seq<isize> {
    leaves.map_values(|leaf: ArgumentLeaf<T>| leaf.data.root_count)
}

/// Why a localisation pass was refused.
#[derive(Copy, Debug, Clone, PartialEq, Eq, Structural)]
pub enum LocalisationError {
    /// In a zero search, leaf `leaf` has the negative count `count`: the
    /// search domain holds poles, so the signed Argument Principle count
    /// cannot be read as a number of zeros.
    NegativeRootCount { leaf: usize, count: isize },
}

/// Plans the localisation pass over the final leaves of a refinement.
///
/// Leaves whose count is zero enclose no target and are skipped; every leaf
/// with a positive count yields one estimate whose multiplicity is the
/// leaf's count. A negative count in a zero search means the search's
/// assumption (no poles in the domain) is violated: the first such leaf is
/// reported as an error. In a pole search zeros subtract from the pole
/// count, and leaves whose count is negative are skipped like empty ones.
pub fn plan_localisation<T>(leaves: &[ArgumentLeaf<T>], target: SearchTarget) -> (result: Result<
    Vec<LocalisationTarget>,
    LocalisationError,
>)
    ensures
        match result {
            Ok(plan) => {
                &&& target is Zeros ==> forall|i: int|
                    0 <= i < leaves@.len() ==> leaves@[i].data.root_count >= 0
                &&& plan@ == localisation_plan(leaf_counts(leaves@))
            },
            Err(LocalisationError::NegativeRootCount { leaf, count }) => {
                &&& target is Zeros
                &&& leaf < leaves@.len()
                &&& leaves@[leaf as int].data.root_count == count
                &&& count < 0
                &&& forall|i: int| 0 <= i < leaf ==> leaves@[i].data.root_count >= 0
            },
        },
{
    let ghost counts = leaf_counts(leaves@);
    let refuse_negative = match target {
        SearchTarget::Zeros => true,
        SearchTarget::Poles => false,
    };
    let mut plan: Vec<LocalisationTarget> = Vec::new();
    let mut i: usize = 0;
    while i < leaves.len()
        invariant
            i <= leaves@.len(),
            counts == leaf_counts(leaves@),
            refuse_negative <==> target is Zeros,
            refuse_negative ==> forall|j: int| 0 <= j < i ==> leaves@[j].data.root_count >= 0,
            plan@ == localisation_plan(counts.take(i as int)),
        decreases leaves@.len() - i,
    {
        let n = leaves[i].data.root_count;
        if refuse_negative && n < 0 {
            return Err(LocalisationError::NegativeRootCount { leaf: i, count: n });
        }
        assert(counts.take(i + 1).drop_last() =~= counts.take(i as int));
        assert(counts.take(i + 1).last() == n);
        if n > 0 {
            let multiplicity = n as usize;
            let target = LocalisationTarget {
                leaf: i,
                multiplicity,
                kind: SingularPointEstimateKind::for_multiplicity(multiplicity),
            };
            plan.push(target);
        }
        i += 1;
    }
    assert(counts.take(leaves@.len() as int) =~= counts);
    Ok(plan)
}

/// Every planned estimate comes from a leaf that encloses targets, carries
/// that leaf's count as its multiplicity, and is a point estimate exactly
/// when the multiplicity is one; the leaves appear in increasing order.
pub proof fn lemma_plan_entries(counts: Seq<isize>)
    requires
        counts.len() <= usize::MAX,
    ensures
        forall|k: int|
            0 <= k < localisation_plan(counts).len() ==> {
                let t = #[trigger] localisation_plan(counts)[k];
                &&& t.leaf < counts.len()
                &&& counts[t.leaf as int] > 0
                &&& t.multiplicity == counts[t.leaf as int]
                &&& (t.kind == SingularPointEstimateKind::SinglePoint <==> t.multiplicity == 1)
            },
        forall|j: int, k: int|
            0 <= j < k < localisation_plan(counts).len() ==> (#[trigger] localisation_plan(
                counts,
            )[j]).leaf < (#[trigger] localisation_plan(counts)[k]).leaf,
    decreases counts.len(),
{
    if counts.len() > 0 {
        let earlier = counts.drop_last();
        lemma_plan_entries(earlier);
        lemma_plan_leaves_bounded(earlier);
    }
}

/// Every planned leaf index lies below the number of leaves.
proof fn lemma_plan_leaves_bounded(counts: Seq<isize>)
    requires
        counts.len() <= usize::MAX,
    ensures
        forall|k: int|
            0 <= k < localisation_plan(counts).len() ==> (#[trigger] localisation_plan(
                counts,
            )[k]).leaf < counts.len(),
    decreases counts.len(),
{
    if counts.len() > 0 {
        lemma_plan_leaves_bounded(counts.drop_last());
    }
}

/// Every leaf that encloses targets yields an estimate.
pub proof fn lemma_plan_complete(counts: Seq<isize>, leaf: int)
    requires
        counts.len() <= usize::MAX,
        0 <= leaf < counts.len(),
        counts[leaf] > 0,
    ensures
        exists|k: int|
            0 <= k < localisation_plan(counts).len() && (#[trigger] localisation_plan(
                counts,
            )[k]).leaf == leaf,
    decreases counts.len(),
{
    let earlier = counts.drop_last();
    if leaf == counts.len() - 1 {
        let k = localisation_plan(earlier).len() as int;
        assert(localisation_plan(counts)[k].leaf == leaf);
    } else {
        lemma_plan_complete(earlier, leaf);
        let k = choose|k: int|
            0 <= k < localisation_plan(earlier).len() && (#[trigger] localisation_plan(
                earlier,
            )[k]).leaf == leaf;
        if counts.last() > 0 {
            assert(localisation_plan(counts)[k] == localisation_plan(earlier)[k]);
        }
        assert(localisation_plan(counts)[k].leaf == leaf);
    }
}

/// The estimates account for every enclosed target exactly once: their
/// multiplicities add up to the total count of the leaves that enclose
/// targets.
pub proof fn lemma_plan_total(counts: Seq<isize>)
    ensures
        multiplicity_total(localisation_plan(counts)) == positive_count_total(counts),
    decreases counts.len(),
{
    if counts.len() > 0 {
        let earlier = counts.drop_last();
        lemma_plan_total(earlier);
        if counts.last() > 0 {
            let plan = localisation_plan(counts);
            assert(plan.drop_last() =~= localisation_plan(earlier));
        }
    }
}

/// A leaf is localised exactly when its cell contains roots: the leaves named
/// by the plan are precisely those whose count is positive.
pub proof fn lemma_plan_covers_root_cells<T>(leaves: Seq<ArgumentLeaf<T>>, leaf: int)
    requires
        leaves.len() <= usize::MAX,
        0 <= leaf < leaves.len(),
    ensures
        (exists|k: int|
            0 <= k < localisation_plan(leaf_counts(leaves)).len() && (#[trigger] localisation_plan(
                leaf_counts(leaves),
            )[k]).leaf == leaf) <==> leaves[leaf].data.spec_contains_roots(),
{
    let counts = leaf_counts(leaves);
    lemma_plan_entries(counts);
    if leaves[leaf].data.spec_contains_roots() {
        lemma_plan_complete(counts, leaf);
    }
}

} // verus!
