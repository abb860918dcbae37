use vstd::prelude::*;

verus! {

/// Which kind of singular point a search is looking for.
///
/// The Argument Principle integral counts `N - P`, zeros minus poles. A zero
/// search reads that signed count as it is; a pole search reverses the sign so
/// that poles contribute positive counts.
#[derive(Copy, Debug, Clone, PartialEq, Eq, Structural)]
pub enum SearchTarget {
    Zeros,
    Poles,
}

impl SearchTarget {
    /// The sign by which the normalised winding integral is multiplied.
    pub open spec fn spec_sign(self) -> int {
        match self {
            SearchTarget::Zeros => 1,
            SearchTarget::Poles => -1,
        }
    }

    /// The sign convention of this target as an integer: `1` for zeros and
    /// `-1` for poles.
    pub fn sign_isize(self) -> (sign: isize)
        ensures
            sign == self.spec_sign(),
            sign == 1 || sign == -1,
    {
        match self {
            SearchTarget::Zeros => 1,
            SearchTarget::Poles => -1,
        }
    }
}

/// The two targets read the same signed winding with opposite signs, and
/// each sign is its own inverse: reading a count twice with the same target
/// gives the count back.
pub proof fn lemma_sign_convention(target: SearchTarget, count: int)
    ensures
        SearchTarget::Poles.spec_sign() == -SearchTarget::Zeros.spec_sign(),
        target.spec_sign() * target.spec_sign() == 1,
        target.spec_sign() * (target.spec_sign() * count) == count,
{
}

} // verus!
