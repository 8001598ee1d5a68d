use vstd::prelude::*;
use std::cmp::Ordering;
use vstd::std_specs::cmp::PartialOrdSpec;

verus! {

/// How much has to be built for a review solution, from least to most.
#[derive(Ord, Eq, PartialEq, Structural, Hash, Clone, Copy, Debug)]
pub enum ReviewEffort {
    Configuration,
    Adapter,
    Extension,
    Application,
}

impl ReviewEffort {
    /// The position of the effort in the order from least to most.
    pub open spec fn spec_rank(self) -> int {
        match self {
            ReviewEffort::Configuration => 0,
            ReviewEffort::Adapter => 1,
            ReviewEffort::Extension => 2,
            ReviewEffort::Application => 3,
        }
    }

    fn rank(&self) -> (rank: u8)
        ensures
            rank == self.spec_rank(),
    {
        match self {
            ReviewEffort::Configuration => 0,
            ReviewEffort::Adapter => 1,
            ReviewEffort::Extension => 2,
            ReviewEffort::Application => 3,
        }
    }
}

/// Compares two positions.
pub open spec fn compare_ranks(left: int, right: int) -> Option<Ordering> {
    if left < right {
        Some(Ordering::Less)
    } else if left == right {
        Some(Ordering::Equal)
    } else {
        Some(Ordering::Greater)
    }
}

impl PartialOrd for ReviewEffort {
    fn partial_cmp(&self, other: &Self) -> (order: Option<Ordering>) {
        let left = self.rank();
        let right = other.rank();
        if left < right {
            Some(Ordering::Less)
        } else if left == right {
            Some(Ordering::Equal)
        } else {
            Some(Ordering::Greater)
        }
    }
}

impl vstd::std_specs::cmp::PartialOrdSpecImpl for ReviewEffort {
    open spec fn obeys_partial_cmp_spec() -> bool {
        true
    }

    open spec fn partial_cmp_spec(&self, other: &Self) -> Option<Ordering> {
        compare_ranks(self.spec_rank(), other.spec_rank())
    }
}

/// Efforts are ordered from configuration through adapter and extension to application, and two
/// efforts compare equal only when they are the same.
pub proof fn lemma_effort_order(left: ReviewEffort, right: ReviewEffort)
    ensures
        ReviewEffort::Configuration.partial_cmp_spec(&ReviewEffort::Adapter) == Some(Ordering::Less),
        ReviewEffort::Adapter.partial_cmp_spec(&ReviewEffort::Extension) == Some(Ordering::Less),
        ReviewEffort::Extension.partial_cmp_spec(&ReviewEffort::Application) == Some(Ordering::Less),
        (left.partial_cmp_spec(&right) == Some(Ordering::Equal)) <==> left == right,
        left.partial_cmp_spec(&right) == Some(Ordering::Less) <==> right.partial_cmp_spec(&left) == Some(Ordering::Greater),
{
}

} // verus!
