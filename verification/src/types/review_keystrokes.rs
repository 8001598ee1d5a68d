use vstd::prelude::*;

verus! {

/// The total number of keystrokes for one representative review.
#[derive(Ord, PartialOrd, Eq, PartialEq, Structural, Hash, Clone, Copy, Debug)]
pub struct ReviewKeystrokes(pub u64);

impl Default for ReviewKeystrokes {
    fn default() -> (keystrokes: Self)
        ensures
            keystrokes.0 == 0,
    {
        ReviewKeystrokes(0)
    }
}

impl From<u64> for ReviewKeystrokes {
    fn from(value: u64) -> (keystrokes: Self) {
        ReviewKeystrokes(value)
    }
}

impl vstd::std_specs::convert::FromSpecImpl<u64> for ReviewKeystrokes {
    open spec fn obeys_from_spec() -> bool {
        true
    }

    open spec fn from_spec(value: u64) -> Self {
        ReviewKeystrokes(value)
    }
}

} // verus!
