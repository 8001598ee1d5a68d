use vstd::prelude::*;

verus! {

/// What a user of CRS needs from it.
#[derive(Ord, PartialOrd, Eq, PartialEq, Structural, Hash, Clone, Copy, Debug)]
pub enum UserNeed {
    Focus,
    Automation,
}

} // verus!
