use vstd::prelude::*;

verus! {

/// The granularity at which a review solution selects diff text.
#[derive(Eq, PartialEq, Structural, Hash, Clone, Copy, Debug)]
pub enum ReviewSelection {
    SingleLine,
    Characters,
    Lines,
    WholeHunks,
}

impl ReviewSelection {
    pub open spec fn spec_supports_partial_hunks(self) -> bool {
        self is SingleLine || self is Characters || self is Lines
    }

    pub open spec fn spec_supports_multiline_ranges(self) -> bool {
        self is Characters || self is Lines
    }

    pub fn supports_partial_hunks(self) -> (supports: bool)
        ensures
            supports == self.spec_supports_partial_hunks(),
    {
        matches!(self, ReviewSelection::SingleLine | ReviewSelection::Characters | ReviewSelection::Lines)
    }

    pub fn supports_multiline_ranges(self) -> (supports: bool)
        ensures
            supports == self.spec_supports_multiline_ranges(),
    {
        matches!(self, ReviewSelection::Characters | ReviewSelection::Lines)
    }
}

/// Whatever selects multiline ranges can select part of a hunk; only whole-hunk selection cannot.
pub proof fn lemma_multiline_ranges_imply_partial_hunks(selection: ReviewSelection)
    ensures
        selection.spec_supports_multiline_ranges() ==> selection.spec_supports_partial_hunks(),
        selection is WholeHunks <==> !selection.spec_supports_partial_hunks(),
{
}

} // verus!
