use vstd::prelude::*;

verus! {

/// What a review solution keeps of a selected diff fragment.
#[derive(Eq, PartialEq, Structural, Hash, Clone, Copy, Debug)]
pub enum ReviewCapture {
    RenderedText,
    PatchSnapshot,
    PatchSnapshotWithCoordinates,
}

impl ReviewCapture {
    pub open spec fn spec_preserves_exact_patch(self) -> bool {
        self is PatchSnapshot || self is PatchSnapshotWithCoordinates
    }

    pub open spec fn spec_preserves_file_and_side(self) -> bool {
        self is PatchSnapshotWithCoordinates
    }

    pub fn preserves_exact_patch(self) -> (preserves: bool)
        ensures
            preserves == self.spec_preserves_exact_patch(),
    {
        matches!(self, ReviewCapture::PatchSnapshot | ReviewCapture::PatchSnapshotWithCoordinates)
    }

    pub fn preserves_file_and_side(self) -> (preserves: bool)
        ensures
            preserves == self.spec_preserves_file_and_side(),
    {
        matches!(self, ReviewCapture::PatchSnapshotWithCoordinates)
    }
}

/// A capture that keeps the file and side keeps the exact patch too; rendered text keeps neither.
pub proof fn lemma_file_and_side_implies_exact_patch(capture: ReviewCapture)
    ensures
        capture.spec_preserves_file_and_side() ==> capture.spec_preserves_exact_patch(),
        capture is RenderedText <==> !capture.spec_preserves_exact_patch(),
{
}

} // verus!
