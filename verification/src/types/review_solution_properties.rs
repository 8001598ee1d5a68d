use vstd::prelude::*;
use crate::types::review_capture::ReviewCapture;
use crate::types::review_effort::ReviewEffort;
use crate::types::review_selection::ReviewSelection;
use crate::types::review_surface::ReviewSurface;

verus! {

/// What a review solution needs and offers.
#[derive(Eq, PartialEq, Clone, Copy, Debug)]
pub struct ReviewSolutionProperties {
    pub surface: ReviewSurface,
    pub effort: ReviewEffort,
    pub capture: ReviewCapture,
    pub selection: ReviewSelection,
    pub keyboard_selection: bool,
    pub requires_hosted_review: bool,
    pub workflow: &'static str,
    pub tradeoff: &'static str,
}

} // verus!
