use vstd::prelude::*;

verus! {

/// Parity of a number as a mathematical fact.
pub open spec fn spec_is_even(value: int) -> bool {
    value % 2 == 0
}

/// Returns whether `value` is even.
pub fn is_even(value: u8) -> (even: bool)
    ensures
        even == spec_is_even(value as int),
    decreases value,
{
    match value.checked_sub(1) {
        None => true,
        Some(previous) => is_odd(previous),
    }
}

/// Returns whether `value` is odd.
pub fn is_odd(value: u8) -> (odd: bool)
    ensures
        odd == !spec_is_even(value as int),
    decreases value,
{
    match value.checked_sub(1) {
        None => false,
        Some(previous) => is_even(previous),
    }
}

/// A number is even exactly when its predecessor is odd, which is how the two functions define
/// each other.
pub proof fn lemma_even_iff_predecessor_odd(value: int)
    requires
        value >= 1,
    ensures
        spec_is_even(value) == !spec_is_even(value - 1),
{
}

} // verus!
