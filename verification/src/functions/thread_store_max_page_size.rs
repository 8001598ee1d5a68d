use vstd::prelude::*;

verus! {

/// The largest page size that the thread store accepts: `i64::MAX - 1`, or `usize::MAX - 1`
/// where `usize` is narrower.
pub open spec fn spec_thread_store_max_page_size() -> int {
    if i64::MAX - 1 <= usize::MAX {
        i64::MAX - 1
    } else {
        usize::MAX - 1
    }
}

/// The store fetches one extra row and requires that limit to fit in i64.
pub fn thread_store_max_page_size() -> (size: usize)
    ensures
        size == spec_thread_store_max_page_size(),
        size + 1 <= i64::MAX,
        size + 1 <= usize::MAX,
{
    match usize::try_from(i64::MAX - 1) {
        Ok(size) => size,
        Err(_) => usize::MAX - 1,
    }
}

} // verus!
