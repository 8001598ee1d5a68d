use vstd::prelude::*;
use crate::protocol::{SortDirection, ThreadItemsListParams};

verus! {

/// A request for every item of the thread `thread_id` (its identifier as text), newest first,
/// in pages as large as the app-server allows.
pub fn list_items_params_all_reverse(thread_id: String) -> (params: ThreadItemsListParams)
    ensures
        params.limit == Some(u32::MAX),
        params.cursor is None,
        params.sort_direction == Some(SortDirection::Desc),
        params.thread_id@ == thread_id@,
{
    ThreadItemsListParams {
        limit: Some(u32::MAX),
        cursor: None,
        sort_direction: Some(SortDirection::Desc),
        thread_id,
    }
}

} // verus!
