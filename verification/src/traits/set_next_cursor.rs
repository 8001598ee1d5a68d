use vstd::prelude::*;
use crate::protocol::{ThreadItemsListParams, ThreadListParams};

verus! {

/// Updates a request with a continuation cursor while preserving its other fields.
pub trait SetNextCursor: Sized {
    type Cursor;

    /// The request with its cursor set to `cursor` and every other field kept.
    spec fn spec_with_next_cursor(self, cursor: Self::Cursor) -> Self;

    fn set_next_cursor(&mut self, cursor: Self::Cursor)
        ensures
            *final(self) == old(self).spec_with_next_cursor(cursor),
    ;
}

impl SetNextCursor for ThreadListParams {
    type Cursor = String;

    open spec fn spec_with_next_cursor(self, cursor: String) -> ThreadListParams {
        ThreadListParams { cursor: Some(cursor), ..self }
    }

    fn set_next_cursor(&mut self, cursor: String)
        ensures
            final(self).cursor == Some(cursor),
            final(self).limit == old(self).limit,
            final(self).sort_key == old(self).sort_key,
            final(self).sort_direction == old(self).sort_direction,
            final(self).source_kinds == old(self).source_kinds,
            final(self).model_providers == old(self).model_providers,
            final(self).cwd == old(self).cwd,
            final(self).archived == old(self).archived,
            final(self).search_term == old(self).search_term,
            final(self).use_state_db_only == old(self).use_state_db_only,
    {
        self.cursor = Some(cursor);
    }
}

impl SetNextCursor for ThreadItemsListParams {
    type Cursor = String;

    open spec fn spec_with_next_cursor(self, cursor: String) -> ThreadItemsListParams {
        ThreadItemsListParams { cursor: Some(cursor), ..self }
    }

    fn set_next_cursor(&mut self, cursor: String)
        ensures
            final(self).cursor == Some(cursor),
            final(self).limit == old(self).limit,
            final(self).sort_direction == old(self).sort_direction,
            final(self).thread_id == old(self).thread_id,
    {
        self.cursor = Some(cursor);
    }
}

/// Continuing a thread listing changes only its cursor: the next page is asked for with the same
/// page size, order, sources, providers, working directories, archive flag, search term and store.
pub proof fn lemma_thread_list_cursor_keeps_request(params: ThreadListParams, cursor: String)
    ensures
        ({
            let next = params.spec_with_next_cursor(cursor);
            &&& next.cursor == Some(cursor)
            &&& next.limit == params.limit
            &&& next.sort_key == params.sort_key
            &&& next.sort_direction == params.sort_direction
            &&& next.source_kinds == params.source_kinds
            &&& next.model_providers == params.model_providers
            &&& next.cwd == params.cwd
            &&& next.archived == params.archived
            &&& next.search_term == params.search_term
            &&& next.use_state_db_only == params.use_state_db_only
        }),
{
}

/// Continuing an item listing changes only its cursor: the next page is asked for with the same
/// page size and order, of the same thread.
pub proof fn lemma_thread_items_cursor_keeps_request(params: ThreadItemsListParams, cursor: String)
    ensures
        ({
            let next = params.spec_with_next_cursor(cursor);
            &&& next.cursor == Some(cursor)
            &&& next.limit == params.limit
            &&& next.sort_direction == params.sort_direction
            &&& next.thread_id == params.thread_id
        }),
{
}

} // verus!
