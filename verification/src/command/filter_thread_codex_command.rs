use vstd::prelude::*;
use crate::command::item_window::ItemWindow;
use crate::functions::list_threads_params_all_reverse::{all_thread_source_kinds, list_threads_params_all_reverse};
use crate::protocol::{SortDirection, ThreadListCwdFilter, ThreadListParams, ThreadSortKey};

verus! {

/// Filter Codex threads, emitting JSONL newest first.
#[derive(Clone, Debug)]
pub struct FilterThreadCodexCommand {
    /// Search the thread title or preview.
    pub search_term: Option<String>,
    /// Restrict threads to these working directories; omit to search all directories.
    pub cwd_filters: Vec<String>,
    /// Number of matching threads to skip, starting with the newest.
    pub offset: usize,
    /// Maximum number of threads to emit.
    pub limit: usize,
}

/// The page size to ask for: enough threads to cover the skipped and the emitted ones,
/// capped at `u32::MAX`.
pub open spec fn spec_filter_page_limit(offset: usize, limit: usize) -> u32 {
    if offset + limit <= u32::MAX {
        (offset + limit) as u32
    } else {
        u32::MAX
    }
}

/// The page size for skipping `offset` threads and emitting `limit` of them.
pub fn filter_page_limit(offset: usize, limit: usize) -> (page_limit: u32)
    ensures
        page_limit == spec_filter_page_limit(offset, limit),
{
    match offset.checked_add(limit) {
        Some(count) => match u32::try_from(count) {
            Ok(count) => count,
            Err(_) => u32::MAX,
        },
        None => u32::MAX,
    }
}

impl FilterThreadCodexCommand {
    /// The first request of the listing and the window of threads to emit. The request is
    /// [`list_threads_params_all_reverse`] of the working directories and search term with its page
    /// size set to `offset + limit` threads (capped at `u32::MAX`): every unarchived thread from any
    /// source and provider in the given working directories (all when none is given) that matches
    /// the search term, newest first, read from the state database. The first `offset` threads are
    /// skipped and the next `limit` emitted.
    pub fn plan(self) -> (plan: (ThreadListParams, ItemWindow))
        ensures
            plan.0.limit == Some(spec_filter_page_limit(self.offset, self.limit)),
            plan.0.cursor is None,
            plan.0.sort_key == Some(ThreadSortKey::CreatedAt),
            plan.0.sort_direction == Some(SortDirection::Desc),
            plan.0.source_kinds matches Some(kinds) && kinds@ == all_thread_source_kinds(),
            plan.0.model_providers matches Some(providers) && providers@.len() == 0,
            self.cwd_filters@.len() == 0 ==> plan.0.cwd is None,
            self.cwd_filters@.len() > 0 ==> (plan.0.cwd matches Some(ThreadListCwdFilter::Many(filters))
                && filters@ == self.cwd_filters@),
            plan.0.archived == Some(false),
            plan.0.search_term == self.search_term,
            plan.0.use_state_db_only,
            plan.1.skip_remaining == self.offset,
            plan.1.take_remaining == self.limit,
    {
        let FilterThreadCodexCommand { search_term, cwd_filters, offset, limit } = self;
        let mut params = list_threads_params_all_reverse(cwd_filters, search_term);
        params.limit = Some(filter_page_limit(offset, limit));
        (params, ItemWindow::new(offset, limit))
    }
}

} // verus!
