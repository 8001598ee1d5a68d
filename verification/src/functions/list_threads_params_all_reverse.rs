use vstd::prelude::*;
use crate::protocol::{SortDirection, ThreadListCwdFilter, ThreadListParams, ThreadSortKey, ThreadSourceKind};

verus! {

/// Every source a thread can come from.
pub open spec fn all_thread_source_kinds() -> Seq<ThreadSourceKind> {
    seq![
        ThreadSourceKind::Cli,
        ThreadSourceKind::VsCode,
        ThreadSourceKind::Exec,
        ThreadSourceKind::AppServer,
        ThreadSourceKind::SubAgent,
        ThreadSourceKind::Unknown,
    ]
}

/// A request for every unarchived thread from any source and provider, newest first, in
/// pages as large as the app-server allows, read from the state database only. The working
/// directories restrict the listing only when some are given.
pub fn list_threads_params_all_reverse(cwd_filters: Vec<String>, search_term: Option<String>) -> (params: ThreadListParams)
    ensures
        params.limit == Some(u32::MAX),
        params.cursor is None,
        params.sort_key == Some(ThreadSortKey::CreatedAt),
        params.sort_direction == Some(SortDirection::Desc),
        params.source_kinds matches Some(kinds) && kinds@ == all_thread_source_kinds(),
        params.model_providers matches Some(providers) && providers@.len() == 0,
        cwd_filters@.len() == 0 ==> params.cwd is None,
        cwd_filters@.len() > 0 ==> (params.cwd matches Some(ThreadListCwdFilter::Many(filters)) && filters@ == cwd_filters@),
        params.archived == Some(false),
        params.search_term == search_term,
        params.use_state_db_only,
{
    let source_kinds = vec![
        ThreadSourceKind::Cli,
        ThreadSourceKind::VsCode,
        ThreadSourceKind::Exec,
        ThreadSourceKind::AppServer,
        ThreadSourceKind::SubAgent,
        ThreadSourceKind::Unknown,
    ];
    assert(source_kinds@ =~= all_thread_source_kinds());
    let cwd = if cwd_filters.len() == 0 {
        None
    } else {
        Some(ThreadListCwdFilter::Many(cwd_filters))
    };
    ThreadListParams {
        limit: Some(u32::MAX),
        cursor: None,
        sort_key: Some(ThreadSortKey::CreatedAt),
        sort_direction: Some(SortDirection::Desc),
        source_kinds: Some(source_kinds),
        model_providers: Some(Vec::new()),
        cwd,
        archived: Some(false),
        search_term,
        use_state_db_only: true,
    }
}

} // verus!
