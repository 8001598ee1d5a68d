use vstd::prelude::*;

verus! {

/// The order in which the app-server returns threads or items.
#[derive(Eq, PartialEq, Structural, Clone, Copy, Debug)]
pub enum SortDirection {
    Asc,
    Desc,
}

/// The key by which threads are sorted.
#[derive(Eq, PartialEq, Structural, Clone, Copy, Debug)]
pub enum ThreadSortKey {
    CreatedAt,
}

/// Where a thread was started.
#[derive(Eq, PartialEq, Structural, Clone, Copy, Debug)]
pub enum ThreadSourceKind {
    Cli,
    VsCode,
    Exec,
    AppServer,
    SubAgent,
    Unknown,
}

/// Restricts listed threads to working directories.
#[derive(Clone, Debug)]
pub enum ThreadListCwdFilter {
    Many(Vec<String>),
}

/// A request for a page of threads. The section, project, parent-thread and ancestor-thread
/// filters of the app-server request are left unset by every request that CRS makes, so they are
/// not held here.
#[derive(Clone, Debug)]
pub struct ThreadListParams {
    pub limit: Option<u32>,
    pub cursor: Option<String>,
    pub sort_key: Option<ThreadSortKey>,
    pub sort_direction: Option<SortDirection>,
    pub source_kinds: Option<Vec<ThreadSourceKind>>,
    pub model_providers: Option<Vec<String>>,
    pub cwd: Option<ThreadListCwdFilter>,
    pub archived: Option<bool>,
    pub search_term: Option<String>,
    pub use_state_db_only: bool,
}

/// A request for a page of the items of one thread. The turn filter of the app-server request is
/// left unset by every request that CRS makes, so it is not held here.
#[derive(Clone, Debug)]
pub struct ThreadItemsListParams {
    pub limit: Option<u32>,
    pub cursor: Option<String>,
    pub sort_direction: Option<SortDirection>,
    pub thread_id: String,
}

/// What CRS reads of a thread item: the text of an agent message, and whether the message is
/// the final answer of its turn.
#[derive(Clone, Debug)]
pub enum ThreadItemSummary {
    AgentMessage { text: String, final_answer: bool },
    Other,
}

} // verus!
