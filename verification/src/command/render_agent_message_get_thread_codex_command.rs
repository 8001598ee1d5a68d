use vstd::prelude::*;
use crate::command::item_window::ItemWindow;
use crate::functions::list_items_params_all_reverse::list_items_params_all_reverse;
use crate::protocol::{SortDirection, ThreadItemSummary, ThreadItemsListParams};

verus! {

#[derive(Clone, Copy, Debug)]
pub struct RenderAgentMessageGetThreadCodexCommand {
    /// Zero-based agent message index, starting with the newest message.
    pub index: usize,
}

/// The text of an agent message; `None` for every other item.
pub open spec fn spec_agent_message_text(item: ThreadItemSummary) -> Option<Seq<char>> {
    match item {
        ThreadItemSummary::AgentMessage { text, .. } => Some(text@),
        ThreadItemSummary::Other => None,
    }
}

/// The text of `item` where it is an agent message.
pub fn agent_message_text(item: ThreadItemSummary) -> (text: Option<String>)
    ensures
        match text {
            Some(text) => spec_agent_message_text(item) == Some(text@),
            None => spec_agent_message_text(item) is None,
        },
        item matches ThreadItemSummary::AgentMessage { text: message, .. } ==> (text matches Some(rendered)
            && rendered@ == message@),
        item is Other ==> text is None,
{
    match item {
        ThreadItemSummary::AgentMessage { text, .. } => Some(text),
        ThreadItemSummary::Other => None,
    }
}

impl RenderAgentMessageGetThreadCodexCommand {
    /// The first request for the items of the thread `thread_id`, newest first, and the window of
    /// agent messages to render: the `index` newest ones are skipped and the next one rendered.
    pub fn plan(self, thread_id: String) -> (plan: (ThreadItemsListParams, ItemWindow))
        ensures
            plan.0.limit == Some(u32::MAX),
            plan.0.cursor is None,
            plan.0.sort_direction == Some(SortDirection::Desc),
            plan.0.thread_id@ == thread_id@,
            plan.1.skip_remaining == self.index,
            plan.1.take_remaining == 1,
    {
        (list_items_params_all_reverse(thread_id), ItemWindow::new(self.index, 1))
    }
}

/// An agent message is rendered whole, whatever its length and phase; nothing else is an agent
/// message.
pub proof fn lemma_agent_message_text_is_whole(item: ThreadItemSummary)
    ensures
        item matches ThreadItemSummary::AgentMessage { text, .. } ==> spec_agent_message_text(item) == Some(text@),
        item is Other ==> spec_agent_message_text(item) is None,
{
}

} // verus!
