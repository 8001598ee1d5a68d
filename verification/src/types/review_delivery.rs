use vstd::prelude::*;

verus! {

/// How a finished review reaches the agent that produced the diff.
#[derive(Eq, PartialEq, Structural, Hash, Clone, Copy, Debug)]
pub enum ReviewDelivery {
    ClipboardPaste,
    ReviewFileAttachment,
    AgentResumeCommand,
    AgentThreadApi,
}

pub const CLIPBOARD_PASTE_WORKFLOW: &'static str = "Copy the assembled review, focus the originating agent thread, paste, and send.";

pub const REVIEW_FILE_ATTACHMENT_WORKFLOW: &'static str = "Persist the assembled review, attach that file in the originating thread, and send a request to address it.";

pub const AGENT_RESUME_COMMAND_WORKFLOW: &'static str = "Bind Finish to persist the review and invoke the agent's supported resume command with the recorded thread identifier and review as data.";

pub const AGENT_THREAD_API_WORKFLOW: &'static str = "Bind Finish to persist the review and submit it through the agent's supported API to the recorded originating thread.";

pub const CLIPBOARD_PASTE_TRADEOFF: &'static str = "Broad compatibility; focus, paste, and send add keystrokes, and the user must identify the correct thread.";

pub const REVIEW_FILE_ATTACHMENT_TRADEOFF: &'static str = "Useful for large reviews; attachment navigation costs keystrokes and the agent must be able to read the file.";

pub const AGENT_RESUME_COMMAND_TRADEOFF: &'static str = "Can combine completion and delivery into one binding; requires a compatible agent CLI and coordination with any active turn.";

pub const AGENT_THREAD_API_TRADEOFF: &'static str = "Can deliver without changing focus; requires a supported API, explicit routing, and an acknowledgment before marking the review sent.";

impl ReviewDelivery {
    pub open spec fn spec_requires_manual_agent_focus(self) -> bool {
        self is ClipboardPaste || self is ReviewFileAttachment
    }

    pub open spec fn spec_requires_agent_adapter(self) -> bool {
        self is AgentResumeCommand || self is AgentThreadApi
    }

    pub open spec fn spec_workflow(self) -> Seq<char> {
        match self {
            ReviewDelivery::ClipboardPaste => CLIPBOARD_PASTE_WORKFLOW@,
            ReviewDelivery::ReviewFileAttachment => REVIEW_FILE_ATTACHMENT_WORKFLOW@,
            ReviewDelivery::AgentResumeCommand => AGENT_RESUME_COMMAND_WORKFLOW@,
            ReviewDelivery::AgentThreadApi => AGENT_THREAD_API_WORKFLOW@,
        }
    }

    pub open spec fn spec_tradeoff(self) -> Seq<char> {
        match self {
            ReviewDelivery::ClipboardPaste => CLIPBOARD_PASTE_TRADEOFF@,
            ReviewDelivery::ReviewFileAttachment => REVIEW_FILE_ATTACHMENT_TRADEOFF@,
            ReviewDelivery::AgentResumeCommand => AGENT_RESUME_COMMAND_TRADEOFF@,
            ReviewDelivery::AgentThreadApi => AGENT_THREAD_API_TRADEOFF@,
        }
    }

    pub fn requires_manual_agent_focus(self) -> (requires_focus: bool)
        ensures
            requires_focus == self.spec_requires_manual_agent_focus(),
    {
        matches!(self, ReviewDelivery::ClipboardPaste | ReviewDelivery::ReviewFileAttachment)
    }

    pub fn requires_agent_adapter(self) -> (requires_adapter: bool)
        ensures
            requires_adapter == self.spec_requires_agent_adapter(),
    {
        matches!(self, ReviewDelivery::AgentResumeCommand | ReviewDelivery::AgentThreadApi)
    }

    pub fn workflow(self) -> (workflow: &'static str)
        ensures
            workflow@ == self.spec_workflow(),
    {
        match self {
            ReviewDelivery::ClipboardPaste => CLIPBOARD_PASTE_WORKFLOW,
            ReviewDelivery::ReviewFileAttachment => REVIEW_FILE_ATTACHMENT_WORKFLOW,
            ReviewDelivery::AgentResumeCommand => AGENT_RESUME_COMMAND_WORKFLOW,
            ReviewDelivery::AgentThreadApi => AGENT_THREAD_API_WORKFLOW,
        }
    }

    pub fn tradeoff(self) -> (tradeoff: &'static str)
        ensures
            tradeoff@ == self.spec_tradeoff(),
    {
        match self {
            ReviewDelivery::ClipboardPaste => CLIPBOARD_PASTE_TRADEOFF,
            ReviewDelivery::ReviewFileAttachment => REVIEW_FILE_ATTACHMENT_TRADEOFF,
            ReviewDelivery::AgentResumeCommand => AGENT_RESUME_COMMAND_TRADEOFF,
            ReviewDelivery::AgentThreadApi => AGENT_THREAD_API_TRADEOFF,
        }
    }
}

/// Every delivery either leaves the final focus, paste and send to the user or needs an agent
/// adapter, never both.
pub proof fn lemma_manual_focus_or_adapter(delivery: ReviewDelivery)
    ensures
        delivery.spec_requires_manual_agent_focus() != delivery.spec_requires_agent_adapter(),
{
}

} // verus!
