use vstd::prelude::*;

verus! {

/// How CRS talks to Codex.
#[derive(Ord, PartialOrd, Eq, PartialEq, Structural, Hash, Clone, Copy, Debug)]
pub enum CodexCommunicationProtocol {
    AppServer,
    HomeDir,
}

impl CodexCommunicationProtocol {
    pub open spec fn spec_works_over_ssh(self) -> bool {
        match self {
            CodexCommunicationProtocol::AppServer => true,
            CodexCommunicationProtocol::HomeDir => false,
        }
    }

    pub open spec fn spec_works_for_local_sandbox(self) -> bool {
        match self {
            CodexCommunicationProtocol::AppServer => true,
            CodexCommunicationProtocol::HomeDir => true,
        }
    }

    pub open spec fn spec_allows_querying_state_db_directly(self) -> bool {
        match self {
            CodexCommunicationProtocol::AppServer => false,
            CodexCommunicationProtocol::HomeDir => true,
        }
    }

    pub fn works_over_ssh(self) -> (works: bool)
        ensures
            works == self.spec_works_over_ssh(),
    {
        match self {
            CodexCommunicationProtocol::AppServer => true,
            CodexCommunicationProtocol::HomeDir => false,
        }
    }

    pub fn works_for_local_sandbox(self) -> (works: bool)
        ensures
            works == self.spec_works_for_local_sandbox(),
    {
        match self {
            CodexCommunicationProtocol::AppServer => true,
            CodexCommunicationProtocol::HomeDir => {
                // requires mounting ~/.codex-sandbox as ~/.codex in sandbox
                // requires setting CODEX_HOME before loading `Config`
                true
            },
        }
    }

    pub fn allows_querying_state_db_directly(self) -> (allows: bool)
        ensures
            allows == self.spec_allows_querying_state_db_directly(),
    {
        match self {
            CodexCommunicationProtocol::AppServer => false,
            CodexCommunicationProtocol::HomeDir => true,
        }
    }
}

/// Each protocol either reaches Codex over SSH or reads its state database directly, never both.
pub proof fn lemma_ssh_or_direct_state_db(protocol: CodexCommunicationProtocol)
    ensures
        protocol.spec_works_over_ssh() != protocol.spec_allows_querying_state_db_directly(),
{
}

/// Every protocol works for a local sandbox.
pub proof fn lemma_every_protocol_works_for_local_sandbox(protocol: CodexCommunicationProtocol)
    ensures
        protocol.spec_works_for_local_sandbox(),
{
}

} // verus!
