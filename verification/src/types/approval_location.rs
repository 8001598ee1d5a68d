use vstd::prelude::*;

verus! {

/// Where review approvals are stored.
#[derive(Ord, PartialOrd, Eq, PartialEq, Structural, Hash, Clone, Copy, Debug)]
pub enum ApprovalLocation {
    Home,
    Server,
    Repository,
}

impl Default for ApprovalLocation {
    fn default() -> (location: Self)
        ensures
            location == ApprovalLocation::Home,
    {
        ApprovalLocation::Home
    }
}

impl ApprovalLocation {
    pub open spec fn spec_requires_explicit_commit(self) -> bool {
        match self {
            ApprovalLocation::Home => false,
            ApprovalLocation::Server => false,
            ApprovalLocation::Repository => true,
        }
    }

    pub open spec fn spec_requires_backup(self) -> bool {
        match self {
            ApprovalLocation::Home => true,
            ApprovalLocation::Server => true,
            ApprovalLocation::Repository => false,
        }
    }

    pub open spec fn spec_supports_multiple_users(self) -> bool {
        match self {
            ApprovalLocation::Home => false,
            ApprovalLocation::Server => true,
            ApprovalLocation::Repository => true,
        }
    }

    pub fn requires_explicit_commit(self) -> (requires_commit: bool)
        ensures
            requires_commit == self.spec_requires_explicit_commit(),
    {
        match self {
            ApprovalLocation::Home => false,
            ApprovalLocation::Server => false,
            ApprovalLocation::Repository => true,
        }
    }

    pub fn requires_backup(self) -> (requires_backup: bool)
        ensures
            requires_backup == self.spec_requires_backup(),
    {
        match self {
            ApprovalLocation::Home => true,
            ApprovalLocation::Server => true,
            ApprovalLocation::Repository => false,
        }
    }

    pub fn supports_multiple_users(self) -> (supports: bool)
        ensures
            supports == self.spec_supports_multiple_users(),
    {
        match self {
            ApprovalLocation::Home => false,
            ApprovalLocation::Server => true,
            ApprovalLocation::Repository => {
                // requires to resolve merge conflicts
                true
            },
        }
    }
}

/// Every location is kept safe in exactly one way: either its approvals are committed
/// explicitly (to a repository) or they need a backup.
pub proof fn lemma_commit_or_backup(location: ApprovalLocation)
    ensures
        location.spec_requires_explicit_commit() != location.spec_requires_backup(),
{
}

/// A location whose approvals are committed explicitly is shared by several users.
pub proof fn lemma_explicit_commit_supports_multiple_users(location: ApprovalLocation)
    requires
        location.spec_requires_explicit_commit(),
    ensures
        location.spec_supports_multiple_users(),
{
}

} // verus!
