use vstd::prelude::*;

verus! {

/// Where the CRS context (the current review and thread) is kept.
#[derive(Ord, PartialOrd, Eq, PartialEq, Structural, Hash, Clone, Copy, Debug)]
pub enum ContextLocation {
    Database,
    ShellExportedVars,
}

impl ContextLocation {
    /// Every location, in declaration order.
    pub open spec fn spec_all() -> Seq<ContextLocation> {
        seq![ContextLocation::Database, ContextLocation::ShellExportedVars]
    }

    pub open spec fn spec_subsumes(self, other: Self) -> bool {
        match (self, other) {
            (ContextLocation::Database, ContextLocation::ShellExportedVars) => true,
            (ContextLocation::Database, ContextLocation::Database) => true,
            (ContextLocation::ShellExportedVars, ContextLocation::Database) => false,
            (ContextLocation::ShellExportedVars, ContextLocation::ShellExportedVars) => true,
        }
    }

    /// `self` subsumes every location.
    pub open spec fn spec_subsumes_all(self) -> bool {
        forall|i: int| 0 <= i < Self::spec_all().len() ==> self.spec_subsumes(#[trigger] Self::spec_all()[i])
    }

    /// The first location, in declaration order, that subsumes every location; `None` when there is none.
    pub open spec fn spec_decide() -> Option<Self> {
        if Self::spec_all()[0].spec_subsumes_all() {
            Some(Self::spec_all()[0])
        } else if Self::spec_all()[1].spec_subsumes_all() {
            Some(Self::spec_all()[1])
        } else {
            None
        }
    }

    pub open spec fn spec_is_available_in_new_shell(self) -> bool {
        match self {
            ContextLocation::ShellExportedVars => false,
            ContextLocation::Database => true,
        }
    }

    pub open spec fn spec_supports_multiple_contexts(self) -> bool {
        match self {
            ContextLocation::ShellExportedVars => true,
            ContextLocation::Database => true,
        }
    }

    pub open spec fn spec_supports_inheritance(self) -> bool {
        match self {
            ContextLocation::ShellExportedVars => false,
            ContextLocation::Database => true,
        }
    }

    /// Picks the first location (in declaration order) that subsumes every location.
    pub fn decide() -> (decision: Option<Self>)
        ensures
            decision == Self::spec_decide(),
            decision matches Some(location) ==> location.spec_subsumes_all(),
            decision is None ==> forall|i: int|
                0 <= i < Self::spec_all().len() ==> !(#[trigger] Self::spec_all()[i]).spec_subsumes_all(),
    {
        let candidates = [ContextLocation::Database, ContextLocation::ShellExportedVars];
        assert(candidates@ =~= Self::spec_all());
        let mut i: usize = 0;
        while i < 2
            invariant
                0 <= i <= 2,
                candidates@ == Self::spec_all(),
                forall|k: int| 0 <= k < i ==> !(#[trigger] Self::spec_all()[k]).spec_subsumes_all(),
            decreases 2 - i,
        {
            let candidate = candidates[i];
            let mut all = true;
            let mut j: usize = 0;
            while j < 2
                invariant
                    0 <= i < 2,
                    0 <= j <= 2,
                    candidates@ == Self::spec_all(),
                    candidate == Self::spec_all()[i as int],
                    all <==> forall|k: int| 0 <= k < j ==> candidate.spec_subsumes(#[trigger] Self::spec_all()[k]),
                decreases 2 - j,
            {
                if !candidate.subsumes(candidates[j]) {
                    all = false;
                }
                j = j + 1;
            }
            if all {
                return Some(candidate);
            }
            i = i + 1;
        }
        None
    }

    /// Must be reflexive
    pub fn subsumes(self, other: Self) -> (subsumes: bool)
        ensures
            subsumes == self.spec_subsumes(other),
    {
        match (self, other) {
            (ContextLocation::Database, ContextLocation::ShellExportedVars) => true,
            (ContextLocation::Database, ContextLocation::Database) => true,
            (ContextLocation::ShellExportedVars, ContextLocation::Database) => false,
            (ContextLocation::ShellExportedVars, ContextLocation::ShellExportedVars) => true,
        }
    }

    pub fn is_available_in_new_shell(self) -> (available: bool)
        ensures
            available == self.spec_is_available_in_new_shell(),
    {
        match self {
            ContextLocation::ShellExportedVars => false,
            ContextLocation::Database => true,
        }
    }

    pub fn supports_multiple_contexts(self) -> (supports: bool)
        ensures
            supports == self.spec_supports_multiple_contexts(),
    {
        match self {
            ContextLocation::ShellExportedVars => true,
            ContextLocation::Database => {
                // just create multiple Context values
                true
            },
        }
    }

    pub fn supports_inheritance(self) -> (supports: bool)
        ensures
            supports == self.spec_supports_inheritance(),
    {
        match self {
            ContextLocation::ShellExportedVars => false,
            ContextLocation::Database => {
                // can implement it
                true
            },
        }
    }
}

/// Subsumption is reflexive: every location subsumes itself.
pub proof fn lemma_subsumes_reflexive(location: ContextLocation)
    ensures
        location.spec_subsumes(location),
{
}

/// Subsumption is transitive.
pub proof fn lemma_subsumes_transitive(a: ContextLocation, b: ContextLocation, c: ContextLocation)
    requires
        a.spec_subsumes(b),
        b.spec_subsumes(c),
    ensures
        a.spec_subsumes(c),
{
}

/// The decision is the database, which subsumes every location.
pub proof fn lemma_decision_is_database()
    ensures
        ContextLocation::spec_decide() == Some(ContextLocation::Database),
        forall|other: ContextLocation| ContextLocation::Database.spec_subsumes(other),
{
    let all = ContextLocation::spec_all();
    assert(ContextLocation::Database.spec_subsumes(all[0]));
    assert(ContextLocation::Database.spec_subsumes(all[1]));
    assert(ContextLocation::Database.spec_subsumes_all());
}

} // verus!
