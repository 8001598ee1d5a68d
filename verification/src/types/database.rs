use vstd::prelude::*;

verus! {

/// Where CRS keeps its own state.
#[derive(Ord, PartialOrd, Eq, PartialEq, Structural, Hash, Clone, Copy, Debug)]
pub enum Database {
    File,
    Fjall,
}

impl Default for Database {
    fn default() -> (database: Self)
        ensures
            database == Database::Fjall,
    {
        Database::Fjall
    }
}

} // verus!
