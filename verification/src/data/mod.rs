pub mod blob;
pub mod rdbms;
pub mod expr;
pub mod etl;
pub mod synthesise;

use vstd::prelude::*;

verus! {

/// A store that the pipeline persists to or loads from.
#[derive(PartialEq, Eq, Structural, Clone, Copy, Debug)]
pub enum DataStore {
    Postgres,
    S3,
}

impl DataStore {
    pub open spec fn spec_name(self) -> Seq<char> {
        match self {
            DataStore::Postgres => "Postgres"@,
            DataStore::S3 => "S3"@,
        }
    }

    /// The store's name as the command line reports it.
    pub fn name(&self) -> (r: String)
        ensures
            r@ == self.spec_name(),
    {
        match self {
            DataStore::Postgres => crate::text::owned("Postgres"),
            DataStore::S3 => crate::text::owned("S3"),
        }
    }
}

} // verus!
