pub mod ensure_raw;
pub mod expand_dataset;
pub mod filters;
pub mod load_from_postgres;
pub mod load_from_s3;
pub mod persist_postgres;
pub mod persist_s3;


use vstd::prelude::*;
use crate::text::{concat3, owned};

verus! {

/// Where the expanded dataset lives: its directory name and file name.
pub struct DatasetConfig {
    pub expanded_dir_name: String,
    pub filename: String,
}

impl Clone for DatasetConfig {
    fn clone(&self) -> (r: Self)
        ensures
            r == *self,
    {
        DatasetConfig { expanded_dir_name: self.expanded_dir_name.clone(), filename: self.filename.clone() }
    }
}

impl Default for DatasetConfig {
    /// The expanded census parquet: `large/census.parquet`.
    fn default() -> (r: Self)
        ensures
            r.expanded_dir_name@ == "large"@,
            r.filename@ == "census.parquet"@,
    {
        DatasetConfig { expanded_dir_name: owned("large"), filename: owned("census.parquet") }
    }
}

impl DatasetConfig {
    pub open spec fn spec_expanded_s3_key(&self) -> Seq<char> {
        self.expanded_dir_name@ + "/"@ + self.filename@
    }

    /// The object key of the expanded dataset: `dir/filename`.
    pub fn expanded_s3_key(&self) -> (r: String)
        ensures
            r@ == self.spec_expanded_s3_key(),
    {
        concat3(self.expanded_dir_name.as_str(), "/", self.filename.as_str())
    }
}

} // verus!
