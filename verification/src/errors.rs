//! Errors that describe a pipeline that cannot run as configured.

use vstd::prelude::*;
use crate::text::{concat3, join_strings, join_with, owned, views};

verus! {

/// Why a pipeline configuration was refused.
pub enum PipelineBuildError {
    AtLeastOnePersistStageMustBeSpecified,
    PersistAndLoadStoresMustBeTheSame,
    /// The store named on the command line is not among the pipeline's stores.
    ArgsLoadStoreNotAvailable(String),
}

/// A refusal as a plain value.
pub enum BuildErrorView {
    AtLeastOnePersistStageMustBeSpecified,
    PersistAndLoadStoresMustBeTheSame,
    ArgsLoadStoreNotAvailable(Seq<char>),
}

impl PipelineBuildError {
    pub open spec fn view(&self) -> BuildErrorView {
        match self {
            PipelineBuildError::AtLeastOnePersistStageMustBeSpecified => BuildErrorView::AtLeastOnePersistStageMustBeSpecified,
            PipelineBuildError::PersistAndLoadStoresMustBeTheSame => BuildErrorView::PersistAndLoadStoresMustBeTheSame,
            PipelineBuildError::ArgsLoadStoreNotAvailable(s) => BuildErrorView::ArgsLoadStoreNotAvailable(s@),
        }
    }

    pub open spec fn spec_message(&self) -> Seq<char> {
        match self {
            PipelineBuildError::AtLeastOnePersistStageMustBeSpecified => "At least one persist stage must be specified"@,
            PipelineBuildError::PersistAndLoadStoresMustBeTheSame => "Persist and load stores must be the same"@,
            PipelineBuildError::ArgsLoadStoreNotAvailable(store) =>
                "Store "@ + store@ + " specified via CLI has not been added to pipeline builder"@,
        }
    }

    /// The human-readable description of this error.
    pub fn message(&self) -> (r: String)
        ensures
            r@ == self.spec_message(),
    {
        match self {
            PipelineBuildError::AtLeastOnePersistStageMustBeSpecified => owned("At least one persist stage must be specified"),
            PipelineBuildError::PersistAndLoadStoresMustBeTheSame => owned("Persist and load stores must be the same"),
            PipelineBuildError::ArgsLoadStoreNotAvailable(store) =>
                concat3("Store ", store.as_str(), " specified via CLI has not been added to pipeline builder"),
        }
    }
}

/// Every reason a pipeline was refused.
pub struct PipelineValidationError {
    pub errors: Vec<PipelineBuildError>,
}

impl PipelineValidationError {
    pub open spec fn spec_message(&self) -> Seq<char> {
        "Pipeline validation error: "@ + join_with(
            self.errors@.map_values(|e: PipelineBuildError| e.spec_message()),
            ", "@,
        )
    }

    /// `Pipeline validation error: ` followed by the reasons, separated by `, `.
    pub fn message(&self) -> (r: String)
        ensures
            r@ == self.spec_message(),
    {
        let mut parts: Vec<String> = Vec::new();
        let mut i: usize = 0;
        while i < self.errors.len()
            invariant
                i <= self.errors.len(),
                views(parts@) =~= self.errors@.map_values(|e: PipelineBuildError| e.spec_message()).take(i as int),
            decreases self.errors.len() - i,
        {
            let m = self.errors[i].message();
            let ghost before = parts@;
            parts.push(m);
            proof {
                assert(views(parts@) =~= views(before).push(m@));
            }
            i = i + 1;
        }
        assert(self.errors@.map_values(|e: PipelineBuildError| e.spec_message()).take(i as int)
            =~= self.errors@.map_values(|e: PipelineBuildError| e.spec_message()));
        let joined = join_strings(&parts, ", ");
        let mut s = owned("Pipeline validation error: ");
        s.append(joined.as_str());
        s
    }
}

} // verus!
