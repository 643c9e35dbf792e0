//! Request bodies, one per broker API, each bound to one API key and version.
use vstd::prelude::*;

pub mod alterconfigs_request;
pub mod apiversions_request;
pub mod createtopics_request;
pub mod deletetopics_request;
pub mod describeconfigs_request;
pub mod findcoordinator_request;
pub mod listoffsets_request;
pub mod metadata_request;
pub mod offsetfetch_request;

verus! {

/// The kinds of resource that configurations belong to.
#[derive(Clone, Copy, Debug, PartialEq, Eq)]
pub enum ResourceTypes {
    Unknown,
    Any,
    Topic,
    Group,
    Cluster,
    Broker,
}

impl ResourceTypes {
    pub open spec fn spec_code(self) -> i8 {
        match self {
            ResourceTypes::Unknown => 0,
            ResourceTypes::Any => 1,
            ResourceTypes::Topic => 2,
            ResourceTypes::Group => 3,
            ResourceTypes::Cluster => 4,
            ResourceTypes::Broker => 5,
        }
    }

    /// The code of this kind on the wire.
    pub fn code(&self) -> (r: i8)
        ensures
            r == self.spec_code(),
    {
        match self {
            ResourceTypes::Unknown => 0,
            ResourceTypes::Any => 1,
            ResourceTypes::Topic => 2,
            ResourceTypes::Group => 3,
            ResourceTypes::Cluster => 4,
            ResourceTypes::Broker => 5,
        }
    }
}

} // verus!
