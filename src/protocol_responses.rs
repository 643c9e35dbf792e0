//! Response bodies, one per broker API, and the response envelope.
pub mod alterconfigs_response;
pub mod createtopics_response;
pub mod apiversions_response;
pub mod deletetopics_response;
pub mod describeconfigs_response;
pub mod findcoordinator_response;
pub mod listoffsets_response;
pub mod metadata_response;
pub mod offsetfetch_response;
