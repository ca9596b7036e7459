//! Version-consistency rules for candidate construction and publication.

pub mod versioning;

pub use versioning::{
    is_candidate_stale, validate_active_version_compatibility, validate_candidate_compatibility,
    validate_candidate_lineage, validate_candidate_schema_compatibility, validate_candidate_source_compatibility,
    validate_publication_eligibility, VersioningError,
};
