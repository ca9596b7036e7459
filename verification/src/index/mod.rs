//! Logical index model: families, keys, references, entries, definitions,
//! versions and queries.

pub mod canonical;
pub mod definition;
pub mod entry;
pub mod key;
pub mod query;
pub mod reference;
pub mod similarity;
pub mod version;

pub use definition::{
    ConsistencyRequirement, ConsistencyRequirementValidationError, IndexDefinition, IndexDefinitionParts,
    IndexDefinitionValidationError, TargetReferenceType, TargetReferenceTypeValidationError, TextValueValidationError,
    Uniqueness,
};
pub use entry::{IndexEntry, IndexEntryValidationError};
pub use key::{
    KeyDefinition, KeyDefinitionValidationError, KeyField, KeyFields, KeyMaterial, KeyMaterialValidationError,
};
pub use query::{MetricKind, QueryRequest, QueryRequestValidationError};
pub use reference::{ObjectReference, ObjectReferenceValidationError};
pub use similarity::{SimilarityEntry, SimilarityEntryValidationError};
pub use version::{
    IndexVersion, IndexVersionId, IndexVersionIdValidationError, IndexVersionState, IndexVersionValidationError,
    SchemaVersion, SchemaVersionValidationError, SourceVersion, SourceVersionValidationError,
    VersionLifecycle, VersionLifecycleTransitionError, VersionValueValidationError,
};

use vstd::prelude::*;

verus! {

/// The logical family of an index.
#[derive(Clone, Copy, Debug, PartialEq, Eq, Structural, Hash, PartialOrd, Ord)]
pub enum IndexFamily {
    /// Indexes objects by their identity.
    Identity,
    /// Indexes discrete searchable values for inverted retrieval.
    Inverted,
    /// Indexes relationship-oriented data.
    Relationship,
    /// Indexes data for similarity-oriented retrieval.
    Similarity,
}

/// The stable lower-case name of a family.
pub open spec fn family_name(family: IndexFamily) -> Seq<char> {
    match family {
        IndexFamily::Identity => "identity"@,
        IndexFamily::Inverted => "inverted"@,
        IndexFamily::Relationship => "relationship"@,
        IndexFamily::Similarity => "similarity"@,
    }
}

impl IndexFamily {
    /// Returns the stable lower-case name of the family.
    pub fn to_string(&self) -> (s: String)
        ensures
            s@ == family_name(*self),
    {
        match self {
            IndexFamily::Identity => "identity".to_owned(),
            IndexFamily::Inverted => "inverted".to_owned(),
            IndexFamily::Relationship => "relationship".to_owned(),
            IndexFamily::Similarity => "similarity".to_owned(),
        }
    }
}

/// The variant name of a family, as its debug rendering writes it.
pub open spec fn family_debug_name(family: IndexFamily) -> Seq<char> {
    match family {
        IndexFamily::Identity => "Identity"@,
        IndexFamily::Inverted => "Inverted"@,
        IndexFamily::Relationship => "Relationship"@,
        IndexFamily::Similarity => "Similarity"@,
    }
}

impl IndexFamily {
    /// Returns the variant name of the family.
    pub fn debug_name(&self) -> (s: &'static str)
        ensures
            s@ == family_debug_name(*self),
    {
        match self {
            IndexFamily::Identity => "Identity",
            IndexFamily::Inverted => "Inverted",
            IndexFamily::Relationship => "Relationship",
            IndexFamily::Similarity => "Similarity",
        }
    }
}

} // verus!
