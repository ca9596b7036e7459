#![allow(unused_imports)]

use nizaam_indexing::build::batch::{BatchChunkError, BatchError, BatchExecutor, BatchOptions, BatchOptionsError, BatchResult};
use nizaam_indexing::build::builder::{BuildCandidate, BuildError, BuildInput, BuildSnapshot, IndexBuilder};
use nizaam_indexing::build::publication::{IndexPublisher, PublicationCandidate, PublicationError, PublicationResult};
use nizaam_indexing::build::rebuild::{IndexRebuilder, RebuildError, RebuildInput, RebuildProgress, RebuildResult};
use nizaam_indexing::build::update::{
    CandidateUpdater, DeleteSelector, IndexMutation, UpdateError, UpdateJournal, UpdateJournalError, UpdateRecord,
    UpdateSequence,
};
use nizaam_indexing::consistency::versioning::{
    is_candidate_stale, validate_active_version_compatibility, validate_candidate_compatibility,
    validate_candidate_lineage, validate_candidate_schema_compatibility, validate_candidate_source_compatibility,
    validate_publication_eligibility, VersioningError,
};
use nizaam_indexing::identity::{
    IndexDefinitionId, IndexDefinitionIdValidationError, IndexDefinitionIdentity, IndexId, IndexNamespace,
    NamespaceRegistry, NamespaceRegistryError, NamespaceValidationError, INDEX_ID_BIT_LEN, INDEX_ID_BYTE_LEN,
    MAX_NAMESPACE_BYTES,
};
use nizaam_indexing::index::{
    ConsistencyRequirement, ConsistencyRequirementValidationError, IndexDefinition, IndexDefinitionValidationError,
    IndexEntry, IndexEntryValidationError, IndexFamily, IndexVersion, IndexVersionId, IndexVersionIdValidationError,
    IndexVersionState, IndexVersionValidationError, KeyDefinition, KeyDefinitionValidationError, KeyField, KeyFields,
    KeyMaterial, KeyMaterialValidationError, ObjectReference, ObjectReferenceValidationError, QueryRequest,
    QueryRequestValidationError, SchemaVersion, SchemaVersionValidationError, SimilarityEntry,
    SimilarityEntryValidationError, SourceVersion, SourceVersionValidationError, TargetReferenceType,
    TargetReferenceTypeValidationError, TextValueValidationError, Uniqueness, VersionLifecycle,
    VersionLifecycleTransitionError, VersionValueValidationError,
};
use nizaam_indexing::requirement::{IndexRequirement, IndexRequirementValidationError};
use core::hash::{Hash, Hasher};
use std::collections::hash_map::DefaultHasher;

#[test]
fn all_phase_one_families_exist() {
    let families = [
        IndexFamily::Identity,
        IndexFamily::Inverted,
        IndexFamily::Relationship,
        IndexFamily::Similarity,
    ];

    assert_eq!(families.len(), 4);
}

#[test]
fn all_phase_one_families_are_distinct() {
    assert_ne!(IndexFamily::Identity, IndexFamily::Inverted);
    assert_ne!(IndexFamily::Identity, IndexFamily::Relationship);
    assert_ne!(IndexFamily::Identity, IndexFamily::Similarity);
    assert_ne!(IndexFamily::Inverted, IndexFamily::Relationship);
    assert_ne!(IndexFamily::Inverted, IndexFamily::Similarity);
    assert_ne!(IndexFamily::Relationship, IndexFamily::Similarity);
}

#[test]
fn equality_is_reflexive_and_clone_preserves_identity() {
    let family = IndexFamily::Relationship;
    let cloned = family;

    assert_eq!(family, family);
    assert_eq!(family, cloned);
}

#[test]
fn mod_ordering_is_deterministic() {
    let mut families = [
        IndexFamily::Similarity,
        IndexFamily::Relationship,
        IndexFamily::Identity,
        IndexFamily::Inverted,
    ];

    families.sort();

    assert_eq!(
        families,
        [
            IndexFamily::Identity,
            IndexFamily::Inverted,
            IndexFamily::Relationship,
            IndexFamily::Similarity,
        ]
    );
}

fn hash_of(value: IndexFamily) -> u64 {
    let mut hasher = DefaultHasher::new();
    value.hash(&mut hasher);
    hasher.finish()
}

#[test]
fn hashing_is_consistent_for_equal_values() {
    assert_eq!(
        hash_of(IndexFamily::Identity),
        hash_of(IndexFamily::Identity)
    );
    assert_eq!(
        hash_of(IndexFamily::Inverted),
        hash_of(IndexFamily::Inverted)
    );
    assert_eq!(
        hash_of(IndexFamily::Relationship),
        hash_of(IndexFamily::Relationship)
    );
    assert_eq!(
        hash_of(IndexFamily::Similarity),
        hash_of(IndexFamily::Similarity)
    );
}

#[test]
fn display_is_stable() {
    assert_eq!(IndexFamily::Identity.to_string(), "identity");
    assert_eq!(IndexFamily::Inverted.to_string(), "inverted");
    assert_eq!(IndexFamily::Relationship.to_string(), "relationship");
    assert_eq!(IndexFamily::Similarity.to_string(), "similarity");
}

#[test]
fn debug_is_available_for_all_families() {
    assert_eq!(format!("{:?}", IndexFamily::Identity), "Identity");
    assert_eq!(format!("{:?}", IndexFamily::Inverted), "Inverted");
    assert_eq!(format!("{:?}", IndexFamily::Relationship), "Relationship");
    assert_eq!(format!("{:?}", IndexFamily::Similarity), "Similarity");
}

#[test]
fn copy_is_available() {
    let original = IndexFamily::Similarity;
    let copied = original;

    assert_eq!(original, copied);
}

#[test]
fn relationship_family_remains_a_generic_family() {
    let family = IndexFamily::Relationship;

    assert_eq!(family.to_string(), "relationship");
}

#[test]
fn similarity_family_remains_a_generic_family() {
    let family = IndexFamily::Similarity;

    assert_eq!(family.to_string(), "similarity");
}
