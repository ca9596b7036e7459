#![allow(unused_imports)]

use nizaam_indexing::build::batch::{BatchChunkError, BatchError, BatchExecutor, BatchOptions, BatchOptionsError, BatchResult};
use nizaam_indexing::build::builder::{BuildCandidate, BuildError, BuildInput, BuildSnapshot, IndexBuilder};
use nizaam_indexing::build::publication::{IndexPublisher, PublicationCandidate, PublicationError, PublicationResult};
use nizaam_indexing::build::rebuild::{IndexRebuilder, RebuildError, RebuildInput, RebuildProgress, RebuildResult};
use nizaam_indexing::build::update::{
    CandidateUpdater, DeleteSelector, IndexMutation, UpdateError, UpdateJournal, UpdateJournalError, UpdateRecord,
    UpdateSequence,
};
use nizaam_indexing::consistency::versioning::{
    is_candidate_stale, validate_active_version_compatibility, validate_candidate_compatibility,
    validate_candidate_lineage, validate_candidate_schema_compatibility, validate_candidate_source_compatibility,
    validate_publication_eligibility, VersioningError,
};
use nizaam_indexing::identity::{
    IndexDefinitionId, IndexDefinitionIdValidationError, IndexDefinitionIdentity, IndexId, IndexNamespace,
    NamespaceRegistry, NamespaceRegistryError, NamespaceValidationError, INDEX_ID_BIT_LEN, INDEX_ID_BYTE_LEN,
    MAX_NAMESPACE_BYTES,
};
use nizaam_indexing::index::{
    ConsistencyRequirement, ConsistencyRequirementValidationError, IndexDefinition, IndexDefinitionValidationError,
    IndexEntry, IndexEntryValidationError, IndexFamily, IndexVersion, IndexVersionId, IndexVersionIdValidationError,
    IndexVersionState, IndexVersionValidationError, KeyDefinition, KeyDefinitionValidationError, KeyField, KeyFields,
    KeyMaterial, KeyMaterialValidationError, ObjectReference, ObjectReferenceValidationError, QueryRequest,
    QueryRequestValidationError, SchemaVersion, SchemaVersionValidationError, SimilarityEntry,
    SimilarityEntryValidationError, SourceVersion, SourceVersionValidationError, TargetReferenceType,
    TargetReferenceTypeValidationError, TextValueValidationError, Uniqueness, VersionLifecycle,
    VersionLifecycleTransitionError, VersionValueValidationError,
};
use nizaam_indexing::requirement::{IndexRequirement, IndexRequirementValidationError};

fn target() -> ObjectReference {
    ObjectReference::new("quran", "verse:2:255").expect("test target reference should be valid")
}

#[test]
fn constructs_a_similarity_entry_from_generic_representation() {
    let representation = KeyMaterial::Sequence(vec![
        KeyMaterial::Integer(10),
        KeyMaterial::Integer(20),
        KeyMaterial::Integer(30),
    ]);

    let entry = SimilarityEntry::new(representation.clone(), target())
        .expect("valid similarity entry should be constructed");

    assert_eq!(entry.representation(), &representation);
    assert_eq!(entry.target().source(), "quran");
    assert_eq!(entry.metadata(), None);
}

#[test]
fn accepts_opaque_representation_without_interpreting_it() {
    let representation = KeyMaterial::Bytes(vec![0x10, 0x20, 0x30, 0x40]);

    let entry = SimilarityEntry::new(representation.clone(), target())
        .expect("opaque representation should be accepted");

    assert_eq!(entry.representation(), &representation);
}

#[test]
fn accepts_structured_representation() {
    let representation = KeyMaterial::map(vec![
        ("feature-a", KeyMaterial::Unsigned(10)),
        ("feature-b", KeyMaterial::Unsigned(20)),
    ])
    .expect("structured representation should be valid");

    let entry = SimilarityEntry::new(representation.clone(), target())
        .expect("structured representation should be accepted");

    assert_eq!(entry.representation(), &representation);
}

#[test]
fn similarity_accepts_generic_logical_metadata() {
    let representation = KeyMaterial::bytes(vec![1, 2, 3]);
    let metadata = KeyMaterial::map(vec![
        ("source", KeyMaterial::text("semantic-engine")),
        ("revision", KeyMaterial::Unsigned(7)),
    ])
    .expect("metadata should be valid");

    let entry =
        SimilarityEntry::with_metadata(representation, target(), Some(metadata.clone()))
            .expect("valid metadata should be accepted");

    assert_eq!(entry.metadata(), Some(&metadata));
}

#[test]
fn rejects_invalid_representation() {
    let representation = KeyMaterial::text("invalid\nrepresentation");

    let error = SimilarityEntry::new(representation, target())
        .expect_err("invalid representation must be rejected");

    assert_eq!(
        error,
        SimilarityEntryValidationError::InvalidRepresentation(
            KeyMaterialValidationError::TextControlCharacter { index: 7 }
        )
    );
}

#[test]
fn similarity_rejects_invalid_metadata() {
    let metadata = KeyMaterial::text("invalid\nmetadata");

    let error = SimilarityEntry::with_metadata(
        KeyMaterial::bytes(vec![1, 2, 3]),
        target(),
        Some(metadata),
    )
    .expect_err("invalid metadata must be rejected");

    assert_eq!(
        error,
        SimilarityEntryValidationError::InvalidMetadata(
            KeyMaterialValidationError::TextControlCharacter { index: 7 }
        )
    );
}

#[test]
fn similarity_validation_is_repeatable_and_has_no_external_dependencies() {
    let entry = SimilarityEntry::new(KeyMaterial::text("logical-representation"), target())
        .expect("valid similarity entry should be constructed");

    entry.validate().expect("entry should remain valid");
    entry
        .validate()
        .expect("validation should be deterministic");
}

#[test]
fn equality_depends_on_representation_target_and_metadata() {
    let first = SimilarityEntry::with_metadata(
        KeyMaterial::text("same"),
        target(),
        Some(KeyMaterial::Unsigned(1)),
    )
    .expect("valid entry should be constructed");

    let same = SimilarityEntry::with_metadata(
        KeyMaterial::text("same"),
        target(),
        Some(KeyMaterial::Unsigned(1)),
    )
    .expect("valid entry should be constructed");

    let different_representation = SimilarityEntry::with_metadata(
        KeyMaterial::text("different"),
        target(),
        Some(KeyMaterial::Unsigned(1)),
    )
    .expect("valid entry should be constructed");

    let different_target = SimilarityEntry::with_metadata(
        KeyMaterial::text("same"),
        ObjectReference::new("hadith", "record:1")
            .expect("test target reference should be valid"),
        Some(KeyMaterial::Unsigned(1)),
    )
    .expect("valid entry should be constructed");

    let different_metadata = SimilarityEntry::with_metadata(
        KeyMaterial::text("same"),
        target(),
        Some(KeyMaterial::Unsigned(2)),
    )
    .expect("valid entry should be constructed");

    assert_eq!(first, same);
    assert_ne!(first, different_representation);
    assert_ne!(first, different_target);
    assert_ne!(first, different_metadata);
}

#[test]
fn similarity_into_parts_preserves_all_logical_components() {
    let representation = KeyMaterial::text("logical-representation");
    let target = target();
    let metadata = Some(KeyMaterial::Unsigned(42));

    let entry = SimilarityEntry::with_metadata(
        representation.clone(),
        target.clone(),
        metadata.clone(),
    )
    .expect("valid similarity entry should be constructed");

    let (returned_representation, returned_target, returned_metadata) = entry.into_parts();

    assert_eq!(returned_representation, representation);
    assert_eq!(returned_target, target);
    assert_eq!(returned_metadata, metadata);
}

#[test]
fn remains_reference_oriented() {
    let entry =
        SimilarityEntry::new(KeyMaterial::bytes(vec![0xde, 0xad, 0xbe, 0xef]), target())
            .expect("valid similarity entry should be constructed");

    // SimilarityEntry exposes only a source-owned reference. It has no
    // domain-object loading or hydration operation.
    assert_eq!(entry.target().source(), "quran");
    assert_eq!(entry.target().object_reference(), "verse:2:255");
}

#[test]
fn does_not_define_similarity_semantics() {
    let first = SimilarityEntry::new(KeyMaterial::bytes(vec![1, 2, 3]), target())
        .expect("valid similarity entry should be constructed");

    let second = SimilarityEntry::new(
        KeyMaterial::bytes(vec![1, 2, 3]),
        ObjectReference::new("quran", "verse:2:256")
            .expect("test target reference should be valid"),
    )
    .expect("valid similarity entry should be constructed");

    // Equality compares logical representation and target. The entry
    // does not calculate distance, similarity, ranking, or relevance.
    assert_ne!(first, second);
}
