#![allow(unused_imports)]

use nizaam_indexing::build::batch::{BatchChunkError, BatchError, BatchExecutor, BatchOptions, BatchOptionsError, BatchResult};
use nizaam_indexing::build::builder::{BuildCandidate, BuildError, BuildInput, BuildSnapshot, IndexBuilder};
use nizaam_indexing::build::publication::{IndexPublisher, PublicationCandidate, PublicationError, PublicationResult};
use nizaam_indexing::build::rebuild::{IndexRebuilder, RebuildError, RebuildInput, RebuildProgress, RebuildResult};
use nizaam_indexing::build::update::{
    CandidateUpdater, DeleteSelector, IndexMutation, UpdateError, UpdateJournal, UpdateJournalError, UpdateRecord,
    UpdateSequence,
};
use nizaam_indexing::consistency::versioning::{
    is_candidate_stale, validate_active_version_compatibility, validate_candidate_compatibility,
    validate_candidate_lineage, validate_candidate_schema_compatibility, validate_candidate_source_compatibility,
    validate_publication_eligibility, VersioningError,
};
use nizaam_indexing::identity::{
    IndexDefinitionId, IndexDefinitionIdValidationError, IndexDefinitionIdentity, IndexId, IndexNamespace,
    NamespaceRegistry, NamespaceRegistryError, NamespaceValidationError, INDEX_ID_BIT_LEN, INDEX_ID_BYTE_LEN,
    MAX_NAMESPACE_BYTES,
};
use nizaam_indexing::index::{
    ConsistencyRequirement, ConsistencyRequirementValidationError, IndexDefinition, IndexDefinitionValidationError,
    IndexEntry, IndexEntryValidationError, IndexFamily, IndexVersion, IndexVersionId, IndexVersionIdValidationError,
    IndexVersionState, IndexVersionValidationError, KeyDefinition, KeyDefinitionValidationError, KeyField, KeyFields,
    KeyMaterial, KeyMaterialValidationError, ObjectReference, ObjectReferenceValidationError, QueryRequest,
    QueryRequestValidationError, SchemaVersion, SchemaVersionValidationError, SimilarityEntry,
    SimilarityEntryValidationError, SourceVersion, SourceVersionValidationError, TargetReferenceType,
    TargetReferenceTypeValidationError, TextValueValidationError, Uniqueness, VersionLifecycle,
    VersionLifecycleTransitionError, VersionValueValidationError,
};
use nizaam_indexing::requirement::{IndexRequirement, IndexRequirementValidationError};

fn reference(source: &str, object_reference: &str) -> ObjectReference {
    ObjectReference::new(source, object_reference)
        .expect("test object reference should be valid")
}

#[test]
fn constructs_a_valid_object_reference() {
    let value = reference("quran", "verse:2:255");

    assert_eq!(value.source(), "quran");
    assert_eq!(value.object_reference(), "verse:2:255");
}

#[test]
fn preserves_opaque_reference_contents_without_interpreting_them() {
    let value = reference("source-a", "opaque/value::123");

    assert_eq!(value.source(), "source-a");
    assert_eq!(value.object_reference(), "opaque/value::123");
}

#[test]
fn rejects_an_empty_source() {
    let error =
        ObjectReference::new("", "object-1").expect_err("empty source must be rejected");

    assert_eq!(error, ObjectReferenceValidationError::EmptySource);
}

#[test]
fn rejects_an_empty_object_reference() {
    let error = ObjectReference::new("source-a", "")
        .expect_err("empty object reference must be rejected");

    assert_eq!(error, ObjectReferenceValidationError::EmptyObjectReference);
}

#[test]
fn rejects_a_control_character_in_the_source() {
    let error = ObjectReference::new("source\n", "object-1")
        .expect_err("source control character must be rejected");

    assert_eq!(
        error,
        ObjectReferenceValidationError::SourceControlCharacter { index: 6 }
    );
}

#[test]
fn rejects_a_control_character_in_the_object_reference() {
    let error = ObjectReference::new("source-a", "object\t1")
        .expect_err("object-reference control character must be rejected");

    assert_eq!(
        error,
        ObjectReferenceValidationError::ObjectReferenceControlCharacter { index: 6 }
    );
}

#[test]
fn equality_depends_on_the_complete_logical_reference() {
    let first = reference("source-a", "object-1");
    let second = reference("source-a", "object-1");
    let different_source = reference("source-b", "object-1");
    let different_object = reference("source-a", "object-2");

    assert_eq!(first, second);
    assert_ne!(first, different_source);
    assert_ne!(first, different_object);
}

#[test]
fn reference_ordering_is_deterministic() {
    let first = reference("source-a", "object-1");
    let second = reference("source-a", "object-2");

    assert!(first < second);
}

#[test]
fn clone_preserves_the_reference() {
    let original = reference("source-a", "object-1");
    let cloned = original.clone();

    assert_eq!(original, cloned);
}

#[test]
fn into_parts_preserves_both_components() {
    let value = reference("source-a", "object-1");

    let (source, object_reference) = value.into_parts();

    assert_eq!(source, "source-a");
    assert_eq!(object_reference, "object-1");
}

#[test]
fn unicode_is_allowed_when_it_is_not_a_control_character() {
    let value = reference("مصدر", "كائن-١");

    assert_eq!(value.source(), "مصدر");
    assert_eq!(value.object_reference(), "كائن-١");
}

#[test]
fn whitespace_is_not_rejected_by_the_reference_contract() {
    let value = reference("source a", "object b");

    assert_eq!(value.source(), "source a");
    assert_eq!(value.object_reference(), "object b");
}

#[test]
fn debug_identifies_the_logical_reference_type() {
    let value = reference("source-a", "object-1");
    let debug = format!("{value:?}");

    assert!(debug.contains("ObjectReference"));
    assert!(debug.contains("source-a"));
    assert!(debug.contains("object-1"));
}

#[test]
fn validation_does_not_perform_source_existence_checks() {
    // A structurally valid reference is accepted without requiring a
    // source engine, repository, database, or network connection.
    let value = reference("future-source", "object-that-may-not-exist");

    assert_eq!(value.source(), "future-source");
    assert_eq!(value.object_reference(), "object-that-may-not-exist");
}
