#![allow(unused_imports)]

use nizaam_indexing::build::batch::{BatchChunkError, BatchError, BatchExecutor, BatchOptions, BatchOptionsError, BatchResult};
use nizaam_indexing::build::builder::{BuildCandidate, BuildError, BuildInput, BuildSnapshot, IndexBuilder};
use nizaam_indexing::build::publication::{IndexPublisher, PublicationCandidate, PublicationError, PublicationResult};
use nizaam_indexing::build::rebuild::{IndexRebuilder, RebuildError, RebuildInput, RebuildProgress, RebuildResult};
use nizaam_indexing::build::update::{
    CandidateUpdater, DeleteSelector, IndexMutation, UpdateError, UpdateJournal, UpdateJournalError, UpdateRecord,
    UpdateSequence,
};
use nizaam_indexing::consistency::versioning::{
    is_candidate_stale, validate_active_version_compatibility, validate_candidate_compatibility,
    validate_candidate_lineage, validate_candidate_schema_compatibility, validate_candidate_source_compatibility,
    validate_publication_eligibility, VersioningError,
};
use nizaam_indexing::identity::{
    IndexDefinitionId, IndexDefinitionIdValidationError, IndexDefinitionIdentity, IndexId, IndexNamespace,
    NamespaceRegistry, NamespaceRegistryError, NamespaceValidationError, INDEX_ID_BIT_LEN, INDEX_ID_BYTE_LEN,
    MAX_NAMESPACE_BYTES,
};
use nizaam_indexing::index::{
    ConsistencyRequirement, ConsistencyRequirementValidationError, IndexDefinition, IndexDefinitionValidationError,
    IndexEntry, IndexEntryValidationError, IndexFamily, IndexVersion, IndexVersionId, IndexVersionIdValidationError,
    IndexVersionState, IndexVersionValidationError, KeyDefinition, KeyDefinitionValidationError, KeyField, KeyFields,
    KeyMaterial, KeyMaterialValidationError, ObjectReference, ObjectReferenceValidationError, QueryRequest,
    QueryRequestValidationError, SchemaVersion, SchemaVersionValidationError, SimilarityEntry,
    SimilarityEntryValidationError, SourceVersion, SourceVersionValidationError, TargetReferenceType,
    TargetReferenceTypeValidationError, TextValueValidationError, Uniqueness, VersionLifecycle,
    VersionLifecycleTransitionError, VersionValueValidationError,
};
use nizaam_indexing::requirement::{IndexRequirement, IndexRequirementValidationError};

fn index_id() -> IndexId {
    IndexId::from_bytes([0x11; 64])
}

fn version_id(value: &str) -> IndexVersionId {
    IndexVersionId::new(value).expect("test version ID should be valid")
}

fn definition() -> IndexDefinition {
    IndexDefinition::new(
        IndexDefinitionIdentity::new(
            IndexDefinitionId::new("test.publication").expect("definition ID should be valid"),
            IndexNamespace::new("test").expect("namespace should be valid"),
            IndexFamily::Inverted,
        ),
        KeyDefinition::new(&["text"]).expect("key definition should be valid"),
        TargetReferenceType::new("object").expect("target reference type should be valid"),
        Uniqueness::NonUnique,
        ConsistencyRequirement::new("eventual")
            .expect("consistency requirement should be valid"),
        None,
        None,
    )
    .expect("definition should be valid")
}

fn candidate(index_id: IndexId, version: &str) -> BuildCandidate {
    let input = BuildInput::new(
        index_id,
        definition(),
        version_id(version),
        BuildSnapshot::new(Vec::new()),
    );
    IndexBuilder::new()
        .build(input)
        .expect("test candidate should build")
}

#[test]
fn prepare_valid_initial_candidate() {
    let publisher = IndexPublisher::new();
    let candidate = candidate(index_id(), "v1");

    let prepared = publisher
        .prepare(candidate.clone(), &definition(), None, None)
        .expect("initial candidate should be publishable");

    assert_eq!(prepared.candidate(), &candidate);
    assert!(prepared.base_version().is_none());
    assert!(prepared.validated_against_active().is_none());
}

#[test]
fn prepare_rejects_stale_candidate() {
    let publisher = IndexPublisher::new();
    let candidate = candidate(index_id(), "v2");

    let error = publisher
        .prepare(
            candidate,
            &definition(),
            Some(version_id("v1")),
            Some(version_id("v3")),
        )
        .expect_err("candidate based on v1 must not prepare against v3");

    assert!(matches!(
        error,
        PublicationError::Versioning(VersioningError::StaleCandidate { .. })
    ));
}

#[test]
fn publish_preserves_previous_active_candidate() {
    let publisher = IndexPublisher::new();
    let previous = candidate(index_id(), "v1");
    let next = candidate(index_id(), "v2");
    let prepared = publisher
        .prepare(
            next.clone(),
            &definition(),
            Some(version_id("v1")),
            Some(version_id("v1")),
        )
        .expect("v2 should prepare from v1");

    let result = publisher
        .publish(prepared, Some(previous.clone()))
        .expect("publication should succeed");

    assert_eq!(result.active(), &next);
    assert_eq!(result.previous_active(), Some(&previous));
}

#[test]
fn publish_rejects_changed_active_version() {
    let publisher = IndexPublisher::new();
    let prepared = publisher
        .prepare(
            candidate(index_id(), "v3"),
            &definition(),
            Some(version_id("v1")),
            Some(version_id("v1")),
        )
        .expect("candidate should prepare against v1");
    let current = candidate(index_id(), "v2");

    let error = publisher
        .publish(prepared, Some(current))
        .expect_err("older prepared observation must not overwrite v2");

    assert_eq!(
        error,
        PublicationError::ActiveVersionChanged {
            observed: Some(version_id("v1")),
            current: Some(version_id("v2")),
        }
    );
}

#[test]
fn publish_rejects_different_index_resource() {
    let publisher = IndexPublisher::new();
    let first = index_id();
    let second = IndexId::from_bytes([0x22; 64]);
    let prepared = publisher
        .prepare(
            candidate(first, "v2"),
            &definition(),
            Some(version_id("v1")),
            Some(version_id("v1")),
        )
        .expect("candidate should prepare");
    let active = candidate(second, "v1");

    let error = publisher
        .publish(prepared, Some(active))
        .expect_err("different logical indexes must not publish together");

    assert_eq!(
        error,
        PublicationError::IndexMismatch {
            candidate_index: first,
            active_index: second,
        }
    );
}
