#![allow(unused_imports)]

use nizaam_indexing::build::batch::{BatchChunkError, BatchError, BatchExecutor, BatchOptions, BatchOptionsError, BatchResult};
use nizaam_indexing::build::builder::{BuildCandidate, BuildError, BuildInput, BuildSnapshot, IndexBuilder};
use nizaam_indexing::build::publication::{IndexPublisher, PublicationCandidate, PublicationError, PublicationResult};
use nizaam_indexing::build::rebuild::{IndexRebuilder, RebuildError, RebuildInput, RebuildProgress, RebuildResult};
use nizaam_indexing::build::update::{
    CandidateUpdater, DeleteSelector, IndexMutation, UpdateError, UpdateJournal, UpdateJournalError, UpdateRecord,
    UpdateSequence,
};
use nizaam_indexing::consistency::versioning::{
    is_candidate_stale, validate_active_version_compatibility, validate_candidate_compatibility,
    validate_candidate_lineage, validate_candidate_schema_compatibility, validate_candidate_source_compatibility,
    validate_publication_eligibility, VersioningError,
};
use nizaam_indexing::identity::{
    IndexDefinitionId, IndexDefinitionIdValidationError, IndexDefinitionIdentity, IndexId, IndexNamespace,
    NamespaceRegistry, NamespaceRegistryError, NamespaceValidationError, INDEX_ID_BIT_LEN, INDEX_ID_BYTE_LEN,
    MAX_NAMESPACE_BYTES,
};
use nizaam_indexing::index::{
    ConsistencyRequirement, ConsistencyRequirementValidationError, IndexDefinition, IndexDefinitionValidationError,
    IndexEntry, IndexEntryValidationError, IndexFamily, IndexVersion, IndexVersionId, IndexVersionIdValidationError,
    IndexVersionState, IndexVersionValidationError, KeyDefinition, KeyDefinitionValidationError, KeyField, KeyFields,
    KeyMaterial, KeyMaterialValidationError, ObjectReference, ObjectReferenceValidationError, QueryRequest,
    QueryRequestValidationError, SchemaVersion, SchemaVersionValidationError, SimilarityEntry,
    SimilarityEntryValidationError, SourceVersion, SourceVersionValidationError, TargetReferenceType,
    TargetReferenceTypeValidationError, TextValueValidationError, Uniqueness, VersionLifecycle,
    VersionLifecycleTransitionError, VersionValueValidationError,
};
use nizaam_indexing::requirement::{IndexRequirement, IndexRequirementValidationError};

fn index_version_id(value: &str) -> IndexVersionId {
    IndexVersionId::new(value).expect("test index version ID should be valid")
}

fn source_version(value: &str) -> SourceVersion {
    SourceVersion::new(value).expect("test source version should be valid")
}

fn schema_version(value: &str) -> SchemaVersion {
    SchemaVersion::new(value).expect("test schema version should be valid")
}

#[test]
fn constructs_an_index_version() {
    let id = index_version_id("index-v1");
    let version = IndexVersion::new(id.clone());

    assert_eq!(version.id(), &id);
    assert_eq!(version.source_version(), None);
    assert_eq!(version.schema_version(), None);
    assert_eq!(version.metadata(), None);
}

#[test]
fn keeps_index_source_and_schema_versions_distinct() {
    let index_id = index_version_id("index-v7");
    let source = source_version("source-2026-09-25");
    let schema = schema_version("schema-3");

    let version = IndexVersion::with_metadata(
        index_id.clone(),
        Some(source.clone()),
        Some(schema.clone()),
        None,
    )
    .expect("valid version should be constructed");

    assert_eq!(version.id(), &index_id);
    assert_eq!(version.source_version(), Some(&source));
    assert_eq!(version.schema_version(), Some(&schema));

    // The three concepts deliberately have different Rust types.
    // IndexVersionId != SourceVersion != SchemaVersion.
}

#[test]
fn version_accepts_generic_logical_metadata() {
    let metadata = KeyMaterial::map(vec![
        ("build-source", KeyMaterial::text("source-engine")),
        ("revision", KeyMaterial::Unsigned(4)),
    ])
    .expect("test metadata should be valid");

    let version = IndexVersion::with_metadata(
        index_version_id("index-v4"),
        Some(source_version("source-v4")),
        Some(schema_version("schema-v2")),
        Some(metadata.clone()),
    )
    .expect("valid metadata should be accepted");

    assert_eq!(version.metadata(), Some(&metadata));
}

#[test]
fn version_rejects_invalid_metadata() {
    let metadata = KeyMaterial::text("invalid\nmetadata");

    let error =
        IndexVersion::with_metadata(index_version_id("index-v1"), None, None, Some(metadata))
            .expect_err("invalid metadata must be rejected");

    assert_eq!(
        error,
        IndexVersionValidationError::InvalidMetadata(
            KeyMaterialValidationError::TextControlCharacter { index: 7 }
        )
    );
}

#[test]
fn rejects_empty_index_version_id() {
    let error = IndexVersionId::new("").expect_err("empty index version ID must be rejected");

    assert_eq!(
        error,
        IndexVersionIdValidationError::InvalidValue(VersionValueValidationError::Empty)
    );
}

#[test]
fn rejects_control_characters_in_version_values() {
    let index_error =
        IndexVersionId::new("index\nv1").expect_err("control characters must be rejected");

    let source_error =
        SourceVersion::new("source\tv1").expect_err("control characters must be rejected");

    let schema_error =
        SchemaVersion::new("schema\r1").expect_err("control characters must be rejected");

    assert_eq!(
        index_error,
        IndexVersionIdValidationError::InvalidValue(
            VersionValueValidationError::ControlCharacter { index: 5 }
        )
    );
    assert_eq!(
        source_error,
        SourceVersionValidationError::InvalidValue(
            VersionValueValidationError::ControlCharacter { index: 6 }
        )
    );
    assert_eq!(
        schema_error,
        SchemaVersionValidationError::InvalidValue(
            VersionValueValidationError::ControlCharacter { index: 6 }
        )
    );
}

#[test]
fn unicode_version_values_are_allowed() {
    let id = IndexVersionId::new("نسخة-١")
        .expect("Unicode should not be rejected merely for being Unicode");

    assert_eq!(id.as_str(), "نسخة-١");
}

#[test]
fn version_ordering_is_deterministic() {
    let first = index_version_id("index-v1");
    let second = index_version_id("index-v2");

    assert!(first < second);
}

#[test]
fn version_validation_is_repeatable() {
    let version = IndexVersion::with_metadata(
        index_version_id("index-v9"),
        Some(source_version("source-v9")),
        Some(schema_version("schema-v3")),
        Some(KeyMaterial::Unsigned(9)),
    )
    .expect("valid version should be constructed");

    version.validate().expect("version should be valid");
    version
        .validate()
        .expect("validation should be deterministic");
}

#[test]
fn into_parts_preserves_all_components() {
    let id = index_version_id("index-v3");
    let source = source_version("source-v12");
    let schema = schema_version("schema-v5");
    let metadata = Some(KeyMaterial::Unsigned(3));

    let version = IndexVersion::with_metadata(
        id.clone(),
        Some(source.clone()),
        Some(schema.clone()),
        metadata.clone(),
    )
    .expect("valid version should be constructed");

    let (returned_id, returned_source, returned_schema, returned_metadata) =
        version.into_parts();

    assert_eq!(returned_id, id);
    assert_eq!(returned_source, Some(source));
    assert_eq!(returned_schema, Some(schema));
    assert_eq!(returned_metadata, metadata);
}

#[test]
fn keeps_logical_index_version_separate_from_phase3_lifecycle() {
    let version = IndexVersion::new(index_version_id("candidate-v1"));
    assert_eq!(version.id().as_str(), "candidate-v1");

    let state = IndexVersionState::new(version.clone());
    assert_eq!(state.version(), &version);
    assert_eq!(state.lifecycle(), VersionLifecycle::Building);
    assert!(state.is_candidate());
    assert!(!state.is_published());
}

#[test]
fn follows_the_declared_phase3_lifecycle() {
    let version = IndexVersion::new(index_version_id("index-v1"));
    let mut state = IndexVersionState::new(version);

    state
        .transition_to(VersionLifecycle::Validating)
        .expect("building should transition to validating");
    assert_eq!(state.lifecycle(), VersionLifecycle::Validating);

    state
        .mark_ready()
        .expect("validating should transition to ready");
    assert_eq!(state.lifecycle(), VersionLifecycle::Ready);

    state
        .mark_published()
        .expect("ready should transition to published");
    assert_eq!(state.lifecycle(), VersionLifecycle::Published);
    assert!(!state.is_candidate());
    assert!(state.is_published());
    assert!(state.lifecycle().is_terminal());
}

#[test]
fn failure_and_cancellation_are_terminal_and_unpublished() {
    let failed_version = IndexVersion::new(index_version_id("failed-v1"));
    let mut failed = IndexVersionState::new(failed_version);

    failed
        .mark_failed()
        .expect("building should be allowed to fail");
    assert_eq!(failed.lifecycle(), VersionLifecycle::Failed);
    assert!(failed.is_candidate());
    assert!(!failed.is_published());
    assert!(failed.lifecycle().is_terminal());

    let cancelled_version = IndexVersion::new(index_version_id("cancelled-v1"));
    let mut cancelled = IndexVersionState::new(cancelled_version);

    cancelled
        .mark_cancelled()
        .expect("building should be allowed to cancel");
    assert_eq!(cancelled.lifecycle(), VersionLifecycle::Cancelled);
    assert!(cancelled.is_candidate());
    assert!(!cancelled.is_published());
    assert!(cancelled.lifecycle().is_terminal());
}

#[test]
fn invalid_lifecycle_transition_is_rejected() {
    let version = IndexVersion::new(index_version_id("index-v2"));
    let mut state = IndexVersionState::new(version);

    let error = state
        .mark_published()
        .expect_err("building must not skip validation and ready");

    assert_eq!(error.version().as_str(), "index-v2");
    assert_eq!(error.from(), VersionLifecycle::Building);
    assert_eq!(error.to(), VersionLifecycle::Published);

    state.mark_cancelled().expect("building may be cancelled");
}

#[test]
fn terminal_published_state_cannot_be_reversed() {
    let version = IndexVersion::new(index_version_id("index-v3"));
    let mut state = IndexVersionState::new(version);
    state
        .transition_to(VersionLifecycle::Validating)
        .expect("building should transition to validating");
    state.mark_ready().expect("ready transition should succeed");
    state
        .mark_published()
        .expect("publish transition should succeed");

    let error = state
        .mark_ready()
        .expect_err("published state must not return to ready");

    assert_eq!(error.from(), VersionLifecycle::Published);
    assert_eq!(error.to(), VersionLifecycle::Ready);
}

#[test]
fn index_version_is_distinct_from_source_and_schema_versions() {
    let index = index_version_id("v1");
    let source = source_version("v1");
    let schema = schema_version("v1");

    let version = IndexVersion::with_metadata(
        index.clone(),
        Some(source.clone()),
        Some(schema.clone()),
        None,
    )
    .expect("valid version should be constructed");

    assert_eq!(version.id().as_str(), "v1");
    assert_eq!(
        version
            .source_version()
            .expect("source version exists")
            .as_str(),
        "v1"
    );
    assert_eq!(
        version
            .schema_version()
            .expect("schema version exists")
            .as_str(),
        "v1"
    );

    // Equal textual values do not collapse the concepts because their
    // types remain distinct.
    assert_ne!(format!("{:?}", index), format!("{:?}", source));
    assert_ne!(format!("{:?}", index), format!("{:?}", schema));
}
