#![allow(unused_imports, dead_code)]

use nizaam_indexing::build::batch::{BatchChunkError, BatchError, BatchExecutor, BatchOptions, BatchOptionsError, BatchResult};
use nizaam_indexing::build::builder::{BuildCandidate, BuildError, BuildInput, BuildSnapshot, IndexBuilder};
use nizaam_indexing::build::publication::{IndexPublisher, PublicationCandidate, PublicationError, PublicationResult};
use nizaam_indexing::build::rebuild::{IndexRebuilder, RebuildError, RebuildInput, RebuildProgress, RebuildResult};
use nizaam_indexing::build::update::{
    CandidateUpdater, DeleteSelector, IndexMutation, UpdateError, UpdateJournal, UpdateJournalError, UpdateRecord,
    UpdateSequence,
};
use nizaam_indexing::consistency::versioning::{
    is_candidate_stale, validate_active_version_compatibility, validate_candidate_compatibility,
    validate_candidate_lineage, validate_candidate_schema_compatibility, validate_candidate_source_compatibility,
    validate_publication_eligibility, VersioningError,
};
use nizaam_indexing::identity::{
    IndexDefinitionId, IndexDefinitionIdValidationError, IndexDefinitionIdentity, IndexId, IndexNamespace,
    NamespaceRegistry, NamespaceRegistryError, NamespaceValidationError, INDEX_ID_BIT_LEN, INDEX_ID_BYTE_LEN,
    MAX_NAMESPACE_BYTES,
};
use nizaam_indexing::index::{
    ConsistencyRequirement, ConsistencyRequirementValidationError, IndexDefinition, IndexDefinitionValidationError,
    IndexEntry, IndexEntryValidationError, IndexFamily, IndexVersion, IndexVersionId, IndexVersionIdValidationError,
    IndexVersionState, IndexVersionValidationError, KeyDefinition, KeyDefinitionValidationError, KeyField, KeyFields,
    KeyMaterial, KeyMaterialValidationError, ObjectReference, ObjectReferenceValidationError, QueryRequest,
    QueryRequestValidationError, SchemaVersion, SchemaVersionValidationError, SimilarityEntry,
    SimilarityEntryValidationError, SourceVersion, SourceVersionValidationError, TargetReferenceType,
    TargetReferenceTypeValidationError, TextValueValidationError, Uniqueness, VersionLifecycle,
    VersionLifecycleTransitionError, VersionValueValidationError,
};
use nizaam_indexing::diagnostic::{
    core_error_is_retryable, core_error_owner, core_error_severity, core_error_version, CoreErrorClass, CoreErrorParts,
};
use nizaam_indexing::requirement::{IndexRequirement, IndexRequirementValidationError};

fn index_id(seed: u8) -> IndexId {
    IndexId::from_bytes([seed; 64])
}

fn version_id(value: &str) -> IndexVersionId {
    IndexVersionId::new(value).expect("test version ID should be valid")
}

fn definition(uniqueness: Uniqueness) -> IndexDefinition {
    let identity = IndexDefinitionIdentity::new(
        IndexDefinitionId::new("documents.v1").expect("definition ID should be valid"),
        IndexNamespace::new("search.documents").expect("namespace should be valid"),
        IndexFamily::Inverted,
    );

    IndexDefinition::new(
        identity,
        KeyDefinition::new(&["term"]).expect("key definition should be valid"),
        TargetReferenceType::new("source.document")
            .expect("target reference type should be valid"),
        uniqueness,
        ConsistencyRequirement::new("logical-v1")
            .expect("consistency requirement should be valid"),
        Some(SourceVersion::new("source-v1").expect("source should be valid")),
        Some(SchemaVersion::new("schema-v1").expect("schema should be valid")),
    )
    .expect("definition should be valid")
}

fn candidate(uniqueness: Uniqueness, entries: Vec<IndexEntry>) -> BuildCandidate {
    BuildCandidate::from_parts(
        index_id(0x11),
        definition(uniqueness),
        IndexVersion::with_metadata(
            version_id("index-v1"),
            Some(
                SourceVersion::new("source-v1").expect("source should be valid"),
            ),
            Some(
                SchemaVersion::new("schema-v1").expect("schema should be valid"),
            ),
            None,
        )
        .expect("version should be valid"),
        entries,
    )
}

fn entry(key: &str, reference: &str) -> IndexEntry {
    IndexEntry::new(
        KeyMaterial::text(key),
        ObjectReference::new("documents", reference).expect("object reference should be valid"),
    )
    .expect("entry should be valid")
}

fn target(reference: &str) -> ObjectReference {
    ObjectReference::new("documents", reference).expect("object reference should be valid")
}

fn insert(key: &str, reference: &str) -> IndexMutation {
    IndexMutation::Insert(entry(key, reference))
}

fn options(size: usize) -> BatchOptions {
    BatchOptions::new(size).expect("test batch options should be valid")
}


fn details(parts: &CoreErrorParts) -> Vec<(&str, &str)> {
    parts.details.iter().map(|(k, v)| (k.as_str(), v.as_str())).collect()
}

#[test]
fn reports_share_owner_and_version() {
    assert_eq!(core_error_owner(), "INDEXING");
    assert_eq!(core_error_version(), (1, 0, 0));
    assert_eq!(core_error_severity(), "error");
    assert!(!core_error_is_retryable());
}

#[test]
fn versioning_failures_report_codes_and_lineage_details() {
    let error = VersioningError::MissingCandidateSourceVersion {
        candidate: version_id("c1"),
        expected: SourceVersion::new("s1").expect("valid"),
    };
    let parts = error.core_error_parts();
    assert_eq!(parts.code, "INDEXING.VERSIONING.001");
    assert_eq!(parts.class, CoreErrorClass::Contract);
    assert_eq!(parts.message, error.to_string());
    assert_eq!(details(&parts), vec![("candidate_version", "c1"), ("expected_source_version", "s1")]);

    let error = VersioningError::StaleCandidate {
        candidate: version_id("candidate-v7"),
        base_version: Some(version_id("active-v5")),
        active_version: None,
    };
    let parts = error.core_error_parts();
    assert_eq!(parts.code, "INDEXING.VERSIONING.005");
    assert_eq!(
        details(&parts),
        vec![
            ("candidate_version", "candidate-v7"),
            ("base_version", "Some(IndexVersionId(\"active-v5\"))"),
            ("active_version", "None"),
        ]
    );

    let error = VersioningError::InvalidCandidate(IndexVersionValidationError::InvalidMetadata(
        KeyMaterialValidationError::EmptyMapField,
    ));
    let parts = error.core_error_parts();
    assert_eq!(parts.code, "INDEXING.VERSIONING.007");
    assert_eq!(parts.class, CoreErrorClass::Validation);
    assert!(parts.details.is_empty());
}

#[test]
fn versioning_adapter_reports_missing_source_version() {
    let candidate = IndexVersion::new(version_id("candidate-v1"));
    let expected = SourceVersion::new("source-v1").expect("valid");
    let error = validate_candidate_source_compatibility(&candidate, Some(&expected))
        .expect_err("a candidate missing the required source version must fail");
    assert_eq!(error.core_error_parts().code, "INDEXING.VERSIONING.001");
}

#[test]
fn update_failures_report_targets_keys_and_classes() {
    let error = UpdateError::TargetNotFound(target("doc:9"));
    let parts = error.core_error_parts();
    assert_eq!(parts.code, "INDEXING.UPDATE.002");
    assert_eq!(parts.class, CoreErrorClass::Contract);
    assert_eq!(parts.message, "index update target was not found: documents/doc:9");
    assert_eq!(details(&parts), vec![("target_source", "documents"), ("target_reference", "doc:9")]);

    let error = UpdateError::UniqueKeyConflict { key: KeyMaterial::text("a") };
    let parts = error.core_error_parts();
    assert_eq!(parts.code, "INDEXING.UPDATE.003");
    assert_eq!(details(&parts), vec![("conflicting_key", "Text(\"a\")")]);

    let error = UpdateError::Journal(UpdateJournalError::SequenceExhausted);
    let parts = error.core_error_parts();
    assert_eq!(parts.code, "INDEXING.UPDATE.007");
    assert_eq!(parts.class, CoreErrorClass::Resource);
    assert_eq!(parts.message, "update journal rejected mutation: index update sequence is exhausted");

    let parts = UpdateJournalError::SequenceExhausted.core_error_parts();
    assert_eq!(parts.code, "INDEXING.UPDATE.007");
    assert_eq!(parts.class, CoreErrorClass::Resource);
    assert_eq!(parts.message, "index update sequence is exhausted");

    let error = UpdateError::InvalidDeleteKey(KeyMaterialValidationError::EmptyMapField);
    let parts = error.core_error_parts();
    assert_eq!(parts.code, "INDEXING.UPDATE.006");
    assert_eq!(parts.class, CoreErrorClass::Validation);
}

#[test]
fn rebuild_failures_report_sequences_in_decimal() {
    let error = RebuildError::NotCaughtUp {
        replayed_through: UpdateSequence::new(1),
        journal_sequence: UpdateSequence::new(20),
    };
    let parts = error.core_error_parts();
    assert_eq!(parts.code, "INDEXING.REBUILD.005");
    assert_eq!(parts.class, CoreErrorClass::Contract);
    assert_eq!(details(&parts), vec![("replayed_through", "1"), ("journal_sequence", "20")]);

    let error = RebuildError::Update(UpdateError::TargetNotFound(target("doc:1")));
    let parts = error.core_error_parts();
    assert_eq!(parts.code, "INDEXING.REBUILD.003");
    assert_eq!(parts.class, CoreErrorClass::Execution);
    assert!(parts.details.is_empty());
}

#[test]
fn publication_and_build_failures_report_their_details() {
    let error = PublicationError::ActiveVersionChanged { observed: None, current: Some(version_id("v2")) };
    let parts = error.core_error_parts();
    assert_eq!(parts.code, "INDEXING.PUBLICATION.003");
    assert_eq!(parts.class, CoreErrorClass::Contract);
    assert_eq!(
        details(&parts),
        vec![("observed_active_version", "None"), ("current_active_version", "Some(IndexVersionId(\"v2\"))")]
    );

    let error = BuildError::InvalidEntry {
        position: 12,
        error: IndexEntryValidationError::InvalidKey(KeyMaterialValidationError::EmptyMapField),
    };
    let parts = error.core_error_parts();
    assert_eq!(parts.code, "INDEXING.BUILD.001");
    assert_eq!(parts.class, CoreErrorClass::Validation);
    assert_eq!(details(&parts), vec![("entry_position", "12")]);
}

#[test]
fn lifecycle_failures_report_states_by_name() {
    let mut state = IndexVersionState::new(IndexVersion::new(version_id("v1")));
    let error = state.transition_to(VersionLifecycle::Published).expect_err("building cannot publish");
    let parts = error.core_error_parts();
    assert_eq!(parts.code, "INDEXING.VERSION.001");
    assert_eq!(parts.class, CoreErrorClass::Contract);
    assert_eq!(parts.message, "invalid index version lifecycle transition for v1: Building -> Published");
    assert_eq!(details(&parts), vec![("version", "v1"), ("from", "Building"), ("to", "Published")]);
}

#[test]
fn batch_failures_report_the_inner_failure_and_progress() {
    let parts = BatchOptions::new(0).expect_err("zero chunk size").core_error_parts();
    assert_eq!(parts.code, "INDEXING.BATCH.001");
    assert_eq!(parts.class, CoreErrorClass::Validation);

    let original = candidate(Uniqueness::Unique, vec![entry("existing", "doc:1")]);
    let journal = UpdateJournal::new();
    let error = BatchExecutor::new()
        .execute(
            &original,
            &journal,
            vec![insert("first", "doc:2"), insert("second", "doc:3"), insert("conflict", "doc:4"), insert("conflict", "doc:5")],
            options(2),
        )
        .expect_err("second chunk should fail");
    let parts = error.core_error_parts();
    assert_eq!(parts.code, "INDEXING.UPDATE.003");
    assert_eq!(parts.class, CoreErrorClass::Contract);
    assert_eq!(parts.message, "unique index key conflict for Text(\"conflict\")");
    assert_eq!(
        details(&parts),
        vec![
            ("conflicting_key", "Text(\"conflict\")"),
            ("batch_chunk", "1"),
            ("completed_chunks", "1"),
            ("applied_mutations", "2"),
        ]
    );
}

#[test]
fn named_fields_in_any_order_build_the_same_value() {
    let forward = KeyMaterial::map(vec![
        ("a", KeyMaterial::Integer(1)),
        ("b", KeyMaterial::text("x")),
        ("c", KeyMaterial::Bool(false)),
    ])
    .expect("distinct valid names");
    let backward = KeyMaterial::map(vec![
        ("c", KeyMaterial::Bool(false)),
        ("a", KeyMaterial::Integer(1)),
        ("b", KeyMaterial::text("x")),
    ])
    .expect("distinct valid names");
    assert_eq!(forward, backward);
    assert_eq!(forward.canonical_bytes(), backward.canonical_bytes());
}

#[test]
fn named_fields_report_the_first_repeated_name() {
    let error = KeyMaterial::map(vec![
        ("a", KeyMaterial::Null),
        ("b", KeyMaterial::Null),
        ("a", KeyMaterial::Null),
        ("", KeyMaterial::Null),
        ("b", KeyMaterial::Null),
    ])
    .expect_err("a repeats");
    assert_eq!(error, KeyMaterialValidationError::DuplicateMapField("a".to_owned()));
}

#[test]
fn named_fields_do_not_validate_their_values() {
    let value = KeyMaterial::Text("bad\u{1}value".to_owned());
    let material = KeyMaterial::map(vec![("a", value)]).expect("values are not checked by map");
    assert!(material.validate().is_err());
}
