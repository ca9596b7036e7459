#![allow(unused_imports)]

use nizaam_indexing::build::batch::{BatchChunkError, BatchError, BatchExecutor, BatchOptions, BatchOptionsError, BatchResult};
use nizaam_indexing::build::builder::{BuildCandidate, BuildError, BuildInput, BuildSnapshot, IndexBuilder};
use nizaam_indexing::build::publication::{IndexPublisher, PublicationCandidate, PublicationError, PublicationResult};
use nizaam_indexing::build::rebuild::{IndexRebuilder, RebuildError, RebuildInput, RebuildProgress, RebuildResult};
use nizaam_indexing::build::update::{
    CandidateUpdater, DeleteSelector, IndexMutation, UpdateError, UpdateJournal, UpdateJournalError, UpdateRecord,
    UpdateSequence,
};
use nizaam_indexing::consistency::versioning::{
    is_candidate_stale, validate_active_version_compatibility, validate_candidate_compatibility,
    validate_candidate_lineage, validate_candidate_schema_compatibility, validate_candidate_source_compatibility,
    validate_publication_eligibility, VersioningError,
};
use nizaam_indexing::identity::{
    IndexDefinitionId, IndexDefinitionIdValidationError, IndexDefinitionIdentity, IndexId, IndexNamespace,
    NamespaceRegistry, NamespaceRegistryError, NamespaceValidationError, INDEX_ID_BIT_LEN, INDEX_ID_BYTE_LEN,
    MAX_NAMESPACE_BYTES,
};
use nizaam_indexing::index::{
    ConsistencyRequirement, ConsistencyRequirementValidationError, IndexDefinition, IndexDefinitionValidationError,
    IndexEntry, IndexEntryValidationError, IndexFamily, IndexVersion, IndexVersionId, IndexVersionIdValidationError,
    IndexVersionState, IndexVersionValidationError, KeyDefinition, KeyDefinitionValidationError, KeyField, KeyFields,
    KeyMaterial, KeyMaterialValidationError, MetricKind, ObjectReference, ObjectReferenceValidationError, QueryRequest,
    QueryRequestValidationError, SchemaVersion, SchemaVersionValidationError, SimilarityEntry,
    SimilarityEntryValidationError, SourceVersion, SourceVersionValidationError, TargetReferenceType,
    TargetReferenceTypeValidationError, TextValueValidationError, Uniqueness, VersionLifecycle,
    VersionLifecycleTransitionError, VersionValueValidationError,
};
use nizaam_indexing::requirement::{IndexRequirement, IndexRequirementValidationError};

fn index_id(seed: u8) -> IndexId {
    IndexId::from_bytes([seed; 64])
}

fn version_id(value: &str) -> IndexVersionId {
    IndexVersionId::new(value).expect("test version ID should be valid")
}

fn entry(key: &str, reference: &str) -> IndexEntry {
    IndexEntry::new(
        KeyMaterial::text(key),
        ObjectReference::new("documents", reference).expect("object reference should be valid"),
    )
    .expect("entry should be valid")
}

#[test]
fn namespace_messages_render_bytes_in_hex_and_positions_in_decimal() {
    let too_long = IndexNamespace::new(&"a".repeat(130)).expect_err("too long");
    assert_eq!(too_long.to_string(), "namespace length 130 exceeds maximum 128 bytes");

    let start = IndexNamespace::new(".abc").expect_err("invalid start");
    assert_eq!(start, NamespaceValidationError::InvalidStart { byte: 0x2E });
    assert_eq!(start.to_string(), "namespace starts with invalid byte 0x2E");

    let consecutive = IndexNamespace::new("ab..cd").expect_err("consecutive separators");
    assert_eq!(consecutive, NamespaceValidationError::ConsecutiveSeparators { index: 3 });
    assert_eq!(consecutive.to_string(), "namespace contains consecutive separators at index 3");

    let empty = IndexNamespace::new("").expect_err("empty");
    assert_eq!(empty.to_string(), "namespace must not be empty");
}

#[test]
fn registry_messages_name_the_namespace() {
    let mut registry = NamespaceRegistry::new();
    let namespace = IndexNamespace::new("lexical").expect("valid namespace");
    registry.register(namespace.clone()).expect("first registration");
    let error = registry.register(namespace.clone()).expect_err("duplicate registration");
    assert_eq!(error.to_string(), "namespace `lexical` is already registered");

    let missing = IndexNamespace::new("missing").expect("valid namespace");
    let error = registry.unregister(&missing).expect_err("not registered");
    assert_eq!(error.to_string(), "namespace `missing` is not registered");
}

#[test]
fn key_messages_quote_field_names_like_debug_output() {
    let error = KeyMaterial::map(vec![("source\n", KeyMaterial::text("value"))]).expect_err("invalid field");
    assert_eq!(
        error.to_string(),
        "key-material map field \"source\\n\" contains a control character at byte index 6"
    );

    let error = KeyDefinition::new(&["term", "term"]).expect_err("duplicate field");
    assert_eq!(error.to_string(), "key-definition contains duplicate field \"term\"");
}

#[test]
fn key_material_debug_text_follows_the_logical_model() {
    let material = KeyMaterial::map(vec![
        ("b", KeyMaterial::Sequence(vec![KeyMaterial::Null, KeyMaterial::Bool(true)])),
        ("a", KeyMaterial::Integer(-5)),
        ("c", KeyMaterial::bytes(vec![1, 255])),
        ("d", KeyMaterial::Unsigned(340282366920938463463374607431768211455)),
    ])
    .expect("valid map");

    assert_eq!(
        material.debug_text(),
        "Map({\"a\": Integer(-5), \"b\": Sequence([Null, Bool(true)]), \"c\": Bytes([1, 255]), \"d\": Unsigned(340282366920938463463374607431768211455)})"
    );
    assert_eq!(KeyMaterial::Integer(i128::MIN).debug_text(), "Integer(-170141183460469231731687303715884105728)");
}

#[test]
fn update_messages_render_keys_and_entries() {
    let error = UpdateError::UniqueKeyConflict { key: KeyMaterial::text("a") };
    assert_eq!(error.to_string(), "unique index key conflict for Text(\"a\")");

    let error = UpdateError::DuplicateEntry(entry("a", "doc:1"));
    assert_eq!(
        error.to_string(),
        "logical index entry already exists: IndexEntry { key: Text(\"a\"), target: ObjectReference { source: \"documents\", object_reference: \"doc:1\" } }"
    );

    let error = UpdateError::UpdateTargetMismatch {
        target: ObjectReference::new("documents", "doc:1").expect("valid"),
        replacement_target: ObjectReference::new("documents", "doc:2").expect("valid"),
    };
    assert_eq!(
        error.to_string(),
        "update target mismatch: selected documents/doc:1 but replacement targets documents/doc:2"
    );

    let error = UpdateError::Journal(UpdateJournalError::SequenceExhausted);
    assert_eq!(error.to_string(), "update journal rejected mutation: index update sequence is exhausted");
}

#[test]
fn versioning_messages_render_lineage_like_debug_output() {
    let error = VersioningError::StaleCandidate {
        candidate: version_id("candidate-v7"),
        base_version: Some(version_id("active-v5")),
        active_version: None,
    };
    assert_eq!(
        error.to_string(),
        "candidate candidate-v7 is stale: base version Some(IndexVersionId(\"active-v5\")) does not match active version None"
    );

    let error = VersioningError::SourceVersionMismatch {
        candidate: version_id("c1"),
        expected: SourceVersion::new("s1").expect("valid"),
        actual: SourceVersion::new("s2").expect("valid"),
    };
    assert_eq!(error.to_string(), "candidate c1 has source version s2, expected s1");
}

#[test]
fn rebuild_and_batch_messages_render_numbers_in_decimal() {
    let error = RebuildError::NotCaughtUp {
        replayed_through: UpdateSequence::new(1),
        journal_sequence: UpdateSequence::new(20),
    };
    assert_eq!(error.to_string(), "rebuild is not caught up: replayed through 1, journal is at 20");

    let error = RebuildError::JournalSequenceRegressed {
        replayed_through: UpdateSequence::new(7),
        observed: UpdateSequence::initial(),
    };
    assert_eq!(error.to_string(), "rebuild journal sequence regressed from 7 to 0");

    assert_eq!(UpdateSequence::new(18446744073709551615).to_string(), "18446744073709551615");

    let error = BatchOptions::new(0).expect_err("zero chunk size");
    assert_eq!(error.to_string(), "batch chunk size must be greater than zero");
}

#[test]
fn publication_messages_render_identities() {
    let error = PublicationError::IndexMismatch { candidate_index: index_id(1), active_index: index_id(2) };
    let ones = vec!["1"; 64].join(", ");
    let twos = vec!["2"; 64].join(", ");
    assert_eq!(
        error.to_string(),
        format!("publication index mismatch: candidate index IndexId([{ones}]) differs from active index IndexId([{twos}])")
    );

    let error = PublicationError::ActiveVersionChanged { observed: None, current: Some(version_id("v2")) };
    assert_eq!(
        error.to_string(),
        "active version changed after publication preparation: observed None, current Some(IndexVersionId(\"v2\"))"
    );
}

#[test]
fn value_messages_match_their_debug_structure() {
    let identity = IndexDefinitionIdentity::new(
        IndexDefinitionId::new("definition-a").expect("valid"),
        IndexNamespace::new("lexical").expect("valid"),
        IndexFamily::Inverted,
    );
    assert_eq!(
        identity.to_string(),
        "IndexDefinitionIdentity { definition_id: IndexDefinitionId(\"definition-a\"), namespace: IndexNamespace(\"lexical\"), family: Inverted }"
    );

    let mut state = IndexVersionState::new(IndexVersion::new(version_id("v1")));
    let error = state.transition_to(VersionLifecycle::Published).expect_err("building cannot publish");
    assert_eq!(error.to_string(), "invalid index version lifecycle transition for v1: Building -> Published");

    let error = TargetReferenceType::new("").expect_err("empty");
    assert_eq!(error.to_string(), "invalid target reference type: value must not be empty");

    let error = ObjectReference::new("", "x").expect_err("empty source");
    assert_eq!(error.to_string(), "object reference source/owner identifier must not be empty");
}

#[test]
fn metric_kinds_have_lower_case_names() {
    assert_eq!(MetricKind::Score.to_string(), "score");
    assert_eq!(MetricKind::Distance.to_string(), "distance");
}
