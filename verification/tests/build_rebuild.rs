#![allow(unused_imports)]

use nizaam_indexing::build::batch::{BatchChunkError, BatchError, BatchExecutor, BatchOptions, BatchOptionsError, BatchResult};
use nizaam_indexing::build::builder::{BuildCandidate, BuildError, BuildInput, BuildSnapshot, IndexBuilder};
use nizaam_indexing::build::publication::{IndexPublisher, PublicationCandidate, PublicationError, PublicationResult};
use nizaam_indexing::build::rebuild::{IndexRebuilder, RebuildError, RebuildInput, RebuildProgress, RebuildResult};
use nizaam_indexing::build::update::{
    CandidateUpdater, DeleteSelector, IndexMutation, UpdateError, UpdateJournal, UpdateJournalError, UpdateRecord,
    UpdateSequence,
};
use nizaam_indexing::consistency::versioning::{
    is_candidate_stale, validate_active_version_compatibility, validate_candidate_compatibility,
    validate_candidate_lineage, validate_candidate_schema_compatibility, validate_candidate_source_compatibility,
    validate_publication_eligibility, VersioningError,
};
use nizaam_indexing::identity::{
    IndexDefinitionId, IndexDefinitionIdValidationError, IndexDefinitionIdentity, IndexId, IndexNamespace,
    NamespaceRegistry, NamespaceRegistryError, NamespaceValidationError, INDEX_ID_BIT_LEN, INDEX_ID_BYTE_LEN,
    MAX_NAMESPACE_BYTES,
};
use nizaam_indexing::index::{
    ConsistencyRequirement, ConsistencyRequirementValidationError, IndexDefinition, IndexDefinitionValidationError,
    IndexEntry, IndexEntryValidationError, IndexFamily, IndexVersion, IndexVersionId, IndexVersionIdValidationError,
    IndexVersionState, IndexVersionValidationError, KeyDefinition, KeyDefinitionValidationError, KeyField, KeyFields,
    KeyMaterial, KeyMaterialValidationError, ObjectReference, ObjectReferenceValidationError, QueryRequest,
    QueryRequestValidationError, SchemaVersion, SchemaVersionValidationError, SimilarityEntry,
    SimilarityEntryValidationError, SourceVersion, SourceVersionValidationError, TargetReferenceType,
    TargetReferenceTypeValidationError, TextValueValidationError, Uniqueness, VersionLifecycle,
    VersionLifecycleTransitionError, VersionValueValidationError,
};
use nizaam_indexing::requirement::{IndexRequirement, IndexRequirementValidationError};

fn index_id(seed: u8) -> IndexId {
    IndexId::from_bytes([seed; 64])
}

fn version_id(value: &str) -> IndexVersionId {
    IndexVersionId::new(value).expect("test version ID should be valid")
}

fn source_version(value: &str) -> SourceVersion {
    SourceVersion::new(value).expect("test source version should be valid")
}

fn schema_version(value: &str) -> SchemaVersion {
    SchemaVersion::new(value).expect("test schema version should be valid")
}

fn definition(source: Option<&str>, schema: Option<&str>) -> IndexDefinition {
    IndexDefinition::new(
        IndexDefinitionIdentity::new(
            IndexDefinitionId::new("documents.v1").expect("test definition ID should be valid"),
            IndexNamespace::new("search.documents").expect("test namespace should be valid"),
            IndexFamily::Inverted,
        ),
        KeyDefinition::new(&["term"]).expect("test key definition should be valid"),
        TargetReferenceType::new("source.document")
            .expect("test target reference type should be valid"),
        Uniqueness::NonUnique,
        ConsistencyRequirement::new("logical-v1")
            .expect("test consistency requirement should be valid"),
        source.map(source_version),
        schema.map(schema_version),
    )
    .expect("test definition should be valid")
}

fn entry(key: &str, reference: &str) -> IndexEntry {
    IndexEntry::new(
        KeyMaterial::text(key),
        ObjectReference::new("documents", reference)
            .expect("test object reference should be valid"),
    )
    .expect("test entry should be valid")
}

fn input(
    base: Option<&str>,
    active: Option<&str>,
    snapshot_entries: Vec<IndexEntry>,
) -> RebuildInput {
    RebuildInput::new(
        index_id(0x55),
        definition(Some("source-v1"), Some("schema-v1")),
        version_id("index-v2"),
        BuildSnapshot::with_versions(
            Some(source_version("source-v1")),
            Some(schema_version("schema-v1")),
            snapshot_entries,
        ),
        base.map(version_id),
        active.map(version_id),
    )
}

fn insert(key: &str, reference: &str) -> IndexMutation {
    IndexMutation::Insert(entry(key, reference))
}

#[test]
fn start_builds_isolated_candidate_and_captures_sequence() {
    let mut journal = UpdateJournal::new();
    journal
        .append(insert("old", "doc:old"))
        .expect("append should succeed");

    let rebuilder = IndexRebuilder::new();
    let progress = rebuilder
        .start(
            input(
                Some("index-v1"),
                Some("index-v1"),
                vec![entry("alpha", "doc:1")],
            ),
            &journal,
        )
        .expect("rebuild should start");

    assert_eq!(progress.captured_sequence().value(), 1);
    assert_eq!(progress.replayed_through().value(), 1);
    assert_eq!(progress.replayed_updates(), 0);
    assert_eq!(progress.candidate().len(), 1);
    assert_eq!(
        progress.base_version().map(IndexVersionId::as_str),
        Some("index-v1")
    );
}

#[test]
fn start_rejects_stale_base_lineage() {
    let journal = UpdateJournal::new();
    let rebuilder = IndexRebuilder::new();

    let error = rebuilder
        .start(
            input(
                Some("index-v1"),
                Some("index-v2"),
                vec![entry("alpha", "doc:1")],
            ),
            &journal,
        )
        .expect_err("stale rebuild lineage must fail");

    assert!(matches!(
        error,
        RebuildError::Versioning(VersioningError::StaleCandidate { .. })
    ));
}

#[test]
fn start_rejects_rebuild_that_targets_active_version() {
    let journal = UpdateJournal::new();
    let input = RebuildInput::new(
        index_id(0x55),
        definition(Some("source-v1"), Some("schema-v1")),
        version_id("index-v1"),
        BuildSnapshot::with_versions(
            Some(source_version("source-v1")),
            Some(schema_version("schema-v1")),
            vec![entry("alpha", "doc:1")],
        ),
        Some(version_id("index-v1")),
        Some(version_id("index-v1")),
    );

    let error = IndexRebuilder::new()
        .start(input, &journal)
        .expect_err("rebuild must create a different candidate version");

    assert!(matches!(
        error,
        RebuildError::Versioning(VersioningError::AlreadyActive { .. })
    ));
}

#[test]
fn start_allows_initial_rebuild_without_active_version() {
    let journal = UpdateJournal::new();
    let input = RebuildInput::new(
        index_id(0x66),
        definition(Some("source-v1"), Some("schema-v1")),
        version_id("index-v1"),
        BuildSnapshot::with_versions(
            Some(source_version("source-v1")),
            Some(schema_version("schema-v1")),
            vec![entry("alpha", "doc:1")],
        ),
        None,
        None,
    );

    let progress = IndexRebuilder::new()
        .start(input, &journal)
        .expect("initial rebuild should be allowed");

    assert_eq!(progress.captured_sequence(), UpdateSequence::initial());
}

#[test]
fn replay_applies_only_records_after_captured_boundary() {
    let mut journal = UpdateJournal::new();
    journal
        .append(insert("before", "doc:before"))
        .expect("append should succeed");

    let rebuilder = IndexRebuilder::new();
    let progress = rebuilder
        .start(
            input(
                Some("index-v1"),
                Some("index-v1"),
                vec![entry("alpha", "doc:1")],
            ),
            &journal,
        )
        .expect("rebuild should start");

    journal
        .append(insert("after", "doc:after"))
        .expect("append should succeed");
    journal
        .append(insert("later", "doc:later"))
        .expect("append should succeed");

    let replayed = rebuilder
        .replay(&progress, &journal)
        .expect("updates after the boundary should replay");

    assert_eq!(replayed.replayed_through().value(), 3);
    assert_eq!(replayed.replayed_updates(), 2);
    assert!(
        replayed
            .candidate()
            .entries()
            .iter()
            .any(|value| value.key() == &KeyMaterial::text("after"))
    );
    assert!(
        replayed
            .candidate()
            .entries()
            .iter()
            .any(|value| value.key() == &KeyMaterial::text("later"))
    );
    assert!(
        replayed
            .candidate()
            .entries()
            .iter()
            .all(|value| value.key() != &KeyMaterial::text("before"))
    );
}

#[test]
fn replay_does_not_append_replayed_mutations_to_the_journal() {
    let mut journal = UpdateJournal::new();
    journal
        .append(insert("after", "doc:after"))
        .expect("append should succeed");
    let journal_before = journal.clone();

    let rebuilder = IndexRebuilder::new();
    let progress = rebuilder
        .start(
            input(None, None, vec![entry("alpha", "doc:1")]),
            &UpdateJournal::new(),
        )
        .expect("initial rebuild should start");

    let replayed = rebuilder
        .replay(&progress, &journal)
        .expect("journal mutation should replay");

    assert_eq!(journal, journal_before);
    assert_eq!(replayed.replayed_through(), journal.current_sequence());
}

#[test]
fn replay_can_advance_through_multiple_concurrent_update_snapshots() {
    let initial_journal = UpdateJournal::new();
    let rebuilder = IndexRebuilder::new();
    let progress = rebuilder
        .start(
            input(None, None, vec![entry("alpha", "doc:1")]),
            &initial_journal,
        )
        .expect("rebuild should start");

    let mut journal_round_one = initial_journal.clone();
    journal_round_one
        .append(insert("beta", "doc:2"))
        .expect("append should succeed");
    let progress = rebuilder
        .replay(&progress, &journal_round_one)
        .expect("first concurrent update should replay");
    assert_eq!(progress.replayed_through().value(), 1);

    let mut journal_round_two = journal_round_one.clone();
    journal_round_two
        .append(insert("gamma", "doc:3"))
        .expect("append should succeed");
    let progress = rebuilder
        .replay(&progress, &journal_round_two)
        .expect("second concurrent update should replay");

    assert_eq!(progress.replayed_through().value(), 2);
    assert_eq!(progress.replayed_updates(), 2);
    assert!(
        progress
            .candidate()
            .entries()
            .iter()
            .any(|value| value.key() == &KeyMaterial::text("beta"))
    );
    assert!(
        progress
            .candidate()
            .entries()
            .iter()
            .any(|value| value.key() == &KeyMaterial::text("gamma"))
    );
}

#[test]
fn replay_failure_preserves_previous_progress_value() {
    let mut journal = UpdateJournal::new();
    journal
        .append(insert("duplicate", "doc:1"))
        .expect("append should succeed");

    let rebuilder = IndexRebuilder::new();
    let progress = rebuilder
        .start(
            input(None, None, vec![entry("duplicate", "doc:1")]),
            &UpdateJournal::new(),
        )
        .expect("initial rebuild should start");
    let original = progress.clone();

    let error = rebuilder
        .replay(&progress, &journal)
        .expect_err("replaying a duplicate entry must fail");

    assert!(matches!(
        error,
        RebuildError::Update(UpdateError::DuplicateEntry(_))
    ));
    assert_eq!(progress, original);
}

#[test]
fn replay_rejects_an_older_journal_snapshot() {
    let mut journal = UpdateJournal::new();
    journal
        .append(insert("beta", "doc:2"))
        .expect("append should succeed");

    let rebuilder = IndexRebuilder::new();
    let progress = rebuilder
        .start(input(None, None, vec![entry("alpha", "doc:1")]), &journal)
        .expect("rebuild should start");

    let older_journal = UpdateJournal::new();
    let error = rebuilder
        .replay(&progress, &older_journal)
        .expect_err("older journal must be rejected");

    assert_eq!(
        error,
        RebuildError::JournalSequenceRegressed {
            replayed_through: UpdateSequence::new(1),
            observed: UpdateSequence::initial(),
        }
    );
}

#[test]
fn finish_requires_a_consistency_point_before_ready() {
    let journal = UpdateJournal::new();
    let rebuilder = IndexRebuilder::new();
    let progress = rebuilder
        .start(input(None, None, vec![entry("alpha", "doc:1")]), &journal)
        .expect("rebuild should start");

    let mut advanced_journal = journal.clone();
    advanced_journal
        .append(insert("beta", "doc:2"))
        .expect("append should succeed");

    let error = rebuilder
        .finish(&progress, &advanced_journal)
        .expect_err("candidate must replay the new update before ready");

    assert_eq!(
        error,
        RebuildError::NotCaughtUp {
            replayed_through: UpdateSequence::initial(),
            journal_sequence: UpdateSequence::new(1),
        }
    );
}

#[test]
fn finish_validates_and_returns_unpublished_rebuild_result() {
    let journal = UpdateJournal::new();
    let rebuilder = IndexRebuilder::new();
    let progress = rebuilder
        .start(
            input(
                Some("index-v1"),
                Some("index-v1"),
                vec![entry("alpha", "doc:1")],
            ),
            &journal,
        )
        .expect("rebuild should start");

    let result = rebuilder
        .finish(&progress, &journal)
        .expect("caught-up valid candidate should finish");

    assert_eq!(result.captured_sequence(), UpdateSequence::initial());
    assert_eq!(result.replayed_through(), UpdateSequence::initial());
    assert_eq!(result.replayed_updates(), 0);
    assert_eq!(
        result.base_version().map(IndexVersionId::as_str),
        Some("index-v1")
    );
    assert_eq!(result.candidate().version().id().as_str(), "index-v2");
}

#[test]
fn rebuild_convenience_method_completes_against_stable_journal() {
    let mut journal = UpdateJournal::new();
    journal
        .append(insert("beta", "doc:2"))
        .expect("append should succeed");

    let result = IndexRebuilder::new()
        .rebuild(input(None, None, vec![entry("alpha", "doc:1")]), &journal)
        .expect("stable-journal rebuild should complete");

    assert_eq!(result.replayed_updates(), 0);
    assert_eq!(result.replayed_through(), journal.current_sequence());
}
