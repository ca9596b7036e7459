#![allow(unused_imports)]

use nizaam_indexing::build::batch::{BatchChunkError, BatchError, BatchExecutor, BatchOptions, BatchOptionsError, BatchResult};
use nizaam_indexing::build::builder::{BuildCandidate, BuildError, BuildInput, BuildSnapshot, IndexBuilder};
use nizaam_indexing::build::publication::{IndexPublisher, PublicationCandidate, PublicationError, PublicationResult};
use nizaam_indexing::build::rebuild::{IndexRebuilder, RebuildError, RebuildInput, RebuildProgress, RebuildResult};
use nizaam_indexing::build::update::{
    CandidateUpdater, DeleteSelector, IndexMutation, UpdateError, UpdateJournal, UpdateJournalError, UpdateRecord,
    UpdateSequence,
};
use nizaam_indexing::consistency::versioning::{
    is_candidate_stale, validate_active_version_compatibility, validate_candidate_compatibility,
    validate_candidate_lineage, validate_candidate_schema_compatibility, validate_candidate_source_compatibility,
    validate_publication_eligibility, VersioningError,
};
use nizaam_indexing::identity::{
    IndexDefinitionId, IndexDefinitionIdValidationError, IndexDefinitionIdentity, IndexId, IndexNamespace,
    NamespaceRegistry, NamespaceRegistryError, NamespaceValidationError, INDEX_ID_BIT_LEN, INDEX_ID_BYTE_LEN,
    MAX_NAMESPACE_BYTES,
};
use nizaam_indexing::index::{
    ConsistencyRequirement, ConsistencyRequirementValidationError, IndexDefinition, IndexDefinitionValidationError,
    IndexEntry, IndexEntryValidationError, IndexFamily, IndexVersion, IndexVersionId, IndexVersionIdValidationError,
    IndexVersionState, IndexVersionValidationError, KeyDefinition, KeyDefinitionValidationError, KeyField, KeyFields,
    KeyMaterial, KeyMaterialValidationError, ObjectReference, ObjectReferenceValidationError, QueryRequest,
    QueryRequestValidationError, SchemaVersion, SchemaVersionValidationError, SimilarityEntry,
    SimilarityEntryValidationError, SourceVersion, SourceVersionValidationError, TargetReferenceType,
    TargetReferenceTypeValidationError, TextValueValidationError, Uniqueness, VersionLifecycle,
    VersionLifecycleTransitionError, VersionValueValidationError,
};
use nizaam_indexing::requirement::{IndexRequirement, IndexRequirementValidationError};

fn index_id(seed: u8) -> IndexId {
    IndexId::from_bytes([seed; 64])
}

fn version_id(value: &str) -> IndexVersionId {
    IndexVersionId::new(value).expect("test version ID should be valid")
}

fn definition(uniqueness: Uniqueness) -> IndexDefinition {
    let identity = IndexDefinitionIdentity::new(
        IndexDefinitionId::new("documents.v1").expect("definition ID should be valid"),
        IndexNamespace::new("search.documents").expect("namespace should be valid"),
        IndexFamily::Inverted,
    );

    IndexDefinition::new(
        identity,
        KeyDefinition::new(&["term"]).expect("key definition should be valid"),
        TargetReferenceType::new("source.document")
            .expect("target reference type should be valid"),
        uniqueness,
        ConsistencyRequirement::new("logical-v1")
            .expect("consistency requirement should be valid"),
        Some(SourceVersion::new("source-v1").expect("source should be valid")),
        Some(SchemaVersion::new("schema-v1").expect("schema should be valid")),
    )
    .expect("definition should be valid")
}

fn candidate(uniqueness: Uniqueness, entries: Vec<IndexEntry>) -> BuildCandidate {
    BuildCandidate::from_parts(
        index_id(0x11),
        definition(uniqueness),
        IndexVersion::with_metadata(
            version_id("index-v1"),
            Some(
                SourceVersion::new("source-v1").expect("source should be valid"),
            ),
            Some(
                SchemaVersion::new("schema-v1").expect("schema should be valid"),
            ),
            None,
        )
        .expect("version should be valid"),
        entries,
    )
}

fn entry(key: &str, reference: &str) -> IndexEntry {
    IndexEntry::new(
        KeyMaterial::text(key),
        ObjectReference::new("documents", reference).expect("object reference should be valid"),
    )
    .expect("entry should be valid")
}

fn target(reference: &str) -> ObjectReference {
    ObjectReference::new("documents", reference).expect("object reference should be valid")
}

fn insert(key: &str, reference: &str) -> IndexMutation {
    IndexMutation::Insert(entry(key, reference))
}

fn delete(reference: &str) -> IndexMutation {
    IndexMutation::Delete(DeleteSelector::Target(target(
        reference,
    )))
}

fn options(size: usize) -> BatchOptions {
    BatchOptions::new(size).expect("test batch options should be valid")
}

#[test]
fn rejects_zero_chunk_size() {
    let error = BatchOptions::new(0).expect_err("zero chunk size must be rejected");

    assert_eq!(error, BatchOptionsError::ZeroChunkSize);
}

#[test]
fn preserves_the_caller_supplied_chunk_bound() {
    let options = BatchOptions::new(7).expect("positive chunk size should be valid");
    assert_eq!(options.chunk_size(), 7);
}

#[test]
fn empty_batch_preserves_candidate_and_journal() {
    let original = candidate(Uniqueness::NonUnique, vec![entry("a", "doc:1")]);
    let journal = UpdateJournal::new();

    let result = BatchExecutor::new()
        .execute(&original, &journal, Vec::<IndexMutation>::new(), options(2))
        .expect("empty batch should succeed");

    assert_eq!(result.candidate(), &original);
    assert_eq!(result.journal(), &journal);
    assert_eq!(result.completed_chunks(), 0);
    assert_eq!(result.applied_mutations(), 0);
}

#[test]
fn one_chunk_commits_all_mutations_transactionally() {
    let original = candidate(Uniqueness::NonUnique, vec![entry("a", "doc:1")]);
    let journal = UpdateJournal::new();

    let result = BatchExecutor::new()
        .execute(
            &original,
            &journal,
            vec![insert("b", "doc:2"), insert("c", "doc:3")],
            options(2),
        )
        .expect("single successful chunk should commit");

    assert_eq!(result.candidate().len(), 3);
    assert_eq!(result.journal().len(), 2);
    assert_eq!(result.completed_chunks(), 1);
    assert_eq!(result.applied_mutations(), 2);
    assert_eq!(original.len(), 1);
    assert!(journal.is_empty());
}

#[test]
fn multiple_chunks_commit_independently() {
    let original = candidate(Uniqueness::NonUnique, Vec::new());
    let journal = UpdateJournal::new();

    let result = BatchExecutor::new()
        .execute(
            &original,
            &journal,
            vec![
                insert("a", "doc:1"),
                insert("b", "doc:2"),
                insert("c", "doc:3"),
                insert("d", "doc:4"),
                insert("e", "doc:5"),
            ],
            options(2),
        )
        .expect("all bounded chunks should commit");

    assert_eq!(result.completed_chunks(), 3);
    assert_eq!(result.applied_mutations(), 5);
    assert_eq!(result.candidate().len(), 5);
    assert_eq!(result.journal().len(), 5);
}

#[test]
fn failing_chunk_does_not_partially_commit() {
    let original = candidate(Uniqueness::Unique, vec![entry("existing", "doc:1")]);
    let journal = UpdateJournal::new();

    let error = BatchExecutor::new()
        .execute(
            &original,
            &journal,
            vec![
                insert("first", "doc:2"),
                insert("second", "doc:3"),
                insert("conflict", "doc:4"),
                insert("conflict", "doc:5"),
            ],
            options(2),
        )
        .expect_err("second chunk should fail because it conflicts internally");

    match error {
        BatchError::ChunkFailed {
            chunk_index,
            error: BatchChunkError::Update(update_error),
            committed,
        } => {
            assert_eq!(chunk_index, 1);
            assert!(matches!(
                update_error,
                UpdateError::UniqueKeyConflict { .. }
            ));
            assert_eq!(committed.completed_chunks(), 1);
            assert_eq!(committed.applied_mutations(), 2);
            assert_eq!(committed.candidate().len(), 3);
            assert_eq!(committed.journal().len(), 2);

            // The failing chunk did not leak either mutation.
            assert!(
                committed
                    .candidate()
                    .entries()
                    .iter()
                    .all(|value| value.target().object_reference() != "doc:4")
            );
            assert!(
                committed
                    .candidate()
                    .entries()
                    .iter()
                    .all(|value| value.target().object_reference() != "doc:5")
            );
        }
        other => panic!("unexpected batch error: {other:?}"),
    }

    assert_eq!(original.len(), 1);
    assert!(journal.is_empty());
}

#[test]
fn failing_chunk_stops_processing_later_input() {
    let original = candidate(Uniqueness::Unique, vec![entry("existing", "doc:1")]);
    let journal = UpdateJournal::new();

    let error = BatchExecutor::new()
        .execute(
            &original,
            &journal,
            vec![
                insert("ok", "doc:2"),
                insert("existing", "doc:3"),
                insert("later", "doc:4"),
            ],
            options(2),
        )
        .expect_err("the first chunk should fail");

    match error {
        BatchError::ChunkFailed {
            chunk_index,
            committed,
            ..
        } => {
            assert_eq!(chunk_index, 0);
            assert_eq!(committed.completed_chunks(), 0);
            assert_eq!(committed.applied_mutations(), 0);
            assert_eq!(committed.candidate(), &original);
            assert!(committed.journal().is_empty());
        }
        other => panic!("unexpected batch error: {other:?}"),
    }
}

#[test]
fn journal_sequence_follows_committed_mutation_order() {
    let original = candidate(Uniqueness::NonUnique, Vec::new());
    let mut journal = UpdateJournal::new();
    journal
        .append(insert("prior", "doc:0"))
        .expect("prior journal append should succeed");

    let result = BatchExecutor::new()
        .execute(
            &original,
            &journal,
            vec![insert("a", "doc:1"), insert("b", "doc:2")],
            options(2),
        )
        .expect("batch should succeed");

    let sequences: Vec<_> = result
        .journal()
        .records()
        .iter()
        .map(|record| record.sequence().value())
        .collect();

    assert_eq!(sequences, [1, 2, 3]);
}

#[test]
fn delete_mutations_are_supported_inside_batches() {
    let original = candidate(
        Uniqueness::NonUnique,
        vec![entry("a", "doc:1"), entry("b", "doc:2")],
    );
    let journal = UpdateJournal::new();

    let result = BatchExecutor::new()
        .execute(&original, &journal, vec![delete("doc:1")], options(1))
        .expect("delete batch should succeed");

    assert_eq!(result.candidate().len(), 1);
    assert_eq!(
        result.candidate().entries()[0].target().object_reference(),
        "doc:2"
    );
    assert_eq!(result.journal().len(), 1);
}

#[test]
fn execute_one_chunk_uses_the_same_transactional_boundary() {
    let original = candidate(Uniqueness::NonUnique, Vec::new());
    let journal = UpdateJournal::new();

    let result = BatchExecutor::new()
        .execute_one_chunk(
            &original,
            &journal,
            vec![insert("a", "doc:1"), insert("b", "doc:2")],
            options(2),
        )
        .expect("one bounded chunk should succeed");

    assert_eq!(result.completed_chunks(), 1);
    assert_eq!(result.applied_mutations(), 2);
    assert_eq!(result.candidate().len(), 2);
    assert_eq!(result.journal().len(), 2);
}

#[test]
fn execute_one_chunk_does_not_apply_input_beyond_the_bound() {
    let original = candidate(Uniqueness::NonUnique, Vec::new());
    let journal = UpdateJournal::new();

    let result = BatchExecutor::new()
        .execute_one_chunk(
            &original,
            &journal,
            vec![
                insert("a", "doc:1"),
                insert("b", "doc:2"),
                insert("c", "doc:3"),
            ],
            options(2),
        )
        .expect("bounded chunk should succeed");

    assert_eq!(result.candidate().len(), 2);
    assert_eq!(result.journal().len(), 2);
}

#[test]
fn batch_result_round_trip_preserves_committed_state() {
    let original = candidate(Uniqueness::NonUnique, Vec::new());
    let journal = UpdateJournal::new();

    let result = BatchExecutor::new()
        .execute(&original, &journal, vec![insert("a", "doc:1")], options(1))
        .expect("batch should succeed");

    let (candidate, journal, chunks, mutations) = result.into_parts();

    assert_eq!(candidate.len(), 1);
    assert_eq!(journal.len(), 1);
    assert_eq!(chunks, 1);
    assert_eq!(mutations, 1);
}

#[test]
fn batch_error_display_identifies_the_failing_chunk() {
    let original = candidate(Uniqueness::Unique, vec![entry("a", "doc:1")]);

    let error = BatchExecutor::new()
        .execute(
            &original,
            &UpdateJournal::new(),
            vec![insert("a", "doc:2")],
            options(1),
        )
        .expect_err("unique conflict should fail");

    assert!(error.to_string().contains("batch chunk 0 failed"));
}
