#![allow(unused_imports)]

use nizaam_indexing::build::batch::{BatchChunkError, BatchError, BatchExecutor, BatchOptions, BatchOptionsError, BatchResult};
use nizaam_indexing::build::builder::{BuildCandidate, BuildError, BuildInput, BuildSnapshot, IndexBuilder};
use nizaam_indexing::build::publication::{IndexPublisher, PublicationCandidate, PublicationError, PublicationResult};
use nizaam_indexing::build::rebuild::{IndexRebuilder, RebuildError, RebuildInput, RebuildProgress, RebuildResult};
use nizaam_indexing::build::update::{
    CandidateUpdater, DeleteSelector, IndexMutation, UpdateError, UpdateJournal, UpdateJournalError, UpdateRecord,
    UpdateSequence,
};
use nizaam_indexing::consistency::versioning::{
    is_candidate_stale, validate_active_version_compatibility, validate_candidate_compatibility,
    validate_candidate_lineage, validate_candidate_schema_compatibility, validate_candidate_source_compatibility,
    validate_publication_eligibility, VersioningError,
};
use nizaam_indexing::identity::{
    IndexDefinitionId, IndexDefinitionIdValidationError, IndexDefinitionIdentity, IndexId, IndexNamespace,
    NamespaceRegistry, NamespaceRegistryError, NamespaceValidationError, INDEX_ID_BIT_LEN, INDEX_ID_BYTE_LEN,
    MAX_NAMESPACE_BYTES,
};
use nizaam_indexing::index::{
    ConsistencyRequirement, ConsistencyRequirementValidationError, IndexDefinition, IndexDefinitionValidationError,
    IndexEntry, IndexEntryValidationError, IndexFamily, IndexVersion, IndexVersionId, IndexVersionIdValidationError,
    IndexVersionState, IndexVersionValidationError, KeyDefinition, KeyDefinitionValidationError, KeyField, KeyFields,
    KeyMaterial, KeyMaterialValidationError, ObjectReference, ObjectReferenceValidationError, QueryRequest,
    QueryRequestValidationError, SchemaVersion, SchemaVersionValidationError, SimilarityEntry,
    SimilarityEntryValidationError, SourceVersion, SourceVersionValidationError, TargetReferenceType,
    TargetReferenceTypeValidationError, TextValueValidationError, Uniqueness, VersionLifecycle,
    VersionLifecycleTransitionError, VersionValueValidationError,
};
use nizaam_indexing::requirement::{IndexRequirement, IndexRequirementValidationError};

fn index_id(seed: u8) -> IndexId {
    IndexId::from_bytes([seed; 64])
}

fn version_id(value: &str) -> IndexVersionId {
    IndexVersionId::new(value).expect("test version ID should be valid")
}

fn definition(uniqueness: Uniqueness) -> IndexDefinition {
    IndexDefinition::new(
        IndexDefinitionIdentity::new(
            IndexDefinitionId::new("documents.v1").expect("valid"),
            IndexNamespace::new("search.documents").expect("valid"),
            IndexFamily::Inverted,
        ),
        KeyDefinition::new(&["term"]).expect("valid"),
        TargetReferenceType::new("source.document").expect("valid"),
        uniqueness,
        ConsistencyRequirement::new("logical-v1").expect("valid"),
        None,
        None,
    )
    .expect("valid definition")
}

fn candidate(uniqueness: Uniqueness, version: &str, entries: Vec<IndexEntry>) -> BuildCandidate {
    BuildCandidate::from_parts(index_id(0x11), definition(uniqueness), IndexVersion::new(version_id(version)), entries)
}

fn entry(key: &str, reference: &str) -> IndexEntry {
    IndexEntry::new(
        KeyMaterial::text(key),
        ObjectReference::new("documents", reference).expect("valid"),
    )
    .expect("valid entry")
}

fn target(reference: &str) -> ObjectReference {
    ObjectReference::new("documents", reference).expect("valid")
}

#[test]
fn distinct_key_material_never_shares_canonical_bytes() {
    let values = vec![
        KeyMaterial::Null,
        KeyMaterial::Bool(false),
        KeyMaterial::Bool(true),
        KeyMaterial::Integer(-1),
        KeyMaterial::Unsigned(u128::MAX),
        KeyMaterial::text("ab"),
        KeyMaterial::bytes(vec![0x61, 0x62]),
        KeyMaterial::Sequence(vec![KeyMaterial::text("a"), KeyMaterial::text("b")]),
        KeyMaterial::Sequence(vec![KeyMaterial::text("ab")]),
        KeyMaterial::map(vec![("a", KeyMaterial::text("b"))]).expect("valid map"),
        KeyMaterial::map(vec![("ab", KeyMaterial::Null)]).expect("valid map"),
    ];
    for (i, a) in values.iter().enumerate() {
        for (j, b) in values.iter().enumerate() {
            assert_eq!(i == j, a.canonical_bytes() == b.canonical_bytes());
        }
    }
    assert_eq!(KeyMaterial::Integer(-1).canonical_bytes(), {
        let mut bytes = vec![0x03];
        bytes.extend_from_slice(&[0xff; 16]);
        bytes
    });
}

#[test]
fn distinct_key_definitions_never_share_canonical_bytes() {
    let a = KeyDefinition::new(&["ab", "c"]).expect("valid");
    let b = KeyDefinition::new(&["a", "bc"]).expect("valid");
    let c = KeyDefinition::new(&["c", "ab"]).expect("valid");
    assert_ne!(a.canonical_bytes(), b.canonical_bytes());
    assert_ne!(a.canonical_bytes(), c.canonical_bytes());
    assert_eq!(a.canonical_bytes(), KeyDefinition::new(&["ab", "c"]).expect("valid").canonical_bytes());
}

#[test]
fn maps_do_not_depend_on_field_order() {
    let first = KeyMaterial::map(vec![
        ("z", KeyMaterial::Unsigned(1)),
        ("a", KeyMaterial::text("x")),
        ("m", KeyMaterial::Bool(false)),
    ])
    .expect("valid");
    let second = KeyMaterial::map(vec![
        ("m", KeyMaterial::Bool(false)),
        ("z", KeyMaterial::Unsigned(1)),
        ("a", KeyMaterial::text("x")),
    ])
    .expect("valid");
    assert_eq!(first, second);
    assert_eq!(first.canonical_bytes(), second.canonical_bytes());
}

#[test]
fn registry_snapshot_depends_only_on_its_contents() {
    let names = ["kg", "alpha", "lexical.v2", "beta"];
    let mut forward = NamespaceRegistry::new();
    let mut backward = NamespaceRegistry::new();
    for name in names.iter() {
        forward.register(IndexNamespace::new(name).expect("valid")).expect("new");
    }
    for name in names.iter().rev() {
        backward.register(IndexNamespace::new(name).expect("valid")).expect("new");
    }
    backward.register(IndexNamespace::new("extra").expect("valid")).expect("new");
    backward.unregister(&IndexNamespace::new("extra").expect("valid")).expect("registered");
    let snapshot: Vec<String> = forward.snapshot().iter().map(|n| n.as_str().to_owned()).collect();
    assert_eq!(snapshot, vec!["alpha", "beta", "kg", "lexical.v2"]);
    assert_eq!(forward.snapshot(), backward.snapshot());
}

#[test]
fn terminal_lifecycle_states_are_final() {
    for terminal in [VersionLifecycle::Published, VersionLifecycle::Failed, VersionLifecycle::Cancelled] {
        for next in [
            VersionLifecycle::Building,
            VersionLifecycle::Validating,
            VersionLifecycle::Ready,
            VersionLifecycle::Published,
            VersionLifecycle::Failed,
            VersionLifecycle::Cancelled,
        ] {
            assert_eq!(terminal.can_transition_to(next), terminal == next);
        }
    }
}

#[test]
fn unique_index_keys_stay_distinct_through_updates() {
    let original = candidate(Uniqueness::Unique, "v1", vec![entry("a", "doc:1"), entry("b", "doc:2")]);
    let updater = CandidateUpdater::new();
    let updated = updater
        .apply_mutations(
            &original,
            vec![
                IndexMutation::Update { target: target("doc:1"), replacement: entry("c", "doc:1") },
                IndexMutation::Insert(entry("a", "doc:3")),
                IndexMutation::Delete(DeleteSelector::Key(KeyMaterial::text("b"))),
            ],
        )
        .expect("all mutations keep keys unique");
    let keys: Vec<KeyMaterial> = updated.entries().iter().map(|e| e.key().clone()).collect();
    assert_eq!(keys, vec![KeyMaterial::text("c"), KeyMaterial::text("a")]);

    let conflict = updater.apply(
        &updated,
        IndexMutation::Update { target: target("doc:1"), replacement: entry("a", "doc:1") },
    );
    assert!(matches!(conflict, Err(UpdateError::UniqueKeyConflict { .. })));
}

#[test]
fn update_replaces_at_the_first_position_of_the_target() {
    let original = candidate(
        Uniqueness::NonUnique,
        "v1",
        vec![entry("a", "doc:2"), entry("b", "doc:1"), entry("c", "doc:3"), entry("d", "doc:1")],
    );
    let updated = CandidateUpdater::new()
        .apply(&original, IndexMutation::Update { target: target("doc:1"), replacement: entry("n", "doc:1") })
        .expect("target exists");
    assert_eq!(updated.entries(), &[entry("a", "doc:2"), entry("n", "doc:1"), entry("c", "doc:3")]);
}

#[test]
fn failed_batch_commits_exactly_the_earlier_chunks() {
    let original = candidate(Uniqueness::Unique, "v1", vec![]);
    let journal = UpdateJournal::new();
    let mutations = vec![
        IndexMutation::Insert(entry("a", "doc:1")),
        IndexMutation::Insert(entry("b", "doc:2")),
        IndexMutation::Insert(entry("c", "doc:3")),
        IndexMutation::Insert(entry("a", "doc:4")),
        IndexMutation::Insert(entry("e", "doc:5")),
    ];
    let executor = BatchExecutor::new();
    let options = BatchOptions::new(2).expect("valid");
    let error = executor.execute(&original, &journal, mutations.clone(), options).expect_err("chunk 1 conflicts");
    match error {
        BatchError::ChunkFailed { chunk_index, committed, .. } => {
            assert_eq!(chunk_index, 1);
            let prefix = executor
                .execute(&original, &journal, mutations[..2].to_vec(), options)
                .expect("the first chunk alone succeeds");
            assert_eq!(committed, prefix);
            assert_eq!(committed.applied_mutations(), 2);
        },
        other => panic!("unexpected error {other:?}"),
    }
}

#[test]
fn successful_batch_records_every_mutation_in_order() {
    let original = candidate(Uniqueness::NonUnique, "v1", vec![]);
    let journal = UpdateJournal::starting_at(UpdateSequence::new(10));
    let mutations = vec![
        IndexMutation::Insert(entry("a", "doc:1")),
        IndexMutation::Insert(entry("b", "doc:2")),
        IndexMutation::Delete(DeleteSelector::Target(target("doc:1"))),
    ];
    let result = BatchExecutor::new()
        .execute(&original, &journal, mutations.clone(), BatchOptions::new(2).expect("valid"))
        .expect("batch succeeds");
    let recorded: Vec<(u64, IndexMutation)> =
        result.journal().records().iter().map(|r| (r.sequence().value(), r.mutation().clone())).collect();
    assert_eq!(recorded, vec![(11, mutations[0].clone()), (12, mutations[1].clone()), (13, mutations[2].clone())]);
    assert_eq!(result.completed_chunks(), 2);
    assert_eq!(result.journal().current_sequence(), UpdateSequence::new(13));
}

#[test]
fn journal_sequence_exhaustion_fails_the_chunk_without_committing() {
    let original = candidate(Uniqueness::NonUnique, "v1", vec![]);
    let journal = UpdateJournal::starting_at(UpdateSequence::new(u64::MAX - 1));
    let result = BatchExecutor::new().execute(
        &original,
        &journal,
        vec![IndexMutation::Insert(entry("a", "doc:1")), IndexMutation::Insert(entry("b", "doc:2"))],
        BatchOptions::new(2).expect("valid"),
    );
    match result {
        Err(BatchError::ChunkFailed { chunk_index: 0, error: BatchChunkError::Journal(UpdateJournalError::SequenceExhausted), committed }) => {
            assert_eq!(committed.candidate(), &original);
            assert_eq!(committed.journal(), &journal);
        },
        other => panic!("unexpected outcome {other:?}"),
    }
}

#[test]
fn replay_without_newer_records_keeps_the_boundary() {
    let journal = UpdateJournal::starting_at(UpdateSequence::new(5));
    let rebuilder = IndexRebuilder::new();
    let input = RebuildInput::new(
        index_id(0x55),
        definition(Uniqueness::NonUnique),
        version_id("v2"),
        BuildSnapshot::new(vec![entry("a", "doc:1")]),
        None,
        None,
    );
    let progress = rebuilder.start(input, &UpdateJournal::new()).expect("starts");
    let replayed = rebuilder.replay(&progress, &journal).expect("nothing to replay");
    assert_eq!(replayed.replayed_through(), UpdateSequence::initial());
    assert!(!rebuilder.is_caught_up(&replayed, &journal));
    assert!(matches!(rebuilder.finish(&replayed, &journal), Err(RebuildError::NotCaughtUp { .. })));
}

#[test]
fn publication_refuses_stale_candidates_and_keeps_the_previous_active() {
    let publisher = IndexPublisher::new();
    let active = candidate(Uniqueness::NonUnique, "v1", vec![]);
    let stale = publisher.prepare(candidate(Uniqueness::NonUnique, "v2", vec![]), &definition(Uniqueness::NonUnique), None, Some(version_id("v1")));
    assert!(matches!(stale, Err(PublicationError::Versioning(VersioningError::StaleCandidate { .. }))));

    let prepared = publisher
        .prepare(
            candidate(Uniqueness::NonUnique, "v2", vec![]),
            &definition(Uniqueness::NonUnique),
            Some(version_id("v1")),
            Some(version_id("v1")),
        )
        .expect("current lineage");
    let result = publisher.publish(prepared, Some(active.clone())).expect("publishes");
    assert_eq!(result.active().version().id(), &version_id("v2"));
    assert_eq!(result.previous_active(), Some(&active));
}
