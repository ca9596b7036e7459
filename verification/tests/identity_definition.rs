#![allow(unused_imports)]

use nizaam_indexing::build::batch::{BatchChunkError, BatchError, BatchExecutor, BatchOptions, BatchOptionsError, BatchResult};
use nizaam_indexing::build::builder::{BuildCandidate, BuildError, BuildInput, BuildSnapshot, IndexBuilder};
use nizaam_indexing::build::publication::{IndexPublisher, PublicationCandidate, PublicationError, PublicationResult};
use nizaam_indexing::build::rebuild::{IndexRebuilder, RebuildError, RebuildInput, RebuildProgress, RebuildResult};
use nizaam_indexing::build::update::{
    CandidateUpdater, DeleteSelector, IndexMutation, UpdateError, UpdateJournal, UpdateJournalError, UpdateRecord,
    UpdateSequence,
};
use nizaam_indexing::consistency::versioning::{
    is_candidate_stale, validate_active_version_compatibility, validate_candidate_compatibility,
    validate_candidate_lineage, validate_candidate_schema_compatibility, validate_candidate_source_compatibility,
    validate_publication_eligibility, VersioningError,
};
use nizaam_indexing::identity::{
    IndexDefinitionId, IndexDefinitionIdValidationError, IndexDefinitionIdentity, IndexId, IndexNamespace,
    NamespaceRegistry, NamespaceRegistryError, NamespaceValidationError, INDEX_ID_BIT_LEN, INDEX_ID_BYTE_LEN,
    MAX_NAMESPACE_BYTES,
};
use nizaam_indexing::index::{
    ConsistencyRequirement, ConsistencyRequirementValidationError, IndexDefinition, IndexDefinitionValidationError,
    IndexEntry, IndexEntryValidationError, IndexFamily, IndexVersion, IndexVersionId, IndexVersionIdValidationError,
    IndexVersionState, IndexVersionValidationError, KeyDefinition, KeyDefinitionValidationError, KeyField, KeyFields,
    KeyMaterial, KeyMaterialValidationError, ObjectReference, ObjectReferenceValidationError, QueryRequest,
    QueryRequestValidationError, SchemaVersion, SchemaVersionValidationError, SimilarityEntry,
    SimilarityEntryValidationError, SourceVersion, SourceVersionValidationError, TargetReferenceType,
    TargetReferenceTypeValidationError, TextValueValidationError, Uniqueness, VersionLifecycle,
    VersionLifecycleTransitionError, VersionValueValidationError,
};
use nizaam_indexing::requirement::{IndexRequirement, IndexRequirementValidationError};
use std::collections::hash_map::DefaultHasher;
use std::hash::{Hash, Hasher};

fn definition_id(value: &str) -> IndexDefinitionId {
    IndexDefinitionId::new(value).expect("test definition ID must be valid")
}

fn namespace(value: &str) -> IndexNamespace {
    IndexNamespace::new(value).expect("test namespace must be valid")
}

#[test]
fn accepts_a_non_empty_definition_id() {
    let id =
        IndexDefinitionId::new("lexical.definition.v1").expect("definition ID should be valid");

    assert_eq!(id.as_str(), "lexical.definition.v1");
    assert_eq!(id.len(), "lexical.definition.v1".len());
    assert!(!id.is_empty());
}

#[test]
fn rejects_an_empty_definition_id() {
    assert_eq!(
        IndexDefinitionId::new(""),
        Err(IndexDefinitionIdValidationError::Empty)
    );
}

#[test]
fn definition_rejects_control_characters() {
    let result = IndexDefinitionId::new("definition\nv1");

    assert!(matches!(
        result,
        Err(IndexDefinitionIdValidationError::ControlCharacter { .. })
    ));
}

#[test]
fn permits_opaque_unicode_definition_ids() {
    let id = IndexDefinitionId::new("تعريف-١")
        .expect("Unicode is not prohibited by the Phase 1 definition-ID contract");

    assert_eq!(id.as_str(), "تعريف-١");
}

#[test]
fn string_conversions_match_primary_api() {
    let id = IndexDefinitionId::new("definition-1")
        .expect("definition ID should be valid");

    let reference: &str = id.as_ref();

    assert_eq!(reference, "definition-1");
    assert_eq!(id.clone().into_string(), "definition-1");
}

#[test]
fn definition_equality_and_ordering_are_value_based() {
    let first = definition_id("definition-a");
    let same = definition_id("definition-a");
    let second = definition_id("definition-b");

    assert_eq!(first, same);
    assert_ne!(first, second);
    assert!(first < second);
}

#[test]
fn hash_is_consistent_for_equal_definition_ids() {

    let first = definition_id("definition-a");
    let second = definition_id("definition-a");

    let mut first_hasher = DefaultHasher::new();
    first.hash(&mut first_hasher);

    let mut second_hasher = DefaultHasher::new();
    second.hash(&mut second_hasher);

    assert_eq!(first_hasher.finish(), second_hasher.finish());
}

#[test]
fn display_and_debug_identify_the_definition_id() {
    let id = definition_id("definition-a");

    assert_eq!(id.to_string(), "definition-a");
    assert!(format!("{id:?}").starts_with("IndexDefinitionId("));
}

#[test]
fn definition_identity_preserves_all_phase_one_components() {
    let id = definition_id("definition-a");
    let namespace = namespace("kg.relationship");
    let identity =
        IndexDefinitionIdentity::new(id.clone(), namespace.clone(), IndexFamily::Relationship);

    assert_eq!(identity.definition_id(), &id);
    assert_eq!(identity.namespace(), &namespace);
    assert_eq!(identity.family(), IndexFamily::Relationship);

    let (returned_id, returned_namespace, returned_family) = identity.into_parts();

    assert_eq!(returned_id, id);
    assert_eq!(returned_namespace, namespace);
    assert_eq!(returned_family, IndexFamily::Relationship);
}

#[test]
fn definition_id_identity_is_equal_only_when_all_components_match() {
    let definition = definition_id("definition-a");
    let lexical_namespace = namespace("lexical");

    let first = IndexDefinitionIdentity::new(
        definition.clone(),
        lexical_namespace.clone(),
        IndexFamily::Inverted,
    );
    let same = IndexDefinitionIdentity::new(
        definition.clone(),
        lexical_namespace.clone(),
        IndexFamily::Inverted,
    );
    let different_definition = IndexDefinitionIdentity::new(
        definition_id("definition-b"),
        lexical_namespace.clone(),
        IndexFamily::Inverted,
    );
    let different_namespace = IndexDefinitionIdentity::new(
        definition.clone(),
        namespace("kg"),
        IndexFamily::Inverted,
    );
    let different_family =
        IndexDefinitionIdentity::new(definition, lexical_namespace, IndexFamily::Identity);

    assert_eq!(first, same);
    assert_ne!(first, different_definition);
    assert_ne!(first, different_namespace);
    assert_ne!(first, different_family);
}

#[test]
fn definition_identity_keeps_namespace_and_family_distinct() {
    let definition = definition_id("definition-a");

    let inverted = IndexDefinitionIdentity::new(
        definition.clone(),
        namespace("lexical"),
        IndexFamily::Inverted,
    );
    let relationship = IndexDefinitionIdentity::new(
        definition.clone(),
        namespace("lexical"),
        IndexFamily::Relationship,
    );
    let other_namespace =
        IndexDefinitionIdentity::new(definition, namespace("kg"), IndexFamily::Inverted);

    assert_ne!(inverted, relationship);
    assert_ne!(inverted, other_namespace);
    assert_eq!(inverted.family(), IndexFamily::Inverted);
    assert_eq!(relationship.family(), IndexFamily::Relationship);
}

#[test]
fn definition_identity_debug_contains_its_components() {
    let identity = IndexDefinitionIdentity::new(
        definition_id("definition-a"),
        namespace("lexical"),
        IndexFamily::Inverted,
    );

    let debug = format!("{identity:?}");

    assert!(debug.contains("IndexDefinitionIdentity"));
    assert!(debug.contains("definition-a"));
    assert!(debug.contains("lexical"));
    assert!(debug.contains("Inverted"));
}
