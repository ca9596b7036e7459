#![allow(unused_imports)]

use nizaam_indexing::build::batch::{BatchChunkError, BatchError, BatchExecutor, BatchOptions, BatchOptionsError, BatchResult};
use nizaam_indexing::build::builder::{BuildCandidate, BuildError, BuildInput, BuildSnapshot, IndexBuilder};
use nizaam_indexing::build::publication::{IndexPublisher, PublicationCandidate, PublicationError, PublicationResult};
use nizaam_indexing::build::rebuild::{IndexRebuilder, RebuildError, RebuildInput, RebuildProgress, RebuildResult};
use nizaam_indexing::build::update::{
    CandidateUpdater, DeleteSelector, IndexMutation, UpdateError, UpdateJournal, UpdateJournalError, UpdateRecord,
    UpdateSequence,
};
use nizaam_indexing::consistency::versioning::{
    is_candidate_stale, validate_active_version_compatibility, validate_candidate_compatibility,
    validate_candidate_lineage, validate_candidate_schema_compatibility, validate_candidate_source_compatibility,
    validate_publication_eligibility, VersioningError,
};
use nizaam_indexing::identity::{
    IndexDefinitionId, IndexDefinitionIdValidationError, IndexDefinitionIdentity, IndexId, IndexNamespace,
    NamespaceRegistry, NamespaceRegistryError, NamespaceValidationError, INDEX_ID_BIT_LEN, INDEX_ID_BYTE_LEN,
    MAX_NAMESPACE_BYTES,
};
use nizaam_indexing::index::{
    ConsistencyRequirement, ConsistencyRequirementValidationError, IndexDefinition, IndexDefinitionValidationError,
    IndexEntry, IndexEntryValidationError, IndexFamily, IndexVersion, IndexVersionId, IndexVersionIdValidationError,
    IndexVersionState, IndexVersionValidationError, KeyDefinition, KeyDefinitionValidationError, KeyField, KeyFields,
    KeyMaterial, KeyMaterialValidationError, ObjectReference, ObjectReferenceValidationError, QueryRequest,
    QueryRequestValidationError, SchemaVersion, SchemaVersionValidationError, SimilarityEntry,
    SimilarityEntryValidationError, SourceVersion, SourceVersionValidationError, TargetReferenceType,
    TargetReferenceTypeValidationError, TextValueValidationError, Uniqueness, VersionLifecycle,
    VersionLifecycleTransitionError, VersionValueValidationError,
};
use nizaam_indexing::requirement::{IndexRequirement, IndexRequirementValidationError};

#[test]
fn key_definition_requires_at_least_one_field() {
    let error = KeyDefinition::new(&[])
        .expect_err("empty key definition must be rejected");

    assert_eq!(error, KeyDefinitionValidationError::Empty);
}

#[test]
fn key_definition_rejects_empty_field_names() {
    let error = KeyDefinition::new(&[""]).expect_err("empty field must be rejected");

    assert_eq!(error, KeyDefinitionValidationError::EmptyField);
}

#[test]
fn key_definition_rejects_duplicate_fields() {
    let error =
        KeyDefinition::new(&["source", "source"]).expect_err("duplicate field must be rejected");

    assert_eq!(
        error,
        KeyDefinitionValidationError::DuplicateField("source".to_owned())
    );
}

#[test]
fn key_definition_validation_is_repeatable() {
    let definition = KeyDefinition::new(&["source", "predicate"])
        .expect("valid key definition should be constructed");

    definition
        .validate()
        .expect("constructed key definition should validate");
    definition
        .validate()
        .expect("validation should remain deterministic");
}

#[test]
fn key_definition_preserves_declared_field_order() {
    let definition =
        KeyDefinition::new(&["source", "predicate", "target"]).expect("valid definition");

    let names: Vec<_> = definition.fields().iter().map(KeyField::name).collect();

    assert_eq!(names, ["source", "predicate", "target"]);
}

#[test]
fn key_definition_canonical_bytes_are_deterministic() {
    let first = KeyDefinition::new(&["source", "predicate"]).expect("valid definition");
    let second = KeyDefinition::new(&["source", "predicate"]).expect("valid definition");

    assert_eq!(first.canonical_bytes(), second.canonical_bytes());
}

#[test]
fn changing_key_definition_changes_canonical_bytes() {
    let first = KeyDefinition::new(&["source", "predicate"]).expect("valid definition");
    let second = KeyDefinition::new(&["source", "target"]).expect("valid definition");

    assert_ne!(first.canonical_bytes(), second.canonical_bytes());
}

#[test]
fn key_material_supports_generic_scalar_values() {
    let values = [
        KeyMaterial::Null,
        KeyMaterial::Bool(true),
        KeyMaterial::Integer(-10),
        KeyMaterial::Unsigned(10),
        KeyMaterial::text("value"),
        KeyMaterial::bytes(vec![1, 2, 3]),
    ];

    for value in values {
        value.validate().expect("scalar key material must validate");
        assert!(!value.canonical_bytes().is_empty());
    }
}

#[test]
fn key_material_supports_structured_values() {
    let material = KeyMaterial::map(vec![
        ("source", KeyMaterial::text("x")),
        (
            "target",
            KeyMaterial::Sequence(vec![KeyMaterial::Unsigned(1), KeyMaterial::Unsigned(2)]),
        ),
    ])
    .expect("valid map");

    material
        .validate()
        .expect("structured material must validate");
    assert!(!material.canonical_bytes().is_empty());
}

#[test]
fn map_material_has_deterministic_order() {
    let first = KeyMaterial::map(vec![
        ("b", KeyMaterial::Unsigned(2)),
        ("a", KeyMaterial::Unsigned(1)),
    ])
    .expect("valid map");

    let second = KeyMaterial::map(vec![
        ("a", KeyMaterial::Unsigned(1)),
        ("b", KeyMaterial::Unsigned(2)),
    ])
    .expect("valid map");

    assert_eq!(first, second);
    assert_eq!(first.canonical_bytes(), second.canonical_bytes());
}

#[test]
fn sequence_order_is_semantically_preserved() {
    let first = KeyMaterial::Sequence(vec![KeyMaterial::Unsigned(1), KeyMaterial::Unsigned(2)]);
    let second =
        KeyMaterial::Sequence(vec![KeyMaterial::Unsigned(2), KeyMaterial::Unsigned(1)]);

    assert_ne!(first, second);
    assert_ne!(first.canonical_bytes(), second.canonical_bytes());
}

#[test]
fn different_key_material_produces_different_canonical_bytes() {
    let first = KeyMaterial::text("one");
    let second = KeyMaterial::text("two");

    assert_ne!(first.canonical_bytes(), second.canonical_bytes());
}

#[test]
fn key_material_rejects_control_characters_in_map_names() {
    let error = KeyMaterial::map(vec![("source\n", KeyMaterial::text("value"))])
        .expect_err("control character must be rejected");

    assert_eq!(
        error,
        KeyMaterialValidationError::ControlCharacter {
            field: "source\n".to_owned(),
            index: 6,
        }
    );
}

#[test]
fn key_material_rejects_control_characters_in_text() {
    let material = KeyMaterial::text("value\t");

    let error = material
        .validate()
        .expect_err("control character must be rejected");

    assert_eq!(
        error,
        KeyMaterialValidationError::TextControlCharacter { index: 5 }
    );
}

#[test]
fn unicode_text_is_supported() {
    let material = KeyMaterial::text("كلمة");

    material.validate().expect("unicode text should be valid");
    assert!(!material.canonical_bytes().is_empty());
}

#[test]
fn opaque_bytes_are_not_interpreted_as_text() {
    let material = KeyMaterial::bytes(vec![0, 255, 1, 254]);

    material.validate().expect("opaque bytes should be valid");
    assert!(!material.canonical_bytes().is_empty());
}

#[test]
fn canonical_encoding_distinguishes_value_kinds() {
    let text = KeyMaterial::text("1");
    let unsigned = KeyMaterial::Unsigned(1);

    assert_ne!(text.canonical_bytes(), unsigned.canonical_bytes());
}

#[test]
fn key_material_validation_is_recursive() {
    let material = KeyMaterial::Sequence(vec![KeyMaterial::Fields(KeyFields::from_pairs(vec![(
        "nested",
        KeyMaterial::text("bad\nvalue"),
    )]))]);

    let error = material
        .validate()
        .expect_err("nested invalid material must be rejected");

    assert_eq!(
        error,
        KeyMaterialValidationError::TextControlCharacter { index: 3 }
    );
}
