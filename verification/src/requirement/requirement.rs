//! A source engine's declaration of one logical indexing need. It carries no
//! definition identifier: Indexing supplies one when it normalizes the
//! requirement into an [`IndexDefinition`].

use crate::identity::definition::{
    DefinitionIdentityView, IndexDefinitionId, IndexDefinitionIdentity,
};
use crate::identity::namespace::IndexNamespace;
use crate::index::definition::{
    ConsistencyRequirement, DefinitionValidationFault, IndexDefinition,
    IndexDefinitionValidationError, IndexDefinitionView, TargetReferenceType, Uniqueness,
};
use crate::index::key::{
    key_definition_check, DefinitionFault, KeyDefinition, KeyDefinitionValidationError,
};
use crate::index::version::{
    copy_schema_version, copy_source_version, view_option, SchemaVersion, SourceVersion,
};
use crate::index::IndexFamily;
use vstd::prelude::*;
use crate::message::push_text;
use vstd::std_specs::cmp::PartialEqSpecImpl;

verus! {

/// Validation failures for [`IndexRequirement`].
#[derive(Debug, Eq)]
pub enum IndexRequirementValidationError {
    /// The key definition is invalid.
    InvalidKeyDefinition(KeyDefinitionValidationError),
    /// The canonical definition could not be produced.
    DefinitionNormalization(IndexDefinitionValidationError),
}

/// Value of an [`IndexRequirementValidationError`].
pub enum RequirementFault {
    KeyDefinition(DefinitionFault),
    Normalization(DefinitionValidationFault),
}

impl View for IndexRequirementValidationError {
    type V = RequirementFault;

    open spec fn view(&self) -> RequirementFault {
        match self {
            IndexRequirementValidationError::InvalidKeyDefinition(e) => RequirementFault::KeyDefinition(e@),
            IndexRequirementValidationError::DefinitionNormalization(e) => RequirementFault::Normalization(e@),
        }
    }
}

impl Clone for IndexRequirementValidationError {
    fn clone(&self) -> (r: Self)
        ensures
            r@ == self@,
    {
        match self {
            IndexRequirementValidationError::InvalidKeyDefinition(e) => IndexRequirementValidationError::InvalidKeyDefinition(e.clone()),
            IndexRequirementValidationError::DefinitionNormalization(e) => IndexRequirementValidationError::DefinitionNormalization(e.clone()),
        }
    }
}

impl PartialEq for IndexRequirementValidationError {
    fn eq(&self, other: &Self) -> (r: bool) {
        match (self, other) {
            (
                IndexRequirementValidationError::InvalidKeyDefinition(a),
                IndexRequirementValidationError::InvalidKeyDefinition(b),
            ) => *a == *b,
            (
                IndexRequirementValidationError::DefinitionNormalization(a),
                IndexRequirementValidationError::DefinitionNormalization(b),
            ) => *a == *b,
            _ => false,
        }
    }
}

impl PartialEqSpecImpl for IndexRequirementValidationError {
    open spec fn obeys_eq_spec() -> bool {
        true
    }

    open spec fn eq_spec(&self, other: &Self) -> bool {
        self@ == other@
    }
}

/// Value of an [`IndexRequirement`].
pub struct RequirementView {
    pub namespace: Seq<char>,
    pub family: IndexFamily,
    pub key_definition: Seq<Seq<char>>,
    pub target_reference_type: Seq<char>,
    pub uniqueness: Uniqueness,
    pub consistency_requirement: Seq<char>,
    pub source_version: Option<Seq<char>>,
    pub schema_version: Option<Seq<char>>,
}

/// The canonical definition that normalizing `req` under `definition_id`
/// describes: the requirement's components under the identity made of the
/// supplied identifier, the namespace and the family, with no lifecycle
/// metadata.
pub open spec fn normalized(req: RequirementView, definition_id: Seq<char>) -> IndexDefinitionView {
    IndexDefinitionView {
        identity: DefinitionIdentityView { definition_id, namespace: req.namespace, family: req.family },
        key_definition: req.key_definition,
        target_reference_type: req.target_reference_type,
        uniqueness: req.uniqueness,
        consistency_requirement: req.consistency_requirement,
        source_version: req.source_version,
        schema_version: req.schema_version,
        lifecycle_metadata: None,
    }
}

/// Normalization keeps every part of a requirement: the definition it gives
/// carries the supplied identifier, the requirement's namespace and family
/// as its identity, and the requirement's key definition, target type,
/// uniqueness, consistency requirement and versions unchanged, with no
/// lifecycle metadata. So two requirements that normalize to the same
/// definition are the same requirement.
pub proof fn law_normalization_keeps_the_requirement(
    req: RequirementView,
    other: RequirementView,
    definition_id: Seq<char>,
)
    ensures
        normalized(req, definition_id).identity.definition_id == definition_id,
        normalized(req, definition_id).identity.namespace == req.namespace,
        normalized(req, definition_id).identity.family == req.family,
        normalized(req, definition_id).key_definition == req.key_definition,
        normalized(req, definition_id).target_reference_type == req.target_reference_type,
        normalized(req, definition_id).uniqueness == req.uniqueness,
        normalized(req, definition_id).consistency_requirement == req.consistency_requirement,
        normalized(req, definition_id).source_version == req.source_version,
        normalized(req, definition_id).schema_version == req.schema_version,
        normalized(req, definition_id).lifecycle_metadata is None,
        normalized(req, definition_id) == normalized(other, definition_id) ==> req == other,
{
}

/// A source engine's declaration of one logical indexing need: namespace,
/// family, key definition, target-reference type, uniqueness, consistency
/// requirement and optional source and schema versions.
#[derive(Debug, Eq, PartialOrd, Ord, Hash)]
pub struct IndexRequirement {
    namespace: IndexNamespace,
    family: IndexFamily,
    key_definition: KeyDefinition,
    target_reference_type: TargetReferenceType,
    uniqueness: Uniqueness,
    consistency_requirement: ConsistencyRequirement,
    source_version: Option<SourceVersion>,
    schema_version: Option<SchemaVersion>,
}

impl View for IndexRequirement {
    type V = RequirementView;

    closed spec fn view(&self) -> RequirementView {
        RequirementView {
            namespace: self.namespace@,
            family: self.family,
            key_definition: self.key_definition@,
            target_reference_type: self.target_reference_type@,
            uniqueness: self.uniqueness,
            consistency_requirement: self.consistency_requirement@,
            source_version: view_option(self.source_version),
            schema_version: view_option(self.schema_version),
        }
    }
}

impl Clone for IndexRequirement {
    fn clone(&self) -> (r: Self)
        ensures
            r@ == self@,
    {
        IndexRequirement {
            namespace: self.namespace.clone(),
            family: self.family,
            key_definition: self.key_definition.clone(),
            target_reference_type: self.target_reference_type.clone(),
            uniqueness: self.uniqueness,
            consistency_requirement: self.consistency_requirement.clone(),
            source_version: copy_source_version(&self.source_version),
            schema_version: copy_schema_version(&self.schema_version),
        }
    }
}

impl PartialEq for IndexRequirement {
    fn eq(&self, other: &Self) -> (r: bool) {
        self.namespace == other.namespace && self.family == other.family && self.key_definition
            == other.key_definition && self.target_reference_type == other.target_reference_type
            && self.uniqueness == other.uniqueness && self.consistency_requirement == other.consistency_requirement
            && self.source_version == other.source_version && self.schema_version == other.schema_version
    }
}

impl PartialEqSpecImpl for IndexRequirement {
    open spec fn obeys_eq_spec() -> bool {
        true
    }

    open spec fn eq_spec(&self, other: &Self) -> bool {
        self@ == other@
    }
}

impl IndexRequirement {
    /// Constructs a requirement and validates it as a whole. Every component
    /// is validated by its own constructor, so construction succeeds.
    pub fn new(
        namespace: IndexNamespace,
        family: IndexFamily,
        key_definition: KeyDefinition,
        target_reference_type: TargetReferenceType,
        uniqueness: Uniqueness,
        consistency_requirement: ConsistencyRequirement,
        source_version: Option<SourceVersion>,
        schema_version: Option<SchemaVersion>,
    ) -> (r: Result<Self, IndexRequirementValidationError>)
        ensures
            r is Ok <==> key_definition_check(key_definition@) is Ok,
            r matches Ok(q) ==> q@ == (RequirementView {
                namespace: namespace@,
                family,
                key_definition: key_definition@,
                target_reference_type: target_reference_type@,
                uniqueness,
                consistency_requirement: consistency_requirement@,
                source_version: view_option(source_version),
                schema_version: view_option(schema_version),
            }),
            r is Ok,
    {
        let requirement = IndexRequirement {
            namespace,
            family,
            key_definition,
            target_reference_type,
            uniqueness,
            consistency_requirement,
            source_version,
            schema_version,
        };
        match requirement.validate() {
            Err(e) => Err(e),
            Ok(()) => Ok(requirement),
        }
    }

    /// Returns the requested namespace.
    pub fn namespace(&self) -> (r: &IndexNamespace)
        ensures
            r@ == self@.namespace,
    {
        &self.namespace
    }

    /// Returns the requested family.
    pub fn family(&self) -> (r: IndexFamily)
        ensures
            r == self@.family,
    {
        self.family
    }

    /// Returns the key definition.
    pub fn key_definition(&self) -> (r: &KeyDefinition)
        ensures
            r@ == self@.key_definition,
    {
        &self.key_definition
    }

    /// Returns the target-reference type.
    pub fn target_reference_type(&self) -> (r: &TargetReferenceType)
        ensures
            r@ == self@.target_reference_type,
    {
        &self.target_reference_type
    }

    /// Returns the requested uniqueness.
    pub fn uniqueness(&self) -> (r: Uniqueness)
        ensures
            r == self@.uniqueness,
    {
        self.uniqueness
    }

    /// Returns the requested consistency requirement.
    pub fn consistency_requirement(&self) -> (r: &ConsistencyRequirement)
        ensures
            r@ == self@.consistency_requirement,
    {
        &self.consistency_requirement
    }

    /// Returns the associated source version, if any.
    pub fn source_version(&self) -> (r: Option<&SourceVersion>)
        ensures
            match r {
                Some(v) => self@.source_version == Some(v@),
                None => self@.source_version is None,
            },
    {
        match &self.source_version {
            Some(v) => Some(v),
            None => None,
        }
    }

    /// Returns the associated schema version, if any.
    pub fn schema_version(&self) -> (r: Option<&SchemaVersion>)
        ensures
            match r {
                Some(v) => self@.schema_version == Some(v@),
                None => self@.schema_version is None,
            },
    {
        match &self.schema_version {
            Some(v) => Some(v),
            None => None,
        }
    }

    /// Validates the requirement: its key definition must validate, which a
    /// constructed key definition always does.
    pub fn validate(&self) -> (r: Result<(), IndexRequirementValidationError>)
        ensures
            r is Ok <==> key_definition_check(self@.key_definition) is Ok,
            r matches Err(e) ==> e@ == RequirementFault::KeyDefinition(
                key_definition_check(self@.key_definition)->Err_0,
            ),
            r is Ok,
    {
        match self.key_definition.validate() {
            Err(e) => Err(IndexRequirementValidationError::InvalidKeyDefinition(e)),
            Ok(()) => Ok(()),
        }
    }

    /// Normalizes the requirement into the canonical definition identified
    /// by `definition_id`: the identity is made of that identifier, the
    /// requested namespace and family, and every other component is carried
    /// over unchanged.
    pub fn normalize(&self, definition_id: IndexDefinitionId) -> (r: Result<IndexDefinition, IndexRequirementValidationError>)
        ensures
            r matches Ok(d) ==> d@ == normalized(self@, definition_id@),
            r is Ok,
    {
        match self.validate() {
            Err(e) => {
                return Err(e);
            },
            Ok(()) => {},
        }
        let identity = IndexDefinitionIdentity::new(definition_id, self.namespace.clone(), self.family);
        match IndexDefinition::new(
            identity,
            self.key_definition.clone(),
            self.target_reference_type.clone(),
            self.uniqueness,
            self.consistency_requirement.clone(),
            copy_source_version(&self.source_version),
            copy_schema_version(&self.schema_version),
        ) {
            Err(e) => Err(IndexRequirementValidationError::DefinitionNormalization(e)),
            Ok(d) => Ok(d),
        }
    }

    /// Consumes the requirement and returns its components.
    pub fn into_parts(self) -> (r: (
        IndexNamespace,
        IndexFamily,
        KeyDefinition,
        TargetReferenceType,
        Uniqueness,
        ConsistencyRequirement,
        Option<SourceVersion>,
        Option<SchemaVersion>,
    ))
        ensures
            r.0@ == self@.namespace,
            r.1 == self@.family,
            r.2@ == self@.key_definition,
            r.3@ == self@.target_reference_type,
            r.4 == self@.uniqueness,
            r.5@ == self@.consistency_requirement,
            view_option(r.6) == self@.source_version,
            view_option(r.7) == self@.schema_version,
    {
        (
            self.namespace,
            self.family,
            self.key_definition,
            self.target_reference_type,
            self.uniqueness,
            self.consistency_requirement,
            self.source_version,
            self.schema_version,
        )
    }
}

/// Message of a requirement failure.
pub open spec fn requirement_error_message(e: RequirementFault) -> Seq<char> {
    match e {
        RequirementFault::KeyDefinition(f) => "invalid key definition: "@ + crate::index::key::key_definition_error_message(f),
        RequirementFault::Normalization(f) => "requirement normalization failed: "@ + crate::index::definition::definition_error_message(f),
    }
}

impl IndexRequirementValidationError {
    /// Returns the failure message.
    pub fn to_string(&self) -> (s: String)
        ensures
            s@ == requirement_error_message(self@),
    {
        let mut s = String::new();
        match self {
            IndexRequirementValidationError::InvalidKeyDefinition(f) => {
                push_text(&mut s, "invalid key definition: ");
                let nested = f.to_string();
                push_text(&mut s, nested.as_str());
            },
            IndexRequirementValidationError::DefinitionNormalization(f) => {
                push_text(&mut s, "requirement normalization failed: ");
                let nested = f.to_string();
                push_text(&mut s, nested.as_str());
            },
        }
        assert(s@ =~= requirement_error_message(self@));
        s
    }
}

} // verus!
