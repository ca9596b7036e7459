//! Canonical logical index definitions: the descriptive contract of one
//! indexing space, with its key definition, target-reference type,
//! uniqueness, consistency requirement and optional versions and metadata.

use crate::identity::definition::{
    DefinitionIdentityView, IndexDefinitionId, IndexDefinitionIdentity,
};
use crate::identity::namespace::IndexNamespace;
use crate::index::key::{
    copy_option, key_definition_check, option_check, option_value, validate_option, DefinitionFault,
    KeyDefinition, KeyDefinitionValidationError, KeyFault, KeyMaterial, KeyMaterialValidationError,
    KeyValue,
};
use crate::index::version::{
    copy_schema_version, copy_source_version, view_option, SchemaVersion, SourceVersion,
};
use crate::index::IndexFamily;
use crate::text::{check_opaque_text, has_no_control, opaque_text_fault, text_byte_len, utf8_len};
use vstd::prelude::*;
use crate::message::{decimal_text, push_decimal, push_text};
use vstd::std_specs::cmp::PartialEqSpecImpl;

verus! {

/// Structural validation failures for opaque logical text values.
#[derive(Clone, Copy, Debug, PartialEq, Eq, Structural)]
pub enum TextValueValidationError {
    /// The value contains no bytes.
    Empty,
    /// The value contains a control character at this byte position.
    ControlCharacter { index: usize },
}

/// Validation failures for [`TargetReferenceType`].
#[derive(Clone, Copy, Debug, PartialEq, Eq, Structural)]
pub enum TargetReferenceTypeValidationError {
    /// The target-reference type is empty or contains a control character.
    InvalidValue(TextValueValidationError),
}

/// Outcome of validating a target-reference type.
pub open spec fn target_reference_type_check(s: Seq<char>) -> Result<(), TargetReferenceTypeValidationError> {
    match opaque_text_fault(s) {
        Some(None) => Err(TargetReferenceTypeValidationError::InvalidValue(TextValueValidationError::Empty)),
        Some(Some(i)) => Err(TargetReferenceTypeValidationError::InvalidValue(TextValueValidationError::ControlCharacter { index: i })),
        None => Ok(()),
    }
}

/// Logical type of the objects referenced by index entries; its meaning
/// belongs to the source.
#[derive(Debug, Eq, PartialOrd, Ord, Hash)]
pub struct TargetReferenceType(String);

impl View for TargetReferenceType {
    type V = Seq<char>;

    closed spec fn view(&self) -> Seq<char> {
        self.0@
    }
}

impl Clone for TargetReferenceType {
    fn clone(&self) -> (r: Self)
        ensures
            r@ == self@,
    {
        TargetReferenceType(self.0.clone())
    }
}

impl PartialEq for TargetReferenceType {
    fn eq(&self, other: &Self) -> (r: bool) {
        self.0 == other.0
    }
}

impl PartialEqSpecImpl for TargetReferenceType {
    open spec fn obeys_eq_spec() -> bool {
        true
    }

    open spec fn eq_spec(&self, other: &Self) -> bool {
        self@ == other@
    }
}

impl TargetReferenceType {
    /// Constructs a value: it must be non-empty and contain no control
    /// characters.
    pub fn new(value: &str) -> (r: Result<Self, TargetReferenceTypeValidationError>)
        ensures
            r matches Ok(v) ==> v@ == value@,
            r is Ok <==> target_reference_type_check(value@) is Ok,
            r is Ok <==> value@.len() > 0 && has_no_control(value@),
            r matches Err(e) ==> target_reference_type_check(value@) == Err::<(), TargetReferenceTypeValidationError>(e),
    {
        match check_opaque_text(value) {
            Some(None) => Err(TargetReferenceTypeValidationError::InvalidValue(TextValueValidationError::Empty)),
            Some(Some(index)) => Err(TargetReferenceTypeValidationError::InvalidValue(TextValueValidationError::ControlCharacter { index })),
            None => Ok(TargetReferenceType(value.to_owned())),
        }
    }

    /// Returns the value as a string slice.
    pub fn as_str(&self) -> (s: &str)
        ensures
            s@ == self@,
    {
        self.0.as_str()
    }

    /// Returns the number of bytes in the value.
    pub fn len(&self) -> (n: usize)
        ensures
            n == utf8_len(self@),
    {
        text_byte_len(self.0.as_str())
    }

    /// Returns whether the value is empty; never the case for a constructed
    /// value.
    pub fn is_empty(&self) -> (r: bool)
        ensures
            r == (self@.len() == 0),
    {
        self.0.as_str().is_empty()
    }

    /// Returns the value text.
    pub fn to_string(&self) -> (s: String)
        ensures
            s@ == self@,
    {
        self.0.clone()
    }
}

/// Validation failures for [`ConsistencyRequirement`].
#[derive(Clone, Copy, Debug, PartialEq, Eq, Structural)]
pub enum ConsistencyRequirementValidationError {
    /// The consistency requirement is empty or contains a control character.
    InvalidValue(TextValueValidationError),
}

/// Outcome of validating a consistency requirement.
pub open spec fn consistency_requirement_check(s: Seq<char>) -> Result<(), ConsistencyRequirementValidationError> {
    match opaque_text_fault(s) {
        Some(None) => Err(ConsistencyRequirementValidationError::InvalidValue(TextValueValidationError::Empty)),
        Some(Some(i)) => Err(ConsistencyRequirementValidationError::InvalidValue(TextValueValidationError::ControlCharacter { index: i })),
        None => Ok(()),
    }
}

/// Logical consistency requirement of an index definition, kept as opaque
/// metadata.
#[derive(Debug, Eq, PartialOrd, Ord, Hash)]
pub struct ConsistencyRequirement(String);

impl View for ConsistencyRequirement {
    type V = Seq<char>;

    closed spec fn view(&self) -> Seq<char> {
        self.0@
    }
}

impl Clone for ConsistencyRequirement {
    fn clone(&self) -> (r: Self)
        ensures
            r@ == self@,
    {
        ConsistencyRequirement(self.0.clone())
    }
}

impl PartialEq for ConsistencyRequirement {
    fn eq(&self, other: &Self) -> (r: bool) {
        self.0 == other.0
    }
}

impl PartialEqSpecImpl for ConsistencyRequirement {
    open spec fn obeys_eq_spec() -> bool {
        true
    }

    open spec fn eq_spec(&self, other: &Self) -> bool {
        self@ == other@
    }
}

impl ConsistencyRequirement {
    /// Constructs a value: it must be non-empty and contain no control
    /// characters.
    pub fn new(value: &str) -> (r: Result<Self, ConsistencyRequirementValidationError>)
        ensures
            r matches Ok(v) ==> v@ == value@,
            r is Ok <==> consistency_requirement_check(value@) is Ok,
            r is Ok <==> value@.len() > 0 && has_no_control(value@),
            r matches Err(e) ==> consistency_requirement_check(value@) == Err::<(), ConsistencyRequirementValidationError>(e),
    {
        match check_opaque_text(value) {
            Some(None) => Err(ConsistencyRequirementValidationError::InvalidValue(TextValueValidationError::Empty)),
            Some(Some(index)) => Err(ConsistencyRequirementValidationError::InvalidValue(TextValueValidationError::ControlCharacter { index })),
            None => Ok(ConsistencyRequirement(value.to_owned())),
        }
    }

    /// Returns the value as a string slice.
    pub fn as_str(&self) -> (s: &str)
        ensures
            s@ == self@,
    {
        self.0.as_str()
    }

    /// Returns the number of bytes in the value.
    pub fn len(&self) -> (n: usize)
        ensures
            n == utf8_len(self@),
    {
        text_byte_len(self.0.as_str())
    }

    /// Returns whether the value is empty; never the case for a constructed
    /// value.
    pub fn is_empty(&self) -> (r: bool)
        ensures
            r == (self@.len() == 0),
    {
        self.0.as_str().is_empty()
    }

    /// Returns the value text.
    pub fn to_string(&self) -> (s: String)
        ensures
            s@ == self@,
    {
        self.0.clone()
    }
}

/// Logical uniqueness requirement of an index.
#[derive(Clone, Copy, Debug, PartialEq, Eq, Structural, PartialOrd, Ord, Hash)]
pub enum Uniqueness {
    /// Each logical key identifies at most one target.
    Unique,
    /// A logical key may identify several targets.
    NonUnique,
}

/// The stable name of a uniqueness requirement.
pub open spec fn uniqueness_name(u: Uniqueness) -> Seq<char> {
    match u {
        Uniqueness::Unique => "unique"@,
        Uniqueness::NonUnique => "non-unique"@,
    }
}

impl Uniqueness {
    /// Returns the stable name of the requirement.
    pub fn to_string(&self) -> (s: String)
        ensures
            s@ == uniqueness_name(*self),
    {
        match self {
            Uniqueness::Unique => "unique".to_owned(),
            Uniqueness::NonUnique => "non-unique".to_owned(),
        }
    }
}

/// Validation failures for [`IndexDefinition`].
#[derive(Debug, Eq)]
pub enum IndexDefinitionValidationError {
    /// The key definition is invalid.
    InvalidKeyDefinition(KeyDefinitionValidationError),
    /// The lifecycle metadata is invalid.
    InvalidLifecycleMetadata(KeyMaterialValidationError),
}

/// Value of an [`IndexDefinitionValidationError`].
pub enum DefinitionValidationFault {
    KeyDefinition(DefinitionFault),
    LifecycleMetadata(KeyFault),
}

impl View for IndexDefinitionValidationError {
    type V = DefinitionValidationFault;

    open spec fn view(&self) -> DefinitionValidationFault {
        match self {
            IndexDefinitionValidationError::InvalidKeyDefinition(e) => DefinitionValidationFault::KeyDefinition(e@),
            IndexDefinitionValidationError::InvalidLifecycleMetadata(e) => DefinitionValidationFault::LifecycleMetadata(e@),
        }
    }
}

impl Clone for IndexDefinitionValidationError {
    fn clone(&self) -> (r: Self)
        ensures
            r@ == self@,
    {
        match self {
            IndexDefinitionValidationError::InvalidKeyDefinition(e) => IndexDefinitionValidationError::InvalidKeyDefinition(e.clone()),
            IndexDefinitionValidationError::InvalidLifecycleMetadata(e) => IndexDefinitionValidationError::InvalidLifecycleMetadata(e.clone()),
        }
    }
}

impl PartialEq for IndexDefinitionValidationError {
    fn eq(&self, other: &Self) -> (r: bool) {
        match (self, other) {
            (IndexDefinitionValidationError::InvalidKeyDefinition(a), IndexDefinitionValidationError::InvalidKeyDefinition(b)) => *a == *b,
            (
                IndexDefinitionValidationError::InvalidLifecycleMetadata(a),
                IndexDefinitionValidationError::InvalidLifecycleMetadata(b),
            ) => *a == *b,
            _ => false,
        }
    }
}

impl PartialEqSpecImpl for IndexDefinitionValidationError {
    open spec fn obeys_eq_spec() -> bool {
        true
    }

    open spec fn eq_spec(&self, other: &Self) -> bool {
        self@ == other@
    }
}

/// Outcome of validating a definition: the key definition first, then the
/// lifecycle metadata.
pub open spec fn index_definition_check(key_definition: Seq<Seq<char>>, metadata: Option<KeyValue>) -> Result<
    (),
    DefinitionValidationFault,
> {
    match key_definition_check(key_definition) {
        Err(e) => Err(DefinitionValidationFault::KeyDefinition(e)),
        Ok(()) => match option_check(metadata) {
            Err(e) => Err(DefinitionValidationFault::LifecycleMetadata(e)),
            Ok(()) => Ok(()),
        },
    }
}

/// Value of an [`IndexDefinition`].
pub struct IndexDefinitionView {
    pub identity: DefinitionIdentityView,
    pub key_definition: Seq<Seq<char>>,
    pub target_reference_type: Seq<char>,
    pub uniqueness: Uniqueness,
    pub consistency_requirement: Seq<char>,
    pub source_version: Option<Seq<char>>,
    pub schema_version: Option<Seq<char>>,
    pub lifecycle_metadata: Option<KeyValue>,
}

/// Canonical logical definition of one indexing space. It is descriptive
/// only: it names no provider, storage, partition or build operation.
#[derive(Debug, Eq, PartialOrd, Ord, Hash)]
pub struct IndexDefinition {
    identity: IndexDefinitionIdentity,
    key_definition: KeyDefinition,
    target_reference_type: TargetReferenceType,
    uniqueness: Uniqueness,
    consistency_requirement: ConsistencyRequirement,
    source_version: Option<SourceVersion>,
    schema_version: Option<SchemaVersion>,
    lifecycle_metadata: Option<KeyMaterial>,
}

impl View for IndexDefinition {
    type V = IndexDefinitionView;

    closed spec fn view(&self) -> IndexDefinitionView {
        IndexDefinitionView {
            identity: self.identity@,
            key_definition: self.key_definition@,
            target_reference_type: self.target_reference_type@,
            uniqueness: self.uniqueness,
            consistency_requirement: self.consistency_requirement@,
            source_version: view_option(self.source_version),
            schema_version: view_option(self.schema_version),
            lifecycle_metadata: option_value(self.lifecycle_metadata),
        }
    }
}

impl IndexDefinition {
    #[verifier::type_invariant]
    spec fn well_formed(self) -> bool {
        index_definition_check(self.key_definition@, option_value(self.lifecycle_metadata)) is Ok
    }
}

impl Clone for IndexDefinition {
    fn clone(&self) -> (r: Self)
        ensures
            r@ == self@,
    {
        proof {
            use_type_invariant(self);
        }
        IndexDefinition {
            identity: self.identity.clone(),
            key_definition: self.key_definition.clone(),
            target_reference_type: self.target_reference_type.clone(),
            uniqueness: self.uniqueness,
            consistency_requirement: self.consistency_requirement.clone(),
            source_version: copy_source_version(&self.source_version),
            schema_version: copy_schema_version(&self.schema_version),
            lifecycle_metadata: copy_option(&self.lifecycle_metadata),
        }
    }
}

impl PartialEq for IndexDefinition {
    fn eq(&self, other: &Self) -> (r: bool) {
        self.identity == other.identity && self.key_definition == other.key_definition
            && self.target_reference_type == other.target_reference_type && self.uniqueness == other.uniqueness
            && self.consistency_requirement == other.consistency_requirement
            && self.source_version == other.source_version && self.schema_version == other.schema_version
            && crate::index::key::option_eq(&self.lifecycle_metadata, &other.lifecycle_metadata)
    }
}

impl PartialEqSpecImpl for IndexDefinition {
    open spec fn obeys_eq_spec() -> bool {
        true
    }

    open spec fn eq_spec(&self, other: &Self) -> bool {
        self@ == other@
    }
}

/// The components returned when an [`IndexDefinition`] is consumed.
pub type IndexDefinitionParts = (
    IndexDefinitionIdentity,
    KeyDefinition,
    TargetReferenceType,
    Uniqueness,
    ConsistencyRequirement,
    Option<SourceVersion>,
    Option<SchemaVersion>,
    Option<KeyMaterial>,
);

impl IndexDefinition {
    /// Constructs a definition without lifecycle metadata.
    pub fn new(
        identity: IndexDefinitionIdentity,
        key_definition: KeyDefinition,
        target_reference_type: TargetReferenceType,
        uniqueness: Uniqueness,
        consistency_requirement: ConsistencyRequirement,
        source_version: Option<SourceVersion>,
        schema_version: Option<SchemaVersion>,
    ) -> (r: Result<Self, IndexDefinitionValidationError>)
        ensures
            r is Ok <==> index_definition_check(key_definition@, None) is Ok,
            r matches Ok(d) ==> d@ == (IndexDefinitionView {
                identity: identity@,
                key_definition: key_definition@,
                target_reference_type: target_reference_type@,
                uniqueness,
                consistency_requirement: consistency_requirement@,
                source_version: view_option(source_version),
                schema_version: view_option(schema_version),
                lifecycle_metadata: None,
            }),
            r matches Err(e) ==> index_definition_check(key_definition@, None) == Err::<(), DefinitionValidationFault>(e@),
            r is Ok,
    {
        Self::with_metadata(
            identity,
            key_definition,
            target_reference_type,
            uniqueness,
            consistency_requirement,
            source_version,
            schema_version,
            None,
        )
    }

    /// Constructs a definition with optional lifecycle metadata; the key
    /// definition, then the metadata, must validate.
    pub fn with_metadata(
        identity: IndexDefinitionIdentity,
        key_definition: KeyDefinition,
        target_reference_type: TargetReferenceType,
        uniqueness: Uniqueness,
        consistency_requirement: ConsistencyRequirement,
        source_version: Option<SourceVersion>,
        schema_version: Option<SchemaVersion>,
        lifecycle_metadata: Option<KeyMaterial>,
    ) -> (r: Result<Self, IndexDefinitionValidationError>)
        ensures
            r is Ok <==> index_definition_check(key_definition@, option_value(lifecycle_metadata)) is Ok,
            r matches Ok(d) ==> d@ == (IndexDefinitionView {
                identity: identity@,
                key_definition: key_definition@,
                target_reference_type: target_reference_type@,
                uniqueness,
                consistency_requirement: consistency_requirement@,
                source_version: view_option(source_version),
                schema_version: view_option(schema_version),
                lifecycle_metadata: option_value(lifecycle_metadata),
            }),
            r matches Err(e) ==> index_definition_check(key_definition@, option_value(lifecycle_metadata)) == Err::<
                (),
                DefinitionValidationFault,
            >(e@),
            r is Ok <==> option_check(option_value(lifecycle_metadata)) is Ok,
    {
        match key_definition.validate() {
            Err(e) => {
                return Err(IndexDefinitionValidationError::InvalidKeyDefinition(e));
            },
            Ok(()) => {},
        }
        match validate_option(&lifecycle_metadata) {
            Err(e) => {
                return Err(IndexDefinitionValidationError::InvalidLifecycleMetadata(e));
            },
            Ok(()) => {},
        }
        Ok(IndexDefinition {
            identity,
            key_definition,
            target_reference_type,
            uniqueness,
            consistency_requirement,
            source_version,
            schema_version,
            lifecycle_metadata,
        })
    }

    /// Returns the definition identity.
    pub fn identity(&self) -> (r: &IndexDefinitionIdentity)
        ensures
            r@ == self@.identity,
    {
        &self.identity
    }

    /// Returns the logical definition identifier.
    pub fn definition_id(&self) -> (r: &IndexDefinitionId)
        ensures
            r@ == self@.identity.definition_id,
    {
        self.identity.definition_id()
    }

    /// Returns the logical namespace.
    pub fn namespace(&self) -> (r: &IndexNamespace)
        ensures
            r@ == self@.identity.namespace,
    {
        self.identity.namespace()
    }

    /// Returns the indexing family.
    pub fn family(&self) -> (r: IndexFamily)
        ensures
            r == self@.identity.family,
    {
        self.identity.family()
    }

    /// Returns the key definition.
    pub fn key_definition(&self) -> (r: &KeyDefinition)
        ensures
            r@ == self@.key_definition,
    {
        &self.key_definition
    }

    /// Returns the target-reference type.
    pub fn target_reference_type(&self) -> (r: &TargetReferenceType)
        ensures
            r@ == self@.target_reference_type,
    {
        &self.target_reference_type
    }

    /// Returns the uniqueness requirement.
    pub fn uniqueness(&self) -> (r: Uniqueness)
        ensures
            r == self@.uniqueness,
    {
        self.uniqueness
    }

    /// Returns the consistency requirement.
    pub fn consistency_requirement(&self) -> (r: &ConsistencyRequirement)
        ensures
            r@ == self@.consistency_requirement,
    {
        &self.consistency_requirement
    }

    /// Returns the associated source version, if any.
    pub fn source_version(&self) -> (r: Option<&SourceVersion>)
        ensures
            match r {
                Some(v) => self@.source_version == Some(v@),
                None => self@.source_version is None,
            },
    {
        match &self.source_version {
            Some(v) => Some(v),
            None => None,
        }
    }

    /// Returns the associated schema version, if any.
    pub fn schema_version(&self) -> (r: Option<&SchemaVersion>)
        ensures
            match r {
                Some(v) => self@.schema_version == Some(v@),
                None => self@.schema_version is None,
            },
    {
        match &self.schema_version {
            Some(v) => Some(v),
            None => None,
        }
    }

    /// Returns the lifecycle metadata, if any; it is descriptive only.
    pub fn lifecycle_metadata(&self) -> (r: Option<&KeyMaterial>)
        ensures
            match r {
                Some(m) => self@.lifecycle_metadata == Some(m@),
                None => self@.lifecycle_metadata is None,
            },
    {
        match &self.lifecycle_metadata {
            Some(m) => Some(m),
            None => None,
        }
    }

    /// Validates the definition: the key definition, then the lifecycle
    /// metadata. A constructed definition always passes.
    pub fn validate(&self) -> (r: Result<(), IndexDefinitionValidationError>)
        ensures
            r is Ok <==> index_definition_check(self@.key_definition, self@.lifecycle_metadata) is Ok,
            r matches Err(e) ==> index_definition_check(self@.key_definition, self@.lifecycle_metadata) == Err::<
                (),
                DefinitionValidationFault,
            >(e@),
            r is Ok,
    {
        proof {
            use_type_invariant(self);
        }
        match self.key_definition.validate() {
            Err(e) => {
                return Err(IndexDefinitionValidationError::InvalidKeyDefinition(e));
            },
            Ok(()) => {},
        }
        match validate_option(&self.lifecycle_metadata) {
            Err(e) => Err(IndexDefinitionValidationError::InvalidLifecycleMetadata(e)),
            Ok(()) => Ok(()),
        }
    }

    /// Consumes the definition and returns its components.
    pub fn into_parts(self) -> (r: IndexDefinitionParts)
        ensures
            r.0@ == self@.identity,
            r.1@ == self@.key_definition,
            r.2@ == self@.target_reference_type,
            r.3 == self@.uniqueness,
            r.4@ == self@.consistency_requirement,
            view_option(r.5) == self@.source_version,
            view_option(r.6) == self@.schema_version,
            option_value(r.7) == self@.lifecycle_metadata,
    {
        (
            self.identity,
            self.key_definition,
            self.target_reference_type,
            self.uniqueness,
            self.consistency_requirement,
            self.source_version,
            self.schema_version,
            self.lifecycle_metadata,
        )
    }
}

impl AsRef<str> for TargetReferenceType {
    fn as_ref(&self) -> (r: &str)
        ensures
            r@ == self@,
    {
        self.0.as_str()
    }
}

impl AsRef<str> for ConsistencyRequirement {
    fn as_ref(&self) -> (r: &str)
        ensures
            r@ == self@,
    {
        self.0.as_str()
    }
}

/// Message of a text-value validation failure.
pub open spec fn text_value_error_message(e: TextValueValidationError) -> Seq<char> {
    match e {
        TextValueValidationError::Empty => "value must not be empty"@,
        TextValueValidationError::ControlCharacter { index } => "value contains a control character at byte index "@ + decimal_text(index as nat),
    }
}

impl TextValueValidationError {
    /// Returns the failure message.
    pub fn to_string(&self) -> (s: String)
        ensures
            s@ == text_value_error_message(*self),
    {
        let mut s = String::new();
        match self {
            TextValueValidationError::Empty => {
                push_text(&mut s, "value must not be empty");
            },
            TextValueValidationError::ControlCharacter { index } => {
                push_text(&mut s, "value contains a control character at byte index ");
                push_decimal(&mut s, *index as u128);
            },
        }
        assert(s@ =~= text_value_error_message(*self));
        s
    }
}

/// Message of a failure to validate: invalid target reference type.
pub open spec fn target_reference_type_error_message(e: TargetReferenceTypeValidationError) -> Seq<char> {
    match e {
        TargetReferenceTypeValidationError::InvalidValue(v) => "invalid target reference type: "@ + text_value_error_message(v),
    }
}

impl TargetReferenceTypeValidationError {
    /// Returns the failure message.
    pub fn to_string(&self) -> (s: String)
        ensures
            s@ == target_reference_type_error_message(*self),
    {
        let mut s = String::new();
        match self {
            TargetReferenceTypeValidationError::InvalidValue(v) => {
                push_text(&mut s, "invalid target reference type: ");
                let nested = v.to_string();
                push_text(&mut s, nested.as_str());
            },
        }
        assert(s@ =~= target_reference_type_error_message(*self));
        s
    }
}

/// Message of a failure to validate: invalid consistency requirement.
pub open spec fn consistency_requirement_error_message(e: ConsistencyRequirementValidationError) -> Seq<char> {
    match e {
        ConsistencyRequirementValidationError::InvalidValue(v) => "invalid consistency requirement: "@ + text_value_error_message(v),
    }
}

impl ConsistencyRequirementValidationError {
    /// Returns the failure message.
    pub fn to_string(&self) -> (s: String)
        ensures
            s@ == consistency_requirement_error_message(*self),
    {
        let mut s = String::new();
        match self {
            ConsistencyRequirementValidationError::InvalidValue(v) => {
                push_text(&mut s, "invalid consistency requirement: ");
                let nested = v.to_string();
                push_text(&mut s, nested.as_str());
            },
        }
        assert(s@ =~= consistency_requirement_error_message(*self));
        s
    }
}

/// Message of a definition validation failure.
pub open spec fn definition_error_message(e: DefinitionValidationFault) -> Seq<char> {
    match e {
        DefinitionValidationFault::KeyDefinition(f) => "invalid index definition key definition: "@ + crate::index::key::key_definition_error_message(f),
        DefinitionValidationFault::LifecycleMetadata(f) => "invalid index definition lifecycle metadata: "@ + crate::index::key::key_error_message(f),
    }
}

impl IndexDefinitionValidationError {
    /// Returns the failure message.
    pub fn to_string(&self) -> (s: String)
        ensures
            s@ == definition_error_message(self@),
    {
        let mut s = String::new();
        match self {
            IndexDefinitionValidationError::InvalidKeyDefinition(f) => {
                push_text(&mut s, "invalid index definition key definition: ");
                let nested = f.to_string();
                push_text(&mut s, nested.as_str());
            },
            IndexDefinitionValidationError::InvalidLifecycleMetadata(f) => {
                push_text(&mut s, "invalid index definition lifecycle metadata: ");
                let nested = f.to_string();
                push_text(&mut s, nested.as_str());
            },
        }
        assert(s@ =~= definition_error_message(self@));
        s
    }
}

} // verus!
