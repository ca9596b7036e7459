//! Logical index-version values: version identities, source and schema
//! versions, the version lifecycle, and index-version metadata.

use crate::index::key::{
    copy_option, option_check, option_value, validate_option, KeyFault, KeyMaterial,
    KeyMaterialValidationError, KeyValue,
};
use crate::text::{check_opaque_text, has_no_control, opaque_text_fault, text_byte_len, utf8_len};
use vstd::prelude::*;
use crate::message::{debug_quoted, decimal_text, push_decimal, push_quoted, push_text};
use crate::diagnostic::{core_error_parts_of, core_parts, detail, detail_views, CoreErrorClass, CoreErrorParts, CorePartsView};
use vstd::std_specs::cmp::PartialEqSpecImpl;

verus! {

/// Structural validation failures shared by the version values.
#[derive(Clone, Copy, Debug, PartialEq, Eq, Structural)]
pub enum VersionValueValidationError {
    /// The version value contains no bytes.
    Empty,
    /// The version value contains a control character at this byte position.
    ControlCharacter { index: usize },
}

/// The views of an optional value.
pub open spec fn view_option<T: View>(o: Option<T>) -> Option<T::V> {
    match o {
        Some(v) => Some(v@),
        None => None,
    }
}

/// Validation failures for [`IndexVersionId`].
#[derive(Clone, Copy, Debug, PartialEq, Eq, Structural)]
pub enum IndexVersionIdValidationError {
    /// The identifier is empty or contains a control character.
    InvalidValue(VersionValueValidationError),
}

/// Outcome of validating an index-version identifier.
pub open spec fn version_id_check(s: Seq<char>) -> Result<(), IndexVersionIdValidationError> {
    match opaque_text_fault(s) {
        Some(None) => Err(IndexVersionIdValidationError::InvalidValue(VersionValueValidationError::Empty)),
        Some(Some(i)) => Err(IndexVersionIdValidationError::InvalidValue(VersionValueValidationError::ControlCharacter { index: i })),
        None => Ok(()),
    }
}

/// Opaque logical identity of one index version.
#[derive(Debug, Eq, PartialOrd, Ord, Hash)]
pub struct IndexVersionId(String);

impl View for IndexVersionId {
    type V = Seq<char>;

    closed spec fn view(&self) -> Seq<char> {
        self.0@
    }
}

impl Clone for IndexVersionId {
    fn clone(&self) -> (r: Self)
        ensures
            r@ == self@,
    {
        IndexVersionId(self.0.clone())
    }
}

impl PartialEq for IndexVersionId {
    fn eq(&self, other: &Self) -> (r: bool) {
        self.0 == other.0
    }
}

impl PartialEqSpecImpl for IndexVersionId {
    open spec fn obeys_eq_spec() -> bool {
        true
    }

    open spec fn eq_spec(&self, other: &Self) -> bool {
        self@ == other@
    }
}

impl IndexVersionId {
    /// Constructs a value: it must be non-empty and contain no control
    /// characters.
    pub fn new(value: &str) -> (r: Result<Self, IndexVersionIdValidationError>)
        ensures
            r matches Ok(v) ==> v@ == value@,
            r is Ok <==> version_id_check(value@) is Ok,
            r is Ok <==> value@.len() > 0 && has_no_control(value@),
            r matches Err(e) ==> version_id_check(value@) == Err::<(), IndexVersionIdValidationError>(e),
    {
        match check_opaque_text(value) {
            Some(None) => Err(IndexVersionIdValidationError::InvalidValue(VersionValueValidationError::Empty)),
            Some(Some(index)) => Err(IndexVersionIdValidationError::InvalidValue(VersionValueValidationError::ControlCharacter { index })),
            None => Ok(IndexVersionId(value.to_owned())),
        }
    }

    /// Returns the value as a string slice.
    pub fn as_str(&self) -> (s: &str)
        ensures
            s@ == self@,
    {
        self.0.as_str()
    }

    /// Returns the number of bytes in the value.
    pub fn len(&self) -> (n: usize)
        ensures
            n == utf8_len(self@),
    {
        text_byte_len(self.0.as_str())
    }

    /// Returns whether the value is empty; never the case for a constructed
    /// value.
    pub fn is_empty(&self) -> (r: bool)
        ensures
            r == (self@.len() == 0),
    {
        self.0.as_str().is_empty()
    }

    /// Returns the value text.
    pub fn to_string(&self) -> (s: String)
        ensures
            s@ == self@,
    {
        self.0.clone()
    }
}

/// Validation failures for [`SourceVersion`].
#[derive(Clone, Copy, Debug, PartialEq, Eq, Structural)]
pub enum SourceVersionValidationError {
    /// The source version is empty or contains a control character.
    InvalidValue(VersionValueValidationError),
}

/// Outcome of validating a source version.
pub open spec fn source_version_check(s: Seq<char>) -> Result<(), SourceVersionValidationError> {
    match opaque_text_fault(s) {
        Some(None) => Err(SourceVersionValidationError::InvalidValue(VersionValueValidationError::Empty)),
        Some(Some(i)) => Err(SourceVersionValidationError::InvalidValue(VersionValueValidationError::ControlCharacter { index: i })),
        None => Ok(()),
    }
}

/// Opaque source-state version; its meaning belongs to the source.
#[derive(Debug, Eq, PartialOrd, Ord, Hash)]
pub struct SourceVersion(String);

impl View for SourceVersion {
    type V = Seq<char>;

    closed spec fn view(&self) -> Seq<char> {
        self.0@
    }
}

impl Clone for SourceVersion {
    fn clone(&self) -> (r: Self)
        ensures
            r@ == self@,
    {
        SourceVersion(self.0.clone())
    }
}

impl PartialEq for SourceVersion {
    fn eq(&self, other: &Self) -> (r: bool) {
        self.0 == other.0
    }
}

impl PartialEqSpecImpl for SourceVersion {
    open spec fn obeys_eq_spec() -> bool {
        true
    }

    open spec fn eq_spec(&self, other: &Self) -> bool {
        self@ == other@
    }
}

impl SourceVersion {
    /// Constructs a value: it must be non-empty and contain no control
    /// characters.
    pub fn new(value: &str) -> (r: Result<Self, SourceVersionValidationError>)
        ensures
            r matches Ok(v) ==> v@ == value@,
            r is Ok <==> source_version_check(value@) is Ok,
            r is Ok <==> value@.len() > 0 && has_no_control(value@),
            r matches Err(e) ==> source_version_check(value@) == Err::<(), SourceVersionValidationError>(e),
    {
        match check_opaque_text(value) {
            Some(None) => Err(SourceVersionValidationError::InvalidValue(VersionValueValidationError::Empty)),
            Some(Some(index)) => Err(SourceVersionValidationError::InvalidValue(VersionValueValidationError::ControlCharacter { index })),
            None => Ok(SourceVersion(value.to_owned())),
        }
    }

    /// Returns the value as a string slice.
    pub fn as_str(&self) -> (s: &str)
        ensures
            s@ == self@,
    {
        self.0.as_str()
    }

    /// Returns the number of bytes in the value.
    pub fn len(&self) -> (n: usize)
        ensures
            n == utf8_len(self@),
    {
        text_byte_len(self.0.as_str())
    }

    /// Returns whether the value is empty; never the case for a constructed
    /// value.
    pub fn is_empty(&self) -> (r: bool)
        ensures
            r == (self@.len() == 0),
    {
        self.0.as_str().is_empty()
    }

    /// Returns the value text.
    pub fn to_string(&self) -> (s: String)
        ensures
            s@ == self@,
    {
        self.0.clone()
    }
}

/// Validation failures for [`SchemaVersion`].
#[derive(Clone, Copy, Debug, PartialEq, Eq, Structural)]
pub enum SchemaVersionValidationError {
    /// The schema version is empty or contains a control character.
    InvalidValue(VersionValueValidationError),
}

/// Outcome of validating a schema version.
pub open spec fn schema_version_check(s: Seq<char>) -> Result<(), SchemaVersionValidationError> {
    match opaque_text_fault(s) {
        Some(None) => Err(SchemaVersionValidationError::InvalidValue(VersionValueValidationError::Empty)),
        Some(Some(i)) => Err(SchemaVersionValidationError::InvalidValue(VersionValueValidationError::ControlCharacter { index: i })),
        None => Ok(()),
    }
}

/// Opaque structural schema version; its meaning belongs to the schema owner.
#[derive(Debug, Eq, PartialOrd, Ord, Hash)]
pub struct SchemaVersion(String);

impl View for SchemaVersion {
    type V = Seq<char>;

    closed spec fn view(&self) -> Seq<char> {
        self.0@
    }
}

impl Clone for SchemaVersion {
    fn clone(&self) -> (r: Self)
        ensures
            r@ == self@,
    {
        SchemaVersion(self.0.clone())
    }
}

impl PartialEq for SchemaVersion {
    fn eq(&self, other: &Self) -> (r: bool) {
        self.0 == other.0
    }
}

impl PartialEqSpecImpl for SchemaVersion {
    open spec fn obeys_eq_spec() -> bool {
        true
    }

    open spec fn eq_spec(&self, other: &Self) -> bool {
        self@ == other@
    }
}

impl SchemaVersion {
    /// Constructs a value: it must be non-empty and contain no control
    /// characters.
    pub fn new(value: &str) -> (r: Result<Self, SchemaVersionValidationError>)
        ensures
            r matches Ok(v) ==> v@ == value@,
            r is Ok <==> schema_version_check(value@) is Ok,
            r is Ok <==> value@.len() > 0 && has_no_control(value@),
            r matches Err(e) ==> schema_version_check(value@) == Err::<(), SchemaVersionValidationError>(e),
    {
        match check_opaque_text(value) {
            Some(None) => Err(SchemaVersionValidationError::InvalidValue(VersionValueValidationError::Empty)),
            Some(Some(index)) => Err(SchemaVersionValidationError::InvalidValue(VersionValueValidationError::ControlCharacter { index })),
            None => Ok(SchemaVersion(value.to_owned())),
        }
    }

    /// Returns the value as a string slice.
    pub fn as_str(&self) -> (s: &str)
        ensures
            s@ == self@,
    {
        self.0.as_str()
    }

    /// Returns the number of bytes in the value.
    pub fn len(&self) -> (n: usize)
        ensures
            n == utf8_len(self@),
    {
        text_byte_len(self.0.as_str())
    }

    /// Returns whether the value is empty; never the case for a constructed
    /// value.
    pub fn is_empty(&self) -> (r: bool)
        ensures
            r == (self@.len() == 0),
    {
        self.0.as_str().is_empty()
    }

    /// Returns the value text.
    pub fn to_string(&self) -> (s: String)
        ensures
            s@ == self@,
    {
        self.0.clone()
    }
}

/// Copy of an optional source version.
pub fn copy_source_version(o: &Option<SourceVersion>) -> (r: Option<SourceVersion>)
    ensures
        view_option(r) == view_option(*o),
{
    match o {
        Some(v) => Some(v.clone()),
        None => None,
    }
}

/// Copy of an optional schema version.
pub fn copy_schema_version(o: &Option<SchemaVersion>) -> (r: Option<SchemaVersion>)
    ensures
        view_option(r) == view_option(*o),
{
    match o {
        Some(v) => Some(v.clone()),
        None => None,
    }
}

/// Copy of an optional version identifier.
pub fn copy_version_id(o: &Option<IndexVersionId>) -> (r: Option<IndexVersionId>)
    ensures
        view_option(r) == view_option(*o),
{
    match o {
        Some(v) => Some(v.clone()),
        None => None,
    }
}

/// Equality of optional version identifiers.
pub fn version_id_option_eq(a: &Option<IndexVersionId>, b: &Option<IndexVersionId>) -> (r: bool)
    ensures
        r == (view_option(*a) == view_option(*b)),
{
    match (a, b) {
        (Some(x), Some(y)) => x.0 == y.0,
        (None, None) => true,
        _ => false,
    }
}

/// Lifecycle of one index version.
///
/// `Building -> Validating -> Ready -> Published`; `Building`, `Validating`
/// and `Ready` may also end in `Failed` or `Cancelled`. Repeating a state is
/// a no-op; nothing leaves `Published`, `Failed` or `Cancelled`.
#[derive(Clone, Copy, Debug, PartialEq, Eq, Structural, PartialOrd, Ord, Hash)]
pub enum VersionLifecycle {
    /// The candidate version is being constructed.
    Building,
    /// The candidate version is being validated.
    Validating,
    /// Validation succeeded; the candidate may be published.
    Ready,
    /// The version crossed the publication boundary.
    Published,
    /// Construction or validation failed.
    Failed,
    /// Construction or validation was cancelled.
    Cancelled,
}

/// An unpublished state, including the failed and cancelled ends.
pub open spec fn lifecycle_is_candidate(s: VersionLifecycle) -> bool {
    s != VersionLifecycle::Published
}

/// A state with no way out.
pub open spec fn lifecycle_is_terminal(s: VersionLifecycle) -> bool {
    s == VersionLifecycle::Published || s == VersionLifecycle::Failed || s == VersionLifecycle::Cancelled
}

/// The permitted direct transitions.
pub open spec fn lifecycle_step(from: VersionLifecycle, to: VersionLifecycle) -> bool {
    from == to || match (from, to) {
        (VersionLifecycle::Building, VersionLifecycle::Validating) => true,
        (VersionLifecycle::Validating, VersionLifecycle::Ready) => true,
        (VersionLifecycle::Ready, VersionLifecycle::Published) => true,
        (VersionLifecycle::Building, VersionLifecycle::Failed) => true,
        (VersionLifecycle::Building, VersionLifecycle::Cancelled) => true,
        (VersionLifecycle::Validating, VersionLifecycle::Failed) => true,
        (VersionLifecycle::Validating, VersionLifecycle::Cancelled) => true,
        (VersionLifecycle::Ready, VersionLifecycle::Failed) => true,
        (VersionLifecycle::Ready, VersionLifecycle::Cancelled) => true,
        _ => false,
    }
}

/// Terminal states only step to themselves; in particular a published
/// version never becomes a candidate again, and only a ready version can
/// become published.
pub proof fn law_terminal_states_are_final(from: VersionLifecycle, to: VersionLifecycle)
    ensures
        lifecycle_is_terminal(from) && lifecycle_step(from, to) ==> to == from,
        lifecycle_step(from, to) && to == VersionLifecycle::Published ==> from == VersionLifecycle::Ready
            || from == VersionLifecycle::Published,
{
}

/// Position of a state on the way to publication: building, validating,
/// ready, published. Failed and cancelled are off that way.
pub open spec fn lifecycle_stage(l: VersionLifecycle) -> int {
    match l {
        VersionLifecycle::Building => 0,
        VersionLifecycle::Validating => 1,
        VersionLifecycle::Ready => 2,
        VersionLifecycle::Published => 3,
        VersionLifecycle::Failed => -1,
        VersionLifecycle::Cancelled => -1,
    }
}

/// A version moves towards publication one stage at a time and never back:
/// a step between states on that way stays put or advances exactly one
/// stage (so a building version must be validated before it is ready), and
/// each such advance is allowed. A version leaves that way only by failing
/// or being cancelled, which any unfinished version may do.
pub proof fn law_lifecycle_advances_one_stage(from: VersionLifecycle, to: VersionLifecycle)
    ensures
        lifecycle_stage(from) >= 0 && lifecycle_stage(to) >= 0 ==> (lifecycle_step(from, to) <==> (
            lifecycle_stage(to) == lifecycle_stage(from) || lifecycle_stage(to) == lifecycle_stage(from) + 1)),
        lifecycle_stage(from) < 0 ==> (lifecycle_step(from, to) <==> to == from),
        lifecycle_stage(to) < 0 && to != from ==> (lifecycle_step(from, to) <==> !lifecycle_is_terminal(from)),
        lifecycle_step(from, VersionLifecycle::Ready) ==> from == VersionLifecycle::Validating || from
            == VersionLifecycle::Ready,
{
}

impl VersionLifecycle {
    /// Whether the state is an unpublished candidate (failed and cancelled
    /// included).
    pub fn is_candidate(self) -> (r: bool)
        ensures
            r == lifecycle_is_candidate(self),
    {
        match self {
            VersionLifecycle::Published => false,
            _ => true,
        }
    }

    /// Whether the version crossed the publication boundary.
    pub fn is_published(self) -> (r: bool)
        ensures
            r == (self == VersionLifecycle::Published),
    {
        match self {
            VersionLifecycle::Published => true,
            _ => false,
        }
    }

    /// Whether the state is terminal.
    pub fn is_terminal(self) -> (r: bool)
        ensures
            r == lifecycle_is_terminal(self),
    {
        match self {
            VersionLifecycle::Published | VersionLifecycle::Failed | VersionLifecycle::Cancelled => true,
            _ => false,
        }
    }

    /// Whether a direct transition to `next` is permitted.
    pub fn can_transition_to(self, next: Self) -> (r: bool)
        ensures
            r == lifecycle_step(self, next),
    {
        match (self, next) {
            (VersionLifecycle::Building, VersionLifecycle::Building)
            | (VersionLifecycle::Validating, VersionLifecycle::Validating)
            | (VersionLifecycle::Ready, VersionLifecycle::Ready)
            | (VersionLifecycle::Published, VersionLifecycle::Published)
            | (VersionLifecycle::Failed, VersionLifecycle::Failed)
            | (VersionLifecycle::Cancelled, VersionLifecycle::Cancelled)
            | (VersionLifecycle::Building, VersionLifecycle::Validating)
            | (VersionLifecycle::Validating, VersionLifecycle::Ready)
            | (VersionLifecycle::Building, VersionLifecycle::Failed)
            | (VersionLifecycle::Building, VersionLifecycle::Cancelled)
            | (VersionLifecycle::Validating, VersionLifecycle::Failed)
            | (VersionLifecycle::Validating, VersionLifecycle::Cancelled)
            | (VersionLifecycle::Ready, VersionLifecycle::Failed)
            | (VersionLifecycle::Ready, VersionLifecycle::Cancelled)
            | (VersionLifecycle::Ready, VersionLifecycle::Published) => true,
            _ => false,
        }
    }
}

/// Validation failures for [`IndexVersion`].
#[derive(Debug, Eq)]
pub enum IndexVersionValidationError {
    /// The metadata is invalid.
    InvalidMetadata(KeyMaterialValidationError),
}

impl View for IndexVersionValidationError {
    type V = KeyFault;

    open spec fn view(&self) -> KeyFault {
        match self {
            IndexVersionValidationError::InvalidMetadata(e) => e@,
        }
    }
}

impl Clone for IndexVersionValidationError {
    fn clone(&self) -> (r: Self)
        ensures
            r@ == self@,
    {
        match self {
            IndexVersionValidationError::InvalidMetadata(e) => IndexVersionValidationError::InvalidMetadata(e.clone()),
        }
    }
}

impl PartialEq for IndexVersionValidationError {
    fn eq(&self, other: &Self) -> (r: bool) {
        match (self, other) {
            (IndexVersionValidationError::InvalidMetadata(a), IndexVersionValidationError::InvalidMetadata(b)) => *a == *b,
        }
    }
}

impl PartialEqSpecImpl for IndexVersionValidationError {
    open spec fn obeys_eq_spec() -> bool {
        true
    }

    open spec fn eq_spec(&self, other: &Self) -> bool {
        self@ == other@
    }
}

/// Value of an [`IndexVersion`].
pub struct VersionView {
    pub id: Seq<char>,
    pub source_version: Option<Seq<char>>,
    pub schema_version: Option<Seq<char>>,
    pub metadata: Option<KeyValue>,
}

/// Logical version identity and metadata of one index state.
#[derive(Debug, Eq, PartialOrd, Ord, Hash)]
pub struct IndexVersion {
    id: IndexVersionId,
    source_version: Option<SourceVersion>,
    schema_version: Option<SchemaVersion>,
    metadata: Option<KeyMaterial>,
}

impl View for IndexVersion {
    type V = VersionView;

    closed spec fn view(&self) -> VersionView {
        VersionView {
            id: self.id@,
            source_version: view_option(self.source_version),
            schema_version: view_option(self.schema_version),
            metadata: option_value(self.metadata),
        }
    }
}

impl Clone for IndexVersion {
    fn clone(&self) -> (r: Self)
        ensures
            r@ == self@,
    {
        IndexVersion {
            id: self.id.clone(),
            source_version: copy_source_version(&self.source_version),
            schema_version: copy_schema_version(&self.schema_version),
            metadata: copy_option(&self.metadata),
        }
    }
}

impl PartialEq for IndexVersion {
    fn eq(&self, other: &Self) -> (r: bool) {
        self.id == other.id && self.source_version == other.source_version
            && self.schema_version == other.schema_version
            && crate::index::key::option_eq(&self.metadata, &other.metadata)
    }
}

impl PartialEqSpecImpl for IndexVersion {
    open spec fn obeys_eq_spec() -> bool {
        true
    }

    open spec fn eq_spec(&self, other: &Self) -> bool {
        self@ == other@
    }
}

impl IndexVersion {
    /// Constructs a version with no source/schema associations or metadata.
    pub fn new(id: IndexVersionId) -> (r: Self)
        ensures
            r@ == (VersionView { id: id@, source_version: None, schema_version: None, metadata: None }),
    {
        IndexVersion { id, source_version: None, schema_version: None, metadata: None }
    }

    /// Constructs a version with optional associations and metadata; the
    /// metadata must validate.
    pub fn with_metadata(
        id: IndexVersionId,
        source_version: Option<SourceVersion>,
        schema_version: Option<SchemaVersion>,
        metadata: Option<KeyMaterial>,
    ) -> (r: Result<Self, IndexVersionValidationError>)
        ensures
            r is Ok <==> option_check(option_value(metadata)) is Ok,
            r matches Ok(v) ==> v@ == (VersionView {
                id: id@,
                source_version: view_option(source_version),
                schema_version: view_option(schema_version),
                metadata: option_value(metadata),
            }),
            r matches Err(e) ==> option_check(option_value(metadata)) == Err::<(), KeyFault>(e@),
    {
        match validate_option(&metadata) {
            Err(e) => Err(IndexVersionValidationError::InvalidMetadata(e)),
            Ok(()) => Ok(IndexVersion { id, source_version, schema_version, metadata }),
        }
    }

    /// Returns the version identity.
    pub fn id(&self) -> (r: &IndexVersionId)
        ensures
            r@ == self@.id,
    {
        &self.id
    }

    /// Returns the associated source version, if any.
    pub fn source_version(&self) -> (r: Option<&SourceVersion>)
        ensures
            match r {
                Some(v) => self@.source_version == Some(v@),
                None => self@.source_version is None,
            },
    {
        match &self.source_version {
            Some(v) => Some(v),
            None => None,
        }
    }

    /// Returns the associated schema version, if any.
    pub fn schema_version(&self) -> (r: Option<&SchemaVersion>)
        ensures
            match r {
                Some(v) => self@.schema_version == Some(v@),
                None => self@.schema_version is None,
            },
    {
        match &self.schema_version {
            Some(v) => Some(v),
            None => None,
        }
    }

    /// Returns the optional metadata.
    pub fn metadata(&self) -> (r: Option<&KeyMaterial>)
        ensures
            match r {
                Some(m) => self@.metadata == Some(m@),
                None => self@.metadata is None,
            },
    {
        match &self.metadata {
            Some(m) => Some(m),
            None => None,
        }
    }

    /// Consumes the version and returns its components.
    pub fn into_parts(self) -> (r: (IndexVersionId, Option<SourceVersion>, Option<SchemaVersion>, Option<KeyMaterial>))
        ensures
            r.0@ == self@.id,
            view_option(r.1) == self@.source_version,
            view_option(r.2) == self@.schema_version,
            option_value(r.3) == self@.metadata,
    {
        (self.id, self.source_version, self.schema_version, self.metadata)
    }

    /// Validates the metadata.
    pub fn validate(&self) -> (r: Result<(), IndexVersionValidationError>)
        ensures
            r is Ok <==> option_check(self@.metadata) is Ok,
            r matches Err(e) ==> option_check(self@.metadata) == Err::<(), KeyFault>(e@),
    {
        match validate_option(&self.metadata) {
            Err(e) => Err(IndexVersionValidationError::InvalidMetadata(e)),
            Ok(()) => Ok(()),
        }
    }
}

/// A rejected lifecycle transition.
#[derive(Debug, Eq)]
pub struct VersionLifecycleTransitionError {
    version: IndexVersionId,
    from: VersionLifecycle,
    to: VersionLifecycle,
}

impl View for VersionLifecycleTransitionError {
    type V = (Seq<char>, VersionLifecycle, VersionLifecycle);

    closed spec fn view(&self) -> (Seq<char>, VersionLifecycle, VersionLifecycle) {
        (self.version@, self.from, self.to)
    }
}

impl Clone for VersionLifecycleTransitionError {
    fn clone(&self) -> (r: Self)
        ensures
            r@ == self@,
    {
        VersionLifecycleTransitionError { version: self.version.clone(), from: self.from, to: self.to }
    }
}

impl PartialEq for VersionLifecycleTransitionError {
    fn eq(&self, other: &Self) -> (r: bool) {
        self.version == other.version && self.from == other.from && self.to == other.to
    }
}

impl PartialEqSpecImpl for VersionLifecycleTransitionError {
    open spec fn obeys_eq_spec() -> bool {
        true
    }

    open spec fn eq_spec(&self, other: &Self) -> bool {
        self@ == other@
    }
}

impl VersionLifecycleTransitionError {
    /// The version whose transition was rejected.
    pub fn version(&self) -> (r: &IndexVersionId)
        ensures
            r@ == self@.0,
    {
        &self.version
    }

    /// The state before the rejected transition.
    pub fn from(&self) -> (r: VersionLifecycle)
        ensures
            r == self@.1,
    {
        self.from
    }

    /// The requested state.
    pub fn to(&self) -> (r: VersionLifecycle)
        ensures
            r == self@.2,
    {
        self.to
    }
}

/// An [`IndexVersion`] together with its lifecycle state.
#[derive(Debug, Eq)]
pub struct IndexVersionState {
    version: IndexVersion,
    lifecycle: VersionLifecycle,
}

impl View for IndexVersionState {
    type V = (VersionView, VersionLifecycle);

    closed spec fn view(&self) -> (VersionView, VersionLifecycle) {
        (self.version@, self.lifecycle)
    }
}

impl Clone for IndexVersionState {
    fn clone(&self) -> (r: Self)
        ensures
            r@ == self@,
    {
        IndexVersionState { version: self.version.clone(), lifecycle: self.lifecycle }
    }
}

impl PartialEq for IndexVersionState {
    fn eq(&self, other: &Self) -> (r: bool) {
        self.version == other.version && self.lifecycle == other.lifecycle
    }
}

impl PartialEqSpecImpl for IndexVersionState {
    open spec fn obeys_eq_spec() -> bool {
        true
    }

    open spec fn eq_spec(&self, other: &Self) -> bool {
        self@ == other@
    }
}

impl IndexVersionState {
    /// Wraps a version as a newly constructed candidate (`Building`).
    pub fn new(version: IndexVersion) -> (r: Self)
        ensures
            r@ == (version@, VersionLifecycle::Building),
    {
        IndexVersionState { version, lifecycle: VersionLifecycle::Building }
    }

    /// Returns the underlying version.
    pub fn version(&self) -> (r: &IndexVersion)
        ensures
            r@ == self@.0,
    {
        &self.version
    }

    /// Returns the version identifier.
    pub fn id(&self) -> (r: &IndexVersionId)
        ensures
            r@ == self@.0.id,
    {
        self.version.id()
    }

    /// Returns the lifecycle state.
    pub fn lifecycle(&self) -> (r: VersionLifecycle)
        ensures
            r == self@.1,
    {
        self.lifecycle
    }

    /// Whether the version is still an unpublished candidate.
    pub fn is_candidate(&self) -> (r: bool)
        ensures
            r == lifecycle_is_candidate(self@.1),
    {
        self.lifecycle.is_candidate()
    }

    /// Whether the version crossed the publication boundary.
    pub fn is_published(&self) -> (r: bool)
        ensures
            r == (self@.1 == VersionLifecycle::Published),
    {
        self.lifecycle.is_published()
    }

    /// Performs one permitted lifecycle transition; a transition that is not
    /// permitted is rejected and changes nothing.
    pub fn transition_to(&mut self, next: VersionLifecycle) -> (r: Result<(), VersionLifecycleTransitionError>)
        ensures
            lifecycle_step(old(self)@.1, next) ==> r is Ok && final(self)@ == (old(self)@.0, next),
            !lifecycle_step(old(self)@.1, next) ==> final(self)@ == old(self)@ && (r matches Err(e)
                && e@ == (old(self)@.0.id, old(self)@.1, next)),
    {
        let current = self.lifecycle;
        if !current.can_transition_to(next) {
            return Err(VersionLifecycleTransitionError { version: self.version.id().clone(), from: current, to: next });
        }
        self.lifecycle = next;
        Ok(())
    }

    /// Advances to `Ready`.
    pub fn mark_ready(&mut self) -> (r: Result<(), VersionLifecycleTransitionError>)
        ensures
            lifecycle_step(old(self)@.1, VersionLifecycle::Ready) ==> r is Ok && final(self)@ == (old(self)@.0, VersionLifecycle::Ready),
            !lifecycle_step(old(self)@.1, VersionLifecycle::Ready) ==> final(self)@ == old(self)@ && (r matches Err(e)
                && e@ == (old(self)@.0.id, old(self)@.1, VersionLifecycle::Ready)),
    {
        self.transition_to(VersionLifecycle::Ready)
    }

    /// Advances to `Published`.
    pub fn mark_published(&mut self) -> (r: Result<(), VersionLifecycleTransitionError>)
        ensures
            lifecycle_step(old(self)@.1, VersionLifecycle::Published) ==> r is Ok && final(self)@ == (old(self)@.0, VersionLifecycle::Published),
            !lifecycle_step(old(self)@.1, VersionLifecycle::Published) ==> final(self)@ == old(self)@ && (r matches Err(e)
                && e@ == (old(self)@.0.id, old(self)@.1, VersionLifecycle::Published)),
    {
        self.transition_to(VersionLifecycle::Published)
    }

    /// Marks the version failed.
    pub fn mark_failed(&mut self) -> (r: Result<(), VersionLifecycleTransitionError>)
        ensures
            lifecycle_step(old(self)@.1, VersionLifecycle::Failed) ==> r is Ok && final(self)@ == (old(self)@.0, VersionLifecycle::Failed),
            !lifecycle_step(old(self)@.1, VersionLifecycle::Failed) ==> final(self)@ == old(self)@ && (r matches Err(e)
                && e@ == (old(self)@.0.id, old(self)@.1, VersionLifecycle::Failed)),
    {
        self.transition_to(VersionLifecycle::Failed)
    }

    /// Marks the version cancelled.
    pub fn mark_cancelled(&mut self) -> (r: Result<(), VersionLifecycleTransitionError>)
        ensures
            lifecycle_step(old(self)@.1, VersionLifecycle::Cancelled) ==> r is Ok && final(self)@ == (old(self)@.0, VersionLifecycle::Cancelled),
            !lifecycle_step(old(self)@.1, VersionLifecycle::Cancelled) ==> final(self)@ == old(self)@ && (r matches Err(e)
                && e@ == (old(self)@.0.id, old(self)@.1, VersionLifecycle::Cancelled)),
    {
        self.transition_to(VersionLifecycle::Cancelled)
    }

    /// Consumes the wrapper and returns the version and its lifecycle.
    pub fn into_parts(self) -> (r: (IndexVersion, VersionLifecycle))
        ensures
            r.0@ == self@.0,
            r.1 == self@.1,
    {
        (self.version, self.lifecycle)
    }

    /// Consumes the wrapper and returns the version.
    pub fn into_version(self) -> (r: IndexVersion)
        ensures
            r@ == self@.0,
    {
        self.version
    }
}

impl AsRef<str> for IndexVersionId {
    fn as_ref(&self) -> (r: &str)
        ensures
            r@ == self@,
    {
        self.0.as_str()
    }
}

impl AsRef<str> for SourceVersion {
    fn as_ref(&self) -> (r: &str)
        ensures
            r@ == self@,
    {
        self.0.as_str()
    }
}

impl AsRef<str> for SchemaVersion {
    fn as_ref(&self) -> (r: &str)
        ensures
            r@ == self@,
    {
        self.0.as_str()
    }
}

/// Message of a version-value validation failure.
pub open spec fn version_value_error_message(e: VersionValueValidationError) -> Seq<char> {
    match e {
        VersionValueValidationError::Empty => "version value must not be empty"@,
        VersionValueValidationError::ControlCharacter { index } => "version value contains a control character at byte index "@ + decimal_text(index as nat),
    }
}

impl VersionValueValidationError {
    /// Returns the failure message.
    pub fn to_string(&self) -> (s: String)
        ensures
            s@ == version_value_error_message(*self),
    {
        let mut s = String::new();
        match self {
            VersionValueValidationError::Empty => {
                push_text(&mut s, "version value must not be empty");
            },
            VersionValueValidationError::ControlCharacter { index } => {
                push_text(&mut s, "version value contains a control character at byte index ");
                push_decimal(&mut s, *index as u128);
            },
        }
        assert(s@ =~= version_value_error_message(*self));
        s
    }
}

/// Message of a failure to validate: invalid index version ID.
pub open spec fn version_id_error_message(e: IndexVersionIdValidationError) -> Seq<char> {
    match e {
        IndexVersionIdValidationError::InvalidValue(v) => "invalid index version ID: "@ + version_value_error_message(v),
    }
}

impl IndexVersionIdValidationError {
    /// Returns the failure message.
    pub fn to_string(&self) -> (s: String)
        ensures
            s@ == version_id_error_message(*self),
    {
        let mut s = String::new();
        match self {
            IndexVersionIdValidationError::InvalidValue(v) => {
                push_text(&mut s, "invalid index version ID: ");
                let nested = v.to_string();
                push_text(&mut s, nested.as_str());
            },
        }
        assert(s@ =~= version_id_error_message(*self));
        s
    }
}

/// Message of a failure to validate: invalid source version.
pub open spec fn source_version_error_message(e: SourceVersionValidationError) -> Seq<char> {
    match e {
        SourceVersionValidationError::InvalidValue(v) => "invalid source version: "@ + version_value_error_message(v),
    }
}

impl SourceVersionValidationError {
    /// Returns the failure message.
    pub fn to_string(&self) -> (s: String)
        ensures
            s@ == source_version_error_message(*self),
    {
        let mut s = String::new();
        match self {
            SourceVersionValidationError::InvalidValue(v) => {
                push_text(&mut s, "invalid source version: ");
                let nested = v.to_string();
                push_text(&mut s, nested.as_str());
            },
        }
        assert(s@ =~= source_version_error_message(*self));
        s
    }
}

/// Message of a failure to validate: invalid schema version.
pub open spec fn schema_version_error_message(e: SchemaVersionValidationError) -> Seq<char> {
    match e {
        SchemaVersionValidationError::InvalidValue(v) => "invalid schema version: "@ + version_value_error_message(v),
    }
}

impl SchemaVersionValidationError {
    /// Returns the failure message.
    pub fn to_string(&self) -> (s: String)
        ensures
            s@ == schema_version_error_message(*self),
    {
        let mut s = String::new();
        match self {
            SchemaVersionValidationError::InvalidValue(v) => {
                push_text(&mut s, "invalid schema version: ");
                let nested = v.to_string();
                push_text(&mut s, nested.as_str());
            },
        }
        assert(s@ =~= schema_version_error_message(*self));
        s
    }
}

/// The variant name of a lifecycle state, as its debug rendering writes it.
pub open spec fn lifecycle_debug_name(l: VersionLifecycle) -> Seq<char> {
    match l {
        VersionLifecycle::Building => "Building"@,
        VersionLifecycle::Validating => "Validating"@,
        VersionLifecycle::Ready => "Ready"@,
        VersionLifecycle::Published => "Published"@,
        VersionLifecycle::Failed => "Failed"@,
        VersionLifecycle::Cancelled => "Cancelled"@,
    }
}

impl VersionLifecycle {
    /// Returns the variant name of the state.
    pub fn debug_text(&self) -> (s: String)
        ensures
            s@ == lifecycle_debug_name(*self),
    {
        let mut s = String::new();
        match self {
            VersionLifecycle::Building => {
                push_text(&mut s, "Building");
            },
            VersionLifecycle::Validating => {
                push_text(&mut s, "Validating");
            },
            VersionLifecycle::Ready => {
                push_text(&mut s, "Ready");
            },
            VersionLifecycle::Published => {
                push_text(&mut s, "Published");
            },
            VersionLifecycle::Failed => {
                push_text(&mut s, "Failed");
            },
            VersionLifecycle::Cancelled => {
                push_text(&mut s, "Cancelled");
            },
        }
        assert(s@ =~= lifecycle_debug_name(*self));
        s
    }
}

/// Message of a rejected lifecycle transition.
pub open spec fn transition_error_message(e: (Seq<char>, VersionLifecycle, VersionLifecycle)) -> Seq<char> {
    "invalid index version lifecycle transition for "@ + e.0 + ": "@ + lifecycle_debug_name(e.1) + " -> "@ + lifecycle_debug_name(e.2)
}

impl VersionLifecycleTransitionError {
    /// Returns the failure message.
    pub fn to_string(&self) -> (s: String)
        ensures
            s@ == transition_error_message(self@),
    {
        let mut s = String::new();
        push_text(&mut s, "invalid index version lifecycle transition for ");
        push_text(&mut s, self.version.as_str());
        push_text(&mut s, ": ");
        let nested = self.from.debug_text();
        push_text(&mut s, nested.as_str());
        push_text(&mut s, " -> ");
        let nested = self.to.debug_text();
        push_text(&mut s, nested.as_str());
        assert(s@ =~= transition_error_message(self@));
        s
    }
}

/// Message of an index-version validation failure.
pub open spec fn index_version_error_message(e: KeyFault) -> Seq<char> {
    "invalid index version metadata: "@ + crate::index::key::key_error_message(e)
}

impl IndexVersionValidationError {
    /// Returns the failure message.
    pub fn to_string(&self) -> (s: String)
        ensures
            s@ == index_version_error_message(self@),
    {
        let mut s = String::new();
        push_text(&mut s, "invalid index version metadata: ");
        let nested = match self {
            IndexVersionValidationError::InvalidMetadata(f) => f.to_string(),
        };
        push_text(&mut s, nested.as_str());
        assert(s@ =~= index_version_error_message(self@));
        s
    }
}

/// Debug rendering of a version identifier.
pub open spec fn version_id_debug(v: Seq<char>) -> Seq<char> {
    "IndexVersionId("@ + debug_quoted(v) + ")"@
}

impl IndexVersionId {
    /// Returns the identifier rendered as its debug structure.
    pub fn debug_text(&self) -> (s: String)
        ensures
            s@ == version_id_debug(self@),
    {
        let mut s = String::new();
        push_text(&mut s, "IndexVersionId(");
        push_quoted(&mut s, self.0.as_str());
        push_text(&mut s, ")");
        assert(s@ =~= version_id_debug(self@));
        s
    }
}

/// The error report of a refused lifecycle transition: code
/// `INDEXING.VERSION.001`, a broken contract, its message, and the version,
/// the current state and the requested state as details.
pub open spec fn transition_core_parts(e: (Seq<char>, VersionLifecycle, VersionLifecycle)) -> CorePartsView {
    core_parts(
        "INDEXING.VERSION.001"@,
        CoreErrorClass::Contract,
        transition_error_message(e),
        seq![
            ("version"@, e.0),
            ("from"@, lifecycle_debug_name(e.1)),
            ("to"@, lifecycle_debug_name(e.2)),
        ],
    )
}

impl VersionLifecycleTransitionError {
    /// The error report of this failure.
    pub fn core_error_parts(&self) -> (r: CoreErrorParts)
        ensures
            r@ == transition_core_parts(self@),
    {
        let details = vec![
            detail("version", self.version.as_str().to_owned()),
            detail("from", self.from.debug_text()),
            detail("to", self.to.debug_text()),
        ];
        assert(detail_views(details@) =~= transition_core_parts(self@).details);
        core_error_parts_of("INDEXING.VERSION.001", CoreErrorClass::Contract, self.to_string(), details)
    }
}

} // verus!
