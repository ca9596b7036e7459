//! Construction of unpublished logical candidates from source snapshots:
//! a candidate version is made from the snapshot's versions, populated with
//! the snapshot's entries in order, and validated against its definition.
//! Nothing here publishes a candidate or changes an active version.

use crate::consistency::versioning::{
    candidate_compatibility, validate_candidate_compatibility, VersioningError, VersioningFault,
};
use crate::identity::index::IndexId;
use crate::index::definition::{IndexDefinition, IndexDefinitionView};
use crate::index::entry::{EntryView, IndexEntry, IndexEntryValidationError};
use crate::index::key::{key_check, KeyFault};
use crate::index::version::{
    copy_schema_version, copy_source_version, view_option, IndexVersion, IndexVersionId,
    IndexVersionValidationError, SchemaVersion, SourceVersion, VersionView,
};
use vstd::prelude::*;
use crate::message::{decimal_text, push_decimal, push_text};
use crate::diagnostic::{
    core_error_parts_of, core_parts, decimal_string, detail, detail_views, CoreErrorClass, CoreErrorParts,
    CorePartsView,
};
use vstd::std_specs::cmp::PartialEqSpecImpl;

verus! {

/// The values of a sequence of entries.
pub open spec fn entry_views(v: Seq<IndexEntry>) -> Seq<EntryView> {
    v.map_values(|e: IndexEntry| e@)
}

/// Copy of a sequence of entries.
pub fn copy_entries(v: &[IndexEntry]) -> (r: Vec<IndexEntry>)
    ensures
        entry_views(r@) == entry_views(v@),
{
    let mut out: Vec<IndexEntry> = Vec::new();
    let mut i: usize = 0;
    while i < v.len()
        invariant
            0 <= i <= v@.len(),
            out@.len() == i,
            forall|j: int| 0 <= j < i ==> (#[trigger] out@[j])@ == v@[j]@,
        decreases v@.len() - i,
    {
        out.push(v[i].clone());
        i = i + 1;
    }
    assert(entry_views(out@) =~= entry_views(v@));
    out
}

/// Value of a [`BuildSnapshot`].
pub struct SnapshotView {
    pub source_version: Option<Seq<char>>,
    pub schema_version: Option<Seq<char>>,
    pub entries: Seq<EntryView>,
}

/// Source state handed to construction: optional source and schema versions
/// and the entries that represent that state.
#[derive(Debug, Eq)]
pub struct BuildSnapshot {
    source_version: Option<SourceVersion>,
    schema_version: Option<SchemaVersion>,
    entries: Vec<IndexEntry>,
}

impl View for BuildSnapshot {
    type V = SnapshotView;

    closed spec fn view(&self) -> SnapshotView {
        SnapshotView {
            source_version: view_option(self.source_version),
            schema_version: view_option(self.schema_version),
            entries: entry_views(self.entries@),
        }
    }
}

impl Clone for BuildSnapshot {
    fn clone(&self) -> (r: Self)
        ensures
            r@ == self@,
    {
        BuildSnapshot {
            source_version: copy_source_version(&self.source_version),
            schema_version: copy_schema_version(&self.schema_version),
            entries: copy_entries(self.entries.as_slice()),
        }
    }
}

/// Entry-wise equality of two entry sequences.
pub fn entries_eq(a: &[IndexEntry], b: &[IndexEntry]) -> (r: bool)
    ensures
        r == (entry_views(a@) == entry_views(b@)),
{
    if a.len() != b.len() {
        assert(entry_views(a@).len() != entry_views(b@).len());
        return false;
    }
    let mut i: usize = 0;
    while i < a.len()
        invariant
            a@.len() == b@.len(),
            0 <= i <= a@.len(),
            forall|j: int| 0 <= j < i ==> a@[j]@ == b@[j]@,
        decreases a@.len() - i,
    {
        if !(a[i] == b[i]) {
            assert(entry_views(a@)[i as int] != entry_views(b@)[i as int]);
            return false;
        }
        i = i + 1;
    }
    assert(entry_views(a@) =~= entry_views(b@));
    true
}

impl PartialEq for BuildSnapshot {
    fn eq(&self, other: &Self) -> (r: bool) {
        self.source_version == other.source_version && self.schema_version == other.schema_version
            && entries_eq(self.entries.as_slice(), other.entries.as_slice())
    }
}

impl PartialEqSpecImpl for BuildSnapshot {
    open spec fn obeys_eq_spec() -> bool {
        true
    }

    open spec fn eq_spec(&self, other: &Self) -> bool {
        self@ == other@
    }
}

impl BuildSnapshot {
    /// Creates a snapshot without source or schema versions.
    pub fn new(entries: Vec<IndexEntry>) -> (r: Self)
        ensures
            r@ == (SnapshotView { source_version: None, schema_version: None, entries: entry_views(entries@) }),
    {
        Self::with_versions(None, None, entries)
    }

    /// Creates a snapshot with optional source and schema versions.
    pub fn with_versions(
        source_version: Option<SourceVersion>,
        schema_version: Option<SchemaVersion>,
        entries: Vec<IndexEntry>,
    ) -> (r: Self)
        ensures
            r@ == (SnapshotView {
                source_version: view_option(source_version),
                schema_version: view_option(schema_version),
                entries: entry_views(entries@),
            }),
    {
        BuildSnapshot { source_version, schema_version, entries }
    }

    /// Returns the source version of the snapshot, if any.
    pub fn source_version(&self) -> (r: Option<&SourceVersion>)
        ensures
            view_option(r) == self@.source_version,
    {
        match &self.source_version {
            Some(v) => Some(v),
            None => None,
        }
    }

    /// Returns the schema version of the snapshot, if any.
    pub fn schema_version(&self) -> (r: Option<&SchemaVersion>)
        ensures
            view_option(r) == self@.schema_version,
    {
        match &self.schema_version {
            Some(v) => Some(v),
            None => None,
        }
    }

    /// Returns the snapshot's entries.
    pub fn entries(&self) -> (r: &[IndexEntry])
        ensures
            entry_views(r@) == self@.entries,
    {
        self.entries.as_slice()
    }

    /// Returns the number of entries.
    pub fn len(&self) -> (n: usize)
        ensures
            n == self@.entries.len(),
    {
        self.entries.len()
    }

    /// Returns whether the snapshot holds no entries.
    pub fn is_empty(&self) -> (r: bool)
        ensures
            r == (self@.entries.len() == 0),
    {
        self.entries.len() == 0
    }

    /// Consumes the snapshot and returns its components.
    pub fn into_parts(self) -> (r: (Option<SourceVersion>, Option<SchemaVersion>, Vec<IndexEntry>))
        ensures
            view_option(r.0) == self@.source_version,
            view_option(r.1) == self@.schema_version,
            entry_views(r.2@) == self@.entries,
    {
        (self.source_version, self.schema_version, self.entries)
    }
}

/// Value of a [`BuildInput`].
pub struct BuildInputView {
    pub index_id: Seq<u8>,
    pub definition: IndexDefinitionView,
    pub candidate_version_id: Seq<char>,
    pub snapshot: SnapshotView,
}

/// Input to candidate construction: the index identity, its definition, the
/// identity of the version to build and the source snapshot.
#[derive(Debug, Eq)]
pub struct BuildInput {
    index_id: IndexId,
    definition: IndexDefinition,
    candidate_version_id: IndexVersionId,
    snapshot: BuildSnapshot,
}

impl View for BuildInput {
    type V = BuildInputView;

    closed spec fn view(&self) -> BuildInputView {
        BuildInputView {
            index_id: self.index_id@,
            definition: self.definition@,
            candidate_version_id: self.candidate_version_id@,
            snapshot: self.snapshot@,
        }
    }
}

impl Clone for BuildInput {
    fn clone(&self) -> (r: Self)
        ensures
            r@ == self@,
    {
        BuildInput {
            index_id: self.index_id,
            definition: self.definition.clone(),
            candidate_version_id: self.candidate_version_id.clone(),
            snapshot: self.snapshot.clone(),
        }
    }
}

impl PartialEq for BuildInput {
    fn eq(&self, other: &Self) -> (r: bool) {
        self.index_id == other.index_id && self.definition == other.definition && self.candidate_version_id
            == other.candidate_version_id && self.snapshot == other.snapshot
    }
}

impl PartialEqSpecImpl for BuildInput {
    open spec fn obeys_eq_spec() -> bool {
        true
    }

    open spec fn eq_spec(&self, other: &Self) -> bool {
        self@ == other@
    }
}

impl BuildInput {
    /// Creates a build input.
    pub fn new(
        index_id: IndexId,
        definition: IndexDefinition,
        candidate_version_id: IndexVersionId,
        snapshot: BuildSnapshot,
    ) -> (r: Self)
        ensures
            r@ == (BuildInputView {
                index_id: index_id@,
                definition: definition@,
                candidate_version_id: candidate_version_id@,
                snapshot: snapshot@,
            }),
    {
        BuildInput { index_id, definition, candidate_version_id, snapshot }
    }

    /// Returns the identity of the index being built.
    pub fn index_id(&self) -> (r: &IndexId)
        ensures
            r@ == self@.index_id,
    {
        &self.index_id
    }

    /// Returns the governing definition.
    pub fn definition(&self) -> (r: &IndexDefinition)
        ensures
            r@ == self@.definition,
    {
        &self.definition
    }

    /// Returns the identity of the version to build.
    pub fn candidate_version_id(&self) -> (r: &IndexVersionId)
        ensures
            r@ == self@.candidate_version_id,
    {
        &self.candidate_version_id
    }

    /// Returns the source snapshot.
    pub fn snapshot(&self) -> (r: &BuildSnapshot)
        ensures
            r@ == self@.snapshot,
    {
        &self.snapshot
    }

    /// Consumes the input and returns its components.
    pub fn into_parts(self) -> (r: (IndexId, IndexDefinition, IndexVersionId, BuildSnapshot))
        ensures
            r.0@ == self@.index_id,
            r.1@ == self@.definition,
            r.2@ == self@.candidate_version_id,
            r.3@ == self@.snapshot,
    {
        (self.index_id, self.definition, self.candidate_version_id, self.snapshot)
    }
}

/// Value of a [`BuildCandidate`].
pub struct CandidateView {
    pub index_id: Seq<u8>,
    pub definition: IndexDefinitionView,
    pub version: VersionView,
    pub entries: Seq<EntryView>,
}

/// An unpublished logical candidate: index identity, definition, version
/// metadata and populated entries. It holds no lifecycle state and no
/// publication authority.
#[derive(Debug, Eq)]
pub struct BuildCandidate {
    index_id: IndexId,
    definition: IndexDefinition,
    version: IndexVersion,
    entries: Vec<IndexEntry>,
}

impl View for BuildCandidate {
    type V = CandidateView;

    closed spec fn view(&self) -> CandidateView {
        CandidateView {
            index_id: self.index_id@,
            definition: self.definition@,
            version: self.version@,
            entries: entry_views(self.entries@),
        }
    }
}

impl Clone for BuildCandidate {
    fn clone(&self) -> (r: Self)
        ensures
            r@ == self@,
    {
        BuildCandidate {
            index_id: self.index_id,
            definition: self.definition.clone(),
            version: self.version.clone(),
            entries: copy_entries(self.entries.as_slice()),
        }
    }
}

impl PartialEq for BuildCandidate {
    fn eq(&self, other: &Self) -> (r: bool) {
        self.index_id == other.index_id && self.definition == other.definition && self.version == other.version
            && entries_eq(self.entries.as_slice(), other.entries.as_slice())
    }
}

impl PartialEqSpecImpl for BuildCandidate {
    open spec fn obeys_eq_spec() -> bool {
        true
    }

    open spec fn eq_spec(&self, other: &Self) -> bool {
        self@ == other@
    }
}

impl BuildCandidate {
    /// Returns the index identity.
    pub fn index_id(&self) -> (r: &IndexId)
        ensures
            r@ == self@.index_id,
    {
        &self.index_id
    }

    /// Returns the governing definition.
    pub fn definition(&self) -> (r: &IndexDefinition)
        ensures
            r@ == self@.definition,
    {
        &self.definition
    }

    /// Returns the candidate's version metadata.
    pub fn version(&self) -> (r: &IndexVersion)
        ensures
            r@ == self@.version,
    {
        &self.version
    }

    /// Returns the populated entries.
    pub fn entries(&self) -> (r: &[IndexEntry])
        ensures
            entry_views(r@) == self@.entries,
    {
        self.entries.as_slice()
    }

    /// Returns the number of entries.
    pub fn len(&self) -> (n: usize)
        ensures
            n == self@.entries.len(),
    {
        self.entries.len()
    }

    /// Returns whether the candidate holds no entries.
    pub fn is_empty(&self) -> (r: bool)
        ensures
            r == (self@.entries.len() == 0),
    {
        self.entries.len() == 0
    }

    /// Consumes the candidate and returns its components.
    pub fn into_parts(self) -> (r: (IndexId, IndexDefinition, IndexVersion, Vec<IndexEntry>))
        ensures
            r.0@ == self@.index_id,
            r.1@ == self@.definition,
            r.2@ == self@.version,
            entry_views(r.3@) == self@.entries,
    {
        (self.index_id, self.definition, self.version, self.entries)
    }

    /// Assembles a candidate from its components without validating it;
    /// validation stays explicit ([`IndexBuilder::validate`]).
    pub fn from_parts(index_id: IndexId, definition: IndexDefinition, version: IndexVersion, entries: Vec<IndexEntry>) -> (r:
        Self)
        ensures
            r@ == (CandidateView {
                index_id: index_id@,
                definition: definition@,
                version: version@,
                entries: entry_views(entries@),
            }),
    {
        BuildCandidate { index_id, definition, version, entries }
    }
}

/// Failures of candidate construction and validation.
#[derive(Debug, Eq)]
pub enum BuildError {
    /// The entry at this position is invalid.
    InvalidEntry { position: usize, error: IndexEntryValidationError },
    /// The candidate version metadata could not be constructed.
    InvalidVersion(IndexVersionValidationError),
    /// The candidate is incompatible with its definition.
    Versioning(VersioningError),
}

/// Value of a [`BuildError`].
pub enum BuildFault {
    InvalidEntry { position: usize, error: KeyFault },
    InvalidVersion(KeyFault),
    Versioning(VersioningFault),
}

impl View for BuildError {
    type V = BuildFault;

    open spec fn view(&self) -> BuildFault {
        match self {
            BuildError::InvalidEntry { position, error } => BuildFault::InvalidEntry { position: *position, error: error@ },
            BuildError::InvalidVersion(e) => BuildFault::InvalidVersion(e@),
            BuildError::Versioning(e) => BuildFault::Versioning(e@),
        }
    }
}

impl Clone for BuildError {
    fn clone(&self) -> (r: Self)
        ensures
            r@ == self@,
    {
        match self {
            BuildError::InvalidEntry { position, error } => BuildError::InvalidEntry { position: *position, error: error.clone() },
            BuildError::InvalidVersion(e) => BuildError::InvalidVersion(e.clone()),
            BuildError::Versioning(e) => BuildError::Versioning(e.clone()),
        }
    }
}

impl PartialEq for BuildError {
    fn eq(&self, other: &Self) -> (r: bool) {
        match (self, other) {
            (
                BuildError::InvalidEntry { position: p1, error: e1 },
                BuildError::InvalidEntry { position: p2, error: e2 },
            ) => *p1 == *p2 && *e1 == *e2,
            (BuildError::InvalidVersion(a), BuildError::InvalidVersion(b)) => *a == *b,
            (BuildError::Versioning(a), BuildError::Versioning(b)) => *a == *b,
            _ => false,
        }
    }
}

impl PartialEqSpecImpl for BuildError {
    open spec fn obeys_eq_spec() -> bool {
        true
    }

    open spec fn eq_spec(&self, other: &Self) -> bool {
        self@ == other@
    }
}

/// Outcome of validating entries from position `i` on: the first invalid
/// key, if any, with its position.
pub open spec fn entries_check_from(es: Seq<EntryView>, i: int) -> Result<(), BuildFault>
    decreases es.len() - i,
{
    if i < 0 || i >= es.len() {
        Ok(())
    } else {
        match key_check(es[i].key) {
            Err(e) => Err(BuildFault::InvalidEntry { position: i as usize, error: e }),
            Ok(()) => entries_check_from(es, i + 1),
        }
    }
}

/// Every entry's key material validates.
pub open spec fn entries_valid(es: Seq<EntryView>) -> bool {
    forall|i: int| 0 <= i < es.len() ==> (#[trigger] key_check(es[i].key)) is Ok
}

/// Entry validation fails exactly when some entry's key is invalid.
pub proof fn lemma_entries_check(es: Seq<EntryView>, i: int)
    requires
        0 <= i <= es.len(),
    ensures
        entries_check_from(es, i) is Ok <==> forall|j: int| i <= j < es.len() ==> (#[trigger] key_check(es[j].key)) is Ok,
    decreases es.len() - i,
{
    if i < es.len() {
        lemma_entries_check(es, i + 1);
    }
}

/// Outcome of validating a candidate: compatibility of its version with its
/// definition, then each entry in order.
pub open spec fn candidate_check(c: CandidateView) -> Result<(), BuildFault> {
    match candidate_compatibility(c.version, c.definition) {
        Err(e) => Err(BuildFault::Versioning(e)),
        Ok(()) => entries_check_from(c.entries, 0),
    }
}

/// The candidate that construction from `input` describes: the snapshot's
/// source and schema versions on a version with the requested identity and
/// no metadata, and the snapshot's entries in order.
pub open spec fn built_candidate(input: BuildInputView) -> CandidateView {
    CandidateView {
        index_id: input.index_id,
        definition: input.definition,
        version: VersionView {
            id: input.candidate_version_id,
            source_version: input.snapshot.source_version,
            schema_version: input.snapshot.schema_version,
            metadata: None,
        },
        entries: input.snapshot.entries,
    }
}

/// Stateless orchestrator of candidate construction.
#[derive(Clone, Copy, Debug, PartialEq, Eq, Structural)]
pub struct IndexBuilder;

impl Default for IndexBuilder {
    fn default() -> (r: Self) {
        IndexBuilder
    }
}

impl IndexBuilder {
    /// Creates a builder.
    pub fn new() -> (r: Self) {
        IndexBuilder
    }

    /// Constructs and validates an unpublished candidate from `input`; it
    /// neither publishes it nor changes an active version.
    pub fn build(&self, input: BuildInput) -> (r: Result<BuildCandidate, BuildError>)
        ensures
            r is Ok <==> candidate_check(built_candidate(input@)) is Ok,
            r matches Ok(c) ==> c@ == built_candidate(input@),
            r matches Err(e) ==> candidate_check(built_candidate(input@)) == Err::<(), BuildFault>(e@),
    {
        let (index_id, definition, candidate_version_id, snapshot) = input.into_parts();
        let (source_version, schema_version, entries) = snapshot.into_parts();
        let version = match IndexVersion::with_metadata(candidate_version_id, source_version, schema_version, None) {
            Err(e) => {
                return Err(BuildError::InvalidVersion(e));
            },
            Ok(v) => v,
        };
        let candidate = BuildCandidate::from_parts(index_id, definition, version, entries);
        match Self::validate(&candidate) {
            Err(e) => Err(e),
            Ok(()) => Ok(candidate),
        }
    }

    /// Validates a candidate without changing or publishing it: its version
    /// against its definition, then each entry in order.
    pub fn validate(candidate: &BuildCandidate) -> (r: Result<(), BuildError>)
        ensures
            r is Ok <==> candidate_check(candidate@) is Ok,
            r matches Err(e) ==> candidate_check(candidate@) == Err::<(), BuildFault>(e@),
    {
        match validate_candidate_compatibility(&candidate.version, &candidate.definition) {
            Err(e) => {
                return Err(BuildError::Versioning(e));
            },
            Ok(()) => {},
        }
        let ghost es = candidate@.entries;
        let mut i: usize = 0;
        while i < candidate.entries.len()
            invariant
                0 <= i <= candidate.entries@.len(),
                es == entry_views(candidate.entries@),
                es == candidate@.entries,
                candidate_compatibility(candidate@.version, candidate@.definition) is Ok,
                entries_check_from(es, 0) == entries_check_from(es, i as int),
            decreases candidate.entries@.len() - i,
        {
            assert(es[i as int] == candidate.entries@[i as int]@);
            match candidate.entries[i].validate() {
                Err(e) => {
                    return Err(BuildError::InvalidEntry { position: i, error: e });
                },
                Ok(()) => {},
            }
            i = i + 1;
        }
        Ok(())
    }
}

/// Message of a construction or validation failure.
pub open spec fn build_error_message(e: BuildFault) -> Seq<char> {
    match e {
        BuildFault::InvalidEntry { position, error } => "invalid candidate entry at position "@ + decimal_text(position as nat) + ": "@ + crate::index::entry::entry_error_message(error),
        BuildFault::InvalidVersion(f) => "invalid candidate index version: "@ + crate::index::version::index_version_error_message(f),
        BuildFault::Versioning(f) => "candidate versioning validation failed: "@ + crate::consistency::versioning::versioning_error_message(f),
    }
}

impl BuildError {
    /// Returns the failure message.
    pub fn to_string(&self) -> (s: String)
        ensures
            s@ == build_error_message(self@),
    {
        let mut s = String::new();
        match self {
            BuildError::InvalidEntry { position, error } => {
                push_text(&mut s, "invalid candidate entry at position ");
                push_decimal(&mut s, *position as u128);
                push_text(&mut s, ": ");
                let nested = error.to_string();
                push_text(&mut s, nested.as_str());
            },
            BuildError::InvalidVersion(f) => {
                push_text(&mut s, "invalid candidate index version: ");
                let nested = f.to_string();
                push_text(&mut s, nested.as_str());
            },
            BuildError::Versioning(f) => {
                push_text(&mut s, "candidate versioning validation failed: ");
                let nested = f.to_string();
                push_text(&mut s, nested.as_str());
            },
        }
        assert(s@ =~= build_error_message(self@));
        s
    }
}

/// Error code of a construction failure.
pub open spec fn build_error_code(e: BuildFault) -> Seq<char> {
    match e {
        BuildFault::InvalidEntry { .. } => "INDEXING.BUILD.001"@,
        BuildFault::InvalidVersion(_) => "INDEXING.BUILD.002"@,
        BuildFault::Versioning(_) => "INDEXING.BUILD.003"@,
    }
}

/// Diagnostic details of a construction failure: the position of a rejected
/// entry.
pub open spec fn build_error_details(e: BuildFault) -> Seq<(Seq<char>, Seq<char>)> {
    match e {
        BuildFault::InvalidEntry { position, .. } => seq![("entry_position"@, decimal_text(position as nat))],
        _ => Seq::empty(),
    }
}

/// The error report of a construction failure; every construction failure
/// is a validation failure.
pub open spec fn build_core_parts(e: BuildFault) -> CorePartsView {
    core_parts(build_error_code(e), CoreErrorClass::Validation, build_error_message(e), build_error_details(e))
}

impl BuildError {
    /// The error report of this failure: its code, class, message and
    /// diagnostic details.
    pub fn core_error_parts(&self) -> (r: CoreErrorParts)
        ensures
            r@ == build_core_parts(self@),
    {
        let message = self.to_string();
        let (code, details): (&str, Vec<(String, String)>) = match self {
            BuildError::InvalidEntry { position, .. } => (
                "INDEXING.BUILD.001",
                vec![detail("entry_position", decimal_string(*position as u128))],
            ),
            BuildError::InvalidVersion(_) => ("INDEXING.BUILD.002", Vec::new()),
            BuildError::Versioning(_) => ("INDEXING.BUILD.003", Vec::new()),
        };
        assert(code@ == build_error_code(self@));
        assert(detail_views(details@) =~= build_error_details(self@));
        core_error_parts_of(code, CoreErrorClass::Validation, message, details)
    }
}

} // verus!
