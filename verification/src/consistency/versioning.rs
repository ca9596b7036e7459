//! Version-level consistency rules: how a candidate [`IndexVersion`] relates
//! to the source and schema versions its [`IndexDefinition`] declares, and
//! to the active version it was derived from. Version values are compared
//! only for exact equality; nothing here interprets them.

use crate::index::definition::{
    index_definition_check, DefinitionValidationFault, IndexDefinition,
    IndexDefinitionValidationError, IndexDefinitionView,
};
use crate::index::key::{option_check, KeyFault};
use crate::index::version::{
    copy_version_id, view_option, IndexVersion, IndexVersionId, IndexVersionValidationError,
    SchemaVersion, SourceVersion, VersionView,
};
use vstd::prelude::*;
use crate::message::push_text;
use crate::diagnostic::{core_error_parts_of, core_parts, detail, detail_views, CoreErrorClass, CoreErrorParts, CorePartsView};
use vstd::std_specs::cmp::PartialEqSpecImpl;

verus! {

/// Failures of the version-consistency checks.
#[derive(Debug, Eq)]
pub enum VersioningError {
    /// The candidate carries no source version, but the definition requires
    /// one.
    MissingCandidateSourceVersion { candidate: IndexVersionId, expected: SourceVersion },
    /// The candidate's source version differs from the required one.
    SourceVersionMismatch { candidate: IndexVersionId, expected: SourceVersion, actual: SourceVersion },
    /// The candidate carries no schema version, but the definition requires
    /// one.
    MissingCandidateSchemaVersion { candidate: IndexVersionId, expected: SchemaVersion },
    /// The candidate's schema version differs from the required one.
    SchemaVersionMismatch { candidate: IndexVersionId, expected: SchemaVersion, actual: SchemaVersion },
    /// The version the candidate was derived from is not the active one
    /// (`None` on either side counts: an initial candidate is current only
    /// while nothing is active).
    StaleCandidate {
        candidate: IndexVersionId,
        base_version: Option<IndexVersionId>,
        active_version: Option<IndexVersionId>,
    },
    /// The candidate already is the active version.
    AlreadyActive { candidate: IndexVersionId },
    /// The candidate's metadata is invalid.
    InvalidCandidate(IndexVersionValidationError),
    /// The definition is invalid.
    InvalidDefinition(IndexDefinitionValidationError),
}

/// Value of a [`VersioningError`].
pub enum VersioningFault {
    MissingCandidateSourceVersion { candidate: Seq<char>, expected: Seq<char> },
    SourceVersionMismatch { candidate: Seq<char>, expected: Seq<char>, actual: Seq<char> },
    MissingCandidateSchemaVersion { candidate: Seq<char>, expected: Seq<char> },
    SchemaVersionMismatch { candidate: Seq<char>, expected: Seq<char>, actual: Seq<char> },
    StaleCandidate { candidate: Seq<char>, base_version: Option<Seq<char>>, active_version: Option<Seq<char>> },
    AlreadyActive { candidate: Seq<char> },
    InvalidCandidate(KeyFault),
    InvalidDefinition(DefinitionValidationFault),
}

impl View for VersioningError {
    type V = VersioningFault;

    open spec fn view(&self) -> VersioningFault {
        match self {
            VersioningError::MissingCandidateSourceVersion { candidate, expected } => {
                VersioningFault::MissingCandidateSourceVersion { candidate: candidate@, expected: expected@ }
            },
            VersioningError::SourceVersionMismatch { candidate, expected, actual } => {
                VersioningFault::SourceVersionMismatch { candidate: candidate@, expected: expected@, actual: actual@ }
            },
            VersioningError::MissingCandidateSchemaVersion { candidate, expected } => {
                VersioningFault::MissingCandidateSchemaVersion { candidate: candidate@, expected: expected@ }
            },
            VersioningError::SchemaVersionMismatch { candidate, expected, actual } => {
                VersioningFault::SchemaVersionMismatch { candidate: candidate@, expected: expected@, actual: actual@ }
            },
            VersioningError::StaleCandidate { candidate, base_version, active_version } => {
                VersioningFault::StaleCandidate {
                    candidate: candidate@,
                    base_version: view_option(*base_version),
                    active_version: view_option(*active_version),
                }
            },
            VersioningError::AlreadyActive { candidate } => VersioningFault::AlreadyActive { candidate: candidate@ },
            VersioningError::InvalidCandidate(e) => VersioningFault::InvalidCandidate(e@),
            VersioningError::InvalidDefinition(e) => VersioningFault::InvalidDefinition(e@),
        }
    }
}

impl Clone for VersioningError {
    fn clone(&self) -> (r: Self)
        ensures
            r@ == self@,
    {
        match self {
            VersioningError::MissingCandidateSourceVersion { candidate, expected } => {
                VersioningError::MissingCandidateSourceVersion { candidate: candidate.clone(), expected: expected.clone() }
            },
            VersioningError::SourceVersionMismatch { candidate, expected, actual } => {
                VersioningError::SourceVersionMismatch {
                    candidate: candidate.clone(),
                    expected: expected.clone(),
                    actual: actual.clone(),
                }
            },
            VersioningError::MissingCandidateSchemaVersion { candidate, expected } => {
                VersioningError::MissingCandidateSchemaVersion { candidate: candidate.clone(), expected: expected.clone() }
            },
            VersioningError::SchemaVersionMismatch { candidate, expected, actual } => {
                VersioningError::SchemaVersionMismatch {
                    candidate: candidate.clone(),
                    expected: expected.clone(),
                    actual: actual.clone(),
                }
            },
            VersioningError::StaleCandidate { candidate, base_version, active_version } => {
                VersioningError::StaleCandidate {
                    candidate: candidate.clone(),
                    base_version: copy_version_id(base_version),
                    active_version: copy_version_id(active_version),
                }
            },
            VersioningError::AlreadyActive { candidate } => VersioningError::AlreadyActive { candidate: candidate.clone() },
            VersioningError::InvalidCandidate(e) => VersioningError::InvalidCandidate(e.clone()),
            VersioningError::InvalidDefinition(e) => VersioningError::InvalidDefinition(e.clone()),
        }
    }
}

impl PartialEq for VersioningError {
    fn eq(&self, other: &Self) -> (r: bool) {
        match (self, other) {
            (
                VersioningError::MissingCandidateSourceVersion { candidate: c1, expected: e1 },
                VersioningError::MissingCandidateSourceVersion { candidate: c2, expected: e2 },
            ) => *c1 == *c2 && *e1 == *e2,
            (
                VersioningError::SourceVersionMismatch { candidate: c1, expected: e1, actual: a1 },
                VersioningError::SourceVersionMismatch { candidate: c2, expected: e2, actual: a2 },
            ) => *c1 == *c2 && *e1 == *e2 && *a1 == *a2,
            (
                VersioningError::MissingCandidateSchemaVersion { candidate: c1, expected: e1 },
                VersioningError::MissingCandidateSchemaVersion { candidate: c2, expected: e2 },
            ) => *c1 == *c2 && *e1 == *e2,
            (
                VersioningError::SchemaVersionMismatch { candidate: c1, expected: e1, actual: a1 },
                VersioningError::SchemaVersionMismatch { candidate: c2, expected: e2, actual: a2 },
            ) => *c1 == *c2 && *e1 == *e2 && *a1 == *a2,
            (
                VersioningError::StaleCandidate { candidate: c1, base_version: b1, active_version: a1 },
                VersioningError::StaleCandidate { candidate: c2, base_version: b2, active_version: a2 },
            ) => *c1 == *c2 && crate::index::version::version_id_option_eq(b1, b2)
                && crate::index::version::version_id_option_eq(a1, a2),
            (VersioningError::AlreadyActive { candidate: c1 }, VersioningError::AlreadyActive { candidate: c2 }) => *c1
                == *c2,
            (VersioningError::InvalidCandidate(a), VersioningError::InvalidCandidate(b)) => *a == *b,
            (VersioningError::InvalidDefinition(a), VersioningError::InvalidDefinition(b)) => *a == *b,
            _ => false,
        }
    }
}

impl PartialEqSpecImpl for VersioningError {
    open spec fn obeys_eq_spec() -> bool {
        true
    }

    open spec fn eq_spec(&self, other: &Self) -> bool {
        self@ == other@
    }
}

/// Outcome of checking a candidate against a required source version: the
/// candidate's metadata must validate, and where a source version is
/// required the candidate must carry exactly that one.
pub open spec fn source_compatibility(c: VersionView, expected: Option<Seq<char>>) -> Result<(), VersioningFault> {
    match option_check(c.metadata) {
        Err(e) => Err(VersioningFault::InvalidCandidate(e)),
        Ok(()) => match expected {
            None => Ok(()),
            Some(x) => match c.source_version {
                None => Err(VersioningFault::MissingCandidateSourceVersion { candidate: c.id, expected: x }),
                Some(a) => if a == x {
                    Ok(())
                } else {
                    Err(VersioningFault::SourceVersionMismatch { candidate: c.id, expected: x, actual: a })
                },
            },
        },
    }
}

/// Outcome of checking a candidate against a required schema version, in the
/// same way as [`source_compatibility`].
pub open spec fn schema_compatibility(c: VersionView, expected: Option<Seq<char>>) -> Result<(), VersioningFault> {
    match option_check(c.metadata) {
        Err(e) => Err(VersioningFault::InvalidCandidate(e)),
        Ok(()) => match expected {
            None => Ok(()),
            Some(x) => match c.schema_version {
                None => Err(VersioningFault::MissingCandidateSchemaVersion { candidate: c.id, expected: x }),
                Some(a) => if a == x {
                    Ok(())
                } else {
                    Err(VersioningFault::SchemaVersionMismatch { candidate: c.id, expected: x, actual: a })
                },
            },
        },
    }
}

/// Outcome of checking a candidate against everything a definition
/// requires: the definition must validate, then the source version, then
/// the schema version must match.
pub open spec fn candidate_compatibility(c: VersionView, d: IndexDefinitionView) -> Result<(), VersioningFault> {
    match index_definition_check(d.key_definition, d.lifecycle_metadata) {
        Err(e) => Err(VersioningFault::InvalidDefinition(e)),
        Ok(()) => match source_compatibility(c, d.source_version) {
            Err(e) => Err(e),
            Ok(()) => schema_compatibility(c, d.schema_version),
        },
    }
}

/// A candidate is stale when the version it was derived from differs from
/// the active version, absence included.
pub open spec fn stale(base: Option<Seq<char>>, active: Option<Seq<char>>) -> bool {
    base != active
}

/// Outcome of checking a candidate's lineage: its metadata must validate
/// and it must not be stale.
pub open spec fn lineage_check(c: VersionView, base: Option<Seq<char>>, active: Option<Seq<char>>) -> Result<
    (),
    VersioningFault,
> {
    match option_check(c.metadata) {
        Err(e) => Err(VersioningFault::InvalidCandidate(e)),
        Ok(()) => if stale(base, active) {
            Err(VersioningFault::StaleCandidate { candidate: c.id, base_version: base, active_version: active })
        } else {
            Ok(())
        },
    }
}

/// Outcome of checking a candidate against the active version: its lineage
/// must be current and it must not already be the active version.
pub open spec fn active_compatibility(c: VersionView, base: Option<Seq<char>>, active: Option<Seq<char>>) -> Result<
    (),
    VersioningFault,
> {
    match lineage_check(c, base, active) {
        Err(e) => Err(e),
        Ok(()) => if active == Some(c.id) {
            Err(VersioningFault::AlreadyActive { candidate: c.id })
        } else {
            Ok(())
        },
    }
}

/// Outcome of every version-level check that publication needs: definition
/// compatibility first, then the active-version checks.
pub open spec fn publication_eligibility(
    c: VersionView,
    d: IndexDefinitionView,
    base: Option<Seq<char>>,
    active: Option<Seq<char>>,
) -> Result<(), VersioningFault> {
    match candidate_compatibility(c, d) {
        Err(e) => Err(e),
        Ok(()) => active_compatibility(c, base, active),
    }
}

/// Checks a candidate against a required source version. The comparison is
/// exact equality; no version is taken to be newer than another.
pub fn validate_candidate_source_compatibility(
    candidate: &IndexVersion,
    expected_source_version: Option<&SourceVersion>,
) -> (r: Result<(), VersioningError>)
    ensures
        r is Ok <==> source_compatibility(candidate@, view_option(expected_source_version)) is Ok,
        r matches Err(e) ==> source_compatibility(candidate@, view_option(expected_source_version)) == Err::<
            (),
            VersioningFault,
        >(e@),
{
    match candidate.validate() {
        Err(e) => {
            return Err(VersioningError::InvalidCandidate(e));
        },
        Ok(()) => {},
    }
    match expected_source_version {
        None => Ok(()),
        Some(expected) => match candidate.source_version() {
            None => Err(
                VersioningError::MissingCandidateSourceVersion {
                    candidate: candidate.id().clone(),
                    expected: expected.clone(),
                },
            ),
            Some(actual) => {
                if *actual == *expected {
                    Ok(())
                } else {
                    Err(
                        VersioningError::SourceVersionMismatch {
                            candidate: candidate.id().clone(),
                            expected: expected.clone(),
                            actual: actual.clone(),
                        },
                    )
                }
            },
        },
    }
}

/// Checks a candidate against a required schema version. The comparison is
/// exact equality.
pub fn validate_candidate_schema_compatibility(
    candidate: &IndexVersion,
    expected_schema_version: Option<&SchemaVersion>,
) -> (r: Result<(), VersioningError>)
    ensures
        r is Ok <==> schema_compatibility(candidate@, view_option(expected_schema_version)) is Ok,
        r matches Err(e) ==> schema_compatibility(candidate@, view_option(expected_schema_version)) == Err::<
            (),
            VersioningFault,
        >(e@),
{
    match candidate.validate() {
        Err(e) => {
            return Err(VersioningError::InvalidCandidate(e));
        },
        Ok(()) => {},
    }
    match expected_schema_version {
        None => Ok(()),
        Some(expected) => match candidate.schema_version() {
            None => Err(
                VersioningError::MissingCandidateSchemaVersion {
                    candidate: candidate.id().clone(),
                    expected: expected.clone(),
                },
            ),
            Some(actual) => {
                if *actual == *expected {
                    Ok(())
                } else {
                    Err(
                        VersioningError::SchemaVersionMismatch {
                            candidate: candidate.id().clone(),
                            expected: expected.clone(),
                            actual: actual.clone(),
                        },
                    )
                }
            },
        },
    }
}

/// Checks all the version metadata a definition places on a candidate.
pub fn validate_candidate_compatibility(candidate: &IndexVersion, definition: &IndexDefinition) -> (r: Result<
    (),
    VersioningError,
>)
    ensures
        r is Ok <==> candidate_compatibility(candidate@, definition@) is Ok,
        r matches Err(e) ==> candidate_compatibility(candidate@, definition@) == Err::<(), VersioningFault>(e@),
{
    match definition.validate() {
        Err(e) => {
            return Err(VersioningError::InvalidDefinition(e));
        },
        Ok(()) => {},
    }
    match validate_candidate_source_compatibility(candidate, definition.source_version()) {
        Err(e) => {
            return Err(e);
        },
        Ok(()) => {},
    }
    validate_candidate_schema_compatibility(candidate, definition.schema_version())
}

/// Whether a candidate derived from `base_version` is stale while
/// `active_version` is active: exactly when the two differ.
pub fn is_candidate_stale(base_version: Option<&IndexVersionId>, active_version: Option<&IndexVersionId>) -> (r: bool)
    ensures
        r == stale(view_option(base_version), view_option(active_version)),
{
    match (base_version, active_version) {
        (None, None) => false,
        (Some(b), Some(a)) => !(*b == *a),
        _ => true,
    }
}

/// Checks that a candidate is still derived from the active version.
pub fn validate_candidate_lineage(
    candidate: &IndexVersion,
    base_version: Option<&IndexVersionId>,
    active_version: Option<&IndexVersionId>,
) -> (r: Result<(), VersioningError>)
    ensures
        r is Ok <==> lineage_check(candidate@, view_option(base_version), view_option(active_version)) is Ok,
        r matches Err(e) ==> lineage_check(candidate@, view_option(base_version), view_option(active_version))
            == Err::<(), VersioningFault>(e@),
{
    match candidate.validate() {
        Err(e) => {
            return Err(VersioningError::InvalidCandidate(e));
        },
        Ok(()) => {},
    }
    if is_candidate_stale(base_version, active_version) {
        let base = match base_version {
            Some(b) => Some(b.clone()),
            None => None,
        };
        let active = match active_version {
            Some(a) => Some(a.clone()),
            None => None,
        };
        return Err(
            VersioningError::StaleCandidate { candidate: candidate.id().clone(), base_version: base, active_version: active },
        );
    }
    Ok(())
}

/// Checks a candidate against the active version: current lineage, and not
/// already active.
pub fn validate_active_version_compatibility(
    candidate: &IndexVersion,
    base_version: Option<&IndexVersionId>,
    active_version: Option<&IndexVersionId>,
) -> (r: Result<(), VersioningError>)
    ensures
        r is Ok <==> active_compatibility(candidate@, view_option(base_version), view_option(active_version)) is Ok,
        r matches Err(e) ==> active_compatibility(candidate@, view_option(base_version), view_option(active_version))
            == Err::<(), VersioningFault>(e@),
{
    match validate_candidate_lineage(candidate, base_version, active_version) {
        Err(e) => {
            return Err(e);
        },
        Ok(()) => {},
    }
    match active_version {
        Some(a) => {
            if *a == *candidate.id() {
                return Err(VersioningError::AlreadyActive { candidate: candidate.id().clone() });
            }
        },
        None => {},
    }
    Ok(())
}

/// Performs every version-level check that must pass before a candidate may
/// be published. It does not look at the candidate's lifecycle state.
pub fn validate_publication_eligibility(
    candidate: &IndexVersion,
    definition: &IndexDefinition,
    base_version: Option<&IndexVersionId>,
    active_version: Option<&IndexVersionId>,
) -> (r: Result<(), VersioningError>)
    ensures
        r is Ok <==> publication_eligibility(
            candidate@,
            definition@,
            view_option(base_version),
            view_option(active_version),
        ) is Ok,
        r matches Err(e) ==> publication_eligibility(
            candidate@,
            definition@,
            view_option(base_version),
            view_option(active_version),
        ) == Err::<(), VersioningFault>(e@),
{
    match validate_candidate_compatibility(candidate, definition) {
        Err(e) => {
            return Err(e);
        },
        Ok(()) => {},
    }
    validate_active_version_compatibility(candidate, base_version, active_version)
}

/// A publication-eligible candidate carries every source and schema version
/// its definition requires, was derived from the active version, and is not
/// itself the active version; a stale candidate is never eligible, whatever
/// its metadata.
pub proof fn law_eligible_candidates_are_current(
    c: VersionView,
    d: IndexDefinitionView,
    base: Option<Seq<char>>,
    active: Option<Seq<char>>,
)
    ensures
        publication_eligibility(c, d, base, active) is Ok ==> {
            &&& d.source_version is Some ==> c.source_version == d.source_version
            &&& d.schema_version is Some ==> c.schema_version == d.schema_version
            &&& base == active
            &&& active != Some(c.id)
        },
        stale(base, active) ==> publication_eligibility(c, d, base, active) is Err,
{
}

/// Debug rendering of an optional version identifier.
pub open spec fn optional_version_debug(v: Option<Seq<char>>) -> Seq<char> {
    match v {
        None => "None"@,
        Some(id) => "Some("@ + crate::index::version::version_id_debug(id) + ")"@,
    }
}

/// Appends the debug rendering of an optional version identifier to `s`.
pub fn push_optional_version_debug(s: &mut String, v: &Option<IndexVersionId>)
    ensures
        final(s)@ == old(s)@ + optional_version_debug(view_option(*v)),
{
    match v {
        None => {
            push_text(s, "None");
        },
        Some(id) => {
            push_text(s, "Some(");
            let t = id.debug_text();
            push_text(s, t.as_str());
            push_text(s, ")");
        },
    }
    assert(final(s)@ =~= old(s)@ + optional_version_debug(view_option(*v)));
}

/// Message of a version-consistency failure.
pub open spec fn versioning_error_message(e: VersioningFault) -> Seq<char> {
    match e {
        VersioningFault::MissingCandidateSourceVersion { candidate, expected } => "candidate "@ + candidate + " is missing required source version "@ + expected,
        VersioningFault::SourceVersionMismatch { candidate, expected, actual } => "candidate "@ + candidate + " has source version "@ + actual + ", expected "@ + expected,
        VersioningFault::MissingCandidateSchemaVersion { candidate, expected } => "candidate "@ + candidate + " is missing required schema version "@ + expected,
        VersioningFault::SchemaVersionMismatch { candidate, expected, actual } => "candidate "@ + candidate + " has schema version "@ + actual + ", expected "@ + expected,
        VersioningFault::StaleCandidate { candidate, base_version, active_version } => "candidate "@ + candidate + " is stale: base version "@ + optional_version_debug(base_version) + " does not match active version "@ + optional_version_debug(active_version),
        VersioningFault::AlreadyActive { candidate } => "candidate "@ + candidate + " is already the active version"@,
        VersioningFault::InvalidCandidate(f) => "invalid candidate index version: "@ + crate::index::version::index_version_error_message(f),
        VersioningFault::InvalidDefinition(f) => "invalid index definition: "@ + crate::index::definition::definition_error_message(f),
    }
}

impl VersioningError {
    /// Returns the failure message.
    pub fn to_string(&self) -> (s: String)
        ensures
            s@ == versioning_error_message(self@),
    {
        let mut s = String::new();
        match self {
            VersioningError::MissingCandidateSourceVersion { candidate, expected } => {
                push_text(&mut s, "candidate ");
                push_text(&mut s, candidate.as_str());
                push_text(&mut s, " is missing required source version ");
                push_text(&mut s, expected.as_str());
            },
            VersioningError::SourceVersionMismatch { candidate, expected, actual } => {
                push_text(&mut s, "candidate ");
                push_text(&mut s, candidate.as_str());
                push_text(&mut s, " has source version ");
                push_text(&mut s, actual.as_str());
                push_text(&mut s, ", expected ");
                push_text(&mut s, expected.as_str());
            },
            VersioningError::MissingCandidateSchemaVersion { candidate, expected } => {
                push_text(&mut s, "candidate ");
                push_text(&mut s, candidate.as_str());
                push_text(&mut s, " is missing required schema version ");
                push_text(&mut s, expected.as_str());
            },
            VersioningError::SchemaVersionMismatch { candidate, expected, actual } => {
                push_text(&mut s, "candidate ");
                push_text(&mut s, candidate.as_str());
                push_text(&mut s, " has schema version ");
                push_text(&mut s, actual.as_str());
                push_text(&mut s, ", expected ");
                push_text(&mut s, expected.as_str());
            },
            VersioningError::StaleCandidate { candidate, base_version, active_version } => {
                push_text(&mut s, "candidate ");
                push_text(&mut s, candidate.as_str());
                push_text(&mut s, " is stale: base version ");
                push_optional_version_debug(&mut s, base_version);
                push_text(&mut s, " does not match active version ");
                push_optional_version_debug(&mut s, active_version);
            },
            VersioningError::AlreadyActive { candidate } => {
                push_text(&mut s, "candidate ");
                push_text(&mut s, candidate.as_str());
                push_text(&mut s, " is already the active version");
            },
            VersioningError::InvalidCandidate(f) => {
                push_text(&mut s, "invalid candidate index version: ");
                let nested = f.to_string();
                push_text(&mut s, nested.as_str());
            },
            VersioningError::InvalidDefinition(f) => {
                push_text(&mut s, "invalid index definition: ");
                let nested = f.to_string();
                push_text(&mut s, nested.as_str());
            },
        }
        assert(s@ =~= versioning_error_message(self@));
        s
    }
}

/// Error code of a version-consistency failure.
pub open spec fn versioning_error_code(e: VersioningFault) -> Seq<char> {
    match e {
        VersioningFault::MissingCandidateSourceVersion { .. } => "INDEXING.VERSIONING.001"@,
        VersioningFault::SourceVersionMismatch { .. } => "INDEXING.VERSIONING.002"@,
        VersioningFault::MissingCandidateSchemaVersion { .. } => "INDEXING.VERSIONING.003"@,
        VersioningFault::SchemaVersionMismatch { .. } => "INDEXING.VERSIONING.004"@,
        VersioningFault::StaleCandidate { .. } => "INDEXING.VERSIONING.005"@,
        VersioningFault::AlreadyActive { .. } => "INDEXING.VERSIONING.006"@,
        VersioningFault::InvalidCandidate(_) => "INDEXING.VERSIONING.007"@,
        VersioningFault::InvalidDefinition(_) => "INDEXING.VERSIONING.008"@,
    }
}

/// Class of a version-consistency failure: invalid metadata is a validation
/// failure, every other a broken contract.
pub open spec fn versioning_error_class(e: VersioningFault) -> CoreErrorClass {
    match e {
        VersioningFault::InvalidCandidate(_) | VersioningFault::InvalidDefinition(_) => CoreErrorClass::Validation,
        _ => CoreErrorClass::Contract,
    }
}

/// Diagnostic details of a version-consistency failure.
pub open spec fn versioning_error_details(e: VersioningFault) -> Seq<(Seq<char>, Seq<char>)> {
    match e {
        VersioningFault::MissingCandidateSourceVersion { candidate, expected } => seq![
            ("candidate_version"@, candidate),
            ("expected_source_version"@, expected),
        ],
        VersioningFault::SourceVersionMismatch { candidate, expected, actual } => seq![
            ("candidate_version"@, candidate),
            ("expected_source_version"@, expected),
            ("actual_source_version"@, actual),
        ],
        VersioningFault::MissingCandidateSchemaVersion { candidate, expected } => seq![
            ("candidate_version"@, candidate),
            ("expected_schema_version"@, expected),
        ],
        VersioningFault::SchemaVersionMismatch { candidate, expected, actual } => seq![
            ("candidate_version"@, candidate),
            ("expected_schema_version"@, expected),
            ("actual_schema_version"@, actual),
        ],
        VersioningFault::StaleCandidate { candidate, base_version, active_version } => seq![
            ("candidate_version"@, candidate),
            ("base_version"@, optional_version_debug(base_version)),
            ("active_version"@, optional_version_debug(active_version)),
        ],
        VersioningFault::AlreadyActive { candidate } => seq![("candidate_version"@, candidate)],
        VersioningFault::InvalidCandidate(_) | VersioningFault::InvalidDefinition(_) => Seq::empty(),
    }
}

/// The error report of a version-consistency failure.
pub open spec fn versioning_core_parts(e: VersioningFault) -> CorePartsView {
    core_parts(versioning_error_code(e), versioning_error_class(e), versioning_error_message(e), versioning_error_details(e))
}

/// Debug rendering of an optional version identifier, as a string.
pub fn optional_version_debug_string(v: &Option<IndexVersionId>) -> (s: String)
    ensures
        s@ == optional_version_debug(view_option(*v)),
{
    let mut s = String::new();
    push_optional_version_debug(&mut s, v);
    s
}

impl VersioningError {
    /// The error report of this failure: its code, class, message and
    /// diagnostic details.
    pub fn core_error_parts(&self) -> (r: CoreErrorParts)
        ensures
            r@ == versioning_core_parts(self@),
    {
        let message = self.to_string();
        let (code, class, details): (&str, CoreErrorClass, Vec<(String, String)>) = match self {
            VersioningError::MissingCandidateSourceVersion { candidate, expected } => (
                "INDEXING.VERSIONING.001",
                CoreErrorClass::Contract,
                vec![
                    detail("candidate_version", candidate.as_str().to_owned()),
                    detail("expected_source_version", expected.as_str().to_owned()),
                ],
            ),
            VersioningError::SourceVersionMismatch { candidate, expected, actual } => (
                "INDEXING.VERSIONING.002",
                CoreErrorClass::Contract,
                vec![
                    detail("candidate_version", candidate.as_str().to_owned()),
                    detail("expected_source_version", expected.as_str().to_owned()),
                    detail("actual_source_version", actual.as_str().to_owned()),
                ],
            ),
            VersioningError::MissingCandidateSchemaVersion { candidate, expected } => (
                "INDEXING.VERSIONING.003",
                CoreErrorClass::Contract,
                vec![
                    detail("candidate_version", candidate.as_str().to_owned()),
                    detail("expected_schema_version", expected.as_str().to_owned()),
                ],
            ),
            VersioningError::SchemaVersionMismatch { candidate, expected, actual } => (
                "INDEXING.VERSIONING.004",
                CoreErrorClass::Contract,
                vec![
                    detail("candidate_version", candidate.as_str().to_owned()),
                    detail("expected_schema_version", expected.as_str().to_owned()),
                    detail("actual_schema_version", actual.as_str().to_owned()),
                ],
            ),
            VersioningError::StaleCandidate { candidate, base_version, active_version } => (
                "INDEXING.VERSIONING.005",
                CoreErrorClass::Contract,
                vec![
                    detail("candidate_version", candidate.as_str().to_owned()),
                    detail("base_version", optional_version_debug_string(base_version)),
                    detail("active_version", optional_version_debug_string(active_version)),
                ],
            ),
            VersioningError::AlreadyActive { candidate } => (
                "INDEXING.VERSIONING.006",
                CoreErrorClass::Contract,
                vec![detail("candidate_version", candidate.as_str().to_owned())],
            ),
            VersioningError::InvalidCandidate(_) => ("INDEXING.VERSIONING.007", CoreErrorClass::Validation, Vec::new()),
            VersioningError::InvalidDefinition(_) => ("INDEXING.VERSIONING.008", CoreErrorClass::Validation, Vec::new()),
        };
        assert(code@ == versioning_error_code(self@));
        assert(detail_views(details@) =~= versioning_error_details(self@));
        core_error_parts_of(code, class, message, details)
    }
}

} // verus!
