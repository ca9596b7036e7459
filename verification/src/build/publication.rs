//! The publication boundary: a candidate is prepared against the active
//! version its caller observed, and published only if that version is still
//! the active one and every version-level check passes again. Publication is
//! functional: the previous active candidate is handed back, never changed.

use crate::build::builder::{BuildCandidate, CandidateView};
use crate::consistency::versioning::{
    active_compatibility, optional_version_debug_string, publication_eligibility, stale,
    validate_publication_eligibility, VersioningError, VersioningFault,
};
use crate::identity::index::IndexId;
use crate::index::definition::IndexDefinition;
use crate::index::version::{copy_version_id, view_option, IndexVersionId};
use vstd::prelude::*;
use crate::message::push_text;
use crate::diagnostic::{core_error_parts_of, core_parts, detail, detail_views, CoreErrorClass, CoreErrorParts, CorePartsView};
use vstd::std_specs::cmp::PartialEqSpecImpl;

verus! {

/// Value of a [`PublicationCandidate`].
pub struct PreparedView {
    pub candidate: CandidateView,
    pub base_version: Option<Seq<char>>,
    pub validated_against_active: Option<Seq<char>>,
}

/// A candidate that passed publication preparation, with the lineage it
/// was checked against: its base version and the active version observed.
#[derive(Debug, Eq)]
pub struct PublicationCandidate {
    candidate: BuildCandidate,
    base_version: Option<IndexVersionId>,
    validated_against_active: Option<IndexVersionId>,
}

impl View for PublicationCandidate {
    type V = PreparedView;

    closed spec fn view(&self) -> PreparedView {
        PreparedView {
            candidate: self.candidate@,
            base_version: view_option(self.base_version),
            validated_against_active: view_option(self.validated_against_active),
        }
    }
}

impl PublicationCandidate {
    #[verifier::type_invariant]
    spec fn well_formed(self) -> bool {
        active_compatibility(
            self.candidate@.version,
            view_option(self.base_version),
            view_option(self.validated_against_active),
        ) is Ok
    }
}

impl Clone for PublicationCandidate {
    fn clone(&self) -> (r: Self)
        ensures
            r@ == self@,
    {
        proof {
            use_type_invariant(self);
        }
        PublicationCandidate {
            candidate: self.candidate.clone(),
            base_version: copy_version_id(&self.base_version),
            validated_against_active: copy_version_id(&self.validated_against_active),
        }
    }
}

impl PartialEq for PublicationCandidate {
    fn eq(&self, other: &Self) -> (r: bool) {
        self.candidate == other.candidate && crate::index::version::version_id_option_eq(
            &self.base_version,
            &other.base_version,
        ) && crate::index::version::version_id_option_eq(
            &self.validated_against_active,
            &other.validated_against_active,
        )
    }
}

impl PartialEqSpecImpl for PublicationCandidate {
    open spec fn obeys_eq_spec() -> bool {
        true
    }

    open spec fn eq_spec(&self, other: &Self) -> bool {
        self@ == other@
    }
}

impl PublicationCandidate {
    /// Returns the prepared candidate.
    pub fn candidate(&self) -> (r: &BuildCandidate)
        ensures
            r@ == self@.candidate,
    {
        &self.candidate
    }

    /// Returns the base version its lineage was checked with.
    pub fn base_version(&self) -> (r: Option<&IndexVersionId>)
        ensures
            view_option(r) == self@.base_version,
    {
        match &self.base_version {
            Some(v) => Some(v),
            None => None,
        }
    }

    /// Returns the active version observed at preparation.
    pub fn validated_against_active(&self) -> (r: Option<&IndexVersionId>)
        ensures
            view_option(r) == self@.validated_against_active,
    {
        match &self.validated_against_active {
            Some(v) => Some(v),
            None => None,
        }
    }

    /// Consumes the prepared value and returns its components.
    pub fn into_parts(self) -> (r: (BuildCandidate, Option<IndexVersionId>, Option<IndexVersionId>))
        ensures
            r.0@ == self@.candidate,
            view_option(r.1) == self@.base_version,
            view_option(r.2) == self@.validated_against_active,
            active_compatibility(self@.candidate.version, self@.base_version, self@.validated_against_active) is Ok,
    {
        proof {
            use_type_invariant(&self);
        }
        (self.candidate, self.base_version, self.validated_against_active)
    }
}

/// A successful publication: the new active candidate and the previous one,
/// if any, unchanged.
#[derive(Debug, Eq)]
pub struct PublicationResult {
    active: BuildCandidate,
    previous_active: Option<BuildCandidate>,
}

impl View for PublicationResult {
    type V = (CandidateView, Option<CandidateView>);

    closed spec fn view(&self) -> (CandidateView, Option<CandidateView>) {
        (self.active@, view_option(self.previous_active))
    }
}

fn copy_candidate_option(o: &Option<BuildCandidate>) -> (r: Option<BuildCandidate>)
    ensures
        view_option(r) == view_option(*o),
{
    match o {
        Some(c) => Some(c.clone()),
        None => None,
    }
}

impl Clone for PublicationResult {
    fn clone(&self) -> (r: Self)
        ensures
            r@ == self@,
    {
        PublicationResult { active: self.active.clone(), previous_active: copy_candidate_option(&self.previous_active) }
    }
}

impl PartialEq for PublicationResult {
    fn eq(&self, other: &Self) -> (r: bool) {
        self.active == other.active && match (&self.previous_active, &other.previous_active) {
            (Some(a), Some(b)) => *a == *b,
            (None, None) => true,
            _ => false,
        }
    }
}

impl PartialEqSpecImpl for PublicationResult {
    open spec fn obeys_eq_spec() -> bool {
        true
    }

    open spec fn eq_spec(&self, other: &Self) -> bool {
        self@ == other@
    }
}

impl PublicationResult {
    /// Returns the new active candidate.
    pub fn active(&self) -> (r: &BuildCandidate)
        ensures
            r@ == self@.0,
    {
        &self.active
    }

    /// Returns the previous active candidate, if there was one.
    pub fn previous_active(&self) -> (r: Option<&BuildCandidate>)
        ensures
            view_option(r) == self@.1,
    {
        match &self.previous_active {
            Some(c) => Some(c),
            None => None,
        }
    }

    /// Consumes the result and returns the new and the previous active
    /// candidate.
    pub fn into_parts(self) -> (r: (BuildCandidate, Option<BuildCandidate>))
        ensures
            r.0@ == self@.0,
            view_option(r.1) == self@.1,
    {
        (self.active, self.previous_active)
    }
}

/// Failures of publication.
#[derive(Debug, Eq)]
pub enum PublicationError {
    /// A version-level check failed.
    Versioning(VersioningError),
    /// The candidate and the active candidate belong to different indexes.
    IndexMismatch { candidate_index: IndexId, active_index: IndexId },
    /// The active version changed after preparation; the candidate must be
    /// prepared again.
    ActiveVersionChanged { observed: Option<IndexVersionId>, current: Option<IndexVersionId> },
}

/// Value of a [`PublicationError`].
pub enum PublicationFault {
    Versioning(VersioningFault),
    IndexMismatch { candidate_index: Seq<u8>, active_index: Seq<u8> },
    ActiveVersionChanged { observed: Option<Seq<char>>, current: Option<Seq<char>> },
}

impl View for PublicationError {
    type V = PublicationFault;

    open spec fn view(&self) -> PublicationFault {
        match self {
            PublicationError::Versioning(e) => PublicationFault::Versioning(e@),
            PublicationError::IndexMismatch { candidate_index, active_index } => PublicationFault::IndexMismatch {
                candidate_index: candidate_index@,
                active_index: active_index@,
            },
            PublicationError::ActiveVersionChanged { observed, current } => PublicationFault::ActiveVersionChanged {
                observed: view_option(*observed),
                current: view_option(*current),
            },
        }
    }
}

impl Clone for PublicationError {
    fn clone(&self) -> (r: Self)
        ensures
            r@ == self@,
    {
        match self {
            PublicationError::Versioning(e) => PublicationError::Versioning(e.clone()),
            PublicationError::IndexMismatch { candidate_index, active_index } => PublicationError::IndexMismatch {
                candidate_index: *candidate_index,
                active_index: *active_index,
            },
            PublicationError::ActiveVersionChanged { observed, current } => PublicationError::ActiveVersionChanged {
                observed: copy_version_id(observed),
                current: copy_version_id(current),
            },
        }
    }
}

impl PartialEq for PublicationError {
    fn eq(&self, other: &Self) -> (r: bool) {
        match (self, other) {
            (PublicationError::Versioning(a), PublicationError::Versioning(b)) => *a == *b,
            (
                PublicationError::IndexMismatch { candidate_index: c1, active_index: a1 },
                PublicationError::IndexMismatch { candidate_index: c2, active_index: a2 },
            ) => *c1 == *c2 && *a1 == *a2,
            (
                PublicationError::ActiveVersionChanged { observed: o1, current: c1 },
                PublicationError::ActiveVersionChanged { observed: o2, current: c2 },
            ) => crate::index::version::version_id_option_eq(o1, o2) && crate::index::version::version_id_option_eq(
                c1,
                c2,
            ),
            _ => false,
        }
    }
}

impl PartialEqSpecImpl for PublicationError {
    open spec fn obeys_eq_spec() -> bool {
        true
    }

    open spec fn eq_spec(&self, other: &Self) -> bool {
        self@ == other@
    }
}

/// The version identity of an optional candidate.
pub open spec fn active_id(current: Option<CandidateView>) -> Option<Seq<char>> {
    match current {
        Some(c) => Some(c.version.id),
        None => None,
    }
}

/// Outcome of publishing `p` while `current` is active: the active version
/// must still be the one observed at preparation, the candidate must belong
/// to the same index, and every version-level check must pass against the
/// current active version; the candidate becomes active and `current` is
/// handed back as the previous one.
pub open spec fn publish_outcome(p: PreparedView, current: Option<CandidateView>) -> Result<
    (CandidateView, Option<CandidateView>),
    PublicationFault,
> {
    if p.validated_against_active != active_id(current) {
        Err(PublicationFault::ActiveVersionChanged { observed: p.validated_against_active, current: active_id(current) })
    } else if current is Some && p.candidate.index_id != current->0.index_id {
        Err(PublicationFault::IndexMismatch { candidate_index: p.candidate.index_id, active_index: current->0.index_id })
    } else {
        match publication_eligibility(p.candidate.version, p.candidate.definition, p.base_version, active_id(current)) {
            Err(e) => Err(PublicationFault::Versioning(e)),
            Ok(()) => Ok((p.candidate, current)),
        }
    }
}

/// Publication replaces only the active version a candidate was derived
/// from: a successful publication installs exactly the prepared candidate,
/// hands back the previous active candidate unchanged, and requires that
/// the candidate's base is the current active version and that it is not
/// that version itself; a stale candidate is always refused.
pub proof fn law_publication_replaces_only_the_current_version(p: PreparedView, current: Option<CandidateView>)
    ensures
        publish_outcome(p, current) matches Ok(res) ==> {
            &&& res.0 == p.candidate
            &&& res.1 == current
            &&& p.base_version == active_id(current)
            &&& active_id(current) != Some(p.candidate.version.id)
        },
        stale(p.base_version, active_id(current)) ==> publish_outcome(p, current) is Err,
{
}

/// Stateless publisher.
#[derive(Clone, Copy, Debug, PartialEq, Eq, Structural)]
pub struct IndexPublisher;

impl Default for IndexPublisher {
    fn default() -> (r: Self) {
        IndexPublisher
    }
}

impl IndexPublisher {
    /// Creates a publisher.
    pub fn new() -> (r: Self) {
        IndexPublisher
    }

    /// Prepares a candidate for publication against the active version the
    /// caller observed: every version-level publication check must pass.
    pub fn prepare(
        &self,
        candidate: BuildCandidate,
        definition: &IndexDefinition,
        base_version: Option<IndexVersionId>,
        active_version: Option<IndexVersionId>,
    ) -> (r: Result<PublicationCandidate, PublicationError>)
        ensures
            match publication_eligibility(
                candidate@.version,
                definition@,
                view_option(base_version),
                view_option(active_version),
            ) {
                Ok(()) => r matches Ok(p) && p@ == (PreparedView {
                    candidate: candidate@,
                    base_version: view_option(base_version),
                    validated_against_active: view_option(active_version),
                }),
                Err(f) => r matches Err(e) && e@ == PublicationFault::Versioning(f),
            },
    {
        let base_ref = match &base_version {
            Some(v) => Some(v),
            None => None,
        };
        let active_ref = match &active_version {
            Some(v) => Some(v),
            None => None,
        };
        match validate_publication_eligibility(candidate.version(), definition, base_ref, active_ref) {
            Err(e) => {
                return Err(PublicationError::Versioning(e));
            },
            Ok(()) => {},
        }
        Ok(PublicationCandidate { candidate, base_version, validated_against_active: active_version })
    }

    /// Publishes a prepared candidate over `current_active`; see
    /// [`publish_outcome`].
    pub fn publish(&self, prepared: PublicationCandidate, current_active: Option<BuildCandidate>) -> (r: Result<
        PublicationResult,
        PublicationError,
    >)
        ensures
            match publish_outcome(prepared@, view_option(current_active)) {
                Ok(res) => r matches Ok(p) && p@ == res,
                Err(f) => r matches Err(e) && e@ == f,
            },
    {
        let current_version: Option<IndexVersionId> = match &current_active {
            Some(c) => Some(c.version().id().clone()),
            None => None,
        };
        if !crate::index::version::version_id_option_eq(&prepared.validated_against_active, &current_version) {
            return Err(
                PublicationError::ActiveVersionChanged {
                    observed: copy_version_id(&prepared.validated_against_active),
                    current: current_version,
                },
            );
        }
        let base_ref = match &prepared.base_version {
            Some(v) => Some(v),
            None => None,
        };
        match &current_active {
            Some(active) => {
                if !(*prepared.candidate.index_id() == *active.index_id()) {
                    return Err(
                        PublicationError::IndexMismatch {
                            candidate_index: *prepared.candidate.index_id(),
                            active_index: *active.index_id(),
                        },
                    );
                }
                match validate_publication_eligibility(
                    prepared.candidate.version(),
                    prepared.candidate.definition(),
                    base_ref,
                    Some(active.version().id()),
                ) {
                    Err(e) => {
                        return Err(PublicationError::Versioning(e));
                    },
                    Ok(()) => {},
                }
            },
            None => {
                match validate_publication_eligibility(
                    prepared.candidate.version(),
                    prepared.candidate.definition(),
                    base_ref,
                    None,
                ) {
                    Err(e) => {
                        return Err(PublicationError::Versioning(e));
                    },
                    Ok(()) => {},
                }
            },
        }
        let (active, _base, _validated) = prepared.into_parts();
        Ok(PublicationResult { active, previous_active: current_active })
    }
}

/// Message of a publication failure.
pub open spec fn publication_error_message(e: PublicationFault) -> Seq<char> {
    match e {
        PublicationFault::Versioning(f) => "publication versioning validation failed: "@ + crate::consistency::versioning::versioning_error_message(f),
        PublicationFault::IndexMismatch { candidate_index, active_index } => "publication index mismatch: candidate index "@ + crate::identity::index::index_id_debug(candidate_index) + " differs from active index "@ + crate::identity::index::index_id_debug(active_index),
        PublicationFault::ActiveVersionChanged { observed, current } => "active version changed after publication preparation: observed "@ + crate::consistency::versioning::optional_version_debug(observed) + ", current "@ + crate::consistency::versioning::optional_version_debug(current),
    }
}

impl PublicationError {
    /// Returns the failure message.
    pub fn to_string(&self) -> (s: String)
        ensures
            s@ == publication_error_message(self@),
    {
        let mut s = String::new();
        match self {
            PublicationError::Versioning(f) => {
                push_text(&mut s, "publication versioning validation failed: ");
                let nested = f.to_string();
                push_text(&mut s, nested.as_str());
            },
            PublicationError::IndexMismatch { candidate_index, active_index } => {
                push_text(&mut s, "publication index mismatch: candidate index ");
                let nested = candidate_index.debug_text();
                push_text(&mut s, nested.as_str());
                push_text(&mut s, " differs from active index ");
                let nested = active_index.debug_text();
                push_text(&mut s, nested.as_str());
            },
            PublicationError::ActiveVersionChanged { observed, current } => {
                push_text(&mut s, "active version changed after publication preparation: observed ");
                crate::consistency::versioning::push_optional_version_debug(&mut s, observed);
                push_text(&mut s, ", current ");
                crate::consistency::versioning::push_optional_version_debug(&mut s, current);
            },
        }
        assert(s@ =~= publication_error_message(self@));
        s
    }
}

/// Error code of a publication failure.
pub open spec fn publication_error_code(e: PublicationFault) -> Seq<char> {
    match e {
        PublicationFault::Versioning(_) => "INDEXING.PUBLICATION.001"@,
        PublicationFault::IndexMismatch { .. } => "INDEXING.PUBLICATION.002"@,
        PublicationFault::ActiveVersionChanged { .. } => "INDEXING.PUBLICATION.003"@,
    }
}

/// Diagnostic details of a publication failure.
pub open spec fn publication_error_details(e: PublicationFault) -> Seq<(Seq<char>, Seq<char>)> {
    match e {
        PublicationFault::Versioning(_) => Seq::empty(),
        PublicationFault::IndexMismatch { candidate_index, active_index } => seq![
            ("candidate_index"@, crate::identity::index::index_id_debug(candidate_index)),
            ("active_index"@, crate::identity::index::index_id_debug(active_index)),
        ],
        PublicationFault::ActiveVersionChanged { observed, current } => seq![
            ("observed_active_version"@, crate::consistency::versioning::optional_version_debug(observed)),
            ("current_active_version"@, crate::consistency::versioning::optional_version_debug(current)),
        ],
    }
}

/// The error report of a publication failure; every publication failure is
/// a broken contract.
pub open spec fn publication_core_parts(e: PublicationFault) -> CorePartsView {
    core_parts(publication_error_code(e), CoreErrorClass::Contract, publication_error_message(e), publication_error_details(e))
}

impl PublicationError {
    /// The error report of this failure: its code, class, message and
    /// diagnostic details.
    pub fn core_error_parts(&self) -> (r: CoreErrorParts)
        ensures
            r@ == publication_core_parts(self@),
    {
        let message = self.to_string();
        let (code, details): (&str, Vec<(String, String)>) = match self {
            PublicationError::Versioning(_) => ("INDEXING.PUBLICATION.001", Vec::new()),
            PublicationError::IndexMismatch { candidate_index, active_index } => (
                "INDEXING.PUBLICATION.002",
                vec![
                    detail("candidate_index", candidate_index.debug_text()),
                    detail("active_index", active_index.debug_text()),
                ],
            ),
            PublicationError::ActiveVersionChanged { observed, current } => (
                "INDEXING.PUBLICATION.003",
                vec![
                    detail("observed_active_version", optional_version_debug_string(observed)),
                    detail("current_active_version", optional_version_debug_string(current)),
                ],
            ),
        };
        assert(code@ == publication_error_code(self@));
        assert(detail_views(details@) =~= publication_error_details(self@));
        core_error_parts_of(code, CoreErrorClass::Contract, message, details)
    }
}

} // verus!
