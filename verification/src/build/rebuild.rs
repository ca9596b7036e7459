//! Isolated rebuilds: a candidate is built from a source snapshot while the
//! journal's current sequence is captured as a boundary; mutations recorded
//! after the boundary are replayed onto the candidate, possibly over several
//! rounds with fresh journal snapshots, until the candidate has caught up;
//! only then is it validated and handed on, still unpublished.

use crate::build::builder::{
    built_candidate, candidate_check, BuildCandidate, BuildError, BuildFault, BuildInput,
    BuildInputView, BuildSnapshot, CandidateView, IndexBuilder, SnapshotView,
};
use crate::build::update::{
    candidate_update, journal_ordered, recorded_after, CandidateUpdater, JournalView, MutationView,
    UpdateError, UpdateFault, UpdateJournal, UpdateSequence,
};
use crate::consistency::versioning::{
    active_compatibility, validate_active_version_compatibility, VersioningError, VersioningFault,
};
use crate::identity::index::IndexId;
use crate::index::definition::{IndexDefinition, IndexDefinitionView};
use crate::index::version::{copy_version_id, view_option, IndexVersionId};
use vstd::prelude::*;
use crate::message::{decimal_text, push_decimal, push_text};
use crate::diagnostic::{
    core_error_parts_of, core_parts, decimal_string, detail, detail_views, CoreErrorClass, CoreErrorParts,
    CorePartsView,
};
use vstd::std_specs::cmp::PartialEqSpecImpl;

verus! {

/// Value of a [`RebuildInput`].
pub struct RebuildInputView {
    pub index_id: Seq<u8>,
    pub definition: IndexDefinitionView,
    pub candidate_version_id: Seq<char>,
    pub snapshot: SnapshotView,
    pub base_version: Option<Seq<char>>,
    pub active_version: Option<Seq<char>>,
}

/// Input to a rebuild: what a build needs, plus the version the caller took
/// as the candidate's base and the version it saw active.
#[derive(Debug, Eq)]
pub struct RebuildInput {
    index_id: IndexId,
    definition: IndexDefinition,
    candidate_version_id: IndexVersionId,
    snapshot: BuildSnapshot,
    base_version: Option<IndexVersionId>,
    active_version: Option<IndexVersionId>,
}

impl View for RebuildInput {
    type V = RebuildInputView;

    closed spec fn view(&self) -> RebuildInputView {
        RebuildInputView {
            index_id: self.index_id@,
            definition: self.definition@,
            candidate_version_id: self.candidate_version_id@,
            snapshot: self.snapshot@,
            base_version: view_option(self.base_version),
            active_version: view_option(self.active_version),
        }
    }
}

impl Clone for RebuildInput {
    fn clone(&self) -> (r: Self)
        ensures
            r@ == self@,
    {
        RebuildInput {
            index_id: self.index_id,
            definition: self.definition.clone(),
            candidate_version_id: self.candidate_version_id.clone(),
            snapshot: self.snapshot.clone(),
            base_version: copy_version_id(&self.base_version),
            active_version: copy_version_id(&self.active_version),
        }
    }
}

impl PartialEq for RebuildInput {
    fn eq(&self, other: &Self) -> (r: bool) {
        self.index_id == other.index_id && self.definition == other.definition && self.candidate_version_id
            == other.candidate_version_id && self.snapshot == other.snapshot
            && crate::index::version::version_id_option_eq(&self.base_version, &other.base_version)
            && crate::index::version::version_id_option_eq(&self.active_version, &other.active_version)
    }
}

impl PartialEqSpecImpl for RebuildInput {
    open spec fn obeys_eq_spec() -> bool {
        true
    }

    open spec fn eq_spec(&self, other: &Self) -> bool {
        self@ == other@
    }
}

impl RebuildInput {
    /// Creates a rebuild input.
    pub fn new(
        index_id: IndexId,
        definition: IndexDefinition,
        candidate_version_id: IndexVersionId,
        snapshot: BuildSnapshot,
        base_version: Option<IndexVersionId>,
        active_version: Option<IndexVersionId>,
    ) -> (r: Self)
        ensures
            r@ == (RebuildInputView {
                index_id: index_id@,
                definition: definition@,
                candidate_version_id: candidate_version_id@,
                snapshot: snapshot@,
                base_version: view_option(base_version),
                active_version: view_option(active_version),
            }),
    {
        RebuildInput { index_id, definition, candidate_version_id, snapshot, base_version, active_version }
    }

    /// Returns the identity of the index being rebuilt.
    pub fn index_id(&self) -> (r: &IndexId)
        ensures
            r@ == self@.index_id,
    {
        &self.index_id
    }

    /// Returns the governing definition.
    pub fn definition(&self) -> (r: &IndexDefinition)
        ensures
            r@ == self@.definition,
    {
        &self.definition
    }

    /// Returns the identity of the version to build.
    pub fn candidate_version_id(&self) -> (r: &IndexVersionId)
        ensures
            r@ == self@.candidate_version_id,
    {
        &self.candidate_version_id
    }

    /// Returns the source snapshot.
    pub fn snapshot(&self) -> (r: &BuildSnapshot)
        ensures
            r@ == self@.snapshot,
    {
        &self.snapshot
    }

    /// Returns the version taken as the candidate's base, if any.
    pub fn base_version(&self) -> (r: Option<&IndexVersionId>)
        ensures
            view_option(r) == self@.base_version,
    {
        match &self.base_version {
            Some(v) => Some(v),
            None => None,
        }
    }

    /// Returns the version seen active, if any.
    pub fn active_version(&self) -> (r: Option<&IndexVersionId>)
        ensures
            view_option(r) == self@.active_version,
    {
        match &self.active_version {
            Some(v) => Some(v),
            None => None,
        }
    }

    /// Consumes the input and returns its components.
    pub fn into_parts(self) -> (r: (
        IndexId,
        IndexDefinition,
        IndexVersionId,
        BuildSnapshot,
        Option<IndexVersionId>,
        Option<IndexVersionId>,
    ))
        ensures
            r.0@ == self@.index_id,
            r.1@ == self@.definition,
            r.2@ == self@.candidate_version_id,
            r.3@ == self@.snapshot,
            view_option(r.4) == self@.base_version,
            view_option(r.5) == self@.active_version,
    {
        (self.index_id, self.definition, self.candidate_version_id, self.snapshot, self.base_version, self.active_version)
    }
}

/// Value of a [`RebuildProgress`] or a [`RebuildResult`].
pub struct RebuildView {
    pub candidate: CandidateView,
    pub base_version: Option<Seq<char>>,
    pub captured_sequence: u64,
    pub replayed_through: u64,
    pub replayed_updates: nat,
}

/// Where a rebuild stands: its isolated candidate, its base, the captured
/// boundary, the last replayed sequence, and how many records it replayed.
#[derive(Debug, Eq)]
pub struct RebuildProgress {
    candidate: BuildCandidate,
    base_version: Option<IndexVersionId>,
    captured_sequence: UpdateSequence,
    replayed_through: UpdateSequence,
    replayed_updates: usize,
}

impl View for RebuildProgress {
    type V = RebuildView;

    closed spec fn view(&self) -> RebuildView {
        RebuildView {
            candidate: self.candidate@,
            base_version: view_option(self.base_version),
            captured_sequence: self.captured_sequence@,
            replayed_through: self.replayed_through@,
            replayed_updates: self.replayed_updates as nat,
        }
    }
}

impl Clone for RebuildProgress {
    fn clone(&self) -> (r: Self)
        ensures
            r@ == self@,
    {
        RebuildProgress {
            candidate: self.candidate.clone(),
            base_version: copy_version_id(&self.base_version),
            captured_sequence: self.captured_sequence,
            replayed_through: self.replayed_through,
            replayed_updates: self.replayed_updates,
        }
    }
}

impl PartialEq for RebuildProgress {
    fn eq(&self, other: &Self) -> (r: bool) {
        self.candidate == other.candidate && crate::index::version::version_id_option_eq(
            &self.base_version,
            &other.base_version,
        ) && self.captured_sequence.value() == other.captured_sequence.value()
            && self.replayed_through.value() == other.replayed_through.value()
            && self.replayed_updates == other.replayed_updates
    }
}

impl PartialEqSpecImpl for RebuildProgress {
    open spec fn obeys_eq_spec() -> bool {
        true
    }

    open spec fn eq_spec(&self, other: &Self) -> bool {
        self@ == other@
    }
}

impl RebuildProgress {
    /// Returns the isolated candidate.
    pub fn candidate(&self) -> (r: &BuildCandidate)
        ensures
            r@ == self@.candidate,
    {
        &self.candidate
    }

    /// Returns the candidate's base version, if any.
    pub fn base_version(&self) -> (r: Option<&IndexVersionId>)
        ensures
            view_option(r) == self@.base_version,
    {
        match &self.base_version {
            Some(v) => Some(v),
            None => None,
        }
    }

    /// Returns the boundary captured when the rebuild started.
    pub fn captured_sequence(&self) -> (r: UpdateSequence)
        ensures
            r@ == self@.captured_sequence,
    {
        self.captured_sequence
    }

    /// Returns the last sequence replayed onto the candidate.
    pub fn replayed_through(&self) -> (r: UpdateSequence)
        ensures
            r@ == self@.replayed_through,
    {
        self.replayed_through
    }

    /// Returns the number of records replayed so far.
    pub fn replayed_updates(&self) -> (r: usize)
        ensures
            r == self@.replayed_updates,
    {
        self.replayed_updates
    }

    /// Whether the progress has reached the journal's current sequence; an
    /// older journal does not count.
    pub fn is_caught_up(&self, journal: &UpdateJournal) -> (r: bool)
        ensures
            r == (journal@.current == self@.replayed_through),
    {
        journal.current_sequence().value() == self.replayed_through.value()
    }

    /// Consumes the progress and returns its components.
    pub fn into_parts(self) -> (r: (BuildCandidate, Option<IndexVersionId>, UpdateSequence, UpdateSequence, usize))
        ensures
            r.0@ == self@.candidate,
            view_option(r.1) == self@.base_version,
            r.2@ == self@.captured_sequence,
            r.3@ == self@.replayed_through,
            r.4 == self@.replayed_updates,
    {
        (self.candidate, self.base_version, self.captured_sequence, self.replayed_through, self.replayed_updates)
    }
}

/// A finished rebuild: a validated candidate that reached a consistency
/// point with the journal. It is not published.
#[derive(Debug, Eq)]
pub struct RebuildResult {
    candidate: BuildCandidate,
    base_version: Option<IndexVersionId>,
    captured_sequence: UpdateSequence,
    replayed_through: UpdateSequence,
    replayed_updates: usize,
}

impl View for RebuildResult {
    type V = RebuildView;

    closed spec fn view(&self) -> RebuildView {
        RebuildView {
            candidate: self.candidate@,
            base_version: view_option(self.base_version),
            captured_sequence: self.captured_sequence@,
            replayed_through: self.replayed_through@,
            replayed_updates: self.replayed_updates as nat,
        }
    }
}

impl Clone for RebuildResult {
    fn clone(&self) -> (r: Self)
        ensures
            r@ == self@,
    {
        RebuildResult {
            candidate: self.candidate.clone(),
            base_version: copy_version_id(&self.base_version),
            captured_sequence: self.captured_sequence,
            replayed_through: self.replayed_through,
            replayed_updates: self.replayed_updates,
        }
    }
}

impl PartialEq for RebuildResult {
    fn eq(&self, other: &Self) -> (r: bool) {
        self.candidate == other.candidate && crate::index::version::version_id_option_eq(
            &self.base_version,
            &other.base_version,
        ) && self.captured_sequence.value() == other.captured_sequence.value()
            && self.replayed_through.value() == other.replayed_through.value()
            && self.replayed_updates == other.replayed_updates
    }
}

impl PartialEqSpecImpl for RebuildResult {
    open spec fn obeys_eq_spec() -> bool {
        true
    }

    open spec fn eq_spec(&self, other: &Self) -> bool {
        self@ == other@
    }
}

impl RebuildResult {
    /// Returns the validated, unpublished candidate.
    pub fn candidate(&self) -> (r: &BuildCandidate)
        ensures
            r@ == self@.candidate,
    {
        &self.candidate
    }

    /// Returns the candidate's base version, if any.
    pub fn base_version(&self) -> (r: Option<&IndexVersionId>)
        ensures
            view_option(r) == self@.base_version,
    {
        match &self.base_version {
            Some(v) => Some(v),
            None => None,
        }
    }

    /// Returns the boundary captured when the rebuild started.
    pub fn captured_sequence(&self) -> (r: UpdateSequence)
        ensures
            r@ == self@.captured_sequence,
    {
        self.captured_sequence
    }

    /// Returns the last replayed sequence.
    pub fn replayed_through(&self) -> (r: UpdateSequence)
        ensures
            r@ == self@.replayed_through,
    {
        self.replayed_through
    }

    /// Returns the number of replayed records.
    pub fn replayed_updates(&self) -> (r: usize)
        ensures
            r == self@.replayed_updates,
    {
        self.replayed_updates
    }

    /// Consumes the result and returns its components.
    pub fn into_parts(self) -> (r: (BuildCandidate, Option<IndexVersionId>, UpdateSequence, UpdateSequence, usize))
        ensures
            r.0@ == self@.candidate,
            view_option(r.1) == self@.base_version,
            r.2@ == self@.captured_sequence,
            r.3@ == self@.replayed_through,
            r.4 == self@.replayed_updates,
    {
        (self.candidate, self.base_version, self.captured_sequence, self.replayed_through, self.replayed_updates)
    }
}

/// Failures of a rebuild.
#[derive(Debug, Eq)]
pub enum RebuildError {
    /// Construction or validation of the candidate failed.
    Build(BuildError),
    /// The candidate's lineage is not current, or it already is active.
    Versioning(VersioningError),
    /// A replayed mutation failed.
    Update(UpdateError),
    /// The journal is older than what was already replayed.
    JournalSequenceRegressed { replayed_through: UpdateSequence, observed: UpdateSequence },
    /// The journal holds updates that were not replayed yet.
    NotCaughtUp { replayed_through: UpdateSequence, journal_sequence: UpdateSequence },
}

/// Value of a [`RebuildError`].
pub enum RebuildFault {
    Build(BuildFault),
    Versioning(VersioningFault),
    Update(UpdateFault),
    JournalSequenceRegressed { replayed_through: u64, observed: u64 },
    NotCaughtUp { replayed_through: u64, journal_sequence: u64 },
}

impl View for RebuildError {
    type V = RebuildFault;

    open spec fn view(&self) -> RebuildFault {
        match self {
            RebuildError::Build(e) => RebuildFault::Build(e@),
            RebuildError::Versioning(e) => RebuildFault::Versioning(e@),
            RebuildError::Update(e) => RebuildFault::Update(e@),
            RebuildError::JournalSequenceRegressed { replayed_through, observed } => {
                RebuildFault::JournalSequenceRegressed { replayed_through: replayed_through@, observed: observed@ }
            },
            RebuildError::NotCaughtUp { replayed_through, journal_sequence } => RebuildFault::NotCaughtUp {
                replayed_through: replayed_through@,
                journal_sequence: journal_sequence@,
            },
        }
    }
}

impl Clone for RebuildError {
    fn clone(&self) -> (r: Self)
        ensures
            r@ == self@,
    {
        match self {
            RebuildError::Build(e) => RebuildError::Build(e.clone()),
            RebuildError::Versioning(e) => RebuildError::Versioning(e.clone()),
            RebuildError::Update(e) => RebuildError::Update(e.clone()),
            RebuildError::JournalSequenceRegressed { replayed_through, observed } => {
                RebuildError::JournalSequenceRegressed { replayed_through: *replayed_through, observed: *observed }
            },
            RebuildError::NotCaughtUp { replayed_through, journal_sequence } => RebuildError::NotCaughtUp {
                replayed_through: *replayed_through,
                journal_sequence: *journal_sequence,
            },
        }
    }
}

impl PartialEq for RebuildError {
    fn eq(&self, other: &Self) -> (r: bool) {
        match (self, other) {
            (RebuildError::Build(a), RebuildError::Build(b)) => *a == *b,
            (RebuildError::Versioning(a), RebuildError::Versioning(b)) => *a == *b,
            (RebuildError::Update(a), RebuildError::Update(b)) => *a == *b,
            (
                RebuildError::JournalSequenceRegressed { replayed_through: r1, observed: o1 },
                RebuildError::JournalSequenceRegressed { replayed_through: r2, observed: o2 },
            ) => r1.value() == r2.value() && o1.value() == o2.value(),
            (
                RebuildError::NotCaughtUp { replayed_through: r1, journal_sequence: s1 },
                RebuildError::NotCaughtUp { replayed_through: r2, journal_sequence: s2 },
            ) => r1.value() == r2.value() && s1.value() == s2.value(),
            _ => false,
        }
    }
}

impl PartialEqSpecImpl for RebuildError {
    open spec fn obeys_eq_spec() -> bool {
        true
    }

    open spec fn eq_spec(&self, other: &Self) -> bool {
        self@ == other@
    }
}

/// The build input contained in a rebuild input.
pub open spec fn rebuild_build_input(input: RebuildInputView) -> BuildInputView {
    BuildInputView {
        index_id: input.index_id,
        definition: input.definition,
        candidate_version_id: input.candidate_version_id,
        snapshot: input.snapshot,
    }
}

/// Outcome of starting a rebuild while `journal` is current: the candidate
/// is built from the snapshot, its lineage must be current and it must not
/// already be active; the journal's current sequence becomes the boundary.
pub open spec fn start_outcome(input: RebuildInputView, journal: JournalView) -> Result<RebuildView, RebuildFault> {
    let c = built_candidate(rebuild_build_input(input));
    match candidate_check(c) {
        Err(e) => Err(RebuildFault::Build(e)),
        Ok(()) => match active_compatibility(c.version, input.base_version, input.active_version) {
            Err(e) => Err(RebuildFault::Versioning(e)),
            Ok(()) => Ok(
                RebuildView {
                    candidate: c,
                    base_version: input.base_version,
                    captured_sequence: journal.current,
                    replayed_through: journal.current,
                    replayed_updates: 0,
                },
            ),
        },
    }
}

/// Outcome of replaying records onto a candidate in order, each as one
/// update; the first failure ends it.
pub open spec fn replay_records(c: CandidateView, rs: Seq<(u64, MutationView)>) -> Result<CandidateView, UpdateFault>
    decreases rs.len(),
{
    if rs.len() == 0 {
        Ok(c)
    } else {
        match candidate_update(c, seq![rs[0].1]) {
            Err(f) => Err(f),
            Ok(n) => replay_records(n, rs.drop_first()),
        }
    }
}

/// Outcome of one replay round against `journal`: the journal must not be
/// older than the progress; every record after the last replayed sequence
/// is replayed in order; the progress then stands at the last of them.
pub open spec fn replay_outcome(p: RebuildView, journal: JournalView) -> Result<RebuildView, RebuildFault> {
    if journal.current < p.replayed_through {
        Err(RebuildFault::JournalSequenceRegressed { replayed_through: p.replayed_through, observed: journal.current })
    } else {
        let rs = journal.records.filter(recorded_after(p.replayed_through));
        match replay_records(p.candidate, rs) {
            Err(f) => Err(RebuildFault::Update(f)),
            Ok(c) => Ok(
                RebuildView {
                    candidate: c,
                    base_version: p.base_version,
                    captured_sequence: p.captured_sequence,
                    replayed_through: if rs.len() > 0 {
                        rs.last().0
                    } else {
                        p.replayed_through
                    },
                    replayed_updates: p.replayed_updates + rs.len(),
                },
            ),
        }
    }
}

/// Outcome of finishing: the journal must be neither older nor newer than
/// the progress, and the candidate must validate.
pub open spec fn finish_outcome(p: RebuildView, journal: JournalView) -> Result<RebuildView, RebuildFault> {
    if journal.current < p.replayed_through {
        Err(RebuildFault::JournalSequenceRegressed { replayed_through: p.replayed_through, observed: journal.current })
    } else if journal.current != p.replayed_through {
        Err(RebuildFault::NotCaughtUp { replayed_through: p.replayed_through, journal_sequence: journal.current })
    } else {
        match candidate_check(p.candidate) {
            Err(e) => Err(RebuildFault::Build(e)),
            Ok(()) => Ok(p),
        }
    }
}

/// Outcome of a whole rebuild against one stable journal.
pub open spec fn rebuild_outcome(input: RebuildInputView, journal: JournalView) -> Result<RebuildView, RebuildFault> {
    match start_outcome(input, journal) {
        Err(e) => Err(e),
        Ok(p) => match replay_outcome(p, journal) {
            Err(e) => Err(e),
            Ok(q) => finish_outcome(q, journal),
        },
    }
}

/// Sequences strictly increase along `rs`, and all exceed `s`.
pub open spec fn increasing_after(rs: Seq<(u64, MutationView)>, s: u64) -> bool {
    &&& forall|a: int, b: int| 0 <= a < b < rs.len() ==> rs[a].0 < rs[b].0
    &&& forall|a: int| 0 <= a < rs.len() ==> rs[a].0 > s
}

/// The records of an ordered journal after `s` are increasing and exceed
/// `s`; when there are any, the last of them is the journal's last record.
pub proof fn lemma_records_after(j: JournalView, s: u64)
    requires
        journal_ordered(j),
    ensures
        increasing_after(j.records.filter(recorded_after(s)), s),
        j.records.filter(recorded_after(s)).len() > 0 ==> j.records.filter(recorded_after(s)).last() == j.records.last(),
    decreases j.records.len(),
{
    reveal(Seq::filter);
    let rs = j.records;
    let p = recorded_after(s);
    if rs.len() > 0 {
        let d = rs.drop_last();
        let dj = JournalView { current: rs[rs.len() - 2].0, records: d };
        if d.len() > 0 {
            lemma_records_after(dj, s);
        } else {
            assert(d.filter(p) =~= Seq::<(u64, MutationView)>::empty());
        }
        let f = d.filter(p);
        assert forall|a: int| 0 <= a < f.len() implies f[a].0 < rs.last().0 && f[a].0 > s by {
            crate::build::update::lemma_filter_member(d, p, a);
            let k = choose|k: int| 0 <= k < d.len() && d[k] == f[a];
            assert(rs[k] == d[k]);
        }
        if f.len() > 0 {
            assert(p(rs.last()));
        }
    }
}

/// After a successful replay round the rebuild has caught up with that
/// journal, unless the journal held no record after the replayed boundary,
/// in which case the boundary is unchanged; the journal itself is only read.
pub proof fn law_replay_catches_up(p: RebuildView, j: JournalView)
    requires
        journal_ordered(j),
    ensures
        replay_outcome(p, j) matches Ok(q) ==> {
            ||| q.replayed_through == j.current
            ||| (j.records.filter(recorded_after(p.replayed_through)).len() == 0 && q.replayed_through
                == p.replayed_through)
        },
{
    lemma_records_after(j, p.replayed_through);
}

/// The mutations of journal records, in record order.
pub open spec fn record_mutations(rs: Seq<(u64, MutationView)>) -> Seq<MutationView> {
    rs.map_values(|r: (u64, MutationView)| r.1)
}

/// Replaying records one by one onto a valid candidate gives what one
/// update with all their mutations, in order, gives.
proof fn lemma_replay_is_one_update(c: CandidateView, rs: Seq<(u64, MutationView)>)
    requires
        candidate_check(c) is Ok,
    ensures
        replay_records(c, rs) == candidate_update(c, record_mutations(rs)),
    decreases rs.len(),
{
    let u = c.definition.uniqueness;
    let ms = record_mutations(rs);
    crate::build::update::law_updates_keep_candidates_valid(c, ms);
    if rs.len() == 0 {
        assert(ms.len() == 0);
        assert(crate::build::update::with_entries(c, c.entries) == c);
    } else {
        let m = rs[0].1;
        let rest = rs.drop_first();
        assert(ms[0] == m);
        assert(ms.drop_first() =~= record_mutations(rest));
        crate::build::update::law_updates_keep_candidates_valid(c, seq![m]);
        crate::build::update::lemma_single_mutation(u, c.entries, m);
        match crate::build::update::mutation_outcome(u, c.entries, m) {
            Err(f) => {},
            Ok(es1) => {
                let n = crate::build::update::with_entries(c, es1);
                assert(candidate_update(c, seq![m]) == Ok::<CandidateView, UpdateFault>(n));
                lemma_replay_is_one_update(n, rest);
                crate::build::update::law_updates_keep_candidates_valid(n, record_mutations(rest));
                assert(crate::build::update::mutations_outcome(u, c.entries, ms)
                    == crate::build::update::mutations_outcome(u, es1, record_mutations(rest)));
                let r = crate::build::update::mutations_outcome(u, es1, record_mutations(rest));
                if r is Ok {
                    assert(crate::build::update::with_entries(n, r->Ok_0) == crate::build::update::with_entries(c, r->Ok_0));
                }
            },
        }
    }
}

/// A replay round applies every record after the replayed boundary, of
/// every kind, deletions included, as the updater applies them: on a valid
/// candidate it succeeds exactly when applying those records' mutations in
/// order succeeds, gives the candidate that applying them gives, and
/// otherwise fails with the updater's failure.
pub proof fn law_replay_applies_every_record(p: RebuildView, j: JournalView)
    requires
        candidate_check(p.candidate) is Ok,
        p.replayed_through <= j.current,
    ensures
        match candidate_update(p.candidate, record_mutations(j.records.filter(recorded_after(p.replayed_through)))) {
            Ok(c) => replay_outcome(p, j) matches Ok(q) && q.candidate == c,
            Err(f) => replay_outcome(p, j) == Err::<RebuildView, RebuildFault>(RebuildFault::Update(f)),
        },
{
    lemma_replay_is_one_update(p.candidate, j.records.filter(recorded_after(p.replayed_through)));
}

/// A finished rebuild has replayed everything its journal holds: its
/// boundary is the journal's current sequence and its candidate validates.
pub proof fn law_finished_rebuild_is_consistent(p: RebuildView, j: JournalView)
    ensures
        finish_outcome(p, j) matches Ok(q) ==> q.replayed_through == j.current && candidate_check(q.candidate) is Ok,
{
}

/// Stateless orchestrator of rebuilds.
#[derive(Clone, Copy, Debug, PartialEq, Eq, Structural)]
pub struct IndexRebuilder {
    builder: IndexBuilder,
    updater: CandidateUpdater,
}

impl Default for IndexRebuilder {
    fn default() -> (r: Self) {
        IndexRebuilder::new()
    }
}

impl IndexRebuilder {
    /// Creates a rebuilder.
    pub fn new() -> (r: Self) {
        IndexRebuilder { builder: IndexBuilder::new(), updater: CandidateUpdater::new() }
    }

    /// Starts a rebuild: captures the journal's current sequence as the
    /// boundary, builds the candidate from the snapshot, and checks its
    /// lineage against the active version.
    pub fn start(&self, input: RebuildInput, journal: &UpdateJournal) -> (r: Result<RebuildProgress, RebuildError>)
        ensures
            match start_outcome(input@, journal@) {
                Ok(p) => r matches Ok(q) && q@ == p,
                Err(f) => r matches Err(e) && e@ == f,
            },
    {
        let ghost iv = input@;
        let sequence = journal.current_sequence();
        let (index_id, definition, candidate_version_id, snapshot, base_version, active_version) = input.into_parts();
        let build_input = BuildInput::new(index_id, definition, candidate_version_id, snapshot);
        assert(build_input@ == rebuild_build_input(iv));
        let candidate = match self.builder.build(build_input) {
            Err(e) => {
                return Err(RebuildError::Build(e));
            },
            Ok(c) => c,
        };
        let base_ref = match &base_version {
            Some(v) => Some(v),
            None => None,
        };
        let active_ref = match &active_version {
            Some(v) => Some(v),
            None => None,
        };
        match validate_active_version_compatibility(candidate.version(), base_ref, active_ref) {
            Err(e) => {
                return Err(RebuildError::Versioning(e));
            },
            Ok(()) => {},
        }
        Ok(
            RebuildProgress {
                candidate,
                base_version,
                captured_sequence: sequence,
                replayed_through: sequence,
                replayed_updates: 0,
            },
        )
    }

    /// Replays, onto a copy of the progress's candidate, every journal record
    /// after the last replayed sequence. The progress and the journal are
    /// left unchanged.
    pub fn replay(&self, progress: &RebuildProgress, journal: &UpdateJournal) -> (r: Result<RebuildProgress, RebuildError>)
        requires
            progress@.replayed_updates + journal@.records.len() <= usize::MAX,
        ensures
            match replay_outcome(progress@, journal@) {
                Ok(p) => r matches Ok(q) && q@ == p,
                Err(f) => r matches Err(e) && e@ == f,
            },
    {
        let observed = journal.current_sequence();
        if observed.value() < progress.replayed_through.value() {
            return Err(
                RebuildError::JournalSequenceRegressed { replayed_through: progress.replayed_through, observed },
            );
        }
        let records = journal.records_after(progress.replayed_through);
        let ghost rs = journal@.records.filter(recorded_after(progress@.replayed_through));
        proof {
            lemma_records_after(journal@, progress@.replayed_through);
            journal@.records.lemma_filter_len(recorded_after(progress@.replayed_through));
        }
        let mut candidate = progress.candidate.clone();
        let mut replayed_through = progress.replayed_through;
        let mut replayed_updates = progress.replayed_updates;
        assert(rs.skip(0) =~= rs);
        let mut i: usize = 0;
        while i < records.len()
            invariant
                0 <= i <= records@.len(),
                records@.map_values(|x: &crate::build::update::UpdateRecord| x@) == rs,
                increasing_after(rs, progress@.replayed_through),
                rs == journal@.records.filter(recorded_after(progress@.replayed_through)),
                journal@.current >= progress@.replayed_through,
                rs.len() <= journal@.records.len(),
                progress@.replayed_updates + journal@.records.len() <= usize::MAX,
                replayed_updates == progress@.replayed_updates + i,
                replayed_through@ == (if i == 0 {
                    progress@.replayed_through
                } else {
                    rs[i - 1].0
                }),
                replay_records(progress@.candidate, rs) == replay_records(candidate@, rs.skip(i as int)),
            decreases records@.len() - i,
        {
            let record = records[i];
            assert(record@ == rs[i as int]);
            let sequence = record.sequence();
            if sequence.value() <= replayed_through.value() {
                return Err(RebuildError::JournalSequenceRegressed { replayed_through, observed: sequence });
            }
            proof {
                assert(rs.skip(i as int).drop_first() =~= rs.skip(i + 1));
                assert(rs.skip(i as int)[0] == rs[i as int]);
            }
            candidate = match self.updater.apply(&candidate, record.mutation().clone()) {
                Err(e) => {
                    return Err(RebuildError::Update(e));
                },
                Ok(c) => c,
            };
            replayed_through = sequence;
            replayed_updates = replayed_updates + 1;
            i = i + 1;
        }
        assert(rs.skip(rs.len() as int) =~= Seq::<(u64, MutationView)>::empty());
        Ok(
            RebuildProgress {
                candidate,
                base_version: copy_version_id(&progress.base_version),
                captured_sequence: progress.captured_sequence,
                replayed_through,
                replayed_updates,
            },
        )
    }

    /// Whether the progress has caught up with the journal.
    pub fn is_caught_up(&self, progress: &RebuildProgress, journal: &UpdateJournal) -> (r: bool)
        ensures
            r == (journal@.current == progress@.replayed_through),
    {
        progress.is_caught_up(journal)
    }

    /// Validates the candidate once it has caught up with the journal; a
    /// journal that moved on must be replayed first.
    pub fn finish(&self, progress: &RebuildProgress, journal: &UpdateJournal) -> (r: Result<RebuildResult, RebuildError>)
        ensures
            match finish_outcome(progress@, journal@) {
                Ok(p) => r matches Ok(q) && q@ == p,
                Err(f) => r matches Err(e) && e@ == f,
            },
    {
        let observed = journal.current_sequence();
        if observed.value() < progress.replayed_through.value() {
            return Err(
                RebuildError::JournalSequenceRegressed { replayed_through: progress.replayed_through, observed },
            );
        }
        if observed.value() != progress.replayed_through.value() {
            return Err(RebuildError::NotCaughtUp { replayed_through: progress.replayed_through, journal_sequence: observed });
        }
        match IndexBuilder::validate(&progress.candidate) {
            Err(e) => {
                return Err(RebuildError::Build(e));
            },
            Ok(()) => {},
        }
        Ok(
            RebuildResult {
                candidate: progress.candidate.clone(),
                base_version: copy_version_id(&progress.base_version),
                captured_sequence: progress.captured_sequence,
                replayed_through: progress.replayed_through,
                replayed_updates: progress.replayed_updates,
            },
        )
    }

    /// Runs a whole rebuild against one stable journal: start, replay,
    /// finish.
    pub fn rebuild(&self, input: RebuildInput, journal: &UpdateJournal) -> (r: Result<RebuildResult, RebuildError>)
        ensures
            match rebuild_outcome(input@, journal@) {
                Ok(p) => r matches Ok(q) && q@ == p,
                Err(f) => r matches Err(e) && e@ == f,
            },
    {
        let progress = match self.start(input, journal) {
            Err(e) => {
                return Err(e);
            },
            Ok(p) => p,
        };
        let _journal_len: usize = journal.len();
        assert(journal@.records.len() <= usize::MAX);
        let progress = match self.replay(&progress, journal) {
            Err(e) => {
                return Err(e);
            },
            Ok(p) => p,
        };
        self.finish(&progress, journal)
    }
}

/// Message of a rebuild failure.
pub open spec fn rebuild_error_message(e: RebuildFault) -> Seq<char> {
    match e {
        RebuildFault::Build(f) => "rebuild candidate construction failed: "@ + crate::build::builder::build_error_message(f),
        RebuildFault::Versioning(f) => "rebuild candidate versioning validation failed: "@ + crate::consistency::versioning::versioning_error_message(f),
        RebuildFault::Update(f) => "rebuild update replay failed: "@ + crate::build::update::update_error_message(f),
        RebuildFault::JournalSequenceRegressed { replayed_through, observed } => "rebuild journal sequence regressed from "@ + decimal_text(replayed_through as nat) + " to "@ + decimal_text(observed as nat),
        RebuildFault::NotCaughtUp { replayed_through, journal_sequence } => "rebuild is not caught up: replayed through "@ + decimal_text(replayed_through as nat) + ", journal is at "@ + decimal_text(journal_sequence as nat),
    }
}

impl RebuildError {
    /// Returns the failure message.
    pub fn to_string(&self) -> (s: String)
        ensures
            s@ == rebuild_error_message(self@),
    {
        let mut s = String::new();
        match self {
            RebuildError::Build(f) => {
                push_text(&mut s, "rebuild candidate construction failed: ");
                let nested = f.to_string();
                push_text(&mut s, nested.as_str());
            },
            RebuildError::Versioning(f) => {
                push_text(&mut s, "rebuild candidate versioning validation failed: ");
                let nested = f.to_string();
                push_text(&mut s, nested.as_str());
            },
            RebuildError::Update(f) => {
                push_text(&mut s, "rebuild update replay failed: ");
                let nested = f.to_string();
                push_text(&mut s, nested.as_str());
            },
            RebuildError::JournalSequenceRegressed { replayed_through, observed } => {
                push_text(&mut s, "rebuild journal sequence regressed from ");
                push_decimal(&mut s, replayed_through.value() as u128);
                push_text(&mut s, " to ");
                push_decimal(&mut s, observed.value() as u128);
            },
            RebuildError::NotCaughtUp { replayed_through, journal_sequence } => {
                push_text(&mut s, "rebuild is not caught up: replayed through ");
                push_decimal(&mut s, replayed_through.value() as u128);
                push_text(&mut s, ", journal is at ");
                push_decimal(&mut s, journal_sequence.value() as u128);
            },
        }
        assert(s@ =~= rebuild_error_message(self@));
        s
    }
}

/// Error code of a rebuild failure.
pub open spec fn rebuild_error_code(e: RebuildFault) -> Seq<char> {
    match e {
        RebuildFault::Build(_) => "INDEXING.REBUILD.001"@,
        RebuildFault::Versioning(_) => "INDEXING.REBUILD.002"@,
        RebuildFault::Update(_) => "INDEXING.REBUILD.003"@,
        RebuildFault::JournalSequenceRegressed { .. } => "INDEXING.REBUILD.004"@,
        RebuildFault::NotCaughtUp { .. } => "INDEXING.REBUILD.005"@,
    }
}

/// Class of a rebuild failure: a failed construction or replay step is an
/// execution failure, every other a broken contract.
pub open spec fn rebuild_error_class(e: RebuildFault) -> CoreErrorClass {
    match e {
        RebuildFault::Build(_) | RebuildFault::Update(_) => CoreErrorClass::Execution,
        _ => CoreErrorClass::Contract,
    }
}

/// Diagnostic details of a rebuild failure.
pub open spec fn rebuild_error_details(e: RebuildFault) -> Seq<(Seq<char>, Seq<char>)> {
    match e {
        RebuildFault::JournalSequenceRegressed { replayed_through, observed } => seq![
            ("replayed_through"@, decimal_text(replayed_through as nat)),
            ("observed_sequence"@, decimal_text(observed as nat)),
        ],
        RebuildFault::NotCaughtUp { replayed_through, journal_sequence } => seq![
            ("replayed_through"@, decimal_text(replayed_through as nat)),
            ("journal_sequence"@, decimal_text(journal_sequence as nat)),
        ],
        _ => Seq::empty(),
    }
}

/// The error report of a rebuild failure.
pub open spec fn rebuild_core_parts(e: RebuildFault) -> CorePartsView {
    core_parts(rebuild_error_code(e), rebuild_error_class(e), rebuild_error_message(e), rebuild_error_details(e))
}

impl RebuildError {
    /// The error report of this failure: its code, class, message and
    /// diagnostic details.
    pub fn core_error_parts(&self) -> (r: CoreErrorParts)
        ensures
            r@ == rebuild_core_parts(self@),
    {
        let message = self.to_string();
        let (code, class, details): (&str, CoreErrorClass, Vec<(String, String)>) = match self {
            RebuildError::Build(_) => ("INDEXING.REBUILD.001", CoreErrorClass::Execution, Vec::new()),
            RebuildError::Versioning(_) => ("INDEXING.REBUILD.002", CoreErrorClass::Contract, Vec::new()),
            RebuildError::Update(_) => ("INDEXING.REBUILD.003", CoreErrorClass::Execution, Vec::new()),
            RebuildError::JournalSequenceRegressed { replayed_through, observed } => (
                "INDEXING.REBUILD.004",
                CoreErrorClass::Contract,
                vec![
                    detail("replayed_through", decimal_string(replayed_through.value() as u128)),
                    detail("observed_sequence", decimal_string(observed.value() as u128)),
                ],
            ),
            RebuildError::NotCaughtUp { replayed_through, journal_sequence } => (
                "INDEXING.REBUILD.005",
                CoreErrorClass::Contract,
                vec![
                    detail("replayed_through", decimal_string(replayed_through.value() as u128)),
                    detail("journal_sequence", decimal_string(journal_sequence.value() as u128)),
                ],
            ),
        };
        assert(code@ == rebuild_error_code(self@));
        assert(detail_views(details@) =~= rebuild_error_details(self@));
        core_error_parts_of(code, class, message, details)
    }
}

} // verus!
