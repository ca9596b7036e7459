//! Incremental updates of unpublished candidates: logical insert, update and
//! delete mutations, applied all-or-nothing to a copy of a candidate, and a
//! journal that gives each accepted mutation a strictly increasing sequence.
//! Nothing here changes an active version or publishes a candidate.

use crate::build::builder::{
    candidate_check, copy_entries, entries_valid, entry_views, lemma_entries_check, BuildCandidate,
    BuildError, BuildFault, CandidateView, IndexBuilder,
};
use crate::index::definition::{IndexDefinition, Uniqueness};
use crate::index::entry::{EntryView, IndexEntry};
use crate::index::key::{
    key_check, option_check, KeyFault, KeyMaterial, KeyMaterialValidationError, KeyValue,
};
use crate::index::reference::ObjectReference;
use crate::index::version::{
    view_option, IndexVersion, IndexVersionId, SchemaVersion, SourceVersion, VersionView,
};

use vstd::prelude::*;
use crate::message::{decimal_text, push_decimal, push_text};
use crate::diagnostic::{core_error_parts_of, core_parts, detail, detail_views, CoreErrorClass, CoreErrorParts, CorePartsView};
use vstd::std_specs::cmp::PartialEqSpecImpl;

verus! {

/// Position of an accepted mutation in a journal. It is a replay order, not
/// an execution identity.
#[derive(Clone, Copy, Debug, PartialEq, Eq, Structural, PartialOrd, Ord, Hash)]
pub struct UpdateSequence(u64);

impl View for UpdateSequence {
    type V = u64;

    closed spec fn view(&self) -> u64 {
        self.0
    }
}

impl UpdateSequence {
    /// The sequence before the first accepted mutation.
    pub fn initial() -> (r: Self)
        ensures
            r@ == 0,
    {
        UpdateSequence(0)
    }

    /// A sequence with an explicit value.
    pub fn new(value: u64) -> (r: Self)
        ensures
            r@ == value,
    {
        UpdateSequence(value)
    }

    /// The numeric value.
    pub fn value(self) -> (r: u64)
        ensures
            r == self@,
    {
        self.0
    }

    /// The next sequence, or `None` when the value cannot grow: sequences
    /// never wrap.
    pub fn next(self) -> (r: Option<Self>)
        ensures
            self@ < u64::MAX ==> (r matches Some(n) && n@ == self@ + 1),
            self@ == u64::MAX ==> r is None,
    {
        if self.0 == u64::MAX {
            None
        } else {
            Some(UpdateSequence(self.0 + 1))
        }
    }

    /// The decimal value.
    pub fn to_string(&self) -> (s: String)
        ensures
            s@ == crate::message::decimal_text(self@ as nat),
    {
        let mut s = String::new();
        crate::message::push_decimal(&mut s, self.0 as u128);
        s
    }
}

/// Value of a [`DeleteSelector`].
pub enum SelectorView {
    Target((Seq<char>, Seq<char>)),
    Key(KeyValue),
}

/// What a deletion removes: every entry of one target, or every entry with
/// exactly this key material.
#[derive(Debug, Eq)]
pub enum DeleteSelector {
    /// Remove every entry targeting this reference.
    Target(ObjectReference),
    /// Remove every entry carrying exactly this key material.
    Key(KeyMaterial),
}

impl View for DeleteSelector {
    type V = SelectorView;

    open spec fn view(&self) -> SelectorView {
        match self {
            DeleteSelector::Target(t) => SelectorView::Target(t@),
            DeleteSelector::Key(k) => SelectorView::Key(k@),
        }
    }
}

impl Clone for DeleteSelector {
    fn clone(&self) -> (r: Self)
        ensures
            r@ == self@,
    {
        match self {
            DeleteSelector::Target(t) => DeleteSelector::Target(t.clone()),
            DeleteSelector::Key(k) => DeleteSelector::Key(k.clone()),
        }
    }
}

impl PartialEq for DeleteSelector {
    fn eq(&self, other: &Self) -> (r: bool) {
        match (self, other) {
            (DeleteSelector::Target(a), DeleteSelector::Target(b)) => *a == *b,
            (DeleteSelector::Key(a), DeleteSelector::Key(b)) => *a == *b,
            _ => false,
        }
    }
}

impl PartialEqSpecImpl for DeleteSelector {
    open spec fn obeys_eq_spec() -> bool {
        true
    }

    open spec fn eq_spec(&self, other: &Self) -> bool {
        self@ == other@
    }
}

impl DeleteSelector {
    /// A selector of one target.
    pub fn target(reference: ObjectReference) -> (r: Self)
        ensures
            r@ == SelectorView::Target(reference@),
    {
        DeleteSelector::Target(reference)
    }

    /// A selector of one key.
    pub fn key(key: KeyMaterial) -> (r: Self)
        ensures
            r@ == SelectorView::Key(key@),
    {
        DeleteSelector::Key(key)
    }

    /// The selected target, for a target selector.
    pub fn target_reference(&self) -> (r: Option<&ObjectReference>)
        ensures
            match self@ {
                SelectorView::Target(t) => r matches Some(x) && x@ == t,
                SelectorView::Key(_) => r is None,
            },
    {
        match self {
            DeleteSelector::Target(t) => Some(t),
            DeleteSelector::Key(_) => None,
        }
    }

    /// The selected key, for a key selector.
    pub fn key_material(&self) -> (r: Option<&KeyMaterial>)
        ensures
            match self@ {
                SelectorView::Target(_) => r is None,
                SelectorView::Key(k) => r matches Some(x) && x@ == k,
            },
    {
        match self {
            DeleteSelector::Target(_) => None,
            DeleteSelector::Key(k) => Some(k),
        }
    }
}

/// Value of an [`IndexMutation`].
pub enum MutationView {
    Insert(EntryView),
    Update { target: (Seq<char>, Seq<char>), replacement: EntryView },
    Delete(SelectorView),
}

/// One logical mutation of a candidate's entries.
#[derive(Debug, Eq)]
pub enum IndexMutation {
    /// Add one entry.
    Insert(IndexEntry),
    /// Replace every entry of `target` by `replacement`, which must target
    /// the same reference.
    Update { target: ObjectReference, replacement: IndexEntry },
    /// Remove the selected entries.
    Delete(DeleteSelector),
}

impl View for IndexMutation {
    type V = MutationView;

    open spec fn view(&self) -> MutationView {
        match self {
            IndexMutation::Insert(e) => MutationView::Insert(e@),
            IndexMutation::Update { target, replacement } => MutationView::Update {
                target: target@,
                replacement: replacement@,
            },
            IndexMutation::Delete(s) => MutationView::Delete(s@),
        }
    }
}

impl Clone for IndexMutation {
    fn clone(&self) -> (r: Self)
        ensures
            r@ == self@,
    {
        match self {
            IndexMutation::Insert(e) => IndexMutation::Insert(e.clone()),
            IndexMutation::Update { target, replacement } => IndexMutation::Update {
                target: target.clone(),
                replacement: replacement.clone(),
            },
            IndexMutation::Delete(s) => IndexMutation::Delete(s.clone()),
        }
    }
}

impl PartialEq for IndexMutation {
    fn eq(&self, other: &Self) -> (r: bool) {
        match (self, other) {
            (IndexMutation::Insert(a), IndexMutation::Insert(b)) => *a == *b,
            (
                IndexMutation::Update { target: t1, replacement: r1 },
                IndexMutation::Update { target: t2, replacement: r2 },
            ) => *t1 == *t2 && *r1 == *r2,
            (IndexMutation::Delete(a), IndexMutation::Delete(b)) => *a == *b,
            _ => false,
        }
    }
}

impl PartialEqSpecImpl for IndexMutation {
    open spec fn obeys_eq_spec() -> bool {
        true
    }

    open spec fn eq_spec(&self, other: &Self) -> bool {
        self@ == other@
    }
}

impl IndexMutation {
    /// The target the mutation names directly, if any.
    pub fn target(&self) -> (r: Option<&ObjectReference>)
        ensures
            match self@ {
                MutationView::Insert(e) => r matches Some(x) && x@ == e.target,
                MutationView::Update { target, .. } => r matches Some(x) && x@ == target,
                MutationView::Delete(SelectorView::Target(t)) => r matches Some(x) && x@ == t,
                MutationView::Delete(SelectorView::Key(_)) => r is None,
            },
    {
        match self {
            IndexMutation::Insert(e) => Some(e.target()),
            IndexMutation::Update { target, .. } => Some(target),
            IndexMutation::Delete(DeleteSelector::Target(t)) => Some(t),
            IndexMutation::Delete(DeleteSelector::Key(_)) => None,
        }
    }

    /// The replacement entry of an update.
    pub fn replacement(&self) -> (r: Option<&IndexEntry>)
        ensures
            match self@ {
                MutationView::Update { replacement, .. } => r matches Some(x) && x@ == replacement,
                _ => r is None,
            },
    {
        match self {
            IndexMutation::Update { replacement, .. } => Some(replacement),
            _ => None,
        }
    }
}

/// One accepted mutation together with its sequence.
#[derive(Debug, Eq)]
pub struct UpdateRecord {
    sequence: UpdateSequence,
    mutation: IndexMutation,
}

impl View for UpdateRecord {
    type V = (u64, MutationView);

    closed spec fn view(&self) -> (u64, MutationView) {
        (self.sequence@, self.mutation@)
    }
}

impl Clone for UpdateRecord {
    fn clone(&self) -> (r: Self)
        ensures
            r@ == self@,
    {
        UpdateRecord { sequence: self.sequence, mutation: self.mutation.clone() }
    }
}

impl PartialEq for UpdateRecord {
    fn eq(&self, other: &Self) -> (r: bool) {
        self.sequence == other.sequence && self.mutation == other.mutation
    }
}

impl PartialEqSpecImpl for UpdateRecord {
    open spec fn obeys_eq_spec() -> bool {
        true
    }

    open spec fn eq_spec(&self, other: &Self) -> bool {
        self@ == other@
    }
}

impl UpdateRecord {
    /// A record with an explicit sequence.
    pub fn new(sequence: UpdateSequence, mutation: IndexMutation) -> (r: Self)
        ensures
            r@ == (sequence@, mutation@),
    {
        UpdateRecord { sequence, mutation }
    }

    /// The record's sequence.
    pub fn sequence(&self) -> (r: UpdateSequence)
        ensures
            r@ == self@.0,
    {
        self.sequence
    }

    /// The recorded mutation.
    pub fn mutation(&self) -> (r: &IndexMutation)
        ensures
            r@ == self@.1,
    {
        &self.mutation
    }

    /// Consumes the record and returns its components.
    pub fn into_parts(self) -> (r: (UpdateSequence, IndexMutation))
        ensures
            r.0@ == self@.0,
            r.1@ == self@.1,
    {
        (self.sequence, self.mutation)
    }
}

/// Failures of the journal itself.
#[derive(Clone, Copy, Debug, PartialEq, Eq, Structural)]
pub enum UpdateJournalError {
    /// No later sequence fits in 64 bits.
    SequenceExhausted,
}

/// Value of an [`UpdateJournal`]: the latest sequence and the records in
/// order.
pub struct JournalView {
    pub current: u64,
    pub records: Seq<(u64, MutationView)>,
}

/// The sequences of a journal's records strictly increase, none exceeds the
/// current sequence, and the last one is the current sequence.
pub open spec fn journal_ordered(j: JournalView) -> bool {
    &&& forall|a: int, b: int| 0 <= a < b < j.records.len() ==> j.records[a].0 < j.records[b].0
    &&& forall|a: int| 0 <= a < j.records.len() ==> j.records[a].0 <= j.current
    &&& j.records.len() > 0 ==> j.records.last().0 == j.current
}

/// Records with a sequence strictly greater than `s`.
pub open spec fn recorded_after(s: u64) -> spec_fn((u64, MutationView)) -> bool {
    |rec: (u64, MutationView)| rec.0 > s
}

/// The values of a sequence of records.
pub open spec fn record_views(v: Seq<UpdateRecord>) -> Seq<(u64, MutationView)> {
    v.map_values(|r: UpdateRecord| r@)
}

/// Append-only history of accepted mutations, each with a sequence one
/// above the previous one.
#[derive(Debug, Eq)]
pub struct UpdateJournal {
    next_sequence: UpdateSequence,
    records: Vec<UpdateRecord>,
}

impl View for UpdateJournal {
    type V = JournalView;

    closed spec fn view(&self) -> JournalView {
        JournalView { current: self.next_sequence@, records: record_views(self.records@) }
    }
}

impl UpdateJournal {
    #[verifier::type_invariant]
    spec fn well_formed(self) -> bool {
        journal_ordered(self@)
    }
}

impl Clone for UpdateJournal {
    fn clone(&self) -> (r: Self)
        ensures
            r@ == self@,
    {
        proof {
            use_type_invariant(self);
        }
        let mut out: Vec<UpdateRecord> = Vec::new();
        let mut i: usize = 0;
        while i < self.records.len()
            invariant
                0 <= i <= self.records@.len(),
                out@.len() == i,
                forall|j: int| 0 <= j < i ==> (#[trigger] out@[j])@ == self.records@[j]@,
            decreases self.records@.len() - i,
        {
            out.push(self.records[i].clone());
            i = i + 1;
        }
        assert(record_views(out@) =~= record_views(self.records@));
        UpdateJournal { next_sequence: self.next_sequence, records: out }
    }
}

impl PartialEq for UpdateJournal {
    fn eq(&self, other: &Self) -> (r: bool) {
        if self.next_sequence != other.next_sequence || self.records.len() != other.records.len() {
            assert(self@.records.len() != other@.records.len() || self@.current != other@.current);
            return false;
        }
        let mut i: usize = 0;
        while i < self.records.len()
            invariant
                self.records@.len() == other.records@.len(),
                0 <= i <= self.records@.len(),
                forall|j: int| 0 <= j < i ==> self.records@[j]@ == other.records@[j]@,
            decreases self.records@.len() - i,
        {
            if !(self.records[i] == other.records[i]) {
                assert(record_views(self.records@)[i as int] != record_views(other.records@)[i as int]);
                return false;
            }
            i = i + 1;
        }
        assert(record_views(self.records@) =~= record_views(other.records@));
        true
    }
}

impl PartialEqSpecImpl for UpdateJournal {
    open spec fn obeys_eq_spec() -> bool {
        true
    }

    open spec fn eq_spec(&self, other: &Self) -> bool {
        self@ == other@
    }
}

impl Default for UpdateJournal {
    fn default() -> (r: Self)
        ensures
            r@.current == 0 && r@.records.len() == 0,
    {
        Self::new()
    }
}

impl UpdateJournal {
    /// An empty journal at sequence zero.
    pub fn new() -> (r: Self)
        ensures
            r@.current == 0,
            r@.records.len() == 0,
    {
        Self::starting_at(UpdateSequence::initial())
    }

    /// An empty journal whose latest sequence is `sequence`, for resuming a
    /// history; the next accepted mutation gets the following sequence.
    pub fn starting_at(sequence: UpdateSequence) -> (r: Self)
        ensures
            r@.current == sequence@,
            r@.records.len() == 0,
    {
        let records: Vec<UpdateRecord> = Vec::new();
        assert(record_views(records@) =~= Seq::<(u64, MutationView)>::empty());
        UpdateJournal { next_sequence: sequence, records }
    }

    /// The latest accepted sequence, or the starting sequence before any.
    pub fn current_sequence(&self) -> (r: UpdateSequence)
        ensures
            r@ == self@.current,
            journal_ordered(self@),
    {
        proof {
            use_type_invariant(self);
        }
        self.next_sequence
    }

    /// The records in sequence order.
    pub fn records(&self) -> (r: &[UpdateRecord])
        ensures
            record_views(r@) == self@.records,
            journal_ordered(self@),
    {
        proof {
            use_type_invariant(self);
        }
        self.records.as_slice()
    }

    /// Whether no mutation was recorded.
    pub fn is_empty(&self) -> (r: bool)
        ensures
            r == (self@.records.len() == 0),
    {
        self.records.len() == 0
    }

    /// The number of recorded mutations.
    pub fn len(&self) -> (n: usize)
        ensures
            n == self@.records.len(),
    {
        self.records.len()
    }

    /// Records a mutation under the sequence after the current one and
    /// returns the new record. When the sequence cannot grow, nothing is
    /// recorded.
    pub fn append(&mut self, mutation: IndexMutation) -> (r: Result<&UpdateRecord, UpdateJournalError>)
        ensures
            old(self)@.current < u64::MAX ==> {
                &&& r matches Ok(rec) && rec@ == ((old(self)@.current + 1) as u64, mutation@)
                &&& final(self)@.current == old(self)@.current + 1
                &&& final(self)@.records == old(self)@.records.push(((old(self)@.current + 1) as u64, mutation@))
            },
            old(self)@.current == u64::MAX ==> r == Err::<&UpdateRecord, UpdateJournalError>(
                UpdateJournalError::SequenceExhausted,
            ) && final(self)@ == old(self)@,
            journal_ordered(final(self)@),
    {
        proof {
            use_type_invariant(&*self);
        }
        let sequence = match self.next_sequence.next() {
            None => {
                return Err(UpdateJournalError::SequenceExhausted);
            },
            Some(s) => s,
        };
        let ghost before = self@;
        let mut records: Vec<UpdateRecord> = Vec::new();
        std::mem::swap(&mut records, &mut self.records);
        assert(record_views(records@) == before.records);
        records.push(UpdateRecord::new(sequence, mutation));
        assert(record_views(records@) =~= before.records.push((sequence@, mutation@)));
        self.next_sequence = sequence;
        self.records = records;
        let last = self.records.len() - 1;
        Ok(&self.records[last])
    }

    /// The records whose sequence is strictly greater than `after`, in
    /// order: the replay boundary of a rebuild.
    pub fn records_after(&self, after: UpdateSequence) -> (r: Vec<&UpdateRecord>)
        ensures
            r@.map_values(|x: &UpdateRecord| x@) == self@.records.filter(recorded_after(after@)),
            journal_ordered(self@),
    {
        proof {
            use_type_invariant(self);
        }
        let ghost rs = self@.records;
        let ghost pred = recorded_after(after@);
        let mut out: Vec<&UpdateRecord> = Vec::new();
        let mut i: usize = 0;
        while i < self.records.len()
            invariant
                0 <= i <= self.records@.len(),
                rs == record_views(self.records@),
                pred == recorded_after(after@),
                out@.map_values(|x: &UpdateRecord| x@) == rs.take(i as int).filter(pred),
            decreases self.records@.len() - i,
        {
            proof {
                lemma_filter_push(rs.take(i as int), rs[i as int], pred);
                assert(rs.take(i + 1) =~= rs.take(i as int).push(rs[i as int]));
            }
            let rec = &self.records[i];
            if rec.sequence.0 > after.0 {
                out.push(rec);
                assert(out@.map_values(|x: &UpdateRecord| x@) =~= rs.take(i as int).filter(pred).push(rs[i as int]));
            }
            i = i + 1;
        }
        assert(rs.take(rs.len() as int) =~= rs);
        out
    }

    /// Consumes the journal and returns its current sequence and records.
    pub fn into_parts(self) -> (r: (UpdateSequence, Vec<UpdateRecord>))
        ensures
            r.0@ == self@.current,
            record_views(r.1@) == self@.records,
    {
        (self.next_sequence, self.records)
    }
}

/// Filtering a sequence extended by one element.
pub proof fn lemma_filter_push<A>(s: Seq<A>, x: A, pred: spec_fn(A) -> bool)
    ensures
        s.push(x).filter(pred) == (if pred(x) {
            s.filter(pred).push(x)
        } else {
            s.filter(pred)
        }),
{
    reveal(Seq::filter);
    assert(s.push(x).drop_last() =~= s);
}

/// Failures of an incremental update.
#[derive(Debug, Eq)]
pub enum UpdateError {
    /// The candidate, or an entry supplied by the mutation, failed
    /// validation.
    Build(BuildError),
    /// No entry of the candidate targets this reference.
    TargetNotFound(ObjectReference),
    /// A unique index already holds this key for another target.
    UniqueKeyConflict { key: KeyMaterial },
    /// The candidate already holds exactly this entry.
    DuplicateEntry(IndexEntry),
    /// The replacement entry of an update targets another reference.
    UpdateTargetMismatch { target: ObjectReference, replacement_target: ObjectReference },
    /// The key material of a key deletion is invalid.
    InvalidDeleteKey(KeyMaterialValidationError),
    /// The journal could not assign a sequence.
    Journal(UpdateJournalError),
}

/// Value of an [`UpdateError`].
pub enum UpdateFault {
    Build(BuildFault),
    TargetNotFound((Seq<char>, Seq<char>)),
    UniqueKeyConflict { key: KeyValue },
    DuplicateEntry(EntryView),
    UpdateTargetMismatch { target: (Seq<char>, Seq<char>), replacement_target: (Seq<char>, Seq<char>) },
    InvalidDeleteKey(KeyFault),
    Journal(UpdateJournalError),
}

impl View for UpdateError {
    type V = UpdateFault;

    open spec fn view(&self) -> UpdateFault {
        match self {
            UpdateError::Build(e) => UpdateFault::Build(e@),
            UpdateError::TargetNotFound(t) => UpdateFault::TargetNotFound(t@),
            UpdateError::UniqueKeyConflict { key } => UpdateFault::UniqueKeyConflict { key: key@ },
            UpdateError::DuplicateEntry(e) => UpdateFault::DuplicateEntry(e@),
            UpdateError::UpdateTargetMismatch { target, replacement_target } => UpdateFault::UpdateTargetMismatch {
                target: target@,
                replacement_target: replacement_target@,
            },
            UpdateError::InvalidDeleteKey(e) => UpdateFault::InvalidDeleteKey(e@),
            UpdateError::Journal(e) => UpdateFault::Journal(*e),
        }
    }
}

impl Clone for UpdateError {
    fn clone(&self) -> (r: Self)
        ensures
            r@ == self@,
    {
        match self {
            UpdateError::Build(e) => UpdateError::Build(e.clone()),
            UpdateError::TargetNotFound(t) => UpdateError::TargetNotFound(t.clone()),
            UpdateError::UniqueKeyConflict { key } => UpdateError::UniqueKeyConflict { key: key.clone() },
            UpdateError::DuplicateEntry(e) => UpdateError::DuplicateEntry(e.clone()),
            UpdateError::UpdateTargetMismatch { target, replacement_target } => UpdateError::UpdateTargetMismatch {
                target: target.clone(),
                replacement_target: replacement_target.clone(),
            },
            UpdateError::InvalidDeleteKey(e) => UpdateError::InvalidDeleteKey(e.clone()),
            UpdateError::Journal(e) => UpdateError::Journal(*e),
        }
    }
}

impl PartialEq for UpdateError {
    fn eq(&self, other: &Self) -> (r: bool) {
        match (self, other) {
            (UpdateError::Build(a), UpdateError::Build(b)) => *a == *b,
            (UpdateError::TargetNotFound(a), UpdateError::TargetNotFound(b)) => *a == *b,
            (UpdateError::UniqueKeyConflict { key: a }, UpdateError::UniqueKeyConflict { key: b }) => *a == *b,
            (UpdateError::DuplicateEntry(a), UpdateError::DuplicateEntry(b)) => *a == *b,
            (
                UpdateError::UpdateTargetMismatch { target: t1, replacement_target: r1 },
                UpdateError::UpdateTargetMismatch { target: t2, replacement_target: r2 },
            ) => *t1 == *t2 && *r1 == *r2,
            (UpdateError::InvalidDeleteKey(a), UpdateError::InvalidDeleteKey(b)) => *a == *b,
            (UpdateError::Journal(a), UpdateError::Journal(b)) => *a == *b,
            _ => false,
        }
    }
}

impl PartialEqSpecImpl for UpdateError {
    open spec fn obeys_eq_spec() -> bool {
        true
    }

    open spec fn eq_spec(&self, other: &Self) -> bool {
        self@ == other@
    }
}

/// Entries that do not target `t`.
pub open spec fn other_target(t: (Seq<char>, Seq<char>)) -> spec_fn(EntryView) -> bool {
    |e: EntryView| e.target != t
}

/// Entries whose key material is not `k`.
pub open spec fn other_key(k: KeyValue) -> spec_fn(EntryView) -> bool {
    |e: EntryView| e.key != k
}

/// Some entry targets `t`.
pub open spec fn has_target(es: Seq<EntryView>, t: (Seq<char>, Seq<char>)) -> bool {
    exists|i: int| 0 <= i < es.len() && es[i].target == t
}

/// Some entry carries key `k`.
pub open spec fn has_key(es: Seq<EntryView>, k: KeyValue) -> bool {
    exists|i: int| 0 <= i < es.len() && es[i].key == k
}

/// Some entry of another target than `t` carries key `k`.
pub open spec fn has_key_elsewhere(es: Seq<EntryView>, t: (Seq<char>, Seq<char>), k: KeyValue) -> bool {
    exists|i: int| 0 <= i < es.len() && es[i].target != t && es[i].key == k
}

/// Position of the first entry targeting `t` at or after `i` (the length
/// when there is none).
pub open spec fn first_target_from(es: Seq<EntryView>, t: (Seq<char>, Seq<char>), i: int) -> int
    decreases es.len() - i,
{
    if i < 0 || i >= es.len() {
        es.len() as int
    } else if es[i].target == t {
        i
    } else {
        first_target_from(es, t, i + 1)
    }
}

/// The fault of an entry supplied by a mutation whose key is invalid: it is
/// reported at the position it would have taken.
pub open spec fn supplied_entry_fault(es: Seq<EntryView>, k: KeyFault) -> UpdateFault {
    UpdateFault::Build(BuildFault::InvalidEntry { position: es.len() as usize, error: k })
}

/// Outcome of inserting `e`: its key must validate, it must not already be
/// present, and a unique index must not hold its key yet; it is appended.
pub open spec fn insert_outcome(u: Uniqueness, es: Seq<EntryView>, e: EntryView) -> Result<Seq<EntryView>, UpdateFault> {
    match key_check(e.key) {
        Err(k) => Err(supplied_entry_fault(es, k)),
        Ok(()) => if es.contains(e) {
            Err(UpdateFault::DuplicateEntry(e))
        } else if u == Uniqueness::Unique && has_key(es, e.key) {
            Err(UpdateFault::UniqueKeyConflict { key: e.key })
        } else {
            Ok(es.push(e))
        },
    }
}

/// Outcome of replacing the entries of `t` by `r`: the replacement's key
/// must validate, it must target `t`, some entry must target `t`, and a
/// unique index must not hold its key for another target. Every entry of
/// `t` is removed and `r` takes the place of the first one.
pub open spec fn update_outcome(
    u: Uniqueness,
    es: Seq<EntryView>,
    t: (Seq<char>, Seq<char>),
    r: EntryView,
) -> Result<Seq<EntryView>, UpdateFault> {
    match key_check(r.key) {
        Err(k) => Err(supplied_entry_fault(es, k)),
        Ok(()) => if r.target != t {
            Err(UpdateFault::UpdateTargetMismatch { target: t, replacement_target: r.target })
        } else if !has_target(es, t) {
            Err(UpdateFault::TargetNotFound(t))
        } else if u == Uniqueness::Unique && has_key_elsewhere(es, t, r.key) {
            Err(UpdateFault::UniqueKeyConflict { key: r.key })
        } else {
            let f = first_target_from(es, t, 0);
            Ok(es.take(f).push(r) + es.skip(f + 1).filter(other_target(t)))
        },
    }
}

/// Outcome of a deletion: by target, some entry must target it and all of
/// them are removed; by key, the key must validate and every entry with
/// exactly that key is removed.
pub open spec fn delete_outcome(es: Seq<EntryView>, s: SelectorView) -> Result<Seq<EntryView>, UpdateFault> {
    match s {
        SelectorView::Target(t) => if has_target(es, t) {
            Ok(es.filter(other_target(t)))
        } else {
            Err(UpdateFault::TargetNotFound(t))
        },
        SelectorView::Key(k) => match key_check(k) {
            Err(e) => Err(UpdateFault::InvalidDeleteKey(e)),
            Ok(()) => Ok(es.filter(other_key(k))),
        },
    }
}

/// Outcome of one mutation on a candidate's entries.
pub open spec fn mutation_outcome(u: Uniqueness, es: Seq<EntryView>, m: MutationView) -> Result<Seq<EntryView>, UpdateFault> {
    match m {
        MutationView::Insert(e) => insert_outcome(u, es, e),
        MutationView::Update { target, replacement } => update_outcome(u, es, target, replacement),
        MutationView::Delete(s) => delete_outcome(es, s),
    }
}

/// Outcome of mutations applied in order; the first failure ends it.
pub open spec fn mutations_outcome(u: Uniqueness, es: Seq<EntryView>, ms: Seq<MutationView>) -> Result<
    Seq<EntryView>,
    UpdateFault,
>
    decreases ms.len(),
{
    if ms.len() == 0 {
        Ok(es)
    } else {
        match mutation_outcome(u, es, ms[0]) {
            Err(f) => Err(f),
            Ok(next) => mutations_outcome(u, next, ms.drop_first()),
        }
    }
}

/// The candidate `c` with entries `es`.
pub open spec fn with_entries(c: CandidateView, es: Seq<EntryView>) -> CandidateView {
    CandidateView { index_id: c.index_id, definition: c.definition, version: c.version, entries: es }
}

/// Outcome of applying mutations to a candidate: the candidate must
/// validate, every mutation must succeed in order, and the result must
/// validate; its identity, definition and version are those of `c`.
pub open spec fn candidate_update(c: CandidateView, ms: Seq<MutationView>) -> Result<CandidateView, UpdateFault> {
    match candidate_check(c) {
        Err(e) => Err(UpdateFault::Build(e)),
        Ok(()) => match mutations_outcome(c.definition.uniqueness, c.entries, ms) {
            Err(f) => Err(f),
            Ok(es) => match candidate_check(with_entries(c, es)) {
                Err(e) => Err(UpdateFault::Build(e)),
                Ok(()) => Ok(with_entries(c, es)),
            },
        },
    }
}

/// A derived candidate is the base under a new version identifier: it keeps
/// the base's index, definition, entries and version metadata, takes each
/// supplied source or schema version, and keeps the base's where none is
/// supplied. Deriving from a valid candidate without new versions always
/// succeeds.
pub proof fn law_derivation_inherits_versions(
    base: CandidateView,
    id: Seq<char>,
    source_version: Option<Seq<char>>,
    schema_version: Option<Seq<char>>,
)
    ensures
        derivation_outcome(base, id, source_version, schema_version) matches Ok(c) ==> {
            &&& c.index_id == base.index_id
            &&& c.definition == base.definition
            &&& c.entries == base.entries
            &&& c.version.id == id
            &&& c.version.metadata == base.version.metadata
            &&& source_version is None ==> c.version.source_version == base.version.source_version
            &&& source_version is Some ==> c.version.source_version == source_version
            &&& schema_version is None ==> c.version.schema_version == base.version.schema_version
            &&& schema_version is Some ==> c.version.schema_version == schema_version
        },
        candidate_check(base) is Ok && source_version is None && schema_version is None ==> derivation_outcome(
            base,
            id,
            source_version,
            schema_version,
        ) is Ok,
{
}

/// The values of a sequence of mutations.
pub open spec fn mutation_views(v: Seq<IndexMutation>) -> Seq<MutationView> {
    v.map_values(|m: IndexMutation| m@)
}

/// Whether some entry of `entries` equals `entry`.
fn contains_entry(entries: &Vec<IndexEntry>, entry: &IndexEntry) -> (r: bool)
    ensures
        r == entry_views(entries@).contains(entry@),
{
    let ghost es = entry_views(entries@);
    let mut i: usize = 0;
    while i < entries.len()
        invariant
            0 <= i <= entries@.len(),
            es == entry_views(entries@),
            forall|j: int| 0 <= j < i ==> es[j] != entry@,
        decreases entries@.len() - i,
    {
        if entries[i] == *entry {
            assert(es[i as int] == entry@);
            return true;
        }
        i = i + 1;
    }
    false
}

/// Whether some entry of `entries` carries `key`, skipping the entries of
/// `except` when one is given.
fn holds_key(entries: &Vec<IndexEntry>, key: &KeyMaterial, except: Option<&ObjectReference>) -> (r: bool)
    ensures
        except is None ==> r == has_key(entry_views(entries@), key@),
        except matches Some(t) ==> r == has_key_elsewhere(entry_views(entries@), t@, key@),
{
    let ghost es = entry_views(entries@);
    let mut i: usize = 0;
    while i < entries.len()
        invariant
            0 <= i <= entries@.len(),
            es == entry_views(entries@),
            except is None ==> forall|j: int| 0 <= j < i ==> es[j].key != key@,
            except matches Some(t) ==> forall|j: int| 0 <= j < i ==> !(es[j].target != t@ && es[j].key == key@),
        decreases entries@.len() - i,
    {
        assert(es[i as int] == entries@[i as int]@);
        let other = match except {
            Some(t) => *entries[i].target() == *t,
            None => false,
        };
        if !other && *entries[i].key() == *key {
            return true;
        }
        i = i + 1;
    }
    false
}

/// Appends `entry` after checking it; on failure the entries are unchanged.
pub fn insert_entry(uniqueness: Uniqueness, entries: &mut Vec<IndexEntry>, entry: IndexEntry) -> (r: Result<(), UpdateError>)
    ensures
        match insert_outcome(uniqueness, entry_views(old(entries)@), entry@) {
            Ok(es) => r is Ok && entry_views(final(entries)@) == es,
            Err(f) => (r matches Err(e) && e@ == f) && final(entries)@ == old(entries)@,
        },
{
    match entry.validate() {
        Err(error) => {
            return Err(UpdateError::Build(BuildError::InvalidEntry { position: entries.len(), error }));
        },
        Ok(()) => {},
    }
    if contains_entry(entries, &entry) {
        return Err(UpdateError::DuplicateEntry(entry));
    }
    if uniqueness == Uniqueness::Unique && holds_key(entries, entry.key(), None) {
        return Err(UpdateError::UniqueKeyConflict { key: entry.key().clone() });
    }
    let ghost before = entry_views(entries@);
    entries.push(entry);
    assert(entry_views(entries@) =~= before.push(entry@));
    Ok(())
}

/// Position of the first entry targeting `target`, if any.
fn first_target(entries: &Vec<IndexEntry>, target: &ObjectReference) -> (r: Option<usize>)
    ensures
        r is None <==> !has_target(entry_views(entries@), target@),
        r matches Some(f) ==> f == first_target_from(entry_views(entries@), target@, 0) && f < entries@.len(),
{
    let ghost es = entry_views(entries@);
    let mut i: usize = 0;
    while i < entries.len()
        invariant
            0 <= i <= entries@.len(),
            es == entry_views(entries@),
            forall|j: int| 0 <= j < i ==> es[j].target != target@,
            first_target_from(es, target@, 0) == first_target_from(es, target@, i as int),
        decreases entries@.len() - i,
    {
        assert(es[i as int] == entries@[i as int]@);
        if *entries[i].target() == *target {
            return Some(i);
        }
        i = i + 1;
    }
    None
}

/// Replaces every entry of `target` by `replacement`, placed where the first
/// one was, after checking it; on failure the entries are unchanged.
pub fn update_entry(
    uniqueness: Uniqueness,
    entries: &mut Vec<IndexEntry>,
    target: ObjectReference,
    replacement: IndexEntry,
) -> (r: Result<(), UpdateError>)
    ensures
        match update_outcome(uniqueness, entry_views(old(entries)@), target@, replacement@) {
            Ok(es) => r is Ok && entry_views(final(entries)@) == es,
            Err(f) => (r matches Err(e) && e@ == f) && final(entries)@ == old(entries)@,
        },
{
    match replacement.validate() {
        Err(error) => {
            return Err(UpdateError::Build(BuildError::InvalidEntry { position: entries.len(), error }));
        },
        Ok(()) => {},
    }
    if !(*replacement.target() == target) {
        let replacement_target = replacement.target().clone();
        return Err(UpdateError::UpdateTargetMismatch { target, replacement_target });
    }
    let first = match first_target(entries, &target) {
        None => {
            return Err(UpdateError::TargetNotFound(target));
        },
        Some(f) => f,
    };
    if uniqueness == Uniqueness::Unique && holds_key(entries, replacement.key(), Some(&target)) {
        return Err(UpdateError::UniqueKeyConflict { key: replacement.key().clone() });
    }
    let ghost es = entry_views(entries@);
    let ghost pred = other_target(target@);
    let mut out: Vec<IndexEntry> = Vec::new();
    let mut i: usize = 0;
    while i < first
        invariant
            0 <= i <= first < entries@.len(),
            es == entry_views(entries@),
            entry_views(out@) == es.take(i as int),
        decreases first - i,
    {
        assert(es[i as int] == entries@[i as int]@);
        let ghost prev = out@;
        out.push(entries[i].clone());
        assert(entry_views(out@) =~= entry_views(prev).push(es[i as int]));
        assert(es.take(i + 1) =~= es.take(i as int).push(es[i as int]));
        i = i + 1;
    }
    out.push(replacement);
    let ghost head = es.take(first as int).push(replacement@);
    assert(entry_views(out@) =~= head);
    assert(first < entries.len());
    let mut j: usize = first + 1;
    while j < entries.len()
        invariant
            first < j <= entries@.len(),
            es == entry_views(entries@),
            pred == other_target(target@),
            entry_views(out@) == head + es.subrange(first + 1, j as int).filter(pred),
        decreases entries@.len() - j,
    {
        proof {
            lemma_filter_push(es.subrange(first + 1, j as int), es[j as int], pred);
            assert(es.subrange(first + 1, j + 1) =~= es.subrange(first + 1, j as int).push(es[j as int]));
        }
        assert(es[j as int] == entries@[j as int]@);
        if !(*entries[j].target() == target) {
            let ghost prev = out@;
            out.push(entries[j].clone());
            assert(entry_views(out@) =~= entry_views(prev).push(es[j as int]));
            assert(entry_views(out@) =~= head + es.subrange(first + 1, j as int).filter(pred).push(es[j as int]));
        }
        j = j + 1;
    }
    assert(es.subrange(first + 1, es.len() as int) =~= es.skip(first + 1));
    *entries = out;
    Ok(())
}

/// Keeps the entries that satisfy `keep_target`/`keep_key`: every entry not
/// targeting `target` (when given) and not carrying `key` (when given).
fn retain_entries(entries: &Vec<IndexEntry>, target: Option<&ObjectReference>, key: Option<&KeyMaterial>) -> (r: Vec<IndexEntry>)
    requires
        target is Some != key is Some,
    ensures
        target matches Some(t) ==> entry_views(r@) == entry_views(entries@).filter(other_target(t@)),
        key matches Some(k) ==> entry_views(r@) == entry_views(entries@).filter(other_key(k@)),
{
    let ghost es = entry_views(entries@);
    let ghost pred = match target {
        Some(t) => other_target(t@),
        None => other_key(key->0@),
    };
    let mut out: Vec<IndexEntry> = Vec::new();
    let mut i: usize = 0;
    while i < entries.len()
        invariant
            0 <= i <= entries@.len(),
            es == entry_views(entries@),
            target is Some != key is Some,
            pred == (match target {
                Some(t) => other_target(t@),
                None => other_key(key->0@),
            }),
            entry_views(out@) == es.take(i as int).filter(pred),
        decreases entries@.len() - i,
    {
        proof {
            lemma_filter_push(es.take(i as int), es[i as int], pred);
            assert(es.take(i + 1) =~= es.take(i as int).push(es[i as int]));
        }
        assert(es[i as int] == entries@[i as int]@);
        let drop = match target {
            Some(t) => *entries[i].target() == *t,
            None => match key {
                Some(k) => *entries[i].key() == *k,
                None => false,
            },
        };
        if !drop {
            let ghost prev = out@;
            out.push(entries[i].clone());
            assert(entry_views(out@) =~= entry_views(prev).push(es[i as int]));
            assert(entry_views(out@) =~= es.take(i as int).filter(pred).push(es[i as int]));
        }
        i = i + 1;
    }
    assert(es.take(es.len() as int) =~= es);
    out
}

/// Removes the selected entries; on failure the entries are unchanged.
pub fn delete_entries(entries: &mut Vec<IndexEntry>, selector: DeleteSelector) -> (r: Result<(), UpdateError>)
    ensures
        match delete_outcome(entry_views(old(entries)@), selector@) {
            Ok(es) => r is Ok && entry_views(final(entries)@) == es,
            Err(f) => (r matches Err(e) && e@ == f) && final(entries)@ == old(entries)@,
        },
{
    match selector {
        DeleteSelector::Target(reference) => {
            match first_target(entries, &reference) {
                None => {
                    return Err(UpdateError::TargetNotFound(reference));
                },
                Some(_) => {},
            }
            let kept = retain_entries(entries, Some(&reference), None);
            *entries = kept;
            Ok(())
        },
        DeleteSelector::Key(key) => {
            match key.validate() {
                Err(e) => {
                    return Err(UpdateError::InvalidDeleteKey(e));
                },
                Ok(()) => {},
            }
            let kept = retain_entries(entries, None, Some(&key));
            *entries = kept;
            Ok(())
        },
    }
}

/// Applies one mutation to the entries; on failure they are unchanged.
pub fn apply_mutation(definition: &IndexDefinition, entries: &mut Vec<IndexEntry>, mutation: IndexMutation) -> (r: Result<
    (),
    UpdateError,
>)
    ensures
        match mutation_outcome(definition@.uniqueness, entry_views(old(entries)@), mutation@) {
            Ok(es) => r is Ok && entry_views(final(entries)@) == es,
            Err(f) => (r matches Err(e) && e@ == f) && final(entries)@ == old(entries)@,
        },
{
    match mutation {
        IndexMutation::Insert(entry) => insert_entry(definition.uniqueness(), entries, entry),
        IndexMutation::Update { target, replacement } => update_entry(definition.uniqueness(), entries, target, replacement),
        IndexMutation::Delete(selector) => delete_entries(entries, selector),
    }
}

/// The candidate derived from `base` for a new version: same identity,
/// definition, entries and metadata; the given source and schema versions,
/// or the base's where none is given.
pub open spec fn derived_candidate(
    base: CandidateView,
    id: Seq<char>,
    source_version: Option<Seq<char>>,
    schema_version: Option<Seq<char>>,
) -> CandidateView {
    CandidateView {
        index_id: base.index_id,
        definition: base.definition,
        version: VersionView {
            id,
            source_version: if source_version is Some {
                source_version
            } else {
                base.version.source_version
            },
            schema_version: if schema_version is Some {
                schema_version
            } else {
                base.version.schema_version
            },
            metadata: base.version.metadata,
        },
        entries: base.entries,
    }
}

/// Outcome of deriving a candidate: the carried metadata must validate,
/// then the derived candidate must validate.
pub open spec fn derivation_outcome(
    base: CandidateView,
    id: Seq<char>,
    source_version: Option<Seq<char>>,
    schema_version: Option<Seq<char>>,
) -> Result<CandidateView, UpdateFault> {
    match option_check(base.version.metadata) {
        Err(k) => Err(UpdateFault::Build(BuildFault::InvalidVersion(k))),
        Ok(()) => match candidate_check(derived_candidate(base, id, source_version, schema_version)) {
            Err(e) => Err(UpdateFault::Build(e)),
            Ok(()) => Ok(derived_candidate(base, id, source_version, schema_version)),
        },
    }
}

/// Stateless operator of incremental updates. Updates are functional: the
/// supplied candidate is never changed, and a new candidate is returned only
/// when every mutation succeeded.
#[derive(Clone, Copy, Debug, PartialEq, Eq, Structural)]
pub struct CandidateUpdater;

impl Default for CandidateUpdater {
    fn default() -> (r: Self) {
        CandidateUpdater
    }
}

impl CandidateUpdater {
    /// Creates an updater.
    pub fn new() -> (r: Self) {
        CandidateUpdater
    }

    /// Derives a new candidate version from `base`, copying its entries and
    /// definition; no active version changes.
    pub fn create_candidate(
        &self,
        base: &BuildCandidate,
        candidate_version_id: IndexVersionId,
        source_version: Option<SourceVersion>,
        schema_version: Option<SchemaVersion>,
    ) -> (r: Result<BuildCandidate, UpdateError>)
        ensures
            match derivation_outcome(base@, candidate_version_id@, view_option(source_version), view_option(schema_version)) {
                Ok(c) => r matches Ok(n) && n@ == c,
                Err(f) => r matches Err(e) && e@ == f,
            },
    {
        let source_version = match source_version {
            Some(v) => Some(v),
            None => match base.version().source_version() {
                Some(v) => Some(v.clone()),
                None => None,
            },
        };
        let schema_version = match schema_version {
            Some(v) => Some(v),
            None => match base.version().schema_version() {
                Some(v) => Some(v.clone()),
                None => None,
            },
        };
        let metadata = match base.version().metadata() {
            Some(m) => Some(m.clone()),
            None => None,
        };
        let version = match IndexVersion::with_metadata(candidate_version_id, source_version, schema_version, metadata) {
            Err(e) => {
                return Err(UpdateError::Build(BuildError::InvalidVersion(e)));
            },
            Ok(v) => v,
        };
        let candidate = BuildCandidate::from_parts(
            *base.index_id(),
            base.definition().clone(),
            version,
            copy_entries(base.entries()),
        );
        match IndexBuilder::validate(&candidate) {
            Err(e) => Err(UpdateError::Build(e)),
            Ok(()) => Ok(candidate),
        }
    }

    /// Applies one mutation, returning a new candidate; `candidate` is not
    /// changed.
    pub fn apply(&self, candidate: &BuildCandidate, mutation: IndexMutation) -> (r: Result<BuildCandidate, UpdateError>)
        ensures
            match candidate_update(candidate@, seq![mutation@]) {
                Ok(c) => r matches Ok(n) && n@ == c,
                Err(f) => r matches Err(e) && e@ == f,
            },
    {
        let ghost m = mutation@;
        let mutations = vec![mutation];
        assert(mutation_views(mutations@) =~= seq![m]);
        self.apply_mutations(candidate, mutations)
    }

    /// Applies mutations in order, all or nothing: a new candidate is
    /// returned only if the candidate validates, every mutation succeeds and
    /// the result validates; `candidate` is not changed.
    pub fn apply_mutations(&self, candidate: &BuildCandidate, mutations: Vec<IndexMutation>) -> (r: Result<
        BuildCandidate,
        UpdateError,
    >)
        ensures
            match candidate_update(candidate@, mutation_views(mutations@)) {
                Ok(c) => r matches Ok(n) && n@ == c,
                Err(f) => r matches Err(e) && e@ == f,
            },
    {
        match IndexBuilder::validate(candidate) {
            Err(e) => {
                return Err(UpdateError::Build(e));
            },
            Ok(()) => {},
        }
        let ghost u = candidate@.definition.uniqueness;
        let ghost ms = mutation_views(mutations@);
        let mut entries = copy_entries(candidate.entries());
        assert(ms.skip(0) =~= ms);
        let mut i: usize = 0;
        while i < mutations.len()
            invariant
                0 <= i <= mutations@.len(),
                ms == mutation_views(mutations@),
                u == candidate@.definition.uniqueness,
                candidate_check(candidate@) is Ok,
                mutations_outcome(u, candidate@.entries, ms) == mutations_outcome(u, entry_views(entries@), ms.skip(i as int)),
            decreases mutations@.len() - i,
        {
            proof {
                assert(ms.skip(i as int).drop_first() =~= ms.skip(i + 1));
                assert(ms.skip(i as int)[0] == ms[i as int]);
            }
            let m = mutations[i].clone();
            match apply_mutation(candidate.definition(), &mut entries, m) {
                Err(e) => {
                    return Err(e);
                },
                Ok(()) => {},
            }
            i = i + 1;
        }
        assert(ms.skip(ms.len() as int) =~= Seq::<MutationView>::empty());
        let updated = BuildCandidate::from_parts(
            *candidate.index_id(),
            candidate.definition().clone(),
            candidate.version().clone(),
            entries,
        );
        match IndexBuilder::validate(&updated) {
            Err(e) => Err(UpdateError::Build(e)),
            Ok(()) => Ok(updated),
        }
    }

    /// Applies one mutation and, only once it succeeded, records it in the
    /// journal; returns the new candidate and the mutation's sequence. A
    /// failed mutation leaves the journal as it was.
    pub fn apply_and_record(&self, candidate: &BuildCandidate, mutation: IndexMutation, journal: &mut UpdateJournal) -> (r:
        Result<(BuildCandidate, UpdateSequence), UpdateError>)
        ensures
            match candidate_update(candidate@, seq![mutation@]) {
                Err(f) => (r matches Err(e) && e@ == f) && final(journal)@ == old(journal)@,
                Ok(c) => if old(journal)@.current == u64::MAX {
                    (r matches Err(e) && e@ == UpdateFault::Journal(UpdateJournalError::SequenceExhausted))
                        && final(journal)@ == old(journal)@
                } else {
                    &&& r matches Ok((n, s)) && n@ == c && s@ == old(journal)@.current + 1
                    &&& final(journal)@.current == old(journal)@.current + 1
                    &&& final(journal)@.records == old(journal)@.records.push(
                        ((old(journal)@.current + 1) as u64, mutation@),
                    )
                },
            },
    {
        let updated = match self.apply(candidate, mutation.clone()) {
            Err(e) => {
                return Err(e);
            },
            Ok(c) => c,
        };
        let sequence = match journal.append(mutation) {
            Err(e) => {
                return Err(UpdateError::Journal(e));
            },
            Ok(record) => record.sequence(),
        };
        Ok((updated, sequence))
    }
}

/// The keys of a sequence of entries are pairwise different.
pub open spec fn keys_distinct(es: Seq<EntryView>) -> bool {
    forall|i: int, j: int| 0 <= i < j < es.len() ==> es[i].key != es[j].key
}

/// What [`first_target_from`] finds: the first position at or after `i`
/// whose entry targets `t`, or the length when none does.
pub proof fn lemma_first_target(es: Seq<EntryView>, t: (Seq<char>, Seq<char>), i: int)
    requires
        0 <= i <= es.len(),
    ensures
        i <= first_target_from(es, t, i) <= es.len(),
        forall|k: int| i <= k < first_target_from(es, t, i) ==> es[k].target != t,
        first_target_from(es, t, i) < es.len() ==> es[first_target_from(es, t, i)].target == t,
    decreases es.len() - i,
{
    if i < es.len() && es[i].target != t {
        lemma_first_target(es, t, i + 1);
    }
}

/// An element of a filtered sequence is an element of the sequence that
/// satisfies the predicate.
pub proof fn lemma_filter_member<A>(s: Seq<A>, p: spec_fn(A) -> bool, i: int)
    requires
        0 <= i < s.filter(p).len(),
    ensures
        s.contains(s.filter(p)[i]),
        p(s.filter(p)[i]),
{
    s.lemma_filter_pred(p, i);
    assert(s.filter(p).contains(s.filter(p)[i]));
    s.lemma_filter_contains_rev(p, s.filter(p)[i]);
}

/// Filtering keeps keys pairwise different.
pub proof fn lemma_filter_keys_distinct(s: Seq<EntryView>, p: spec_fn(EntryView) -> bool)
    requires
        keys_distinct(s),
    ensures
        keys_distinct(s.filter(p)),
    decreases s.len(),
{
    reveal(Seq::filter);
    if s.len() > 0 {
        let d = s.drop_last();
        assert(keys_distinct(d));
        lemma_filter_keys_distinct(d, p);
        if p(s.last()) {
            let sub = d.filter(p);
            assert forall|i: int| 0 <= i < sub.len() implies sub[i].key != s.last().key by {
                lemma_filter_member(d, p, i);
                let k = choose|k: int| 0 <= k < d.len() && d[k] == sub[i];
                assert(s[k] == d[k]);
            }
            assert(keys_distinct(sub.push(s.last())));
        }
    }
}

/// A mutation that succeeds on entries with valid keys leaves entries with
/// valid keys.
pub proof fn lemma_mutation_keeps_entries_valid(u: Uniqueness, es: Seq<EntryView>, m: MutationView)
    requires
        entries_valid(es),
        mutation_outcome(u, es, m) is Ok,
    ensures
        entries_valid(mutation_outcome(u, es, m)->Ok_0),
{
    let out = mutation_outcome(u, es, m)->Ok_0;
    match m {
        MutationView::Insert(e) => {
            assert forall|i: int| 0 <= i < out.len() implies (#[trigger] key_check(out[i].key)) is Ok by {
                if i < es.len() {
                    assert(out[i] == es[i]);
                }
            }
        },
        MutationView::Update { target, replacement } => {
            let f = first_target_from(es, target, 0);
            lemma_first_target(es, target, 0);
            let p = other_target(target);
            let tail = es.skip(f + 1);
            let kept = tail.filter(p);
            assert(out == es.take(f).push(replacement) + kept);
            assert forall|i: int| 0 <= i < out.len() implies (#[trigger] key_check(out[i].key)) is Ok by {
                if i < f {
                    assert(out[i] == es[i]);
                } else if i > f {
                    lemma_filter_member(tail, p, i - f - 1);
                    assert(out[i] == kept[i - f - 1]);
                    let k = choose|k: int| 0 <= k < tail.len() && tail[k] == kept[i - f - 1];
                    assert(tail[k] == es[f + 1 + k]);
                }
            }
        },
        MutationView::Delete(sel) => {
            let p = match sel {
                SelectorView::Target(t) => other_target(t),
                SelectorView::Key(k) => other_key(k),
            };
            assert(out == es.filter(p));
            assert forall|i: int| 0 <= i < out.len() implies (#[trigger] key_check(out[i].key)) is Ok by {
                lemma_filter_member(es, p, i);
                let k = choose|k: int| 0 <= k < es.len() && es[k] == out[i];
            }
        },
    }
}

/// Successful mutations keep entries with valid keys.
pub proof fn lemma_mutations_keep_entries_valid(u: Uniqueness, es: Seq<EntryView>, ms: Seq<MutationView>)
    requires
        entries_valid(es),
        mutations_outcome(u, es, ms) is Ok,
    ensures
        entries_valid(mutations_outcome(u, es, ms)->Ok_0),
    decreases ms.len(),
{
    if ms.len() > 0 {
        lemma_mutation_keeps_entries_valid(u, es, ms[0]);
        lemma_mutations_keep_entries_valid(u, mutation_outcome(u, es, ms[0])->Ok_0, ms.drop_first());
    }
}

/// Updates never produce an invalid candidate: applying mutations to a
/// valid candidate succeeds exactly when every mutation succeeds, and then
/// yields the candidate with the mutated entries and nothing else changed.
pub proof fn law_updates_keep_candidates_valid(c: CandidateView, ms: Seq<MutationView>)
    requires
        candidate_check(c) is Ok,
    ensures
        candidate_update(c, ms) is Ok <==> mutations_outcome(c.definition.uniqueness, c.entries, ms) is Ok,
        candidate_update(c, ms) is Ok ==> candidate_update(c, ms) == Ok::<CandidateView, UpdateFault>(
            with_entries(c, mutations_outcome(c.definition.uniqueness, c.entries, ms)->Ok_0),
        ),
        candidate_update(c, ms) is Ok ==> candidate_check(candidate_update(c, ms)->Ok_0) is Ok,
{
    lemma_entries_check(c.entries, 0);
    let u = c.definition.uniqueness;
    if mutations_outcome(u, c.entries, ms) is Ok {
        let es = mutations_outcome(u, c.entries, ms)->Ok_0;
        lemma_mutations_keep_entries_valid(u, c.entries, ms);
        lemma_entries_check(es, 0);
    }
}

/// An accepted insert appends exactly the inserted entry.
pub proof fn law_insert_appends(c: CandidateView, e: EntryView)
    ensures
        candidate_update(c, seq![MutationView::Insert(e)]) matches Ok(n) ==> n == with_entries(c, c.entries.push(e)),
        candidate_check(c) is Ok && candidate_update(c, seq![MutationView::Insert(e)]) is Err
            ==> insert_outcome(c.definition.uniqueness, c.entries, e) is Err,
{
    let ms = seq![MutationView::Insert(e)];
    lemma_single_mutation(c.definition.uniqueness, c.entries, ms[0]);
    assert(ms =~= seq![ms[0]]);
    if candidate_check(c) is Ok {
        law_updates_keep_candidates_valid(c, ms);
    }
}

/// An accepted deletion removes exactly the selected entries and keeps the
/// others in order.
pub proof fn law_delete_filters(c: CandidateView, s: SelectorView)
    ensures
        candidate_update(c, seq![MutationView::Delete(s)]) matches Ok(n) ==> n == with_entries(
            c,
            match s {
                SelectorView::Target(t) => c.entries.filter(other_target(t)),
                SelectorView::Key(k) => c.entries.filter(other_key(k)),
            },
        ),
{
    let ms = seq![MutationView::Delete(s)];
    lemma_single_mutation(c.definition.uniqueness, c.entries, ms[0]);
    assert(ms =~= seq![ms[0]]);
}

/// Applying a single mutation is that mutation's outcome.
pub proof fn lemma_single_mutation(u: Uniqueness, es: Seq<EntryView>, m: MutationView)
    ensures
        mutations_outcome(u, es, seq![m]) == mutation_outcome(u, es, m),
{
    let ms = seq![m];
    assert(ms.drop_first() =~= Seq::<MutationView>::empty());
    if mutation_outcome(u, es, m) is Ok {
        assert(mutations_outcome(u, mutation_outcome(u, es, m)->Ok_0, ms.drop_first()) == mutation_outcome(u, es, m));
    }
}

/// One mutation keeps the keys of a unique index pairwise different.
pub proof fn lemma_unique_mutation_keeps_keys_distinct(es: Seq<EntryView>, m: MutationView)
    requires
        keys_distinct(es),
        mutation_outcome(Uniqueness::Unique, es, m) is Ok,
    ensures
        keys_distinct(mutation_outcome(Uniqueness::Unique, es, m)->Ok_0),
{
    let out = mutation_outcome(Uniqueness::Unique, es, m)->Ok_0;
    match m {
        MutationView::Insert(e) => {
            assert forall|i: int, j: int| 0 <= i < j < out.len() implies out[i].key != out[j].key by {
                assert(out[i] == es[i]);
                if j == es.len() {
                    assert(!has_key(es, e.key));
                } else {
                    assert(out[j] == es[j]);
                }
            }
        },
        MutationView::Update { target, replacement } => {
            let f = first_target_from(es, target, 0);
            lemma_first_target(es, target, 0);
            let p = other_target(target);
            let tail = es.skip(f + 1);
            let kept = tail.filter(p);
            let head = es.take(f).push(replacement);
            assert(out == head + kept);
            assert(keys_distinct(tail));
            lemma_filter_keys_distinct(tail, p);
            assert(!has_key_elsewhere(es, target, replacement.key));
            assert forall|i: int, j: int| 0 <= i < j < out.len() implies out[i].key != out[j].key by {
                if j < f {
                    assert(out[i] == es[i] && out[j] == es[j]);
                } else if j == f {
                    assert(out[i] == es[i]);
                    assert(es[i].target != target);
                } else {
                    lemma_filter_member(tail, p, j - f - 1);
                    assert(out[j] == kept[j - f - 1]);
                    let k = choose|k: int| 0 <= k < tail.len() && tail[k] == kept[j - f - 1];
                    assert(tail[k] == es[f + 1 + k]);
                    if i < f {
                        assert(out[i] == es[i]);
                    } else if i == f {
                        assert(out[i] == replacement);
                        assert(es[f + 1 + k].target != target);
                    } else {
                        assert(out[i] == kept[i - f - 1]);
                    }
                }
            }
        },
        MutationView::Delete(sel) => {
            let p = match sel {
                SelectorView::Target(t) => other_target(t),
                SelectorView::Key(k) => other_key(k),
            };
            assert(out == es.filter(p));
            lemma_filter_keys_distinct(es, p);
        },
    }
}

/// In a unique index no key ever identifies two entries: successful
/// mutations keep the keys of its entries pairwise different.
pub proof fn law_unique_keys_stay_distinct(es: Seq<EntryView>, ms: Seq<MutationView>)
    requires
        keys_distinct(es),
        mutations_outcome(Uniqueness::Unique, es, ms) is Ok,
    ensures
        keys_distinct(mutations_outcome(Uniqueness::Unique, es, ms)->Ok_0),
    decreases ms.len(),
{
    if ms.len() > 0 {
        lemma_unique_mutation_keeps_keys_distinct(es, ms[0]);
        law_unique_keys_stay_distinct(mutation_outcome(Uniqueness::Unique, es, ms[0])->Ok_0, ms.drop_first());
    }
}

/// Message of a journal failure.
pub open spec fn journal_error_message(e: UpdateJournalError) -> Seq<char> {
    match e {
        UpdateJournalError::SequenceExhausted => "index update sequence is exhausted"@,
    }
}

impl UpdateJournalError {
    /// Returns the failure message.
    pub fn to_string(&self) -> (s: String)
        ensures
            s@ == journal_error_message(*self),
    {
        let mut s = String::new();
        match self {
            UpdateJournalError::SequenceExhausted => {
                push_text(&mut s, "index update sequence is exhausted");
            },
        }
        assert(s@ =~= journal_error_message(*self));
        s
    }
}

/// Message of an update failure.
pub open spec fn update_error_message(e: UpdateFault) -> Seq<char> {
    match e {
        UpdateFault::Build(f) => "candidate update rejected by build validation: "@ + crate::build::builder::build_error_message(f),
        UpdateFault::TargetNotFound(t) => "index update target was not found: "@ + t.0 + "/"@ + t.1,
        UpdateFault::UniqueKeyConflict { key } => "unique index key conflict for "@ + crate::index::key::key_debug(key),
        UpdateFault::DuplicateEntry(entry) => "logical index entry already exists: "@ + crate::index::entry::entry_debug(entry),
        UpdateFault::UpdateTargetMismatch { target, replacement_target } => "update target mismatch: selected "@ + target.0 + "/"@ + target.1 + " but replacement targets "@ + replacement_target.0 + "/"@ + replacement_target.1,
        UpdateFault::InvalidDeleteKey(f) => "invalid delete key material: "@ + crate::index::key::key_error_message(f),
        UpdateFault::Journal(f) => "update journal rejected mutation: "@ + journal_error_message(f),
    }
}

impl UpdateError {
    /// Returns the failure message.
    pub fn to_string(&self) -> (s: String)
        ensures
            s@ == update_error_message(self@),
    {
        let mut s = String::new();
        match self {
            UpdateError::Build(f) => {
                push_text(&mut s, "candidate update rejected by build validation: ");
                let nested = f.to_string();
                push_text(&mut s, nested.as_str());
            },
            UpdateError::TargetNotFound(t) => {
                push_text(&mut s, "index update target was not found: ");
                push_text(&mut s, t.source());
                push_text(&mut s, "/");
                push_text(&mut s, t.object_reference());
            },
            UpdateError::UniqueKeyConflict { key } => {
                push_text(&mut s, "unique index key conflict for ");
                crate::index::key::push_key_debug(&mut s, key);
            },
            UpdateError::DuplicateEntry(entry) => {
                push_text(&mut s, "logical index entry already exists: ");
                let t = entry.debug_text();
                push_text(&mut s, t.as_str());
            },
            UpdateError::UpdateTargetMismatch { target, replacement_target } => {
                push_text(&mut s, "update target mismatch: selected ");
                push_text(&mut s, target.source());
                push_text(&mut s, "/");
                push_text(&mut s, target.object_reference());
                push_text(&mut s, " but replacement targets ");
                push_text(&mut s, replacement_target.source());
                push_text(&mut s, "/");
                push_text(&mut s, replacement_target.object_reference());
            },
            UpdateError::InvalidDeleteKey(f) => {
                push_text(&mut s, "invalid delete key material: ");
                let nested = f.to_string();
                push_text(&mut s, nested.as_str());
            },
            UpdateError::Journal(f) => {
                push_text(&mut s, "update journal rejected mutation: ");
                let nested = f.to_string();
                push_text(&mut s, nested.as_str());
            },
        }
        assert(s@ =~= update_error_message(self@));
        s
    }
}

/// The error report of a journal failure: code `INDEXING.UPDATE.007`, a
/// resource failure, its message, and no details.
pub open spec fn journal_core_parts(e: UpdateJournalError) -> CorePartsView {
    core_parts("INDEXING.UPDATE.007"@, CoreErrorClass::Resource, journal_error_message(e), Seq::empty())
}

impl UpdateJournalError {
    /// The error report of this failure.
    pub fn core_error_parts(&self) -> (r: CoreErrorParts)
        ensures
            r@ == journal_core_parts(*self),
    {
        let details: Vec<(String, String)> = Vec::new();
        assert(detail_views(details@) =~= Seq::<(Seq<char>, Seq<char>)>::empty());
        core_error_parts_of("INDEXING.UPDATE.007", CoreErrorClass::Resource, self.to_string(), details)
    }
}

/// Error code of an update failure.
pub open spec fn update_error_code(e: UpdateFault) -> Seq<char> {
    match e {
        UpdateFault::Build(_) => "INDEXING.UPDATE.001"@,
        UpdateFault::TargetNotFound(_) => "INDEXING.UPDATE.002"@,
        UpdateFault::UniqueKeyConflict { .. } => "INDEXING.UPDATE.003"@,
        UpdateFault::DuplicateEntry(_) => "INDEXING.UPDATE.004"@,
        UpdateFault::UpdateTargetMismatch { .. } => "INDEXING.UPDATE.005"@,
        UpdateFault::InvalidDeleteKey(_) => "INDEXING.UPDATE.006"@,
        UpdateFault::Journal(_) => "INDEXING.UPDATE.007"@,
    }
}

/// Class of an update failure: rejected candidate contents and delete keys
/// are validation failures, an exhausted journal a resource failure, every
/// other a broken contract.
pub open spec fn update_error_class(e: UpdateFault) -> CoreErrorClass {
    match e {
        UpdateFault::Build(_) | UpdateFault::InvalidDeleteKey(_) => CoreErrorClass::Validation,
        UpdateFault::Journal(_) => CoreErrorClass::Resource,
        _ => CoreErrorClass::Contract,
    }
}

/// Diagnostic details of an update failure.
pub open spec fn update_error_details(e: UpdateFault) -> Seq<(Seq<char>, Seq<char>)> {
    match e {
        UpdateFault::TargetNotFound(t) => seq![("target_source"@, t.0), ("target_reference"@, t.1)],
        UpdateFault::UniqueKeyConflict { key } => seq![("conflicting_key"@, crate::index::key::key_debug(key))],
        UpdateFault::DuplicateEntry(entry) => seq![("entry"@, crate::index::entry::entry_debug(entry))],
        UpdateFault::UpdateTargetMismatch { target, replacement_target } => seq![
            ("target_source"@, target.0),
            ("target_reference"@, target.1),
            ("replacement_target_source"@, replacement_target.0),
            ("replacement_target_reference"@, replacement_target.1),
        ],
        _ => Seq::empty(),
    }
}

/// The error report of an update failure.
pub open spec fn update_core_parts(e: UpdateFault) -> CorePartsView {
    core_parts(update_error_code(e), update_error_class(e), update_error_message(e), update_error_details(e))
}

impl UpdateError {
    /// The error report of this failure: its code, class, message and
    /// diagnostic details.
    pub fn core_error_parts(&self) -> (r: CoreErrorParts)
        ensures
            r@ == update_core_parts(self@),
    {
        let message = self.to_string();
        let (code, class, details): (&str, CoreErrorClass, Vec<(String, String)>) = match self {
            UpdateError::Build(_) => ("INDEXING.UPDATE.001", CoreErrorClass::Validation, Vec::new()),
            UpdateError::TargetNotFound(reference) => (
                "INDEXING.UPDATE.002",
                CoreErrorClass::Contract,
                vec![
                    detail("target_source", reference.source().to_owned()),
                    detail("target_reference", reference.object_reference().to_owned()),
                ],
            ),
            UpdateError::UniqueKeyConflict { key } => (
                "INDEXING.UPDATE.003",
                CoreErrorClass::Contract,
                vec![detail("conflicting_key", key.debug_text())],
            ),
            UpdateError::DuplicateEntry(entry) => (
                "INDEXING.UPDATE.004",
                CoreErrorClass::Contract,
                vec![detail("entry", entry.debug_text())],
            ),
            UpdateError::UpdateTargetMismatch { target, replacement_target } => (
                "INDEXING.UPDATE.005",
                CoreErrorClass::Contract,
                vec![
                    detail("target_source", target.source().to_owned()),
                    detail("target_reference", target.object_reference().to_owned()),
                    detail("replacement_target_source", replacement_target.source().to_owned()),
                    detail("replacement_target_reference", replacement_target.object_reference().to_owned()),
                ],
            ),
            UpdateError::InvalidDeleteKey(_) => ("INDEXING.UPDATE.006", CoreErrorClass::Validation, Vec::new()),
            UpdateError::Journal(_) => ("INDEXING.UPDATE.007", CoreErrorClass::Resource, Vec::new()),
        };
        assert(code@ == update_error_code(self@));
        assert(detail_views(details@) =~= update_error_details(self@));
        core_error_parts_of(code, class, message, details)
    }
}

} // verus!
