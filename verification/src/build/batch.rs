//! Bounded batches of mutations: the stream is cut into chunks of at most a
//! caller-chosen size, and each chunk is applied to the candidate and
//! recorded in the journal as one transaction. Chunks before a failing one
//! stay committed; nothing of the failing chunk is, and later input is not
//! processed.

use crate::build::builder::{BuildCandidate, CandidateView};
use crate::build::update::{
    candidate_update, journal_core_parts, mutation_views, update_core_parts, CandidateUpdater,
    IndexMutation, JournalView, MutationView, UpdateError, UpdateFault, UpdateJournal,
    UpdateJournalError,
};
use vstd::prelude::*;
use crate::message::{decimal_text, push_decimal, push_text};
use crate::diagnostic::{
    core_error_parts_of, core_parts, decimal_string, detail, detail_views, with_details, CoreErrorClass,
    CoreErrorParts, CorePartsView,
};
use vstd::std_specs::cmp::PartialEqSpecImpl;

verus! {

/// Configuration failures of batch execution.
#[derive(Clone, Copy, Debug, PartialEq, Eq, Structural)]
pub enum BatchOptionsError {
    /// A chunk of size zero would make no progress.
    ZeroChunkSize,
}

/// Batch configuration: the largest number of mutations in one chunk, which
/// is never zero.
#[derive(Clone, Copy, Debug, PartialEq, Eq, Structural)]
pub struct BatchOptions {
    chunk_size: usize,
}

impl View for BatchOptions {
    type V = usize;

    closed spec fn view(&self) -> usize {
        self.chunk_size
    }
}

impl BatchOptions {
    #[verifier::type_invariant]
    spec fn well_formed(self) -> bool {
        self.chunk_size > 0
    }

    /// Options with the given chunk size, which must be positive.
    pub fn new(chunk_size: usize) -> (r: Result<Self, BatchOptionsError>)
        ensures
            chunk_size == 0 <==> r == Err::<Self, BatchOptionsError>(BatchOptionsError::ZeroChunkSize),
            r matches Ok(o) ==> o@ == chunk_size,
    {
        if chunk_size == 0 {
            Err(BatchOptionsError::ZeroChunkSize)
        } else {
            Ok(BatchOptions { chunk_size })
        }
    }

    /// The largest number of mutations in one chunk; never zero.
    pub fn chunk_size(self) -> (r: usize)
        ensures
            r == self@,
            r > 0,
    {
        proof {
            use_type_invariant(&self);
        }
        self.chunk_size
    }
}

/// Value of a [`BatchResult`].
pub struct BatchView {
    pub candidate: CandidateView,
    pub journal: JournalView,
    pub completed_chunks: nat,
    pub applied_mutations: nat,
}

/// The state committed by the completed chunks of a batch.
#[derive(Debug, Eq)]
pub struct BatchResult {
    candidate: BuildCandidate,
    journal: UpdateJournal,
    completed_chunks: usize,
    applied_mutations: usize,
}

impl View for BatchResult {
    type V = BatchView;

    closed spec fn view(&self) -> BatchView {
        BatchView {
            candidate: self.candidate@,
            journal: self.journal@,
            completed_chunks: self.completed_chunks as nat,
            applied_mutations: self.applied_mutations as nat,
        }
    }
}

impl Clone for BatchResult {
    fn clone(&self) -> (r: Self)
        ensures
            r@ == self@,
    {
        BatchResult {
            candidate: self.candidate.clone(),
            journal: self.journal.clone(),
            completed_chunks: self.completed_chunks,
            applied_mutations: self.applied_mutations,
        }
    }
}

impl PartialEq for BatchResult {
    fn eq(&self, other: &Self) -> (r: bool) {
        self.candidate == other.candidate && self.journal == other.journal && self.completed_chunks
            == other.completed_chunks && self.applied_mutations == other.applied_mutations
    }
}

impl PartialEqSpecImpl for BatchResult {
    open spec fn obeys_eq_spec() -> bool {
        true
    }

    open spec fn eq_spec(&self, other: &Self) -> bool {
        self@ == other@
    }
}

impl BatchResult {
    /// The candidate with every committed chunk.
    pub fn candidate(&self) -> (r: &BuildCandidate)
        ensures
            r@ == self@.candidate,
    {
        &self.candidate
    }

    /// The journal with every committed mutation.
    pub fn journal(&self) -> (r: &UpdateJournal)
        ensures
            r@ == self@.journal,
    {
        &self.journal
    }

    /// The number of committed chunks.
    pub fn completed_chunks(&self) -> (r: usize)
        ensures
            r == self@.completed_chunks,
    {
        self.completed_chunks
    }

    /// The number of committed mutations.
    pub fn applied_mutations(&self) -> (r: usize)
        ensures
            r == self@.applied_mutations,
    {
        self.applied_mutations
    }

    /// Consumes the result and returns its committed state.
    pub fn into_parts(self) -> (r: (BuildCandidate, UpdateJournal, usize, usize))
        ensures
            r.0@ == self@.candidate,
            r.1@ == self@.journal,
            r.2 == self@.completed_chunks,
            r.3 == self@.applied_mutations,
    {
        (self.candidate, self.journal, self.completed_chunks, self.applied_mutations)
    }
}

/// Failure of one chunk.
#[derive(Debug, Eq)]
pub enum BatchChunkError {
    /// Applying the chunk's mutations failed.
    Update(UpdateError),
    /// The journal could not record the chunk.
    Journal(UpdateJournalError),
}

/// Value of a [`BatchChunkError`].
pub enum ChunkFault {
    Update(UpdateFault),
    Journal(UpdateJournalError),
}

impl View for BatchChunkError {
    type V = ChunkFault;

    open spec fn view(&self) -> ChunkFault {
        match self {
            BatchChunkError::Update(e) => ChunkFault::Update(e@),
            BatchChunkError::Journal(e) => ChunkFault::Journal(*e),
        }
    }
}

impl Clone for BatchChunkError {
    fn clone(&self) -> (r: Self)
        ensures
            r@ == self@,
    {
        match self {
            BatchChunkError::Update(e) => BatchChunkError::Update(e.clone()),
            BatchChunkError::Journal(e) => BatchChunkError::Journal(*e),
        }
    }
}

impl PartialEq for BatchChunkError {
    fn eq(&self, other: &Self) -> (r: bool) {
        match (self, other) {
            (BatchChunkError::Update(a), BatchChunkError::Update(b)) => *a == *b,
            (BatchChunkError::Journal(a), BatchChunkError::Journal(b)) => *a == *b,
            _ => false,
        }
    }
}

impl PartialEqSpecImpl for BatchChunkError {
    open spec fn obeys_eq_spec() -> bool {
        true
    }

    open spec fn eq_spec(&self, other: &Self) -> bool {
        self@ == other@
    }
}

/// Failure of batch execution.
#[derive(Debug, Eq)]
pub enum BatchError {
    /// The options are invalid.
    InvalidOptions(BatchOptionsError),
    /// A chunk failed; `committed` is the state after the chunks before it.
    ChunkFailed { chunk_index: usize, error: BatchChunkError, committed: BatchResult },
}

/// Value of a [`BatchError`].
pub enum BatchFault {
    InvalidOptions(BatchOptionsError),
    ChunkFailed { chunk_index: usize, error: ChunkFault, committed: BatchView },
}

impl View for BatchError {
    type V = BatchFault;

    open spec fn view(&self) -> BatchFault {
        match self {
            BatchError::InvalidOptions(e) => BatchFault::InvalidOptions(*e),
            BatchError::ChunkFailed { chunk_index, error, committed } => BatchFault::ChunkFailed {
                chunk_index: *chunk_index,
                error: error@,
                committed: committed@,
            },
        }
    }
}

impl Clone for BatchError {
    fn clone(&self) -> (r: Self)
        ensures
            r@ == self@,
    {
        match self {
            BatchError::InvalidOptions(e) => BatchError::InvalidOptions(*e),
            BatchError::ChunkFailed { chunk_index, error, committed } => BatchError::ChunkFailed {
                chunk_index: *chunk_index,
                error: error.clone(),
                committed: committed.clone(),
            },
        }
    }
}

impl PartialEq for BatchError {
    fn eq(&self, other: &Self) -> (r: bool) {
        match (self, other) {
            (BatchError::InvalidOptions(a), BatchError::InvalidOptions(b)) => *a == *b,
            (
                BatchError::ChunkFailed { chunk_index: i1, error: e1, committed: c1 },
                BatchError::ChunkFailed { chunk_index: i2, error: e2, committed: c2 },
            ) => *i1 == *i2 && *e1 == *e2 && *c1 == *c2,
            _ => false,
        }
    }
}

impl PartialEqSpecImpl for BatchError {
    open spec fn obeys_eq_spec() -> bool {
        true
    }

    open spec fn eq_spec(&self, other: &Self) -> bool {
        self@ == other@
    }
}

/// The journal after recording `ms` in order, each under the sequence after
/// the previous one.
pub open spec fn journal_extend(j: JournalView, ms: Seq<MutationView>) -> JournalView {
    JournalView {
        current: (j.current + ms.len()) as u64,
        records: j.records + Seq::new(ms.len(), |i: int| ((j.current + 1 + i) as u64, ms[i])),
    }
}

/// The committed state before any chunk.
pub open spec fn batch_start(c: CandidateView, j: JournalView) -> BatchView {
    BatchView { candidate: c, journal: j, completed_chunks: 0, applied_mutations: 0 }
}

/// A chunk failure: the chunk's index, the fault, and the committed state.
pub type ChunkFailure = (nat, ChunkFault, BatchView);

/// Outcome of executing the chunks of `ms` that start at `start`, the first
/// of them being chunk `index`, from the committed state `st`: each chunk of
/// at most `k` mutations is applied to the candidate, then recorded in the
/// journal, and committed only when both succeed; the first failure ends the
/// batch with the state committed before it.
pub open spec fn batch_from(st: BatchView, ms: Seq<MutationView>, k: nat, index: nat, start: int) -> Result<
    BatchView,
    ChunkFailure,
>
    decreases ms.len() - start,
{
    if k == 0 || start < 0 || start >= ms.len() {
        Ok(st)
    } else {
        let end = if start + k < ms.len() {
            start + k
        } else {
            ms.len() as int
        };
        let chunk = ms.subrange(start, end);
        match candidate_update(st.candidate, chunk) {
            Err(f) => Err((index, ChunkFault::Update(f), st)),
            Ok(n) => if st.journal.current + chunk.len() > u64::MAX {
                Err((index, ChunkFault::Journal(UpdateJournalError::SequenceExhausted), st))
            } else {
                batch_from(
                    BatchView {
                        candidate: n,
                        journal: journal_extend(st.journal, chunk),
                        completed_chunks: st.completed_chunks + 1,
                        applied_mutations: st.applied_mutations + chunk.len(),
                    },
                    ms,
                    k,
                    index + 1,
                    end,
                )
            },
        }
    }
}

/// Outcome of a whole batch.
pub open spec fn batch_outcome(c: CandidateView, j: JournalView, ms: Seq<MutationView>, k: nat) -> Result<
    BatchView,
    ChunkFailure,
> {
    batch_from(batch_start(c, j), ms, k, 0, 0)
}

/// Outcome of executing only the first chunk of `ms`.
pub open spec fn one_chunk_outcome(c: CandidateView, j: JournalView, ms: Seq<MutationView>, k: nat) -> Result<
    BatchView,
    ChunkFailure,
> {
    batch_outcome(c, j, ms.take(if k < ms.len() { k as int } else { ms.len() as int }), k)
}

/// The error that reports a chunk failure.
pub open spec fn failure_fault(f: ChunkFailure) -> BatchFault {
    BatchFault::ChunkFailed { chunk_index: f.0 as usize, error: f.1, committed: f.2 }
}

/// Records `chunk` in a copy of `journal`; `None` when the sequence would
/// run out.
fn record_chunk(journal: &UpdateJournal, chunk: &Vec<IndexMutation>) -> (r: Option<UpdateJournal>)
    ensures
        journal@.current + chunk@.len() > u64::MAX ==> r is None,
        journal@.current + chunk@.len() <= u64::MAX ==> (r matches Some(j) && j@ == journal_extend(
            journal@,
            mutation_views(chunk@),
        )),
{
    let ghost ms = mutation_views(chunk@);
    let mut out = journal.clone();
    let mut i: usize = 0;
    while i < chunk.len()
        invariant
            0 <= i <= chunk@.len(),
            ms == mutation_views(chunk@),
            journal@.current + i <= u64::MAX,
            out@ == journal_extend(journal@, ms.take(i as int)),
        decreases chunk@.len() - i,
    {
        if out.current_sequence().value() == u64::MAX {
            return None;
        }
        let ghost before = out@;
        match out.append(chunk[i].clone()) {
            Err(_) => {
                return None;
            },
            Ok(_) => {},
        }
        proof {
            assert(ms.take(i + 1) =~= ms.take(i as int).push(ms[i as int]));
            assert(out@.records =~= journal_extend(journal@, ms.take(i + 1)).records);
        }
        i = i + 1;
    }
    assert(ms.take(chunk@.len() as int) =~= ms);
    Some(out)
}

/// Copy of a sequence of mutations.
fn copy_mutations(v: &Vec<IndexMutation>) -> (r: Vec<IndexMutation>)
    ensures
        mutation_views(r@) == mutation_views(v@),
{
    let mut out: Vec<IndexMutation> = Vec::new();
    let mut i: usize = 0;
    while i < v.len()
        invariant
            0 <= i <= v@.len(),
            out@.len() == i,
            forall|j: int| 0 <= j < i ==> (#[trigger] out@[j])@ == v@[j]@,
        decreases v@.len() - i,
    {
        out.push(v[i].clone());
        i = i + 1;
    }
    assert(mutation_views(out@) =~= mutation_views(v@));
    out
}

/// Stateless executor of bounded batches. The supplied candidate and journal
/// are never changed.
#[derive(Clone, Copy, Debug, PartialEq, Eq, Structural)]
pub struct BatchExecutor {
    updater: CandidateUpdater,
}

impl Default for BatchExecutor {
    fn default() -> (r: Self) {
        BatchExecutor::new()
    }
}

impl BatchExecutor {
    /// Creates an executor.
    pub fn new() -> (r: Self) {
        BatchExecutor { updater: CandidateUpdater::new() }
    }

    /// Applies `mutations` in chunks of at most `options` mutations; see
    /// [`batch_from`].
    pub fn execute(
        &self,
        candidate: &BuildCandidate,
        journal: &UpdateJournal,
        mutations: Vec<IndexMutation>,
        options: BatchOptions,
    ) -> (r: Result<BatchResult, BatchError>)
        ensures
            match batch_outcome(candidate@, journal@, mutation_views(mutations@), options@ as nat) {
                Ok(st) => r matches Ok(res) && res@ == st,
                Err(f) => r matches Err(e) && e@ == failure_fault(f),
            },
    {
        let k = options.chunk_size();
        let ghost ms = mutation_views(mutations@);
        let mut committed = BatchResult {
            candidate: candidate.clone(),
            journal: journal.clone(),
            completed_chunks: 0,
            applied_mutations: 0,
        };
        let mut chunk_index: usize = 0;
        let mut start: usize = 0;
        while start < mutations.len()
            invariant
                0 <= start <= mutations@.len(),
                k > 0,
                k == options@,
                ms == mutation_views(mutations@),
                chunk_index <= start,
                committed@.completed_chunks == chunk_index,
                committed@.applied_mutations == start,
                batch_outcome(candidate@, journal@, ms, k as nat) == batch_from(
                    committed@,
                    ms,
                    k as nat,
                    chunk_index as nat,
                    start as int,
                ),
            decreases mutations@.len() - start,
        {
            let end = if k < mutations.len() - start {
                start + k
            } else {
                mutations.len()
            };
            let mut chunk: Vec<IndexMutation> = Vec::new();
            let mut i: usize = start;
            while i < end
                invariant
                    start <= i <= end <= mutations@.len(),
                    ms == mutation_views(mutations@),
                    mutation_views(chunk@) == ms.subrange(start as int, i as int),
                decreases end - i,
            {
                let ghost prev = chunk@;
                chunk.push(mutations[i].clone());
                assert(mutation_views(chunk@) =~= mutation_views(prev).push(ms[i as int]));
                assert(ms.subrange(start as int, i + 1) =~= ms.subrange(start as int, i as int).push(ms[i as int]));
                i = i + 1;
            }
            let n = chunk.len();
            let updated_candidate = match self.updater.apply_mutations(&committed.candidate, copy_mutations(&chunk)) {
                Err(error) => {
                    return Err(
                        BatchError::ChunkFailed { chunk_index, error: BatchChunkError::Update(error), committed },
                    );
                },
                Ok(c) => c,
            };
            let updated_journal = match record_chunk(&committed.journal, &chunk) {
                None => {
                    return Err(
                        BatchError::ChunkFailed {
                            chunk_index,
                            error: BatchChunkError::Journal(UpdateJournalError::SequenceExhausted),
                            committed,
                        },
                    );
                },
                Some(j) => j,
            };
            committed = BatchResult {
                candidate: updated_candidate,
                journal: updated_journal,
                completed_chunks: chunk_index + 1,
                applied_mutations: start + n,
            };
            chunk_index = chunk_index + 1;
            start = end;
        }
        Ok(committed)
    }

    /// Applies only the first chunk of `mutations`, never more than
    /// `options` mutations, with the same transactional boundary.
    pub fn execute_one_chunk(
        &self,
        candidate: &BuildCandidate,
        journal: &UpdateJournal,
        mutations: Vec<IndexMutation>,
        options: BatchOptions,
    ) -> (r: Result<BatchResult, BatchError>)
        ensures
            match one_chunk_outcome(candidate@, journal@, mutation_views(mutations@), options@ as nat) {
                Ok(st) => r matches Ok(res) && res@ == st,
                Err(f) => r matches Err(e) && e@ == failure_fault(f),
            },
    {
        let k = options.chunk_size();
        let ghost ms = mutation_views(mutations@);
        let end = if k < mutations.len() {
            k
        } else {
            mutations.len()
        };
        let mut chunk: Vec<IndexMutation> = Vec::new();
        let mut i: usize = 0;
        while i < end
            invariant
                0 <= i <= end <= mutations@.len(),
                ms == mutation_views(mutations@),
                mutation_views(chunk@) == ms.take(i as int),
            decreases end - i,
        {
            let ghost prev = chunk@;
            chunk.push(mutations[i].clone());
            assert(mutation_views(chunk@) =~= mutation_views(prev).push(ms[i as int]));
            assert(ms.take(i + 1) =~= ms.take(i as int).push(ms[i as int]));
            i = i + 1;
        }
        proof {
            let c = ms.take(end as int);
            assert(mutation_views(chunk@) == c);
            if c.len() > 0 {
                assert(c.subrange(0, c.len() as int) =~= c);
            }
        }
        self.execute(candidate, journal, chunk, options)
    }
}

/// Recording `a` and then `b` is recording `a + b`.
pub proof fn lemma_journal_extend_concat(j: JournalView, a: Seq<MutationView>, b: Seq<MutationView>)
    requires
        j.current + a.len() + b.len() <= u64::MAX,
    ensures
        journal_extend(journal_extend(j, a), b) == journal_extend(j, a + b),
{
    let l = journal_extend(journal_extend(j, a), b);
    let r = journal_extend(j, a + b);
    assert(l.records =~= r.records);
}

/// Shape of a failing batch run: the failure is at a chunk boundary before
/// the end of the input, and running the same chunks on the input cut at
/// that boundary succeeds with exactly the committed state.
pub proof fn lemma_batch_from_failure(st: BatchView, ms: Seq<MutationView>, k: nat, index: nat, start: int)
    requires
        k > 0,
        0 <= start <= ms.len(),
    ensures
        batch_from(st, ms, k, index, start) matches Err(fail) ==> {
            let end = start + (fail.0 - index) * k;
            &&& index <= fail.0
            &&& end < ms.len()
            &&& batch_from(st, ms.take(end), k, index, start) == Ok::<BatchView, ChunkFailure>(fail.2)
            &&& fail.2.completed_chunks == st.completed_chunks + (fail.0 - index)
            &&& fail.2.applied_mutations == st.applied_mutations + (end - start)
        },
    decreases ms.len() - start,
{
    if start < ms.len() {
        let end1 = if start + k < ms.len() {
            start + k
        } else {
            ms.len() as int
        };
        let chunk = ms.subrange(start, end1);
        match candidate_update(st.candidate, chunk) {
            Err(f) => {
                assert(batch_from(st, ms.take(start), k, index, start) == Ok::<BatchView, ChunkFailure>(st));
            },
            Ok(n) => {
                if st.journal.current + chunk.len() > u64::MAX {
                    assert(batch_from(st, ms.take(start), k, index, start) == Ok::<BatchView, ChunkFailure>(st));
                } else {
                    let next = BatchView {
                        candidate: n,
                        journal: journal_extend(st.journal, chunk),
                        completed_chunks: st.completed_chunks + 1,
                        applied_mutations: st.applied_mutations + chunk.len(),
                    };
                    lemma_batch_from_failure(next, ms, k, index + 1, end1);
                    if let Err(fail) = batch_from(next, ms, k, index + 1, end1) {
                        let ci = fail.0;
                        let end2 = end1 + (ci - (index + 1)) * k;
                        assert(end1 == start + k);
                        assert(end2 == start + (ci - index) * k) by (nonlinear_arith)
                            requires
                                end2 == end1 + (ci - (index + 1)) * k,
                                end1 == start + k,
                                ci >= index + 1,
                        ;
                        assert(end2 >= end1) by (nonlinear_arith)
                            requires
                                end2 == end1 + (ci - (index + 1)) * k,
                                ci >= index + 1,
                                k > 0,
                        ;
                        let cut = ms.take(end2);
                        assert(cut.subrange(start, end1) =~= chunk);
                        assert(batch_from(st, cut, k, index, start) == batch_from(next, cut, k, index + 1, end1));
                    }
                }
            },
        }
    }
}

/// A batch never commits part of a chunk: when chunk `i` fails, the state
/// it reports is exactly what the first `i` chunks commit on their own, and
/// later input is not looked at.
pub proof fn law_failed_batch_commits_whole_chunks(c: CandidateView, j: JournalView, ms: Seq<MutationView>, k: nat)
    requires
        k > 0,
    ensures
        batch_outcome(c, j, ms, k) matches Err(fail) ==> {
            &&& fail.0 * k < ms.len()
            &&& batch_outcome(c, j, ms.take((fail.0 * k) as int), k) == Ok::<BatchView, ChunkFailure>(fail.2)
            &&& fail.2.completed_chunks == fail.0
            &&& fail.2.applied_mutations == fail.0 * k
        },
{
    lemma_batch_from_failure(batch_start(c, j), ms, k, 0, 0);
}

/// A successful run from `start` commits every remaining mutation and
/// records them all, in order.
pub proof fn lemma_batch_from_success(st: BatchView, ms: Seq<MutationView>, k: nat, index: nat, start: int)
    requires
        k > 0,
        0 <= start <= ms.len(),
    ensures
        batch_from(st, ms, k, index, start) matches Ok(done) ==> {
            &&& done.applied_mutations == st.applied_mutations + (ms.len() - start)
            &&& done.journal == journal_extend(st.journal, ms.skip(start))
            &&& st.journal.current + (ms.len() - start) <= u64::MAX
        },
    decreases ms.len() - start,
{
    if start < ms.len() {
        let end1 = if start + k < ms.len() {
            start + k
        } else {
            ms.len() as int
        };
        let chunk = ms.subrange(start, end1);
        if let Ok(n) = candidate_update(st.candidate, chunk) {
            if st.journal.current + chunk.len() <= u64::MAX {
                let next = BatchView {
                    candidate: n,
                    journal: journal_extend(st.journal, chunk),
                    completed_chunks: st.completed_chunks + 1,
                    applied_mutations: st.applied_mutations + chunk.len(),
                };
                lemma_batch_from_success(next, ms, k, index + 1, end1);
                if let Ok(done) = batch_from(next, ms, k, index + 1, end1) {
                    assert(ms.skip(start) =~= chunk + ms.skip(end1));
                    lemma_journal_extend_concat(st.journal, chunk, ms.skip(end1));
                }
            }
        }
    } else {
        assert(journal_extend(st.journal, ms.skip(start)).records =~= st.journal.records);
    }
}

/// A successful batch commits every mutation and records all of them in the
/// journal, in input order, under consecutive sequences.
pub proof fn law_successful_batch_records_everything(c: CandidateView, j: JournalView, ms: Seq<MutationView>, k: nat)
    requires
        k > 0,
    ensures
        batch_outcome(c, j, ms, k) matches Ok(done) ==> {
            &&& done.applied_mutations == ms.len()
            &&& done.journal == journal_extend(j, ms)
        },
{
    lemma_batch_from_success(batch_start(c, j), ms, k, 0, 0);
    assert(ms.skip(0) =~= ms);
}

/// Message of an options failure.
pub open spec fn batch_options_error_message(e: BatchOptionsError) -> Seq<char> {
    match e {
        BatchOptionsError::ZeroChunkSize => "batch chunk size must be greater than zero"@,
    }
}

impl BatchOptionsError {
    /// Returns the failure message.
    pub fn to_string(&self) -> (s: String)
        ensures
            s@ == batch_options_error_message(*self),
    {
        let mut s = String::new();
        match self {
            BatchOptionsError::ZeroChunkSize => {
                push_text(&mut s, "batch chunk size must be greater than zero");
            },
        }
        assert(s@ =~= batch_options_error_message(*self));
        s
    }
}

/// Message of a chunk failure.
pub open spec fn chunk_error_message(e: ChunkFault) -> Seq<char> {
    match e {
        ChunkFault::Update(f) => "batch chunk update failed: "@ + crate::build::update::update_error_message(f),
        ChunkFault::Journal(f) => "batch chunk journal failed: "@ + crate::build::update::journal_error_message(f),
    }
}

impl BatchChunkError {
    /// Returns the failure message.
    pub fn to_string(&self) -> (s: String)
        ensures
            s@ == chunk_error_message(self@),
    {
        let mut s = String::new();
        match self {
            BatchChunkError::Update(f) => {
                push_text(&mut s, "batch chunk update failed: ");
                let nested = f.to_string();
                push_text(&mut s, nested.as_str());
            },
            BatchChunkError::Journal(f) => {
                push_text(&mut s, "batch chunk journal failed: ");
                let nested = f.to_string();
                push_text(&mut s, nested.as_str());
            },
        }
        assert(s@ =~= chunk_error_message(self@));
        s
    }
}

/// Message of a batch failure.
pub open spec fn batch_error_message(e: BatchFault) -> Seq<char> {
    match e {
        BatchFault::InvalidOptions(f) => "invalid batch options: "@ + batch_options_error_message(f),
        BatchFault::ChunkFailed { chunk_index, error, .. } => "batch chunk "@ + decimal_text(chunk_index as nat) + " failed: "@ + chunk_error_message(error),
    }
}

impl BatchError {
    /// Returns the failure message.
    pub fn to_string(&self) -> (s: String)
        ensures
            s@ == batch_error_message(self@),
    {
        let mut s = String::new();
        match self {
            BatchError::InvalidOptions(f) => {
                push_text(&mut s, "invalid batch options: ");
                let nested = f.to_string();
                push_text(&mut s, nested.as_str());
            },
            BatchError::ChunkFailed { chunk_index, error, .. } => {
                push_text(&mut s, "batch chunk ");
                push_decimal(&mut s, *chunk_index as u128);
                push_text(&mut s, " failed: ");
                let nested = error.to_string();
                push_text(&mut s, nested.as_str());
            },
        }
        assert(s@ =~= batch_error_message(self@));
        s
    }
}

/// The error report of an options failure: code `INDEXING.BATCH.001`, a
/// validation failure, its message, and no details.
pub open spec fn batch_options_core_parts(e: BatchOptionsError) -> CorePartsView {
    core_parts("INDEXING.BATCH.001"@, CoreErrorClass::Validation, batch_options_error_message(e), Seq::empty())
}

impl BatchOptionsError {
    /// The error report of this failure.
    pub fn core_error_parts(&self) -> (r: CoreErrorParts)
        ensures
            r@ == batch_options_core_parts(*self),
    {
        let details: Vec<(String, String)> = Vec::new();
        assert(detail_views(details@) =~= Seq::<(Seq<char>, Seq<char>)>::empty());
        core_error_parts_of("INDEXING.BATCH.001", CoreErrorClass::Validation, self.to_string(), details)
    }
}

/// The error report of a chunk failure: that of the update or journal
/// failure inside it.
pub open spec fn chunk_core_parts(e: ChunkFault) -> CorePartsView {
    match e {
        ChunkFault::Update(f) => update_core_parts(f),
        ChunkFault::Journal(f) => journal_core_parts(f),
    }
}

impl BatchChunkError {
    /// The error report of this failure.
    pub fn core_error_parts(&self) -> (r: CoreErrorParts)
        ensures
            r@ == chunk_core_parts(self@),
    {
        match self {
            BatchChunkError::Update(e) => e.core_error_parts(),
            BatchChunkError::Journal(e) => e.core_error_parts(),
        }
    }
}

/// The error report of a batch failure: invalid options report as such; a
/// failed chunk reports as the failure inside it, with the chunk's index and
/// the committed chunk and mutation counts appended as details.
pub open spec fn batch_core_parts(e: BatchFault) -> CorePartsView {
    match e {
        BatchFault::InvalidOptions(f) => batch_options_core_parts(f),
        BatchFault::ChunkFailed { chunk_index, error, committed } => {
            let inner = chunk_core_parts(error);
            core_parts(
                inner.code,
                inner.class,
                inner.message,
                inner.details + seq![
                    ("batch_chunk"@, decimal_text(chunk_index as nat)),
                    ("completed_chunks"@, decimal_text(committed.completed_chunks)),
                    ("applied_mutations"@, decimal_text(committed.applied_mutations)),
                ],
            )
        },
    }
}

impl BatchError {
    /// The error report of this failure.
    pub fn core_error_parts(&self) -> (r: CoreErrorParts)
        ensures
            r@ == batch_core_parts(self@),
    {
        match self {
            BatchError::InvalidOptions(e) => e.core_error_parts(),
            BatchError::ChunkFailed { chunk_index, error, committed } => {
                let inner = error.core_error_parts();
                let extra = vec![
                    detail("batch_chunk", decimal_string(*chunk_index as u128)),
                    detail("completed_chunks", decimal_string(committed.completed_chunks() as u128)),
                    detail("applied_mutations", decimal_string(committed.applied_mutations() as u128)),
                ];
                assert(detail_views(extra@) =~= seq![
                    ("batch_chunk"@, decimal_text(*chunk_index as nat)),
                    ("completed_chunks"@, decimal_text(committed@.completed_chunks)),
                    ("applied_mutations"@, decimal_text(committed@.applied_mutations)),
                ]);
                with_details(inner, extra)
            },
        }
    }
}

} // verus!
