//! The candidate workflow: construction, incremental updates and their
//! journal, bounded batches, rebuilds, and publication.

pub mod batch;
pub mod builder;
pub mod publication;
pub mod rebuild;
pub mod update;

pub use batch::{BatchChunkError, BatchError, BatchExecutor, BatchOptions, BatchOptionsError, BatchResult};
pub use builder::{BuildCandidate, BuildError, BuildInput, BuildSnapshot, IndexBuilder};
pub use publication::{IndexPublisher, PublicationCandidate, PublicationError, PublicationResult};
pub use rebuild::{IndexRebuilder, RebuildError, RebuildInput, RebuildProgress, RebuildResult};
pub use update::{
    CandidateUpdater, DeleteSelector, IndexMutation, UpdateError, UpdateJournal, UpdateJournalError, UpdateRecord,
    UpdateSequence,
};
