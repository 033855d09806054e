//! Core logic of a terminal Hacker-News reader: a deduplicating,
//! concurrency-bounded background fetch queue, an in-memory record store,
//! and a periodic refresh scheduler.
//!
//! The library holds only the decision logic, as plain state-transition
//! functions. The surrounding program performs the actual network calls and
//! drives these transitions from its event loop.

mod item;
mod queue;
mod refresh;
mod state;
mod store;

pub use item::{CommentItem, Item, ItemKind, JobItem, PollItem, PollOptionItem, StoryItem};
pub use item::{ItemId, decode_tag, spec_decode_tag};
pub use queue::{
    FetchQueue, MAX_IN_FLIGHT, QueueModel, lemma_complete_preserves_wf,
    lemma_dispatch_preserves_wf, lemma_enqueue_all_preserves_wf, lemma_enqueue_all_snoc,
    lemma_enqueue_duplicate_is_noop, lemma_enqueue_preserves_wf, lemma_in_flight_bounded,
    lemma_pending_partition, lemma_reenqueue_after_completion, model_can_dispatch, model_complete,
    model_dispatch, model_enqueue, model_enqueue_all, queue_wf,
};
pub use refresh::{
    REFRESH_INTERVAL_SECS, RefreshResult, StatusModel, UpdateStatus,
    lemma_no_overlapping_refresh, lemma_update_needed_after_completion,
    lemma_update_needed_initially, status_update_needed, status_wf,
};
pub use state::{HnState, lemma_enqueue_all_append, lemma_state_in_flight_bounded, refresh_ids};
pub use store::RecordStore;
