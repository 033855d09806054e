//! The reader's whole core state, and its transitions.
//!
//! One value of [`HnState`] owns the record store, the fetch queue and the
//! refresh scheduler. Every mutation of shared state is a method here with
//! an exact contract; the surrounding event loop performs the network calls
//! between transitions:
//!
//! - it asks [`HnState::update_needed`], calls [`HnState::begin_refresh`],
//!   performs the five list fetches, and reports the outcome through
//!   [`HnState::finish_refresh_success`] or
//!   [`HnState::finish_refresh_failure`];
//! - it pulls ids to fetch with [`HnState::dispatch_next`] and reports each
//!   per-item fetch through [`HnState::complete_success`] or
//!   [`HnState::complete_failure`].
//!
//! A successful refresh forwards every id it encountered, across all five
//! lists, to the fetch queue; the queue drops the ones already pending.

use vstd::prelude::*;

use crate::item::{Item, ItemId};
use crate::queue::{
    FetchQueue, QueueModel, model_can_dispatch, model_complete, model_dispatch, model_enqueue,
    model_enqueue_all,
};
use crate::refresh::{
    REFRESH_INTERVAL_SECS, RefreshResult, StatusModel, UpdateStatus, status_update_needed,
};
use crate::store::RecordStore;

verus! {

/// Every id a refresh result carries, in list order: the four ranked lists,
/// then the changed ids.
pub open spec fn refresh_ids(r: RefreshResult) -> Seq<ItemId> {
    r.top_ids@ + r.show_ids@ + r.ask_ids@ + r.new_ids@ + r.changed_ids@
}

/// The reader's core state.
pub struct HnState {
    store: RecordStore,
    queue: FetchQueue,
    status: UpdateStatus,
    last_refresh: Option<RefreshResult>,
}

impl HnState {
    /// The stored records, as a map from id to record.
    pub closed spec fn store_model(&self) -> Map<ItemId, Item> {
        self.store@
    }

    /// The fetch queue's state.
    pub closed spec fn queue_model(&self) -> QueueModel {
        self.queue@
    }

    /// The refresh scheduler's state.
    pub closed spec fn status_model(&self) -> StatusModel {
        self.status@
    }

    /// The last successful refresh result, if any.
    pub closed spec fn refresh_model(&self) -> Option<RefreshResult> {
        self.last_refresh
    }

    /// Well-formedness of the whole state.
    pub closed spec fn wf(&self) -> bool {
        self.queue.wf() && self.status.wf()
    }

    /// A well-formed state has a well-formed fetch queue and a well-formed
    /// refresh scheduler.
    pub proof fn lemma_wf_parts(&self)
        requires
            self.wf(),
        ensures
            crate::queue::queue_wf(self.queue_model()),
            crate::refresh::status_wf(self.status_model()),
    {
    }

    /// A fresh state at instant `now`: nothing stored, nothing pending, no
    /// refresh completed, the first refresh due at once.
    pub fn new(now: u64) -> (s: HnState)
        ensures
            s.wf(),
            s.store_model() == Map::<ItemId, Item>::empty(),
            s.queue_model().fifo == Seq::<ItemId>::empty(),
            s.queue_model().pending == Set::<ItemId>::empty(),
            s.queue_model().in_flight == Set::<ItemId>::empty(),
            s.status_model() == (StatusModel {
                in_progress: false,
                last_update: None,
                next_update: now,
            }),
            s.refresh_model() is None,
    {
        HnState {
            store: RecordStore::new(),
            queue: FetchQueue::new(),
            status: UpdateStatus::new(now),
            last_refresh: None,
        }
    }

    /// Enqueue one id for a background fetch; a no-op if it is already
    /// pending. Returns whether the id was newly added, in which case a
    /// worker suspended on an empty queue should be woken.
    pub fn enqueue(&mut self, id: ItemId) -> (newly_added: bool)
        requires
            old(self).wf(),
        ensures
            final(self).wf(),
            final(self).queue_model() == model_enqueue(old(self).queue_model(), id),
            newly_added == !old(self).queue_model().pending.contains(id),
            final(self).store_model() == old(self).store_model(),
            final(self).status_model() == old(self).status_model(),
            final(self).refresh_model() == old(self).refresh_model(),
    {
        self.queue.enqueue(id)
    }

    /// Enqueue a batch of ids, as if one at a time in order: ids already
    /// pending, and repeats within the batch, are dropped.
    pub fn enqueue_many(&mut self, ids: &Vec<ItemId>)
        requires
            old(self).wf(),
        ensures
            final(self).wf(),
            final(self).queue_model() == model_enqueue_all(old(self).queue_model(), ids@),
            final(self).store_model() == old(self).store_model(),
            final(self).status_model() == old(self).status_model(),
            final(self).refresh_model() == old(self).refresh_model(),
    {
        self.queue.enqueue_many(ids)
    }

    /// How many ids are pending: enqueued and not yet completed.
    pub fn pending_count(&self) -> (n: usize)
        ensures
            n == self.queue_model().pending.len(),
    {
        self.queue.pending_count()
    }

    /// How many per-item fetches are in flight right now.
    pub fn in_flight_count(&self) -> (n: usize)
        requires
            self.wf(),
        ensures
            n == self.queue_model().in_flight.len(),
    {
        self.queue.in_flight_count()
    }

    /// The stored record for `id`, if it has been fetched.
    pub fn get_item(&self, id: ItemId) -> (r: Option<&Item>)
        ensures
            match r {
                Some(item) => self.store_model().contains_key(id) && *item == self.store_model()[
                    id
                ],
                None => !self.store_model().contains_key(id),
            },
    {
        self.store.get(id)
    }

    /// Whether a record for `id` is stored.
    pub fn contains_item(&self, id: ItemId) -> (r: bool)
        ensures
            r == self.store_model().contains_key(id),
    {
        self.store.contains(id)
    }

    /// How many records are stored.
    pub fn store_len(&self) -> (n: usize)
        ensures
            n == self.store_model().len(),
    {
        self.store.len()
    }

    /// The display layer's fetch-on-miss step: report that `id` is wanted
    /// on screen. When its record is already stored nothing changes;
    /// otherwise the id is enqueued for a background fetch. Returns whether
    /// the record is already available.
    pub fn request_if_missing(&mut self, id: ItemId) -> (found: bool)
        requires
            old(self).wf(),
        ensures
            final(self).wf(),
            found == old(self).store_model().contains_key(id),
            final(self).queue_model() == if found {
                old(self).queue_model()
            } else {
                model_enqueue(old(self).queue_model(), id)
            },
            final(self).store_model() == old(self).store_model(),
            final(self).status_model() == old(self).status_model(),
            final(self).refresh_model() == old(self).refresh_model(),
    {
        if self.store.contains(id) {
            true
        } else {
            self.queue.enqueue(id);
            false
        }
    }

    /// Take the oldest waiting id for dispatch, when one is waiting and
    /// fewer than the bound are in flight; the id stays pending until its
    /// completion is reported.
    pub fn dispatch_next(&mut self) -> (r: Option<ItemId>)
        requires
            old(self).wf(),
        ensures
            final(self).wf(),
            match r {
                Some(id) => {
                    &&& model_can_dispatch(old(self).queue_model())
                    &&& id == old(self).queue_model().fifo[0]
                    &&& final(self).queue_model() == model_dispatch(old(self).queue_model())
                },
                None => {
                    &&& !model_can_dispatch(old(self).queue_model())
                    &&& final(self).queue_model() == old(self).queue_model()
                },
            },
            final(self).store_model() == old(self).store_model(),
            final(self).status_model() == old(self).status_model(),
            final(self).refresh_model() == old(self).refresh_model(),
    {
        self.queue.dispatch_next()
    }

    /// Report an in-flight fetch for `id` as succeeded with `item`: the
    /// record is stored under `id`, replacing any previous record, and the
    /// id is released from the pending set.
    pub fn complete_success(&mut self, id: ItemId, item: Item)
        requires
            old(self).wf(),
            old(self).queue_model().in_flight.contains(id),
        ensures
            final(self).wf(),
            final(self).store_model() == old(self).store_model().insert(id, item),
            final(self).queue_model() == model_complete(old(self).queue_model(), id),
            final(self).status_model() == old(self).status_model(),
            final(self).refresh_model() == old(self).refresh_model(),
    {
        self.store.insert(id, item);
        self.queue.complete(id);
    }

    /// Report an in-flight fetch for `id` as failed: the error is dropped,
    /// the store keeps exactly what it had (nothing appears under `id`),
    /// and the id is released, so a later enqueue may retry it.
    pub fn complete_failure(&mut self, id: ItemId)
        requires
            old(self).wf(),
            old(self).queue_model().in_flight.contains(id),
        ensures
            final(self).wf(),
            final(self).store_model() == old(self).store_model(),
            final(self).queue_model() == model_complete(old(self).queue_model(), id),
            final(self).status_model() == old(self).status_model(),
            final(self).refresh_model() == old(self).refresh_model(),
    {
        self.queue.complete(id);
    }

    /// Whether a new list refresh is due at instant `now`.
    pub fn update_needed(&self, now: u64) -> (r: bool)
        requires
            self.wf(),
        ensures
            r == status_update_needed(self.status_model(), now),
    {
        self.status.update_needed(now)
    }

    /// Enter the refreshing state. Only a due refresh may start, so two
    /// refreshes never overlap.
    pub fn begin_refresh(&mut self, now: u64)
        requires
            old(self).wf(),
            status_update_needed(old(self).status_model(), now),
        ensures
            final(self).wf(),
            final(self).status_model() == (StatusModel { in_progress: true, ..old(
                self,
            ).status_model() }),
            final(self).store_model() == old(self).store_model(),
            final(self).queue_model() == old(self).queue_model(),
            final(self).refresh_model() == old(self).refresh_model(),
    {
        self.status.begin_refresh(now);
    }

    /// Report the running refresh as succeeded at instant `now` with
    /// `result`: every id across the five lists is forwarded to the fetch
    /// queue (already-pending ids are dropped there), the result replaces
    /// the previous one wholesale, and the next refresh is due one interval
    /// from `now`.
    pub fn finish_refresh_success(&mut self, result: RefreshResult, now: u64)
        requires
            old(self).wf(),
            old(self).status_model().in_progress,
            now + REFRESH_INTERVAL_SECS <= u64::MAX,
        ensures
            final(self).wf(),
            final(self).queue_model() == model_enqueue_all(
                old(self).queue_model(),
                refresh_ids(result),
            ),
            final(self).refresh_model() == Some(result),
            final(self).status_model() == (StatusModel {
                in_progress: false,
                last_update: Some(now),
                next_update: (now + REFRESH_INTERVAL_SECS) as u64,
            }),
            final(self).store_model() == old(self).store_model(),
    {
        proof {
            lemma_refresh_ids_split(self.queue@, &result);
        }
        self.queue.enqueue_many(&result.top_ids);
        self.queue.enqueue_many(&result.show_ids);
        self.queue.enqueue_many(&result.ask_ids);
        self.queue.enqueue_many(&result.new_ids);
        self.queue.enqueue_many(&result.changed_ids);
        self.last_refresh = Some(result);
        self.status.set_last_update(now);
    }

    /// Report the running refresh as failed at instant `now`: the partial
    /// result is discarded, the previous result and everything else stay as
    /// they were, and the next refresh is due one interval from `now`.
    pub fn finish_refresh_failure(&mut self, now: u64)
        requires
            old(self).wf(),
            old(self).status_model().in_progress,
            now + REFRESH_INTERVAL_SECS <= u64::MAX,
        ensures
            final(self).wf(),
            final(self).status_model() == (StatusModel {
                in_progress: false,
                last_update: Some(now),
                next_update: (now + REFRESH_INTERVAL_SECS) as u64,
            }),
            final(self).store_model() == old(self).store_model(),
            final(self).queue_model() == old(self).queue_model(),
            final(self).refresh_model() == old(self).refresh_model(),
    {
        self.status.set_last_update(now);
    }

    /// The result of the last successful refresh, if any.
    pub fn last_refresh(&self) -> (r: &Option<RefreshResult>)
        ensures
            *r == self.refresh_model(),
    {
        &self.last_refresh
    }

    /// How many seconds remain until the next refresh is due at instant
    /// `now`; zero once it is due.
    pub fn next_update_in(&self, now: u64) -> (r: u64)
        ensures
            r == if now >= self.status_model().next_update {
                0u64
            } else {
                (self.status_model().next_update - now) as u64
            },
    {
        self.status.next_update_in(now)
    }
}

/// At most [`crate::queue::MAX_IN_FLIGHT`] per-item fetches are in flight
/// in any well-formed state, whatever was enqueued; every transition keeps
/// the state well-formed, so the bound holds at every instant.
pub proof fn lemma_state_in_flight_bounded(s: &HnState)
    requires
        s.wf(),
    ensures
        s.queue_model().in_flight.len() <= crate::queue::MAX_IN_FLIGHT,
{
    s.lemma_wf_parts();
    crate::queue::lemma_in_flight_bounded(s.queue_model());
}

/// Enqueuing the concatenation of two batches is the same as enqueuing the
/// first batch, then the second.
pub proof fn lemma_enqueue_all_append(m: QueueModel, a: Seq<ItemId>, b: Seq<ItemId>)
    ensures
        model_enqueue_all(m, a + b) == model_enqueue_all(model_enqueue_all(m, a), b),
    decreases a.len(),
{
    if a.len() == 0 {
        assert(a + b =~= b);
    } else {
        assert((a + b)[0] == a[0]);
        assert((a + b).drop_first() =~= a.drop_first() + b);
        lemma_enqueue_all_append(model_enqueue(m, a[0]), a.drop_first(), b);
    }
}

/// Enqueuing a refresh result's ids in one batch is the same as enqueuing
/// its five lists one after the other.
proof fn lemma_refresh_ids_split(m: QueueModel, r: &RefreshResult)
    ensures
        model_enqueue_all(m, refresh_ids(*r)) == model_enqueue_all(
            model_enqueue_all(
                model_enqueue_all(
                    model_enqueue_all(model_enqueue_all(m, r.top_ids@), r.show_ids@),
                    r.ask_ids@,
                ),
                r.new_ids@,
            ),
            r.changed_ids@,
        ),
{
    let s1 = r.top_ids@;
    let s2 = r.show_ids@;
    let s3 = r.ask_ids@;
    let s4 = r.new_ids@;
    let s5 = r.changed_ids@;
    lemma_enqueue_all_append(m, s1 + s2 + s3 + s4, s5);
    lemma_enqueue_all_append(m, s1 + s2 + s3, s4);
    lemma_enqueue_all_append(m, s1 + s2, s3);
    lemma_enqueue_all_append(m, s1, s2);
}

} // verus!
