//! The deduplicating background fetch queue.
//!
//! Identifiers are enqueued at most once while outstanding: the pending set
//! holds every id that has been enqueued and not yet completed, whether it is
//! still waiting in the FIFO or already dispatched (in flight). Dispatch
//! order is FIFO; at most [`MAX_IN_FLIGHT`] fetches are in flight at once.
//! Completion (success or failure alike) releases the id, so a later enqueue
//! of the same id is accepted again.
//!
//! The queue itself performs no fetch: the surrounding event loop calls
//! [`FetchQueue::dispatch_next`] to learn which id to fetch next and reports
//! the outcome through [`FetchQueue::complete`].

use vstd::prelude::*;
use std::collections::HashSet;
use std::collections::VecDeque;

use crate::item::ItemId;

verus! {

broadcast use vstd::std_specs::hash::group_hash_axioms,
    vstd::std_specs::vecdeque::group_vec_dequeue_axioms;

/// The most per-item fetches that may be in flight at once.
pub const MAX_IN_FLIGHT: usize = 10;

/// Mathematical state of a fetch queue.
pub struct QueueModel {
    /// Ids awaiting dispatch, oldest first.
    pub fifo: Seq<ItemId>,
    /// Ids enqueued and not yet completed: the FIFO contents plus the
    /// in-flight ids.
    pub pending: Set<ItemId>,
    /// Ids dispatched and not yet completed.
    pub in_flight: Set<ItemId>,
}

/// Well-formedness of a queue state: the FIFO holds no duplicates, no id is
/// both waiting and in flight, the pending set is exactly the waiting ids
/// joined with the in-flight ids, and the in-flight count is bounded.
pub open spec fn queue_wf(m: QueueModel) -> bool {
    &&& m.fifo.no_duplicates()
    &&& m.pending.finite()
    &&& m.in_flight.finite()
    &&& m.in_flight.len() <= MAX_IN_FLIGHT
    &&& forall|id: ItemId| m.fifo.contains(id) ==> #[trigger] m.pending.contains(id)
    &&& forall|id: ItemId| #[trigger] m.in_flight.contains(id) ==> m.pending.contains(id)
    &&& forall|id: ItemId| #[trigger] m.in_flight.contains(id) ==> !m.fifo.contains(id)
    &&& forall|id: ItemId| #[trigger] m.pending.contains(id) ==> m.fifo.contains(id)
        || m.in_flight.contains(id)
}

/// Effect of enqueuing one id: a no-op when the id is already pending,
/// otherwise the id joins the pending set and is appended to the FIFO.
pub open spec fn model_enqueue(m: QueueModel, id: ItemId) -> QueueModel {
    if m.pending.contains(id) {
        m
    } else {
        QueueModel {
            fifo: m.fifo.push(id),
            pending: m.pending.insert(id),
            in_flight: m.in_flight,
        }
    }
}

/// Effect of enqueuing a batch, one id at a time, in order.
pub open spec fn model_enqueue_all(m: QueueModel, ids: Seq<ItemId>) -> QueueModel
    decreases ids.len(),
{
    if ids.len() == 0 {
        m
    } else {
        model_enqueue_all(model_enqueue(m, ids[0]), ids.drop_first())
    }
}

/// Whether a dispatch is possible: something is waiting and the in-flight
/// bound leaves room.
pub open spec fn model_can_dispatch(m: QueueModel) -> bool {
    m.fifo.len() > 0 && m.in_flight.len() < MAX_IN_FLIGHT
}

/// Effect of dispatching the oldest waiting id: it leaves the FIFO and joins
/// the in-flight set; it stays pending.
pub open spec fn model_dispatch(m: QueueModel) -> QueueModel {
    QueueModel {
        fifo: m.fifo.drop_first(),
        pending: m.pending,
        in_flight: m.in_flight.insert(m.fifo[0]),
    }
}

/// Effect of completing an in-flight fetch, successful or not: the id leaves
/// both the in-flight set and the pending set.
pub open spec fn model_complete(m: QueueModel, id: ItemId) -> QueueModel {
    QueueModel {
        fifo: m.fifo,
        pending: m.pending.remove(id),
        in_flight: m.in_flight.remove(id),
    }
}

/// The deduplicating fetch queue.
pub struct FetchQueue {
    fifo: VecDeque<ItemId>,
    pending: HashSet<ItemId>,
    in_flight_count: usize,
    in_flight_ids: Ghost<Set<ItemId>>,
}

impl View for FetchQueue {
    type V = QueueModel;

    closed spec fn view(&self) -> QueueModel {
        QueueModel { fifo: self.fifo@, pending: self.pending@, in_flight: self.in_flight_ids@ }
    }
}

impl FetchQueue {
    /// Ties the in-flight counter to the ghost in-flight set.
    pub closed spec fn count_ok(&self) -> bool {
        self.in_flight_count == self.in_flight_ids@.len()
    }

    /// Well-formedness of the queue.
    pub open spec fn wf(&self) -> bool {
        queue_wf(self@) && self.count_ok()
    }

    /// An empty queue.
    pub fn new() -> (q: FetchQueue)
        ensures
            q.wf(),
            q@.fifo == Seq::<ItemId>::empty(),
            q@.pending == Set::<ItemId>::empty(),
            q@.in_flight == Set::<ItemId>::empty(),
    {
        FetchQueue {
            fifo: VecDeque::new(),
            pending: HashSet::new(),
            in_flight_count: 0,
            in_flight_ids: Ghost(Set::empty()),
        }
    }

    /// Enqueue one id for fetching. A no-op if the id is already pending.
    /// Returns whether the id was newly added, in which case a worker
    /// suspended on an empty queue should be woken.
    pub fn enqueue(&mut self, id: ItemId) -> (newly_added: bool)
        requires
            old(self).wf(),
        ensures
            final(self).wf(),
            final(self)@ == model_enqueue(old(self)@, id),
            newly_added == !old(self)@.pending.contains(id),
    {
        if self.pending.contains(&id) {
            false
        } else {
            proof {
                lemma_enqueue_preserves_wf(self@, id);
            }
            self.pending.insert(id);
            self.fifo.push_back(id);
            true
        }
    }

    /// Enqueue a batch of ids, with the same effect as enqueuing each in
    /// order: ids already pending, and repeats within the batch, are dropped.
    pub fn enqueue_many(&mut self, ids: &Vec<ItemId>)
        requires
            old(self).wf(),
        ensures
            final(self).wf(),
            final(self)@ == model_enqueue_all(old(self)@, ids@),
    {
        let ghost m0 = self@;
        let mut i: usize = 0;
        while i < ids.len()
            invariant
                i <= ids.len(),
                self.wf(),
                self@ == model_enqueue_all(m0, ids@.take(i as int)),
            decreases ids.len() - i,
        {
            proof {
                lemma_enqueue_all_snoc(m0, ids@.take(i as int), ids@[i as int]);
                assert(ids@.take(i as int).push(ids@[i as int]) =~= ids@.take(i + 1));
            }
            self.enqueue(ids[i]);
            i = i + 1;
        }
        proof {
            assert(ids@.take(ids@.len() as int) =~= ids@);
        }
    }

    /// How many ids are pending: enqueued and not yet completed.
    pub fn pending_count(&self) -> (n: usize)
        ensures
            n == self@.pending.len(),
    {
        self.pending.len()
    }

    /// Whether an id is pending.
    pub fn is_pending(&self, id: ItemId) -> (r: bool)
        ensures
            r == self@.pending.contains(id),
    {
        self.pending.contains(&id)
    }

    /// How many fetches are in flight: dispatched and not yet completed.
    pub fn in_flight_count(&self) -> (n: usize)
        requires
            self.wf(),
        ensures
            n == self@.in_flight.len(),
    {
        self.in_flight_count
    }

    /// Take the oldest waiting id for dispatch, when one is waiting and the
    /// in-flight bound leaves room; the id stays pending until completed.
    pub fn dispatch_next(&mut self) -> (r: Option<ItemId>)
        requires
            old(self).wf(),
        ensures
            final(self).wf(),
            match r {
                Some(id) => {
                    &&& model_can_dispatch(old(self)@)
                    &&& id == old(self)@.fifo[0]
                    &&& final(self)@ == model_dispatch(old(self)@)
                },
                None => {
                    &&& !model_can_dispatch(old(self)@)
                    &&& final(self)@ == old(self)@
                },
            },
    {
        if self.in_flight_count >= MAX_IN_FLIGHT {
            return None;
        }
        let ghost m0 = self@;
        match self.fifo.pop_front() {
            Some(id) => {
                proof {
                    lemma_dispatch_preserves_wf(m0);
                    assert(self.fifo@ =~= m0.fifo.drop_first());
                }
                self.in_flight_count = self.in_flight_count + 1;
                self.in_flight_ids = Ghost(self.in_flight_ids@.insert(id));
                Some(id)
            },
            None => None,
        }
    }

    /// Report an in-flight fetch as completed, successfully or not: the id
    /// leaves the pending set and may be enqueued anew from now on.
    pub fn complete(&mut self, id: ItemId)
        requires
            old(self).wf(),
            old(self)@.in_flight.contains(id),
        ensures
            final(self).wf(),
            final(self)@ == model_complete(old(self)@, id),
    {
        proof {
            lemma_complete_preserves_wf(self@, id);
        }
        self.pending.remove(&id);
        self.in_flight_count = self.in_flight_count - 1;
        self.in_flight_ids = Ghost(self.in_flight_ids@.remove(id));
    }
}

/// Enqueuing one id preserves well-formedness; the pending set gains the id
/// and the in-flight set is untouched.
pub proof fn lemma_enqueue_preserves_wf(m: QueueModel, id: ItemId)
    requires
        queue_wf(m),
    ensures
        queue_wf(model_enqueue(m, id)),
        model_enqueue(m, id).pending == m.pending.insert(id),
        model_enqueue(m, id).in_flight == m.in_flight,
{
    if m.pending.contains(id) {
        assert(m.pending.insert(id) =~= m.pending);
    } else {
        let m1 = model_enqueue(m, id);
        assert(!m.fifo.contains(id));
        assert forall|i: int, j: int|
            0 <= i < m1.fifo.len() && 0 <= j < m1.fifo.len() && i != j implies m1.fifo[i]
            != m1.fifo[j] by {
            if i < m.fifo.len() && j < m.fifo.len() {
                assert(m.fifo[i] != m.fifo[j]);
            } else if i < m.fifo.len() {
                assert(m.fifo.contains(m.fifo[i]));
            } else if j < m.fifo.len() {
                assert(m.fifo.contains(m.fifo[j]));
            }
        }
        assert forall|x: ItemId| m1.fifo.contains(x) implies #[trigger] m1.pending.contains(
            x,
        ) by {
            let k = choose|k: int| 0 <= k < m1.fifo.len() && m1.fifo[k] == x;
            if k < m.fifo.len() {
                assert(m.fifo.contains(x));
            }
        }
        assert forall|x: ItemId| #[trigger] m1.in_flight.contains(x) implies !m1.fifo.contains(
            x,
        ) by {
            assert(m.pending.contains(x));
            if m1.fifo.contains(x) {
                let k = choose|k: int| 0 <= k < m1.fifo.len() && m1.fifo[k] == x;
                if k < m.fifo.len() {
                    assert(m.fifo.contains(x));
                }
            }
        }
        assert forall|x: ItemId| #[trigger] m1.pending.contains(x) implies m1.fifo.contains(x)
            || m1.in_flight.contains(x) by {
            if x == id {
                assert(m1.fifo[m.fifo.len() as int] == id);
                assert(m1.fifo.contains(id));
            } else {
                assert(m.pending.contains(x));
                if m.fifo.contains(x) {
                    let k = choose|k: int| 0 <= k < m.fifo.len() && m.fifo[k] == x;
                    assert(m1.fifo[k] == x);
                    assert(m1.fifo.contains(x));
                }
            }
        }
    }
}

/// Enqueuing a batch then one more id is the same as enqueuing the batch
/// extended by that id.
pub proof fn lemma_enqueue_all_snoc(m: QueueModel, ids: Seq<ItemId>, id: ItemId)
    ensures
        model_enqueue_all(m, ids.push(id)) == model_enqueue(model_enqueue_all(m, ids), id),
    decreases ids.len(),
{
    if ids.len() == 0 {
        let s = ids.push(id);
        assert(s[0] == id);
        assert(s.drop_first() =~= Seq::<ItemId>::empty());
        assert(model_enqueue_all(m, s) == model_enqueue_all(model_enqueue(m, id), s.drop_first()));
        assert(model_enqueue_all(model_enqueue(m, id), s.drop_first()) == model_enqueue(m, id));
        assert(model_enqueue_all(m, ids) == m);
    } else {
        assert(ids.push(id)[0] == ids[0]);
        assert(ids.push(id).drop_first() =~= ids.drop_first().push(id));
        lemma_enqueue_all_snoc(model_enqueue(m, ids[0]), ids.drop_first(), id);
    }
}

/// Dispatching from a well-formed queue that allows it preserves
/// well-formedness; the dispatched id is the FIFO head and stays pending.
pub proof fn lemma_dispatch_preserves_wf(m: QueueModel)
    requires
        queue_wf(m),
        model_can_dispatch(m),
    ensures
        queue_wf(model_dispatch(m)),
        model_dispatch(m).pending == m.pending,
        model_dispatch(m).in_flight.len() == m.in_flight.len() + 1,
        model_dispatch(m).in_flight.contains(m.fifo[0]),
{
    let id = m.fifo[0];
    let m1 = model_dispatch(m);
    assert(m.fifo.contains(id));
    assert(!m.in_flight.contains(id));
    assert forall|i: int, j: int|
        0 <= i < m1.fifo.len() && 0 <= j < m1.fifo.len() && i != j implies m1.fifo[i]
        != m1.fifo[j] by {
        assert(m.fifo[i + 1] != m.fifo[j + 1]);
    }
    assert forall|x: ItemId| m1.fifo.contains(x) implies #[trigger] m1.pending.contains(x) by {
        let k = choose|k: int| 0 <= k < m1.fifo.len() && m1.fifo[k] == x;
        assert(m.fifo[k + 1] == x);
        assert(m.fifo.contains(x));
    }
    assert forall|x: ItemId| #[trigger] m1.in_flight.contains(x) implies !m1.fifo.contains(
        x,
    ) by {
        if m1.fifo.contains(x) {
            let k = choose|k: int| 0 <= k < m1.fifo.len() && m1.fifo[k] == x;
            assert(m.fifo[k + 1] == x);
            if x == id {
                assert(m.fifo[0] == m.fifo[k + 1]);
                assert(false);
            } else {
                assert(m.fifo.contains(x));
            }
        }
    }
    assert forall|x: ItemId| #[trigger] m1.pending.contains(x) implies m1.fifo.contains(x)
        || m1.in_flight.contains(x) by {
        if x == id {
            assert(m1.in_flight.contains(x));
        } else if m.fifo.contains(x) {
            let k = choose|k: int| 0 <= k < m.fifo.len() && m.fifo[k] == x;
            assert(k != 0);
            assert(m1.fifo[k - 1] == x);
            assert(m1.fifo.contains(x));
        }
    }
}

/// Completing an in-flight id preserves well-formedness; the FIFO is
/// untouched and the id leaves the pending set.
pub proof fn lemma_complete_preserves_wf(m: QueueModel, id: ItemId)
    requires
        queue_wf(m),
        m.in_flight.contains(id),
    ensures
        queue_wf(model_complete(m, id)),
        model_complete(m, id).in_flight.len() == m.in_flight.len() - 1,
        !model_complete(m, id).pending.contains(id),
{
    let m1 = model_complete(m, id);
    assert(!m.fifo.contains(id));
    assert forall|x: ItemId| m1.fifo.contains(x) implies #[trigger] m1.pending.contains(x) by {
        assert(m.fifo.contains(x));
        assert(x != id);
    }
}

/// The pending set never holds a duplicate (it is a set), and for any batch
/// of enqueues from a well-formed queue the FIFO stays duplicate-free while
/// the pending set becomes exactly the old pending set joined with the
/// batch's ids; nothing new goes in flight.
pub proof fn lemma_enqueue_all_preserves_wf(m: QueueModel, ids: Seq<ItemId>)
    requires
        queue_wf(m),
    ensures
        queue_wf(model_enqueue_all(m, ids)),
        model_enqueue_all(m, ids).fifo.no_duplicates(),
        model_enqueue_all(m, ids).pending == m.pending + ids.to_set(),
        model_enqueue_all(m, ids).in_flight == m.in_flight,
    decreases ids.len(),
{
    if ids.len() == 0 {
        assert(m.pending + ids.to_set() =~= m.pending);
    } else {
        lemma_enqueue_preserves_wf(m, ids[0]);
        let m1 = model_enqueue(m, ids[0]);
        lemma_enqueue_all_preserves_wf(m1, ids.drop_first());
        assert forall|x: ItemId| ids.to_set().contains(x) implies ids[0] == x
            || ids.drop_first().to_set().contains(x) by {
            let k = choose|k: int| 0 <= k < ids.len() && ids[k] == x;
            if k > 0 {
                assert(ids.drop_first()[k - 1] == x);
                assert(ids.drop_first().contains(x));
            }
        }
        assert forall|x: ItemId| ids.drop_first().to_set().contains(x) implies ids.to_set().contains(
            x,
        ) by {
            let k = choose|k: int| 0 <= k < ids.drop_first().len() && ids.drop_first()[k] == x;
            assert(ids[k + 1] == x);
            assert(ids.contains(x));
        }
        assert(ids.to_set().contains(ids[0])) by {
            assert(ids.contains(ids[0]));
        }
        assert(m1.pending + ids.drop_first().to_set() =~= m.pending + ids.to_set());
    }
}

/// Enqueuing an id that is already pending is a no-op: the queue state,
/// hence the FIFO length and the pending count, is unchanged.
pub proof fn lemma_enqueue_duplicate_is_noop(m: QueueModel, id: ItemId)
    requires
        m.pending.contains(id),
    ensures
        model_enqueue(m, id) == m,
{
}

/// At most [`MAX_IN_FLIGHT`] fetches are in flight in any well-formed queue
/// state; every transition preserves well-formedness, so the bound holds
/// always.
pub proof fn lemma_in_flight_bounded(m: QueueModel)
    requires
        queue_wf(m),
    ensures
        m.in_flight.len() <= MAX_IN_FLIGHT,
{
}

/// The union of two disjoint finite sets has the sum of their sizes.
proof fn lemma_disjoint_union_len<A>(a: Set<A>, b: Set<A>)
    requires
        a.finite(),
        b.finite(),
        a.disjoint(b),
    ensures
        a.union(b).finite(),
        a.union(b).len() == a.len() + b.len(),
    decreases a.len(),
{
    broadcast use vstd::set_lib::lemma_set_union_finite_iff;

    if a.is_empty() {
        assert(a.union(b) =~= b);
    } else {
        let x = a.choose();
        assert(a.contains(x));
        assert(a.remove(x).disjoint(b));
        lemma_disjoint_union_len(a.remove(x), b);
        assert(a.remove(x).union(b) =~= a.union(b).remove(x));
        assert(a.union(b).contains(x));
    }
}

/// In a well-formed queue the pending set is exactly the waiting ids joined
/// with the in-flight ids, and those two parts are disjoint, so the pending
/// count is the FIFO length plus the in-flight count.
pub proof fn lemma_pending_partition(m: QueueModel)
    requires
        queue_wf(m),
    ensures
        m.pending == m.fifo.to_set().union(m.in_flight),
        m.pending.len() == m.fifo.len() + m.in_flight.len(),
{
    broadcast use vstd::seq_lib::seq_to_set_is_finite;

    m.fifo.unique_seq_to_set();
    assert(m.fifo.to_set().disjoint(m.in_flight));
    lemma_disjoint_union_len(m.fifo.to_set(), m.in_flight);
    assert(m.pending =~= m.fifo.to_set().union(m.in_flight));
}

/// After a completed fetch (in particular a failed one), the id is no longer
/// pending, and a subsequent enqueue of the same id is accepted rather than
/// dropped as a duplicate: it is appended to the FIFO and pending again.
pub proof fn lemma_reenqueue_after_completion(m: QueueModel, id: ItemId)
    requires
        queue_wf(m),
        m.in_flight.contains(id),
    ensures
        !model_complete(m, id).pending.contains(id),
        model_enqueue(model_complete(m, id), id).fifo == m.fifo.push(id),
        model_enqueue(model_complete(m, id), id).pending == m.pending,
{
    lemma_complete_preserves_wf(m, id);
    assert(model_complete(m, id).pending.insert(id) =~= m.pending);
}

} // verus!
