use hnterm_core::{FetchQueue, HnState, Item, PollItem, StoryItem, MAX_IN_FLIGHT};

#[test]
fn pending_count_tracks_outstanding_ids() {
    let mut q = FetchQueue::new();
    assert_eq!(q.pending_count(), 0);
    q.enqueue(1);
    q.enqueue(2);
    q.enqueue(3);
    assert_eq!(q.pending_count(), 3);
    // dispatch does not complete: the id stays pending
    let d = q.dispatch_next();
    assert_eq!(d, Some(1));
    assert_eq!(q.pending_count(), 3);
    assert!(q.is_pending(1));
    q.complete(1);
    assert!(!q.is_pending(1));
    assert_eq!(q.pending_count(), 2);
}

#[test]
fn duplicate_enqueue_is_noop() {
    let mut q = FetchQueue::new();
    assert!(!q.is_pending(7));
    assert!(q.enqueue(7));
    assert!(q.is_pending(7));
    assert!(!q.enqueue(7));
    assert_eq!(q.pending_count(), 1);
    assert_eq!(q.dispatch_next(), Some(7));
    // the single copy was dispatched; nothing else waits
    assert_eq!(q.dispatch_next(), None);
}

#[test]
fn dispatch_order_is_fifo() {
    let mut q = FetchQueue::new();
    q.enqueue(3);
    q.enqueue(1);
    q.enqueue(2);
    assert_eq!(q.dispatch_next(), Some(3));
    assert_eq!(q.dispatch_next(), Some(1));
    assert_eq!(q.dispatch_next(), Some(2));
    assert_eq!(q.dispatch_next(), None);
}

#[test]
fn in_flight_never_exceeds_bound() {
    let mut q = FetchQueue::new();
    for id in 0..15u32 {
        q.enqueue(id);
    }
    let mut dispatched = 0;
    while let Some(_) = q.dispatch_next() {
        dispatched += 1;
        assert!(q.in_flight_count() <= MAX_IN_FLIGHT);
    }
    assert_eq!(dispatched, MAX_IN_FLIGHT);
    assert_eq!(q.in_flight_count(), MAX_IN_FLIGHT);
    // completing one frees one slot, and only one
    q.complete(0);
    assert_eq!(q.dispatch_next(), Some(10));
    assert_eq!(q.dispatch_next(), None);
}

#[test]
fn enqueue_many_filters_duplicates() {
    let mut q = FetchQueue::new();
    q.enqueue_many(&vec![5, 5, 6]);
    assert_eq!(q.pending_count(), 2);
    // 5 appears once in the queue, ahead of 6
    assert_eq!(q.dispatch_next(), Some(5));
    assert_eq!(q.dispatch_next(), Some(6));
    assert_eq!(q.dispatch_next(), None);
}

#[test]
fn enqueue_many_skips_already_pending() {
    let mut q = FetchQueue::new();
    q.enqueue(6);
    q.enqueue_many(&vec![5, 6, 7]);
    assert_eq!(q.pending_count(), 3);
    assert_eq!(q.dispatch_next(), Some(6));
    assert_eq!(q.dispatch_next(), Some(5));
    assert_eq!(q.dispatch_next(), Some(7));
}

#[test]
fn dispatch_on_empty_queue_returns_none() {
    let mut q = FetchQueue::new();
    assert_eq!(q.dispatch_next(), None);
}

#[test]
fn failed_fetch_frees_id_for_retry() {
    let mut s = HnState::new(0);
    s.enqueue(42);
    assert_eq!(s.dispatch_next(), Some(42));
    s.complete_failure(42);
    // the store is untouched and the id is no longer pending
    assert!(s.get_item(42).is_none());
    assert_eq!(s.pending_count(), 0);
    // a later enqueue of the same id is accepted, not dropped as duplicate
    assert!(s.enqueue(42));
    assert_eq!(s.pending_count(), 1);
    assert_eq!(s.dispatch_next(), Some(42));
}

#[test]
fn mixed_completion_scenario() {
    let mut s = HnState::new(0);
    s.enqueue(1);
    s.enqueue(2);
    s.enqueue(3);
    assert_eq!(s.dispatch_next(), Some(1));
    assert_eq!(s.dispatch_next(), Some(2));
    assert_eq!(s.dispatch_next(), Some(3));
    s.complete_success(1, Item::Poll(PollItem { id: 1 }));
    s.complete_failure(2);
    s.complete_success(3, Item::Poll(PollItem { id: 3 }));
    assert!(s.get_item(1).is_some());
    assert!(s.get_item(2).is_none());
    assert!(s.get_item(3).is_some());
    assert_eq!(s.store_len(), 2);
    assert_eq!(s.pending_count(), 0);
}

#[test]
fn refetch_replaces_record_wholesale() {
    let mut s = HnState::new(0);
    s.enqueue(9);
    assert_eq!(s.dispatch_next(), Some(9));
    let first = Item::Story(StoryItem {
        id: 9,
        by: String::from("alice"),
        score: 10,
        time: 1000,
        text: String::new(),
        title: String::from("first title"),
        url: String::new(),
        domain: String::new(),
        descendants: 0,
        children: vec![],
    });
    s.complete_success(9, first);
    s.enqueue(9);
    assert_eq!(s.dispatch_next(), Some(9));
    let second = Item::Story(StoryItem {
        id: 9,
        by: String::from("alice"),
        score: 25,
        time: 2000,
        text: String::new(),
        title: String::from("second title"),
        url: String::new(),
        domain: String::new(),
        descendants: 3,
        children: vec![],
    });
    s.complete_success(9, second);
    match s.get_item(9) {
        Some(Item::Story(story)) => {
            assert_eq!(story.score, 25);
            assert_eq!(story.title, "second title");
        },
        _ => panic!("expected the replacing story"),
    }
    assert_eq!(s.store_len(), 1);
}

#[test]
fn request_if_missing_enqueues_once() {
    let mut s = HnState::new(0);
    assert!(!s.request_if_missing(5));
    assert!(!s.request_if_missing(5));
    assert_eq!(s.pending_count(), 1);
    assert_eq!(s.dispatch_next(), Some(5));
    s.complete_success(5, Item::Poll(PollItem { id: 5 }));
    assert!(s.request_if_missing(5));
    assert_eq!(s.pending_count(), 0);
}
