use hnterm_core::{HnState, RefreshResult, UpdateStatus, REFRESH_INTERVAL_SECS};

fn empty_result() -> RefreshResult {
    RefreshResult {
        top_ids: vec![],
        show_ids: vec![],
        ask_ids: vec![],
        new_ids: vec![],
        changed_ids: vec![],
        changed_profiles: vec![],
    }
}

#[test]
fn first_refresh_is_due_at_once() {
    let status = UpdateStatus::new(100);
    assert!(status.update_needed(100));
    assert!(status.update_needed(0));
}

#[test]
fn no_refresh_due_while_one_runs() {
    let mut status = UpdateStatus::new(100);
    status.begin_refresh(100);
    assert!(!status.update_needed(100));
    assert!(!status.update_needed(1000));
}

#[test]
fn refresh_completion_starts_the_interval() {
    let mut status = UpdateStatus::new(0);
    status.begin_refresh(0);
    status.set_last_update(5);
    // false immediately after completion, and until the interval passes
    assert!(!status.update_needed(5));
    assert!(!status.update_needed(5 + REFRESH_INTERVAL_SECS - 1));
    assert!(status.update_needed(5 + REFRESH_INTERVAL_SECS));
    assert!(status.update_needed(5 + REFRESH_INTERVAL_SECS + 100));
}

#[test]
fn failed_refresh_also_backs_off() {
    let mut s = HnState::new(0);
    assert!(s.update_needed(0));
    s.begin_refresh(0);
    s.finish_refresh_failure(7);
    assert!(!s.update_needed(7));
    assert!(!s.update_needed(7 + REFRESH_INTERVAL_SECS - 1));
    assert!(s.update_needed(7 + REFRESH_INTERVAL_SECS));
    assert!(s.last_refresh().is_none());
}

#[test]
fn successful_refresh_forwards_all_ids_deduplicated() {
    let mut s = HnState::new(0);
    s.begin_refresh(0);
    let result = RefreshResult {
        top_ids: vec![10, 11],
        changed_ids: vec![11, 12],
        ..empty_result()
    };
    s.finish_refresh_success(result, 3);
    // {10, 11, 12}: the union of both lists, 11 forwarded once
    assert_eq!(s.pending_count(), 3);
    assert_eq!(s.dispatch_next(), Some(10));
    assert_eq!(s.dispatch_next(), Some(11));
    assert_eq!(s.dispatch_next(), Some(12));
    assert_eq!(s.dispatch_next(), None);
}

#[test]
fn refresh_result_is_replaced_wholesale() {
    let mut s = HnState::new(0);
    s.begin_refresh(0);
    let first = RefreshResult { top_ids: vec![1, 2], ..empty_result() };
    s.finish_refresh_success(first, 1);
    let r = s.last_refresh().as_ref().expect("result kept");
    assert_eq!(r.top_ids, vec![1, 2]);

    s.begin_refresh(1 + REFRESH_INTERVAL_SECS);
    let second = RefreshResult { top_ids: vec![3], ..empty_result() };
    s.finish_refresh_success(second, 2 + REFRESH_INTERVAL_SECS);
    let r = s.last_refresh().as_ref().expect("result kept");
    assert_eq!(r.top_ids, vec![3]);
}

#[test]
fn failed_refresh_keeps_previous_result() {
    let mut s = HnState::new(0);
    s.begin_refresh(0);
    let first = RefreshResult { top_ids: vec![4, 5], ..empty_result() };
    s.finish_refresh_success(first, 1);

    s.begin_refresh(1 + REFRESH_INTERVAL_SECS);
    s.finish_refresh_failure(2 + REFRESH_INTERVAL_SECS);
    let r = s.last_refresh().as_ref().expect("previous result kept");
    assert_eq!(r.top_ids, vec![4, 5]);
}

#[test]
fn refresh_forwards_ids_from_every_list() {
    let mut s = HnState::new(0);
    s.begin_refresh(0);
    let result = RefreshResult {
        top_ids: vec![1],
        show_ids: vec![2],
        ask_ids: vec![3],
        new_ids: vec![4],
        changed_ids: vec![5],
        changed_profiles: vec![String::from("someone")],
    };
    s.finish_refresh_success(result, 1);
    assert_eq!(s.pending_count(), 5);
    for expected in 1..=5u32 {
        assert_eq!(s.dispatch_next(), Some(expected));
    }
}

#[test]
fn next_update_countdown() {
    let mut s = HnState::new(0);
    s.begin_refresh(0);
    s.finish_refresh_success(empty_result(), 3);
    assert_eq!(s.next_update_in(3), REFRESH_INTERVAL_SECS);
    assert_eq!(s.next_update_in(20), 3 + REFRESH_INTERVAL_SECS - 20);
    assert_eq!(s.next_update_in(3 + REFRESH_INTERVAL_SECS), 0);
    assert_eq!(s.next_update_in(1000), 0);
}
