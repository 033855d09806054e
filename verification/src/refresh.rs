//! The periodic list-refresh scheduler.
//!
//! A refresh re-fetches the four ranked id lists and the changed-id list.
//! The scheduler is a two-state machine, idle or refreshing: it asks for a
//! new refresh only when none is running and at least
//! [`REFRESH_INTERVAL_SECS`] seconds have passed since the last one
//! completed (or none ever completed). A completing refresh, successful or
//! failed alike, records its completion time, so a failed refresh is not
//! retried before the interval has passed again.
//!
//! Time is carried as seconds since some fixed origin; the surrounding
//! program reads the clock and passes the current instant in.

use vstd::prelude::*;

use crate::item::ItemId;

verus! {

/// Seconds between two list refreshes.
pub const REFRESH_INTERVAL_SECS: u64 = 30;

/// The five id lists a successful refresh returns, replaced wholesale each
/// time: the four ranked lists, plus the ids and profile names reported as
/// changed since the previous refresh.
pub struct RefreshResult {
    pub top_ids: Vec<ItemId>,
    pub show_ids: Vec<ItemId>,
    pub ask_ids: Vec<ItemId>,
    pub new_ids: Vec<ItemId>,
    pub changed_ids: Vec<ItemId>,
    pub changed_profiles: Vec<String>,
}

/// Mathematical state of the refresh scheduler.
pub struct StatusModel {
    /// Whether a refresh is running right now.
    pub in_progress: bool,
    /// When the last refresh completed, successfully or not; `None` until
    /// one completes.
    pub last_update: Option<u64>,
    /// The earliest instant the next refresh is due.
    pub next_update: u64,
}

/// Well-formedness: once a refresh has completed, the next one is due
/// exactly one interval after the completion.
pub open spec fn status_wf(m: StatusModel) -> bool {
    match m.last_update {
        Some(t) => m.next_update == t + REFRESH_INTERVAL_SECS,
        None => true,
    }
}

/// Whether a new refresh is due at instant `now`: none is running, and
/// either none has ever completed or a full interval has passed since the
/// last completion.
pub open spec fn status_update_needed(m: StatusModel, now: u64) -> bool {
    &&& !m.in_progress
    &&& match m.last_update {
        Some(t) => now >= t + REFRESH_INTERVAL_SECS,
        None => true,
    }
}

/// The refresh scheduler's state: idle or refreshing, and when the last
/// refresh completed.
pub struct UpdateStatus {
    in_progress: bool,
    last_update: Option<u64>,
    next_update: u64,
}

impl View for UpdateStatus {
    type V = StatusModel;

    closed spec fn view(&self) -> StatusModel {
        StatusModel {
            in_progress: self.in_progress,
            last_update: self.last_update,
            next_update: self.next_update,
        }
    }
}

impl UpdateStatus {
    /// Well-formedness of the scheduler state.
    pub open spec fn wf(&self) -> bool {
        status_wf(self@)
    }

    /// A fresh scheduler: idle, with no refresh completed yet, due at once.
    pub fn new(now: u64) -> (s: UpdateStatus)
        ensures
            s.wf(),
            s@ == (StatusModel { in_progress: false, last_update: None, next_update: now }),
    {
        UpdateStatus { in_progress: false, last_update: None, next_update: now }
    }

    /// Whether a new refresh is due at instant `now`.
    pub fn update_needed(&self, now: u64) -> (r: bool)
        requires
            self.wf(),
        ensures
            r == status_update_needed(self@, now),
    {
        if self.in_progress {
            false
        } else {
            match self.last_update {
                Some(_) => now >= self.next_update,
                None => true,
            }
        }
    }

    /// Enter the refreshing state. Only a due refresh may start, so two
    /// refreshes never overlap.
    pub fn begin_refresh(&mut self, now: u64)
        requires
            old(self).wf(),
            status_update_needed(old(self)@, now),
        ensures
            final(self).wf(),
            final(self)@ == (StatusModel { in_progress: true, ..old(self)@ }),
    {
        self.in_progress = true;
    }

    /// Record that the running refresh completed at instant `now`, whether
    /// it succeeded or failed: the scheduler returns to idle and the next
    /// refresh is due one interval from `now`.
    pub fn set_last_update(&mut self, now: u64)
        requires
            old(self)@.in_progress,
            now + REFRESH_INTERVAL_SECS <= u64::MAX,
        ensures
            final(self).wf(),
            final(self)@ == (StatusModel {
                in_progress: false,
                last_update: Some(now),
                next_update: (now + REFRESH_INTERVAL_SECS) as u64,
            }),
    {
        self.in_progress = false;
        self.last_update = Some(now);
        self.next_update = now + REFRESH_INTERVAL_SECS;
    }

    /// How many seconds remain until the next refresh is due at instant
    /// `now`; zero once it is due.
    pub fn next_update_in(&self, now: u64) -> (r: u64)
        ensures
            r == if now >= self@.next_update {
                0u64
            } else {
                (self@.next_update - now) as u64
            },
    {
        if now >= self.next_update {
            0
        } else {
            self.next_update - now
        }
    }
}

/// Right after a refresh completes at instant `c`, no new refresh is due,
/// and one becomes due exactly when a full interval has passed since `c`.
pub proof fn lemma_update_needed_after_completion(m: StatusModel, c: u64, now: u64)
    requires
        !m.in_progress,
        m.last_update == Some(c),
    ensures
        !status_update_needed(m, c),
        status_update_needed(m, now) <==> now >= c + REFRESH_INTERVAL_SECS,
{
}

/// While no refresh has ever completed, a refresh is due whenever the
/// scheduler is idle.
pub proof fn lemma_update_needed_initially(m: StatusModel, now: u64)
    requires
        !m.in_progress,
        m.last_update is None,
    ensures
        status_update_needed(m, now),
{
}

/// While a refresh is running, no second refresh is due, at any instant.
pub proof fn lemma_no_overlapping_refresh(m: StatusModel, now: u64)
    requires
        m.in_progress,
    ensures
        !status_update_needed(m, now),
{
}

} // verus!
