//! Fixed-delay timing of a periodic job: the next run is due one interval after
//! the previous run completed, and a job never overlaps itself.
//!
//! The runner asks `poll` what to do, runs the job on `Start`, reports the end with
//! `complete`, and otherwise sleeps for the time `poll` gives.

use vstd::prelude::*;

verus! {

/// Where a job stands.
#[derive(Debug, Clone, Copy, PartialEq, Eq, Structural)]
pub enum JobState {
    /// Not running; the next run is due at this instant (milliseconds).
    Idle { due_ms: u64 },
    /// A run is in progress.
    Running,
}

/// What the runner does next.
#[derive(Debug, Clone, Copy, PartialEq, Eq, Structural)]
pub enum JobAction {
    /// Run the job now, then call `complete`.
    Start,
    /// Nothing is due yet: sleep this many milliseconds and ask again.
    Sleep(u64),
    /// A run is still in progress: do not start another.
    Busy,
}

/// `a + b`, held at `u64::MAX`.
pub open spec fn add_ms(a: u64, b: u64) -> u64 {
    if a + b > u64::MAX {
        u64::MAX
    } else {
        (a + b) as u64
    }
}

/// The state and action after asking at instant `now`.
pub open spec fn poll_step(s: JobState, now: u64) -> (JobState, JobAction) {
    match s {
        JobState::Running => (s, JobAction::Busy),
        JobState::Idle { due_ms } => if now >= due_ms {
            (JobState::Running, JobAction::Start)
        } else {
            (s, JobAction::Sleep((due_ms - now) as u64))
        },
    }
}

/// The state after a run ends at instant `now`.
pub open spec fn complete_step(s: JobState, interval: u64, now: u64) -> JobState {
    match s {
        JobState::Running => JobState::Idle { due_ms: add_ms(now, interval) },
        JobState::Idle { .. } => s,
    }
}

/// A job is never started while it runs: after a start, every further poll before
/// the run completes answers `Busy`.
pub proof fn lemma_no_overlap(s: JobState, t1: u64, t2: u64)
    requires
        poll_step(s, t1).1 == JobAction::Start,
    ensures
        poll_step(poll_step(s, t1).0, t2) == (JobState::Running, JobAction::Busy),
{
}

/// Fixed delay: after a run completes at `t`, polls before `t + interval` sleep exactly
/// until then, and a poll from then on starts the next run.
pub proof fn lemma_fixed_delay(interval: u64, t: u64, later: u64)
    requires
        t + interval <= u64::MAX,
        t <= later,
    ensures
        later < t + interval ==> poll_step(complete_step(JobState::Running, interval, t), later).1
            == JobAction::Sleep((t + interval - later) as u64),
        later >= t + interval ==> poll_step(complete_step(JobState::Running, interval, t), later).1
            == JobAction::Start,
{
}

/// One periodic job's timer.
pub struct PeriodicJob {
    interval_ms: u64,
    state: JobState,
}

impl PeriodicJob {
    /// The delay between the end of one run and the start of the next.
    pub closed spec fn interval(&self) -> u64 {
        self.interval_ms
    }

    /// Where the job stands.
    pub closed spec fn state(&self) -> JobState {
        self.state
    }

    /// A job whose first run is due at `now_ms`.
    pub fn new(interval_ms: u64, now_ms: u64) -> (r: Self)
        ensures
            r.interval() == interval_ms,
            r.state() == (JobState::Idle { due_ms: now_ms }),
    {
        PeriodicJob { interval_ms, state: JobState::Idle { due_ms: now_ms } }
    }

    /// What to do at instant `now_ms`; on `Start` the job counts as running.
    pub fn poll(&mut self, now_ms: u64) -> (r: JobAction)
        ensures
            (final(self).state(), r) == poll_step(old(self).state(), now_ms),
            final(self).interval() == old(self).interval(),
    {
        match self.state {
            JobState::Running => JobAction::Busy,
            JobState::Idle { due_ms } => {
                if now_ms >= due_ms {
                    self.state = JobState::Running;
                    JobAction::Start
                } else {
                    JobAction::Sleep(due_ms - now_ms)
                }
            },
        }
    }

    /// Records that the run in progress ended at `now_ms`; the next is due one interval later.
    pub fn complete(&mut self, now_ms: u64)
        ensures
            final(self).state() == complete_step(old(self).state(), old(self).interval(), now_ms),
            final(self).interval() == old(self).interval(),
    {
        if let JobState::Running = self.state {
            self.state = JobState::Idle { due_ms: now_ms.saturating_add(self.interval_ms) };
        }
    }
}

} // verus!
