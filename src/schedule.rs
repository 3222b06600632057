use vstd::prelude::*;

verus! {

/// Delay between a genuine press and its debounce task, in milliseconds.
pub const DEBOUNCE_DELAY_MS: u64 = 500;

/// Why a request to schedule the debounce task was refused.
#[derive(Clone, Copy, Debug, PartialEq, Eq, Structural)]
pub enum ScheduleError {
    /// The task is already waiting for its deadline.
    AlreadyPending,
}

/// A delay queue with room for one pending run of the debounce task: the
/// deadline, on the monotonic clock in milliseconds, of the run that is
/// waiting, if any.
#[derive(Clone, Copy, Debug, PartialEq, Eq, Structural)]
pub struct DelayQueue {
    pub deadline: Option<u64>,
}

impl DelayQueue {
    /// An empty queue.
    pub fn new() -> (q: DelayQueue)
        ensures
            q.deadline is None,
    {
        DelayQueue { deadline: None }
    }

    /// Whether a run is waiting.
    pub fn is_pending(&self) -> (r: bool)
        ensures
            r == self.deadline is Some,
    {
        self.deadline.is_some()
    }

    /// Schedules the task to run `delay` milliseconds after `now`. A second
    /// request while one is waiting is refused and leaves the queue as it was.
    pub fn schedule_after(&mut self, now: u64, delay: u64) -> (r: Result<(), ScheduleError>)
        requires
            now + delay <= u64::MAX,
        ensures
            old(self).deadline is Some ==> r == Err::<(), ScheduleError>(
                ScheduleError::AlreadyPending,
            ) && *final(self) == *old(self),
            old(self).deadline is None ==> r is Ok && final(self).deadline == Some(
                (now + delay) as u64,
            ),
    {
        if self.deadline.is_some() {
            Err(ScheduleError::AlreadyPending)
        } else {
            self.deadline = Some(now + delay);
            Ok(())
        }
    }

    /// Dispatches the waiting run if the clock has reached its deadline:
    /// returns whether it did, and empties the queue when it did.
    pub fn take_due(&mut self, now: u64) -> (due: bool)
        ensures
            due == (old(self).deadline is Some && old(self).deadline->0 <= now),
            due ==> final(self).deadline is None,
            !due ==> *final(self) == *old(self),
    {
        match self.deadline {
            Some(d) => {
                if d <= now {
                    self.deadline = None;
                    true
                } else {
                    false
                }
            },
            None => false,
        }
    }
}

} // verus!
