//! Counters and timings that the scheduler emits.

use vstd::prelude::*;
use crate::time_span::TimeSpan;

verus! {

/// Four counters and one series of execution times.
///
/// `queued_tasks` counts every task ever taken into the queue and is never
/// lowered. Each task that was run raises exactly one of `completed_tasks`
/// and `failed_tasks`; a completed task that ran longer than it was allowed
/// raises `overdue_tasks` as well.
#[derive(Clone, Debug, PartialEq, Eq)]
pub struct MetricsCollector {
    pub queued_tasks: u64,
    pub completed_tasks: u64,
    pub failed_tasks: u64,
    pub overdue_tasks: u64,
    pub execution_times: Vec<TimeSpan>,
}

/// The mathematical content of a [`MetricsCollector`].
pub struct MetricsState {
    pub queued: nat,
    pub completed: nat,
    pub failed: nat,
    pub overdue: nat,
    pub execution_times: Seq<TimeSpan>,
}

impl View for MetricsCollector {
    type V = MetricsState;

    open spec fn view(&self) -> MetricsState {
        MetricsState {
            queued: self.queued_tasks as nat,
            completed: self.completed_tasks as nat,
            failed: self.failed_tasks as nat,
            overdue: self.overdue_tasks as nat,
            execution_times: self.execution_times@,
        }
    }
}

impl MetricsState {
    /// Every counter can be raised once more without running over.
    pub open spec fn has_headroom(self) -> bool {
        &&& self.queued < u64::MAX
        &&& self.completed < u64::MAX
        &&& self.failed < u64::MAX
        &&& self.overdue < u64::MAX
    }
}

impl MetricsCollector {
    /// All counters at zero, no execution time recorded.
    pub fn new() -> (metrics: MetricsCollector)
        ensures
            metrics@ == (MetricsState {
                queued: 0,
                completed: 0,
                failed: 0,
                overdue: 0,
                execution_times: Seq::empty(),
            }),
    {
        MetricsCollector {
            queued_tasks: 0,
            completed_tasks: 0,
            failed_tasks: 0,
            overdue_tasks: 0,
            execution_times: Vec::new(),
        }
    }

    /// Whether every counter can be raised once more.
    pub fn can_count(&self) -> (answer: bool)
        ensures
            answer == self@.has_headroom(),
    {
        self.queued_tasks < u64::MAX && self.completed_tasks < u64::MAX && self.failed_tasks
            < u64::MAX && self.overdue_tasks < u64::MAX
    }

    /// One more task was taken into the queue.
    pub fn increment_queued_tasks(&mut self)
        requires
            old(self)@.queued < u64::MAX,
        ensures
            final(self)@ == (MetricsState { queued: old(self)@.queued + 1, ..old(self)@ }),
    {
        self.queued_tasks = self.queued_tasks + 1;
    }

    /// One more task completed.
    pub fn increment_completed_tasks(&mut self)
        requires
            old(self)@.completed < u64::MAX,
        ensures
            final(self)@ == (MetricsState { completed: old(self)@.completed + 1, ..old(self)@ }),
    {
        self.completed_tasks = self.completed_tasks + 1;
    }

    /// One more task failed.
    pub fn increment_failed_tasks(&mut self)
        requires
            old(self)@.failed < u64::MAX,
        ensures
            final(self)@ == (MetricsState { failed: old(self)@.failed + 1, ..old(self)@ }),
    {
        self.failed_tasks = self.failed_tasks + 1;
    }

    /// One more task ran longer than it was allowed.
    pub fn increment_overdue_tasks(&mut self)
        requires
            old(self)@.overdue < u64::MAX,
        ensures
            final(self)@ == (MetricsState { overdue: old(self)@.overdue + 1, ..old(self)@ }),
    {
        self.overdue_tasks = self.overdue_tasks + 1;
    }

    /// Adds one sample to the series of execution times.
    pub fn record_task_execution(&mut self, execution_time: TimeSpan)
        ensures
            final(self)@ == (MetricsState {
                execution_times: old(self)@.execution_times.push(execution_time),
                ..old(self)@
            }),
    {
        self.execution_times.push(execution_time);
    }
}

} // verus!
