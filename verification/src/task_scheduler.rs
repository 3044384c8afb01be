//! The dispatcher: one queue, one device pool, one set of metrics, and the
//! decisions that move a task from submission to its recorded outcome.
//!
//! The scheduler never runs a task and never waits. [`TaskScheduler::poll`]
//! says what to do next; the caller does it and, after an execution, reports
//! back through [`TaskScheduler::process_task`].

use vstd::prelude::*;
use crate::device::{DeviceLease, DeviceState, GPUMemoryInfo};
use crate::error::SchedulerError;
use crate::gpu_manager::{
    assigned,
    has_headroom,
    is_least_loaded,
    lease_is_live,
    memory_snapshot,
    released,
    GPUManager,
};
use crate::metrics::{MetricsCollector, MetricsState};
use crate::task::{ComputeTask, TaskResult};
use crate::task_queue::TaskQueue;
use crate::time_span::{TimeSpan, NANOS_PER_MILLI};

verus! {

/// How long the dispatcher rests, in milliseconds, when it found nothing to
/// start.
pub const IDLE_POLL_MILLIS: u64 = 100;

/// The mathematical content of a [`TaskScheduler`].
pub struct SchedulerState {
    /// Pending tasks, oldest first.
    pub queue: Seq<ComputeTask>,
    /// The most tasks that may be pending at once.
    pub capacity: nat,
    /// Whether submissions are refused for good.
    pub closed: bool,
    /// The device pool.
    pub devices: Seq<DeviceState>,
    /// The counters and timings.
    pub metrics: MetricsState,
}

/// What the dispatcher's caller is to do next.
#[derive(Debug, PartialEq, Eq)]
pub enum DispatchAction {
    /// Nothing is pending: rest for `pause`, then poll again.
    Idle { pause: TimeSpan },
    /// A task is pending but the pool has no device: the task went back to
    /// the head of the queue; rest for `pause`, then poll again.
    Backoff { pause: TimeSpan },
    /// Run `task` on the leased device, then report to
    /// [`TaskScheduler::process_task`].
    Execute { task: ComputeTask, lease: DeviceLease },
}

/// The recorded end of one task.
#[derive(Debug, PartialEq, Eq)]
pub struct Completion {
    /// The task's result, or the error that made it fail.
    pub outcome: Result<TaskResult, SchedulerError>,
    /// Whether the task completed and took longer than it was allowed.
    pub overdue: bool,
}

/// The position that selection picks in a pool that is not empty.
pub open spec fn least_loaded(devices: Seq<DeviceState>) -> int {
    choose|i: int| is_least_loaded(devices, i)
}

/// A submission finds the queue open and a slot free.
pub open spec fn accepts(s: SchedulerState) -> bool {
    !s.closed && s.queue.len() < s.capacity
}

/// The error that answers a submission which is not accepted.
pub open spec fn refusal(s: SchedulerState) -> SchedulerError {
    if s.closed {
        SchedulerError::QueueClosed
    } else {
        SchedulerError::QueueFull
    }
}

/// What a submission is to do next.
#[derive(Clone, Debug, PartialEq, Eq)]
pub enum SubmissionStep {
    /// Submit: the task will be taken.
    Accept,
    /// Give up with this error: the task will never be taken.
    Refuse(SchedulerError),
    /// Wait until a task is started, then ask again.
    Wait,
}

/// What a submission is to do next in state `s`.
///
/// It is accepted where the scheduler is open and a slot is free. A closed
/// scheduler refuses it with `QueueClosed`. An open scheduler whose queue
/// is full makes it wait for the slot that the next start of a task frees;
/// one that holds no task at all never frees a slot, and refuses with
/// `QueueFull`.
pub open spec fn submission_step(s: SchedulerState) -> SubmissionStep {
    if accepts(s) {
        SubmissionStep::Accept
    } else if s.closed {
        SubmissionStep::Refuse(SchedulerError::QueueClosed)
    } else if s.capacity == 0 {
        SubmissionStep::Refuse(SchedulerError::QueueFull)
    } else {
        SubmissionStep::Wait
    }
}

/// The state after `task` was submitted: appended at the tail and counted
/// as queued if it was accepted, unchanged if not.
pub open spec fn submitted(s: SchedulerState, task: ComputeTask) -> SchedulerState {
    if accepts(s) {
        SchedulerState {
            queue: s.queue.push(task),
            metrics: MetricsState { queued: s.metrics.queued + 1, ..s.metrics },
            ..s
        }
    } else {
        s
    }
}

/// A poll starts a task: one is pending and the pool has a device.
pub open spec fn starts_task(s: SchedulerState) -> bool {
    s.queue.len() > 0 && s.devices.len() > 0
}

/// The state after one poll: the oldest task left the queue and the
/// least-loaded device took one more unit of load, if a task was started;
/// unchanged if not.
pub open spec fn polled(s: SchedulerState) -> SchedulerState {
    if starts_task(s) {
        SchedulerState {
            queue: s.queue.skip(1),
            devices: assigned(s.devices, least_loaded(s.devices)),
            ..s
        }
    } else {
        s
    }
}

/// A task counts as overdue when it completed and its execution took
/// strictly longer than its `max_duration`.
pub open spec fn is_overdue(task: ComputeTask, succeeded: bool, execution_time: TimeSpan) -> bool {
    succeeded && execution_time.nanos > task.max_duration.nanos
}

/// The metrics after one executed task was recorded: one more execution
/// time, one more completed or failed task, and one more overdue task if
/// it was overdue.
pub open spec fn recorded(
    m: MetricsState,
    succeeded: bool,
    overdue: bool,
    execution_time: TimeSpan,
) -> MetricsState {
    MetricsState {
        queued: m.queued,
        completed: if succeeded {
            m.completed + 1
        } else {
            m.completed
        },
        failed: if succeeded {
            m.failed
        } else {
            m.failed + 1
        },
        overdue: if overdue {
            m.overdue + 1
        } else {
            m.overdue
        },
        execution_times: m.execution_times.push(execution_time),
    }
}

/// The pool after a lease was given back: the leased device carries one
/// unit of load less if the lease was live, and nothing changed if not.
pub open spec fn settled(devices: Seq<DeviceState>, lease: DeviceLease) -> Seq<DeviceState> {
    if lease_is_live(devices, lease) {
        released(devices, lease.spec_index() as int)
    } else {
        devices
    }
}

/// The state after the execution of `task` under `lease` was reported.
pub open spec fn processed(
    s: SchedulerState,
    task: ComputeTask,
    lease: DeviceLease,
    succeeded: bool,
    execution_time: TimeSpan,
) -> SchedulerState {
    SchedulerState {
        devices: settled(s.devices, lease),
        metrics: recorded(
            s.metrics,
            succeeded,
            is_overdue(task, succeeded, execution_time),
            execution_time,
        ),
        ..s
    }
}

/// What the caller gets back for a reported execution.
pub open spec fn completion_of(
    task: ComputeTask,
    outcome: Result<Vec<u8>, SchedulerError>,
    execution_time: TimeSpan,
) -> Completion {
    Completion {
        outcome: match outcome {
            Ok(output) => Ok(TaskResult { task_id: task.id, output, execution_time }),
            Err(e) => Err(e),
        },
        overdue: is_overdue(task, outcome is Ok, execution_time),
    }
}

/// The scheduler: a bounded queue of pending tasks, the device pool and the
/// metrics.
#[derive(Debug)]
pub struct TaskScheduler {
    queue: TaskQueue,
    gpu_manager: GPUManager,
    metrics: MetricsCollector,
}

impl View for TaskScheduler {
    type V = SchedulerState;

    closed spec fn view(&self) -> SchedulerState {
        SchedulerState {
            queue: self.queue@,
            capacity: self.queue.spec_capacity() as nat,
            closed: self.queue.spec_is_closed(),
            devices: self.gpu_manager@,
            metrics: self.metrics@,
        }
    }
}

impl TaskScheduler {
    /// A scheduler over the given pool and metrics, open, with nothing
    /// pending, that holds at most `max_concurrent_tasks` pending tasks.
    pub fn new(
        gpu_manager: GPUManager,
        metrics: MetricsCollector,
        max_concurrent_tasks: usize,
    ) -> (scheduler: TaskScheduler)
        ensures
            scheduler@ == (SchedulerState {
                queue: Seq::empty(),
                capacity: max_concurrent_tasks as nat,
                closed: false,
                devices: gpu_manager@,
                metrics: metrics@,
            }),
    {
        TaskScheduler { queue: TaskQueue::new(max_concurrent_tasks), gpu_manager, metrics }
    }

    /// Takes `task` into the queue, behind every task already pending, and
    /// counts it as queued. A closed scheduler refuses with `QueueClosed`,
    /// an open one whose queue is at capacity with `QueueFull`; a refusal
    /// changes nothing.
    pub fn submit_task(&mut self, task: ComputeTask) -> (taken: Result<(), SchedulerError>)
        requires
            accepts(old(self)@) ==> old(self)@.metrics.queued < u64::MAX,
        ensures
            final(self)@ == submitted(old(self)@, task),
            taken == if accepts(old(self)@) {
                Ok::<(), SchedulerError>(())
            } else {
                Err::<(), SchedulerError>(refusal(old(self)@))
            },
    {
        match self.queue.submit(task) {
            Ok(_) => {
                self.metrics.increment_queued_tasks();
                Ok(())
            },
            Err(e) => Err(e),
        }
    }

    /// The number of pending tasks.
    pub fn get_queue_length(&self) -> (length: usize)
        ensures
            length == self@.queue.len(),
            length <= self@.capacity,
    {
        self.queue.length()
    }

    /// The most tasks that may be pending at once.
    pub fn max_concurrent_tasks(&self) -> (capacity: usize)
        ensures
            capacity == self@.capacity,
    {
        self.queue.capacity()
    }

    /// Whether submissions are refused for good.
    pub fn is_closed(&self) -> (closed: bool)
        ensures
            closed == self@.closed,
    {
        self.queue.is_closed()
    }

    /// Whether a submission would be accepted.
    pub fn can_accept(&self) -> (answer: bool)
        ensures
            answer == accepts(self@),
    {
        !self.queue.is_closed() && self.queue.has_room()
    }

    /// What a submission is to do next; see [`submission_step`].
    pub fn next_submission_step(&self) -> (step: SubmissionStep)
        ensures
            step == submission_step(self@),
    {
        if !self.queue.is_closed() && self.queue.has_room() {
            SubmissionStep::Accept
        } else if self.queue.is_closed() {
            SubmissionStep::Refuse(SchedulerError::QueueClosed)
        } else if self.queue.capacity() == 0 {
            SubmissionStep::Refuse(SchedulerError::QueueFull)
        } else {
            SubmissionStep::Wait
        }
    }

    /// Whether [`TaskScheduler::poll`] may be called: the poll would start
    /// no task, or some device can take one more unit of load.
    pub fn can_dispatch(&self) -> (answer: bool)
        ensures
            answer == (starts_task(self@) ==> has_headroom(self@.devices)),
    {
        self.queue.length() == 0 || self.gpu_manager.can_assign()
    }

    /// Whether every counter can be raised once more, which is enough for
    /// [`TaskScheduler::submit_task`] and [`TaskScheduler::process_task`].
    pub fn can_record(&self) -> (answer: bool)
        ensures
            answer == self@.metrics.has_headroom(),
    {
        self.metrics.can_count()
    }

    /// The memory snapshot of every device, in pool order. In every entry
    /// `used` is at most `total`.
    pub fn get_gpu_stats(&self) -> (stats: Vec<GPUMemoryInfo>)
        ensures
            stats@ == memory_snapshot(self@.devices),
            forall|i: int| 0 <= i < stats@.len() ==> (#[trigger] stats@[i]).used <= stats@[i].total,
    {
        self.gpu_manager.get_gpu_stats()
    }

    /// The counters and timings.
    pub fn metrics(&self) -> (metrics: &MetricsCollector)
        ensures
            metrics@ == self@.metrics,
    {
        &self.metrics
    }

    /// The device pool.
    pub fn gpu_manager(&self) -> (pool: &GPUManager)
        ensures
            pool@ == self@.devices,
    {
        &self.gpu_manager
    }

    /// Records how much memory the device at `index` has in use; see
    /// [`GPUManager::record_memory_usage`].
    pub fn record_memory_usage(&mut self, index: usize, used_memory: u64) -> (accepted: bool)
        ensures
            accepted == (index < old(self)@.devices.len() && used_memory <= old(
                self,
            )@.devices[index as int].total_memory),
            accepted ==> final(self)@ == (SchedulerState {
                devices: old(self)@.devices.update(
                    index as int,
                    old(self)@.devices[index as int].with_used_memory(used_memory),
                ),
                ..old(self)@
            }),
            !accepted ==> final(self)@ == old(self)@,
    {
        self.gpu_manager.record_memory_usage(index, used_memory)
    }

    /// Refuses every later submission. Pending tasks are still dispatched.
    pub fn close(&mut self)
        ensures
            final(self)@ == (SchedulerState { closed: true, ..old(self)@ }),
    {
        self.queue.close();
    }

    /// One turn of the dispatch loop.
    ///
    /// With nothing pending the answer is `Idle` and nothing changes. With a
    /// task pending and an empty pool the answer is `Backoff`: the task is
    /// back at the head of the queue and nothing has changed. Otherwise the
    /// oldest task leaves the queue, the least-loaded device (the first of
    /// them on a tie) takes one more unit of load, and the answer is
    /// `Execute` with that task and the lease on that device.
    pub fn poll(&mut self) -> (action: DispatchAction)
        requires
            starts_task(old(self)@) ==> has_headroom(old(self)@.devices),
        ensures
            final(self)@ == polled(old(self)@),
            match action {
                DispatchAction::Idle { pause } => {
                    &&& old(self)@.queue.len() == 0
                    &&& pause.nanos == IDLE_POLL_MILLIS * NANOS_PER_MILLI
                },
                DispatchAction::Backoff { pause } => {
                    &&& old(self)@.queue.len() > 0
                    &&& old(self)@.devices.len() == 0
                    &&& pause.nanos == IDLE_POLL_MILLIS * NANOS_PER_MILLI
                },
                DispatchAction::Execute { task, lease } => {
                    &&& starts_task(old(self)@)
                    &&& task == old(self)@.queue[0]
                    &&& lease.spec_index() == least_loaded(old(self)@.devices)
                    &&& lease.spec_device_id() == old(self)@.devices[lease.spec_index() as int].id
                },
            },
    {
        match self.queue.try_dequeue() {
            None => DispatchAction::Idle { pause: TimeSpan::from_millis(IDLE_POLL_MILLIS) },
            Some(task) => {
                match self.gpu_manager.acquire_gpu() {
                    Err(_) => {
                        self.queue.requeue(task);
                        assert(self@.queue == old(self)@.queue);
                        DispatchAction::Backoff { pause: TimeSpan::from_millis(IDLE_POLL_MILLIS) }
                    },
                    Ok(lease) => {
                        proof {
                            crate::gpu_manager::lemma_selection_is_deterministic(
                                old(self)@.devices,
                                lease.spec_index() as int,
                                least_loaded(old(self)@.devices),
                            );
                        }
                        DispatchAction::Execute { task, lease }
                    },
                }
            },
        }
    }

    /// Records the end of an execution that [`TaskScheduler::poll`] started.
    ///
    /// The lease is given back whatever the outcome. One execution time is
    /// recorded. A successful execution counts as completed, and as overdue
    /// too if it took strictly longer than the task's `max_duration`; a
    /// failed one counts as failed and is never overdue. The queue is not
    /// touched.
    pub fn process_task(
        &mut self,
        task: ComputeTask,
        lease: DeviceLease,
        outcome: Result<Vec<u8>, SchedulerError>,
        execution_time: TimeSpan,
    ) -> (completion: Completion)
        requires
            outcome is Ok ==> old(self)@.metrics.completed < u64::MAX,
            outcome is Err ==> old(self)@.metrics.failed < u64::MAX,
            is_overdue(task, outcome is Ok, execution_time) ==> old(self)@.metrics.overdue
                < u64::MAX,
        ensures
            final(self)@ == processed(old(self)@, task, lease, outcome is Ok, execution_time),
            completion == completion_of(task, outcome, execution_time),
    {
        self.gpu_manager.release_gpu(lease);
        self.metrics.record_task_execution(execution_time);
        match outcome {
            Ok(output) => {
                self.metrics.increment_completed_tasks();
                let overdue = execution_time.exceeds(&task.max_duration);
                if overdue {
                    self.metrics.increment_overdue_tasks();
                }
                Completion {
                    outcome: Ok(TaskResult { task_id: task.id, output, execution_time }),
                    overdue,
                }
            },
            Err(e) => {
                self.metrics.increment_failed_tasks();
                Completion { outcome: Err(e), overdue: false }
            },
        }
    }
}

} // verus!
