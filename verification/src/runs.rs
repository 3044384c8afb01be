//! Whole runs of the scheduler: what sequences of submissions, polls and
//! reported executions add up to.

use vstd::prelude::*;
use crate::device::DeviceLease;
use crate::gpu_manager::{
    assigned,
    has_headroom,
    is_least_loaded,
    lease_is_live,
    lemma_release_restores_pool,
    lemma_selection_exists,
    released,
};
use crate::metrics::MetricsState;
use crate::task::ComputeTask;
use crate::task_scheduler::{
    accepts,
    is_overdue,
    least_loaded,
    polled,
    processed,
    recorded,
    settled,
    starts_task,
    submitted,
    SchedulerState,
};
use crate::time_span::TimeSpan;

verus! {

/// The state after the tasks of `tasks` were submitted one after the other,
/// first to last.
pub open spec fn submitted_all(s: SchedulerState, tasks: Seq<ComputeTask>) -> SchedulerState
    decreases tasks.len(),
{
    if tasks.len() == 0 {
        s
    } else {
        submitted(submitted_all(s, tasks.drop_last()), tasks.last())
    }
}

/// The state after `n` polls in a row.
pub open spec fn polled_times(s: SchedulerState, n: nat) -> SchedulerState
    decreases n,
{
    if n == 0 {
        s
    } else {
        polled(polled_times(s, (n - 1) as nat))
    }
}

/// The tasks that `n` polls in a row hand out for execution, in the order
/// in which they are handed out.
pub open spec fn started(s: SchedulerState, n: nat) -> Seq<ComputeTask>
    decreases n,
{
    if n == 0 {
        Seq::empty()
    } else {
        let before = polled_times(s, (n - 1) as nat);
        let earlier = started(s, (n - 1) as nat);
        if starts_task(before) {
            earlier.push(before.queue[0])
        } else {
            earlier
        }
    }
}

/// Submissions that fit are all taken, and none is lost: after submitting
/// `tasks` to an open scheduler with that many free slots, the queue is the
/// old queue followed by `tasks`, so its length has grown by exactly their
/// number; each of the submissions was accepted; every task was counted as
/// queued; and nothing else has changed.
pub proof fn lemma_submissions_are_all_pending(s: SchedulerState, tasks: Seq<ComputeTask>)
    requires
        !s.closed,
        s.queue.len() + tasks.len() <= s.capacity,
    ensures
        submitted_all(s, tasks) == (SchedulerState {
            queue: s.queue + tasks,
            metrics: MetricsState { queued: s.metrics.queued + tasks.len(), ..s.metrics },
            ..s
        }),
        submitted_all(s, tasks).queue.len() == s.queue.len() + tasks.len(),
        forall|k: int|
            0 <= k < tasks.len() ==> accepts(#[trigger] submitted_all(s, tasks.take(k))),
    decreases tasks.len(),
{
    if tasks.len() == 0 {
        assert(s.queue + tasks == s.queue);
    } else {
        let shorter = tasks.drop_last();
        lemma_submissions_are_all_pending(s, shorter);
        assert((s.queue + shorter).push(tasks.last()) == s.queue + tasks);
        assert forall|k: int| 0 <= k < tasks.len() implies accepts(
            #[trigger] submitted_all(s, tasks.take(k)),
        ) by {
            if k < shorter.len() {
                assert(tasks.take(k) == shorter.take(k));
            } else {
                assert(tasks.take(k) == shorter);
            }
        }
    }
}

/// Polls hand tasks out oldest first: with a device in the pool, `n` polls
/// on a queue of at least `n` tasks start exactly its first `n` tasks, in
/// queue order, and leave the rest pending in their order.
pub proof fn lemma_polls_start_the_oldest(s: SchedulerState, n: nat)
    requires
        s.devices.len() > 0,
        n <= s.queue.len(),
    ensures
        started(s, n) == s.queue.take(n as int),
        polled_times(s, n).queue == s.queue.skip(n as int),
        polled_times(s, n).devices.len() == s.devices.len(),
        polled_times(s, n).capacity == s.capacity,
        polled_times(s, n).closed == s.closed,
        polled_times(s, n).metrics == s.metrics,
    decreases n,
{
    if n == 0 {
        assert(s.queue.take(0) == Seq::<ComputeTask>::empty());
        assert(s.queue.skip(0) == s.queue);
    } else {
        let m = (n - 1) as nat;
        lemma_polls_start_the_oldest(s, m);
        let before = polled_times(s, m);
        assert(starts_task(before));
        let _ = lemma_selection_exists(before.devices);
        assert(is_least_loaded(before.devices, least_loaded(before.devices)));
        assert(before.queue[0] == s.queue[m as int]);
        assert(s.queue.take(m as int).push(s.queue[m as int]) == s.queue.take(n as int));
        assert(s.queue.skip(m as int).skip(1) == s.queue.skip(n as int));
    }
}

/// The order of dispatch is the order of submission: tasks submitted to an
/// open scheduler with nothing pending, enough free slots and a device in
/// its pool are started, by as many polls, in the order in which they were
/// submitted, after which nothing is pending.
pub proof fn lemma_dispatch_order_is_submission_order(s: SchedulerState, tasks: Seq<ComputeTask>)
    requires
        !s.closed,
        s.queue.len() == 0,
        tasks.len() <= s.capacity,
        s.devices.len() > 0,
    ensures
        started(submitted_all(s, tasks), tasks.len()) == tasks,
        polled_times(submitted_all(s, tasks), tasks.len()).queue.len() == 0,
{
    lemma_submissions_are_all_pending(s, tasks);
    let full = submitted_all(s, tasks);
    assert(full.queue == tasks);
    lemma_polls_start_the_oldest(full, tasks.len());
    assert(tasks.take(tasks.len() as int) == tasks);
}

/// A submission never overtakes: whatever is submitted while tasks are
/// pending, the next poll still starts the task that was oldest before.
pub proof fn lemma_submission_keeps_the_head(s: SchedulerState, task: ComputeTask)
    requires
        s.queue.len() > 0,
    ensures
        submitted(s, task).queue.len() > 0,
        submitted(s, task).queue[0] == s.queue[0],
{
}

/// The load of a device returns to what it was before the assignment once
/// the execution is reported, whether it succeeded or failed: a poll that
/// starts a task, followed by the report for that task's lease, leaves the
/// whole pool as it was before the poll.
pub proof fn lemma_load_returns_after_execution(
    s: SchedulerState,
    task: ComputeTask,
    lease: DeviceLease,
    succeeded: bool,
    execution_time: TimeSpan,
)
    requires
        starts_task(s),
        has_headroom(s.devices),
        lease.spec_index() == least_loaded(s.devices),
        lease.spec_device_id() == s.devices[least_loaded(s.devices)].id,
    ensures
        lease_is_live(polled(s).devices, lease),
        processed(polled(s), task, lease, succeeded, execution_time).devices == s.devices,
{
    let _ = lemma_selection_exists(s.devices);
    assert(is_least_loaded(s.devices, least_loaded(s.devices)));
    let chosen = least_loaded(s.devices);
    assert(s.devices[chosen].load < u64::MAX) by {
        let j = choose|j: int|
            0 <= j < s.devices.len() && (#[trigger] s.devices[j]).load < u64::MAX;
        assert(s.devices[chosen].load <= s.devices[j].load);
    }
    lemma_release_restores_pool(s.devices, chosen);
    assert(polled(s).devices == assigned(s.devices, chosen));
    assert(settled(polled(s).devices, lease) == released(assigned(s.devices, chosen), chosen));
}

/// Reporting an execution settles exactly one device and no queue: the
/// leased device, if the lease is live, carries one unit of load less, and
/// every other device, the pending tasks, the capacity and the closed flag
/// are as before.
pub proof fn lemma_report_touches_one_device(
    s: SchedulerState,
    task: ComputeTask,
    lease: DeviceLease,
    succeeded: bool,
    execution_time: TimeSpan,
    j: int,
)
    requires
        lease_is_live(s.devices, lease),
        0 <= j < s.devices.len(),
    ensures
        processed(s, task, lease, succeeded, execution_time).queue == s.queue,
        processed(s, task, lease, succeeded, execution_time).capacity == s.capacity,
        processed(s, task, lease, succeeded, execution_time).closed == s.closed,
        processed(s, task, lease, succeeded, execution_time).devices.len() == s.devices.len(),
        j != lease.spec_index() ==> processed(
            s,
            task,
            lease,
            succeeded,
            execution_time,
        ).devices[j] == s.devices[j],
        processed(s, task, lease, succeeded, execution_time).devices[lease.spec_index() as int].load
            == s.devices[lease.spec_index() as int].load - 1,
{
}

/// Every executed task is counted exactly once: recording it raises the sum
/// of completed and failed tasks by one, adds one execution time, leaves
/// the queued count alone, and raises the overdue count by one if the task
/// completed late and not at all otherwise.
pub proof fn lemma_one_outcome_per_task(
    m: MetricsState,
    task: ComputeTask,
    succeeded: bool,
    execution_time: TimeSpan,
)
    ensures
        ({
            let after = recorded(
                m,
                succeeded,
                is_overdue(task, succeeded, execution_time),
                execution_time,
            );
            &&& after.completed + after.failed == m.completed + m.failed + 1
            &&& after.completed == m.completed || after.failed == m.failed
            &&& after.queued == m.queued
            &&& after.execution_times.len() == m.execution_times.len() + 1
            &&& after.execution_times.last() == execution_time
            &&& after.overdue == m.overdue + if succeeded && execution_time.nanos
                > task.max_duration.nanos {
                1nat
            } else {
                0nat
            }
        }),
{
}

/// Polling with nothing pending does nothing, however often: the state
/// stays as it is and no task is started.
pub proof fn lemma_idle_polls_change_nothing(s: SchedulerState, n: nat)
    requires
        s.queue.len() == 0,
    ensures
        polled_times(s, n) == s,
        started(s, n) == Seq::<ComputeTask>::empty(),
    decreases n,
{
    if n > 0 {
        lemma_idle_polls_change_nothing(s, (n - 1) as nat);
    }
}

/// Polling an empty pool loses no task: however often it is done, every
/// pending task stays pending, in its place.
pub proof fn lemma_polls_without_devices_keep_tasks(s: SchedulerState, n: nat)
    requires
        s.devices.len() == 0,
    ensures
        polled_times(s, n) == s,
        started(s, n) == Seq::<ComputeTask>::empty(),
    decreases n,
{
    if n > 0 {
        lemma_polls_without_devices_keep_tasks(s, (n - 1) as nat);
    }
}

} // verus!
