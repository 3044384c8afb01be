//! What can go wrong in the scheduler.

use vstd::prelude::*;

verus! {

/// The scheduler's failures.
///
/// `NoDeviceAvailable` at start-up means that no device met the memory
/// threshold. `QueueFull` and `QueueClosed` answer a submission that was not
/// taken. `ModelLoad` and `Execution` come from whoever runs a task and are
/// recorded as that task's failure. `LockContention` says that exclusive
/// access to the device list could not be had any more.
#[derive(Clone, Debug, PartialEq, Eq)]
pub enum SchedulerError {
    NoDeviceAvailable,
    QueueFull,
    QueueClosed,
    ModelLoad(String),
    Execution(String),
    LockContention,
}

} // verus!
