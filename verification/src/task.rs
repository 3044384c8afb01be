//! Tasks and their results.

use vstd::prelude::*;
use crate::time_span::TimeSpan;

verus! {

/// A unit of inference work. The scheduler never changes a task; `priority`
/// is carried along and plays no part in the order of dispatch.
#[derive(Clone, Debug, PartialEq, Eq)]
pub struct ComputeTask {
    pub id: String,
    pub model_id: String,
    pub input_data: Vec<u8>,
    pub priority: u8,
    pub max_duration: TimeSpan,
}

/// What a task produced, and how long its execution took.
#[derive(Clone, Debug, PartialEq, Eq)]
pub struct TaskResult {
    pub task_id: String,
    pub output: Vec<u8>,
    pub execution_time: TimeSpan,
}

} // verus!
