//! What a node does about an event of its compute side.
//!
//! The node's storage, its consensus layer and its network are reached by
//! the caller. [`handle_compute_event`] lists, in order, the steps that an
//! event calls for; the caller performs them one by one and stops at the
//! first that fails.

use vstd::prelude::*;

verus! {

/// Where a task stands, as the node's storage records it.
#[derive(Clone, Copy, Debug, PartialEq, Eq, Structural)]
pub enum TaskStatus {
    InProgress,
    Completed,
    Failed,
}

/// A task as the network hands it around.
#[derive(Clone, Debug, PartialEq, Eq)]
pub struct Task {
    pub id: u64,
    pub description: String,
    pub data: Vec<u8>,
    pub result_hash: [u8; 32],
}

/// A measurement of the node's resources, in percent, and whether the node
/// counts it as high.
#[derive(Clone, Copy, Debug, PartialEq, Eq, Structural)]
pub struct ResourceUsage {
    pub cpu: u8,
    pub memory: u8,
    pub gpu: u8,
    pub high: bool,
}

/// An event of the compute side.
#[derive(Clone, Debug, PartialEq, Eq)]
pub enum ComputeEvent {
    TaskCompleted(Task),
    TaskFailed(u64, String),
    NewTaskReceived(Task),
    ResourceUsageUpdate(ResourceUsage),
    ModelUpdated(String, String),
}

/// Why a node turns a task down.
#[derive(Clone, Copy, Debug, PartialEq, Eq, Structural)]
pub enum RejectionReason {
    NoCapacity,
}

impl RejectionReason {
    /// The reason in words.
    pub open spec fn spec_message(self) -> Seq<char> {
        match self {
            RejectionReason::NoCapacity => "No capacity"@,
        }
    }

    /// The reason in words, as it is sent.
    pub fn message(&self) -> (message: String)
        ensures
            message@ == self.spec_message(),
    {
        match self {
            RejectionReason::NoCapacity => String::from_str("No capacity"),
        }
    }
}

/// A transaction for the consensus layer.
#[derive(Clone, Debug, PartialEq, Eq)]
pub enum Transaction {
    TaskCompletion { task_id: u64, result_hash: [u8; 32] },
    TaskFailure { task_id: u64, error: String },
    ModelUpdate { model_id: String, new_version: String },
}

/// A message for the network.
#[derive(Clone, Debug, PartialEq, Eq)]
pub enum NetworkMessage {
    TaskCompleted { task_id: u64, result_hash: [u8; 32] },
    TaskFailed { task_id: u64, error: String },
    TaskAccepted { task_id: u64 },
    TaskRejected { task_id: u64, reason: RejectionReason },
    ResourceUsage { node_id: String, cpu_usage: u8, memory_usage: u8, gpu_usage: u8 },
    ModelUpdated { model_id: String, new_version: String },
}

/// One step that an event calls for.
#[derive(Clone, Debug, PartialEq, Eq)]
pub enum NodeAction {
    /// Take the task on for execution.
    AcceptTask(Task),
    /// Record the task's status in the node's storage.
    UpdateTaskStatus { task_id: u64, status: TaskStatus },
    /// Hand the transaction to the consensus layer.
    SubmitTransaction(Transaction),
    /// Send the message to every peer.
    Broadcast(NetworkMessage),
    /// Look for tasks to move to other nodes.
    ConsiderOffloading,
}

/// The steps that `event` calls for on the node `node_id`, in the order in
/// which they are to be performed.
///
/// A completed or failed task has its status recorded, then a transaction
/// submitted, then the network told. A new task is accepted, recorded as in
/// progress and announced as accepted if the node has capacity, and is
/// rejected towards the network, with nothing else done, if it has not. A
/// resource measurement is announced, and followed by a look at offloading
/// if it is high. A model update is submitted as a transaction, then
/// announced.
pub open spec fn steps_for(event: ComputeEvent, has_capacity: bool, node_id: String) -> Seq<
    NodeAction,
> {
    match event {
        ComputeEvent::TaskCompleted(task) => seq![
            NodeAction::UpdateTaskStatus { task_id: task.id, status: TaskStatus::Completed },
            NodeAction::SubmitTransaction(
                Transaction::TaskCompletion { task_id: task.id, result_hash: task.result_hash },
            ),
            NodeAction::Broadcast(
                NetworkMessage::TaskCompleted { task_id: task.id, result_hash: task.result_hash },
            ),
        ],
        ComputeEvent::TaskFailed(task_id, error) => seq![
            NodeAction::UpdateTaskStatus { task_id, status: TaskStatus::Failed },
            NodeAction::SubmitTransaction(Transaction::TaskFailure { task_id, error }),
            NodeAction::Broadcast(NetworkMessage::TaskFailed { task_id, error }),
        ],
        ComputeEvent::NewTaskReceived(task) => if has_capacity {
            seq![
                NodeAction::AcceptTask(task),
                NodeAction::UpdateTaskStatus { task_id: task.id, status: TaskStatus::InProgress },
                NodeAction::Broadcast(NetworkMessage::TaskAccepted { task_id: task.id }),
            ]
        } else {
            seq![
                NodeAction::Broadcast(
                    NetworkMessage::TaskRejected {
                        task_id: task.id,
                        reason: RejectionReason::NoCapacity,
                    },
                ),
            ]
        },
        ComputeEvent::ResourceUsageUpdate(usage) => {
            let announce = NodeAction::Broadcast(
                NetworkMessage::ResourceUsage {
                    node_id,
                    cpu_usage: usage.cpu,
                    memory_usage: usage.memory,
                    gpu_usage: usage.gpu,
                },
            );
            if usage.high {
                seq![announce, NodeAction::ConsiderOffloading]
            } else {
                seq![announce]
            }
        },
        ComputeEvent::ModelUpdated(model_id, new_version) => seq![
            NodeAction::SubmitTransaction(Transaction::ModelUpdate { model_id, new_version }),
            NodeAction::Broadcast(NetworkMessage::ModelUpdated { model_id, new_version }),
        ],
    }
}

/// The steps that `event` calls for; see [`steps_for`].
pub fn handle_compute_event(event: ComputeEvent, has_capacity: bool, node_id: String) -> (steps:
    Vec<NodeAction>)
    ensures
        steps@ == steps_for(event, has_capacity, node_id),
{
    let mut steps: Vec<NodeAction> = Vec::new();
    match event {
        ComputeEvent::TaskCompleted(task) => {
            steps.push(
                NodeAction::UpdateTaskStatus { task_id: task.id, status: TaskStatus::Completed },
            );
            steps.push(
                NodeAction::SubmitTransaction(
                    Transaction::TaskCompletion { task_id: task.id, result_hash: task.result_hash },
                ),
            );
            steps.push(
                NodeAction::Broadcast(
                    NetworkMessage::TaskCompleted {
                        task_id: task.id,
                        result_hash: task.result_hash,
                    },
                ),
            );
        },
        ComputeEvent::TaskFailed(task_id, error) => {
            steps.push(NodeAction::UpdateTaskStatus { task_id, status: TaskStatus::Failed });
            steps.push(
                NodeAction::SubmitTransaction(
                    Transaction::TaskFailure { task_id, error: error.clone() },
                ),
            );
            steps.push(NodeAction::Broadcast(NetworkMessage::TaskFailed { task_id, error }));
        },
        ComputeEvent::NewTaskReceived(task) => {
            let task_id: u64 = task.id;
            if has_capacity {
                steps.push(NodeAction::AcceptTask(task));
                steps.push(
                    NodeAction::UpdateTaskStatus { task_id, status: TaskStatus::InProgress },
                );
                steps.push(NodeAction::Broadcast(NetworkMessage::TaskAccepted { task_id }));
            } else {
                steps.push(
                    NodeAction::Broadcast(
                        NetworkMessage::TaskRejected {
                            task_id,
                            reason: RejectionReason::NoCapacity,
                        },
                    ),
                );
            }
        },
        ComputeEvent::ResourceUsageUpdate(usage) => {
            steps.push(
                NodeAction::Broadcast(
                    NetworkMessage::ResourceUsage {
                        node_id,
                        cpu_usage: usage.cpu,
                        memory_usage: usage.memory,
                        gpu_usage: usage.gpu,
                    },
                ),
            );
            if usage.high {
                steps.push(NodeAction::ConsiderOffloading);
            }
        },
        ComputeEvent::ModelUpdated(model_id, new_version) => {
            steps.push(
                NodeAction::SubmitTransaction(
                    Transaction::ModelUpdate {
                        model_id: model_id.clone(),
                        new_version: new_version.clone(),
                    },
                ),
            );
            steps.push(
                NodeAction::Broadcast(NetworkMessage::ModelUpdated { model_id, new_version }),
            );
        },
    }
    steps
}

} // verus!
