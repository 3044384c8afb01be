use omnitensor_node::cli::parse_cli_args;
use omnitensor_node::events::{
    handle_compute_event, ComputeEvent, NetworkMessage, NodeAction, RejectionReason,
    ResourceUsage, Task, TaskStatus, Transaction,
};
use omnitensor_node::model::{ModelError, ModelLoader, ModelMetadata};

fn args(words: &[&str]) -> Vec<String> {
    words.iter().map(|w| w.to_string()).collect()
}

#[test]
fn test_parse_cli_args() {
    let (cmd, opt) = parse_cli_args(&args(&["omnitensor-node", "start"])).unwrap();
    assert_eq!(cmd, "start");
    assert!(opt.is_none());
}

#[test]
fn command_line_without_a_command_is_refused() {
    assert_eq!(parse_cli_args(&args(&[])), None);
    assert_eq!(parse_cli_args(&args(&["omnitensor-node"])), None);
}

#[test]
fn command_line_takes_one_option_and_ignores_the_rest() {
    assert_eq!(
        parse_cli_args(&args(&["omnitensor-node", "start", "--fast"])),
        Some(("start".to_string(), Some("--fast".to_string())))
    );
    assert_eq!(
        parse_cli_args(&args(&["omnitensor-node", "stop", "now", "please"])),
        Some(("stop".to_string(), Some("now".to_string())))
    );
}

fn metadata(id: &str, version: &str) -> ModelMetadata {
    ModelMetadata {
        id: id.to_string(),
        version: version.to_string(),
        task_type: "classification".to_string(),
        input_shape: vec![1, 3, 224, 224],
        output_shape: vec![1, 1000],
    }
}

#[test]
fn test_load_model() {
    let mut loader = ModelLoader::new();
    assert!(!loader.is_loaded("test_model"));
    loader.load_model("test_model", metadata("test_model", "1"));
    let result = loader.get_model_metadata("test_model");
    assert!(result.is_ok());
    assert!(loader.is_loaded("test_model"));
}

#[test]
fn metadata_of_a_model_that_is_not_loaded_is_an_error() {
    let mut loader = ModelLoader::new();
    assert_eq!(
        loader.get_model_metadata("ghost"),
        Err(ModelError::NotLoaded("ghost".to_string()))
    );
    loader.load_model("a", metadata("a", "1"));
    assert_eq!(loader.get_model_metadata("b"), Err(ModelError::NotLoaded("b".to_string())));
    assert_eq!(loader.get_model_metadata("a"), Ok(&metadata("a", "1")));
}

#[test]
fn loading_again_replaces_the_metadata() {
    let mut loader = ModelLoader::new();
    loader.load_model("a", metadata("a", "1"));
    loader.load_model("b", metadata("b", "1"));
    loader.load_model("a", metadata("a", "2"));
    assert_eq!(loader.loaded_count(), 2);
    assert_eq!(loader.get_model_metadata("a").unwrap().version, "2");
    assert_eq!(loader.get_model_metadata("b").unwrap().version, "1");
}

#[test]
fn unloading_forgets_one_model() {
    let mut loader = ModelLoader::new();
    loader.load_model("a", metadata("a", "1"));
    loader.load_model("b", metadata("b", "1"));
    loader.load_model("c", metadata("c", "1"));
    loader.unload_model("b");
    assert_eq!(loader.loaded_count(), 2);
    assert!(loader.is_loaded("a"));
    assert!(!loader.is_loaded("b"));
    assert!(loader.is_loaded("c"));
    loader.unload_model("b");
    loader.unload_model("never");
    assert_eq!(loader.loaded_count(), 2);
    assert_eq!(loader.get_model_metadata("c"), Ok(&metadata("c", "1")));
}

fn network_task(id: u64) -> Task {
    Task { id, description: "Test task".to_string(), data: vec![1, 2, 3], result_hash: [1; 32] }
}

#[test]
fn a_completed_task_is_recorded_submitted_and_announced() {
    let steps =
        handle_compute_event(ComputeEvent::TaskCompleted(network_task(1)), false, "n".to_string());
    assert_eq!(
        steps,
        vec![
            NodeAction::UpdateTaskStatus { task_id: 1, status: TaskStatus::Completed },
            NodeAction::SubmitTransaction(Transaction::TaskCompletion {
                task_id: 1,
                result_hash: [1; 32]
            }),
            NodeAction::Broadcast(NetworkMessage::TaskCompleted {
                task_id: 1,
                result_hash: [1; 32]
            }),
        ]
    );
}

#[test]
fn a_failed_task_is_recorded_submitted_and_announced() {
    let event = ComputeEvent::TaskFailed(2, "Out of memory".to_string());
    let steps = handle_compute_event(event, true, "n".to_string());
    assert_eq!(
        steps,
        vec![
            NodeAction::UpdateTaskStatus { task_id: 2, status: TaskStatus::Failed },
            NodeAction::SubmitTransaction(Transaction::TaskFailure {
                task_id: 2,
                error: "Out of memory".to_string()
            }),
            NodeAction::Broadcast(NetworkMessage::TaskFailed {
                task_id: 2,
                error: "Out of memory".to_string()
            }),
        ]
    );
}

#[test]
fn a_new_task_is_accepted_when_there_is_capacity() {
    let event = ComputeEvent::NewTaskReceived(network_task(3));
    let steps = handle_compute_event(event, true, "n".to_string());
    assert_eq!(
        steps,
        vec![
            NodeAction::AcceptTask(network_task(3)),
            NodeAction::UpdateTaskStatus { task_id: 3, status: TaskStatus::InProgress },
            NodeAction::Broadcast(NetworkMessage::TaskAccepted { task_id: 3 }),
        ]
    );
}

#[test]
fn a_new_task_is_rejected_without_capacity() {
    let event = ComputeEvent::NewTaskReceived(network_task(3));
    let steps = handle_compute_event(event, false, "n".to_string());
    assert_eq!(
        steps,
        vec![NodeAction::Broadcast(NetworkMessage::TaskRejected {
            task_id: 3,
            reason: RejectionReason::NoCapacity
        })]
    );
    assert_eq!(RejectionReason::NoCapacity.message(), "No capacity");
}

#[test]
fn resource_usage_is_announced_and_high_usage_looked_into() {
    let calm = ResourceUsage { cpu: 10, memory: 20, gpu: 30, high: false };
    let announce = NodeAction::Broadcast(NetworkMessage::ResourceUsage {
        node_id: "node-7".to_string(),
        cpu_usage: 10,
        memory_usage: 20,
        gpu_usage: 30,
    });
    assert_eq!(
        handle_compute_event(ComputeEvent::ResourceUsageUpdate(calm), true, "node-7".to_string()),
        vec![announce.clone()]
    );
    let busy = ResourceUsage { high: true, ..calm };
    assert_eq!(
        handle_compute_event(ComputeEvent::ResourceUsageUpdate(busy), true, "node-7".to_string()),
        vec![announce, NodeAction::ConsiderOffloading]
    );
}

#[test]
fn a_model_update_is_submitted_and_announced() {
    let event = ComputeEvent::ModelUpdated("m".to_string(), "v2".to_string());
    assert_eq!(
        handle_compute_event(event, false, "n".to_string()),
        vec![
            NodeAction::SubmitTransaction(Transaction::ModelUpdate {
                model_id: "m".to_string(),
                new_version: "v2".to_string()
            }),
            NodeAction::Broadcast(NetworkMessage::ModelUpdated {
                model_id: "m".to_string(),
                new_version: "v2".to_string()
            }),
        ]
    );
}
