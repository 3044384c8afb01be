//! A compute-task scheduler for a pool of accelerator devices.
//!
//! Tasks wait in a bounded first-in, first-out queue. A single dispatcher
//! takes the oldest task, binds it to the least-loaded device, and, once the
//! caller has run the task, releases the device and records the outcome.
//! The crate holds the decisions only: whoever drives it performs the
//! execution, the waiting and the clock reads, and hands back plain values.

pub mod cli;
pub mod device;
pub mod error;
pub mod events;
pub mod gpu_manager;
pub mod metrics;
pub mod model;
pub mod runs;
pub mod task;
pub mod task_queue;
pub mod task_scheduler;
pub mod time_span;
pub mod validation;
