//! Long-running processes: the saga orchestrator and the compensating
//! task.

pub mod orchestrate;
pub mod task;
