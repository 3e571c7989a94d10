//! The records of the marketplace: agents, tasks and disputes.

pub mod agent;
pub mod dispute;
pub mod task;

pub use agent::{get_agent_seeds, Agent};
pub use dispute::{get_dispute_seeds, Dispute, DisputeOp};
pub use task::{get_task_seeds, Task, TaskOp};
