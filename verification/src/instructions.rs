//! The operations of the marketplace, one module each: the records an
//! operation works on, who calls it, and what it does to them.

pub mod claim_task;
pub mod confirm_task;
pub mod create_task;
pub mod dispute_task;
pub mod increase_stake;
pub mod register_agent;
pub mod resolve_dispute;
pub mod submit_evidence;
pub mod submit_task;
pub mod update_reputation;

pub use claim_task::ClaimTask;
pub use confirm_task::ConfirmTask;
pub use create_task::CreateTask;
pub use dispute_task::DisputeTask;
pub use increase_stake::IncreaseStake;
pub use register_agent::RegisterAgent;
pub use resolve_dispute::ResolveDispute;
pub use submit_evidence::SubmitEvidence;
pub use submit_task::SubmitTask;
pub use update_reputation::UpdateReputation;
