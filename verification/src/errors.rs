//! The ways an operation can be refused.

use vstd::prelude::*;

verus! {

/// Why an operation was refused. A refused operation changes no record.
#[derive(Clone, Copy, Debug, PartialEq, Eq, Structural)]
pub enum AgentTrustError {
    /// Agent name exceeds maximum length.
    NameTooLong,
    /// Task title exceeds maximum length.
    TitleTooLong,
    /// Stake is below what the operation needs.
    InsufficientStake,
    /// Amount must be positive.
    InvalidBounty,
    /// Deadline is not in the future.
    InvalidDeadline,
    /// Task is not open for claiming.
    TaskNotOpen,
    /// Task has not been claimed.
    TaskNotClaimed,
    /// Task has not been submitted.
    TaskNotSubmitted,
    /// Task deadline has passed.
    DeadlinePassed,
    /// Caller is not a party to the record.
    Unauthorized,
    /// Agent not found.
    AgentNotFound,
    /// Task not found.
    TaskNotFound,
    /// Dispute not found.
    DisputeNotFound,
    /// Dispute is not in its evidence period.
    DisputeNotInEvidencePeriod,
    /// Evidence period is over.
    EvidencePeriodOver,
    /// Evidence period is still active.
    EvidencePeriodActive,
    /// This side has already submitted evidence.
    EvidenceAlreadySubmitted,
    /// Dispute already resolved.
    DisputeAlreadyResolved,
    /// Dispute is in the wrong state, or belongs to another task.
    InvalidDisputeStatus,
    /// Task already has an agent assigned.
    TaskAlreadyClaimed,
    /// Only the client can perform this action.
    NotClient,
    /// Only the assigned agent can perform this action.
    NotAssignedAgent,
    /// An amount or counter would leave the range of its type.
    Overflow,
    /// Caller cannot cover the amount.
    InsufficientFunds,
    /// Fee calculation error.
    FeeCalculationError,
}

} // verus!
