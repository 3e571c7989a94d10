//! What an accepted operation did, for the caller to record and to move
//! funds by.

use vstd::prelude::*;
use crate::key::Key;
use crate::DisputeResolution;

verus! {

/// The outcome of an accepted operation. Amounts are in lamports; the
/// reputation is the agent's stored score once the operation is done.
#[derive(Clone, Copy, Debug, PartialEq, Eq)]
pub enum SettlementEvent {
    /// An agent registered.
    AgentRegistered { owner: Key, initial_stake: u64, reputation: u64 },
    /// An agent added `amount` to its stake.
    StakeIncreased { amount: u64, total_stake: u64, reputation: u64 },
    /// A task was created and `bounty` is to be moved into its escrow; the
    /// client was found able to pay `fee` on top.
    TaskCreated { bounty: u64, fee: u64, deadline: i64 },
    /// An agent claimed a task.
    TaskClaimed { agent: Key },
    /// The assigned agent submitted its deliverable.
    TaskSubmitted { deliverable_hash: [u8; 32] },
    /// The client confirmed the deliverable: the escrow is to release
    /// `agent_payment` to the agent and `fee` to the protocol.
    TaskConfirmed { agent_payment: u64, fee: u64, reputation: u64 },
    /// The client disputed the deliverable of the task stored under `task`.
    TaskDisputed { task: Key },
    /// One side of a dispute submitted evidence.
    EvidenceSubmitted { by_client: bool },
    /// A dispute was resolved: the escrow is to release `client_refund` to
    /// the client, `agent_payment` to the agent and `fee` to the protocol,
    /// and `slashed` is to be taken from the agent's stake.
    DisputeResolved {
        resolution: DisputeResolution,
        client_refund: u64,
        agent_payment: u64,
        fee: u64,
        slashed: u64,
        reputation: u64,
    },
    /// An agent's stored score was brought up to date.
    ReputationUpdated { old_score: u64, new_score: u64 },
}

} // verus!
