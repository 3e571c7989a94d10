//! Settlement core of a task marketplace: clients escrow a bounty for a task,
//! staked agents claim and deliver it, and a dispute path with an evidence
//! window decides contested deliveries.
//!
//! Every operation is a transition over plain records. The caller supplies the
//! current time and the authenticated identity; nothing here reads a clock,
//! stores a record or moves funds.

use vstd::prelude::*;
use crate::errors::AgentTrustError;
use crate::escrow::Escrow;
use crate::events::SettlementEvent;
use crate::instructions::{
    ClaimTask, ConfirmTask, CreateTask, DisputeTask, IncreaseStake, RegisterAgent, ResolveDispute,
    SubmitEvidence, SubmitTask, UpdateReputation,
};
use crate::state::{Agent, Dispute, Task};

pub mod errors;
pub mod escrow;
pub mod events;
pub mod instructions;
pub mod key;
pub mod state;
pub mod text;

verus! {

/// Protocol fee in basis points: 100 bps is 1%.
pub const TRANSACTION_FEE_BPS: u64 = 100;

/// Smallest stake an agent may register with, in lamports (0.02 SOL).
pub const MINIMUM_STAKE_LAMPORTS: u64 = 20_000_000;

/// Length of the evidence window of a dispute, in seconds (24 hours).
pub const DISPUTE_WINDOW_SECONDS: i64 = 24 * 60 * 60;

/// Longest agent name, in bytes of its UTF-8 encoding.
pub const MAX_AGENT_NAME_LEN: usize = 32;

/// Longest task title, in bytes of its UTF-8 encoding.
pub const MAX_TASK_TITLE_LEN: usize = 64;

/// Where a task stands in its lifecycle.
#[derive(Clone, Copy, Debug, PartialEq, Eq, Structural)]
pub enum TaskStatus {
    Open,
    Claimed,
    Submitted,
    Confirmed,
    Disputed,
}

/// Where a dispute stands in its lifecycle.
#[derive(Clone, Copy, Debug, PartialEq, Eq, Structural)]
pub enum DisputeStatus {
    EvidencePeriod,
    JudgmentPending,
    Resolved,
}

/// The arbitrator's verdict on a dispute.
#[derive(Clone, Copy, Debug, PartialEq, Eq, Structural)]
pub enum DisputeResolution {
    ClientWins,
    AgentWins,
}

/// Registers the caller as an agent: the stake must reach
/// `MINIMUM_STAKE_LAMPORTS` and the name fit in `MAX_AGENT_NAME_LEN` bytes.
/// The agent starts with a score of 50.
pub fn register_agent(ctx: &RegisterAgent, name: String, initial_stake: u64, now: i64) -> (res:
    Result<(Agent, SettlementEvent), AgentTrustError>)
    ensures
        match res {
            Ok((agent, event)) => {
                &&& RegisterAgent::error(name@, initial_stake) is None
                &&& agent == ctx.registered(name, initial_stake, now)
                &&& event == ctx.event(initial_stake)
                &&& agent.well_formed()
            },
            Err(e) => RegisterAgent::error(name@, initial_stake) == Some(e),
        },
{
    instructions::register_agent::handler(ctx, name, initial_stake, now)
}

/// Adds a positive amount to the stake of the caller's agent and recomputes
/// its score.
pub fn increase_stake(ctx: &mut IncreaseStake, amount: u64) -> (res: Result<
    SettlementEvent,
    AgentTrustError,
>)
    ensures
        match res {
            Ok(event) => {
                &&& old(ctx).error(amount) is None
                &&& *final(ctx) == old(ctx).applied(amount)
                &&& event == old(ctx).event(amount)
            },
            Err(e) => {
                &&& old(ctx).error(amount) == Some(e)
                &&& *final(ctx) == *old(ctx)
            },
        },
        old(ctx).agent.well_formed() ==> final(ctx).agent.well_formed(),
{
    instructions::increase_stake::handler(ctx, amount)
}

/// Creates an open task for the calling client, who must hold bounty and fee
/// together, and opens its escrow with the bounty.
pub fn create_task(
    ctx: &CreateTask,
    title: String,
    description_hash: [u8; 32],
    bounty: u64,
    deadline: i64,
    now: i64,
) -> (res: Result<(Task, Escrow, SettlementEvent), AgentTrustError>)
    ensures
        match res {
            Ok((task, escrow, event)) => {
                &&& ctx.error(title@, bounty, deadline, now) is None
                &&& task == ctx.created(title, description_hash, bounty, deadline, now)
                &&& escrow == ctx.escrow(bounty)
                &&& event == CreateTask::event(bounty, deadline)
                &&& task.well_formed()
            },
            Err(e) => ctx.error(title@, bounty, deadline, now) == Some(e),
        },
{
    instructions::create_task::handler(ctx, title, description_hash, bounty, deadline, now)
}

/// Binds an open task to the calling agent, strictly before its deadline.
pub fn claim_task(ctx: &mut ClaimTask, now: i64) -> (res: Result<SettlementEvent, AgentTrustError>)
    ensures
        match res {
            Ok(event) => {
                &&& old(ctx).error(now) is None
                &&& *final(ctx) == old(ctx).applied(now)
                &&& event == old(ctx).event()
            },
            Err(e) => {
                &&& old(ctx).error(now) == Some(e)
                &&& *final(ctx) == *old(ctx)
            },
        },
        old(ctx).task.status.leads_to(final(ctx).task.status),
        old(ctx).task.well_formed() ==> final(ctx).task.well_formed(),
{
    instructions::claim_task::handler(ctx, now)
}

/// Records the deliverable of a claimed task on behalf of its agent.
pub fn submit_task(ctx: &mut SubmitTask, deliverable_hash: [u8; 32], now: i64) -> (res: Result<
    SettlementEvent,
    AgentTrustError,
>)
    ensures
        match res {
            Ok(event) => {
                &&& old(ctx).error() is None
                &&& *final(ctx) == old(ctx).applied(deliverable_hash, now)
                &&& event == SubmitTask::event(deliverable_hash)
            },
            Err(e) => {
                &&& old(ctx).error() == Some(e)
                &&& *final(ctx) == *old(ctx)
            },
        },
        old(ctx).task.status.leads_to(final(ctx).task.status),
        old(ctx).task.well_formed() ==> final(ctx).task.well_formed(),
{
    instructions::submit_task::handler(ctx, deliverable_hash, now)
}

/// Confirms a submitted task on behalf of its client: the agent is paid the
/// bounty less the fee, and its record gains a success.
pub fn confirm_task(ctx: &mut ConfirmTask) -> (res: Result<SettlementEvent, AgentTrustError>)
    ensures
        match res {
            Ok(event) => {
                &&& old(ctx).error() is None
                &&& *final(ctx) == old(ctx).applied()
                &&& event == old(ctx).event()
            },
            Err(e) => {
                &&& old(ctx).error() == Some(e)
                &&& *final(ctx) == *old(ctx)
            },
        },
        old(ctx).task.status.leads_to(final(ctx).task.status),
        old(ctx).task.well_formed() ==> final(ctx).task.well_formed(),
        old(ctx).agent_account.well_formed() ==> final(ctx).agent_account.well_formed(),
{
    instructions::confirm_task::handler(ctx)
}

/// Disputes a submitted task on behalf of its client and files the dispute.
pub fn dispute_task(ctx: &mut DisputeTask, now: i64) -> (res: Result<
    (Dispute, SettlementEvent),
    AgentTrustError,
>)
    ensures
        match res {
            Ok((dispute, event)) => {
                &&& old(ctx).error() is None
                &&& *final(ctx) == old(ctx).applied()
                &&& dispute == old(ctx).filed(now)
                &&& event == old(ctx).event()
                &&& dispute.well_formed()
            },
            Err(e) => {
                &&& old(ctx).error() == Some(e)
                &&& *final(ctx) == *old(ctx)
            },
        },
        old(ctx).task.status.leads_to(final(ctx).task.status),
        old(ctx).task.well_formed() ==> final(ctx).task.well_formed(),
{
    instructions::dispute_task::handler(ctx, now)
}

/// Records the caller's evidence on its side of a dispute.
pub fn submit_evidence(ctx: &mut SubmitEvidence, evidence_hash: [u8; 32], now: i64) -> (res:
    Result<SettlementEvent, AgentTrustError>)
    ensures
        match res {
            Ok(event) => {
                &&& old(ctx).error(now) is None
                &&& *final(ctx) == old(ctx).applied(evidence_hash)
                &&& event == old(ctx).event()
            },
            Err(e) => {
                &&& old(ctx).error(now) == Some(e)
                &&& *final(ctx) == *old(ctx)
            },
        },
        old(ctx).dispute.well_formed() ==> final(ctx).dispute.well_formed(),
{
    instructions::submit_evidence::handler(ctx, evidence_hash, now)
}

/// Resolves a dispute with the arbitrator's verdict and settles the task
/// accordingly.
pub fn resolve_dispute(ctx: &mut ResolveDispute, resolution: DisputeResolution, now: i64) -> (res:
    Result<SettlementEvent, AgentTrustError>)
    ensures
        match res {
            Ok(event) => {
                &&& old(ctx).error(resolution, now) is None
                &&& *final(ctx) == old(ctx).applied(resolution, now)
                &&& event == old(ctx).event(resolution)
            },
            Err(e) => {
                &&& old(ctx).error(resolution, now) == Some(e)
                &&& *final(ctx) == *old(ctx)
            },
        },
        final(ctx).task == old(ctx).task,
        old(ctx).dispute.well_formed() ==> final(ctx).dispute.well_formed(),
        old(ctx).agent_account.well_formed() ==> final(ctx).agent_account.well_formed(),
{
    instructions::resolve_dispute::handler(ctx, resolution, now)
}

/// Recomputes the stored score of an agent.
pub fn update_reputation(ctx: &mut UpdateReputation) -> (res: Result<
    SettlementEvent,
    AgentTrustError,
>)
    ensures
        match res {
            Ok(event) => {
                &&& old(ctx).error() is None
                &&& *final(ctx) == old(ctx).applied()
                &&& event == old(ctx).event()
                &&& final(ctx).agent_account.reputation_score <= 100
            },
            Err(e) => {
                &&& old(ctx).error() == Some(e)
                &&& *final(ctx) == *old(ctx)
            },
        },
        old(ctx).agent_account.well_formed() ==> final(ctx).agent_account.well_formed(),
{
    instructions::update_reputation::handler(ctx)
}

} // verus!
