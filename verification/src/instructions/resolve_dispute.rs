//! The arbitrator decides a dispute: the escrow goes back to the client and
//! the agent is slashed, or the agent is paid as for a confirmed task.

use vstd::prelude::*;
use crate::errors::AgentTrustError;
use crate::escrow::{
    fee, fee_of, lemma_fee_and_payout_conserve, payout_of, payout_to_agent, Escrow,
};
use crate::events::SettlementEvent;
use crate::key::Key;
use crate::state::agent::Agent;
use crate::state::dispute::Dispute;
use crate::state::task::Task;
use crate::{DisputeResolution, MINIMUM_STAKE_LAMPORTS};

verus! {

/// What an agent loses of its stake with a dispute: half the minimum stake,
/// whatever the bounty.
pub const SLASH_LAMPORTS: u64 = MINIMUM_STAKE_LAMPORTS / 2;

/// What a resolution works on.
#[derive(Debug, PartialEq, Eq)]
pub struct ResolveDispute {
    /// The authenticated caller: the arbitration authority.
    pub authority: Key,
    /// The dispute to resolve.
    pub dispute: Dispute,
    /// The disputed task.
    pub task: Task,
    /// The record of the agent that the verdict falls on.
    pub agent_account: Agent,
    /// The escrow of the task.
    pub escrow: Escrow,
}

impl Clone for ResolveDispute {
    /// A copy of the records, equal to them in every field.
    fn clone(&self) -> (copy: ResolveDispute)
        ensures
            copy == *self,
    {
        ResolveDispute {
            authority: self.authority,
            dispute: self.dispute,
            task: self.task.clone(),
            agent_account: self.agent_account.clone(),
            escrow: self.escrow,
        }
    }
}

impl ResolveDispute {
    /// Why the agent's record cannot take the verdict, if that is so. For a
    /// lost dispute: the stake does not cover the slash, or else the counters
    /// are inconsistent or the counter of losses is at its maximum. For a won
    /// one: the counters cannot take a success, being inconsistent or at
    /// their maximum.
    pub open spec fn agent_error(self, resolution: DisputeResolution) -> Option<AgentTrustError> {
        match resolution {
            DisputeResolution::ClientWins => {
                if self.agent_account.total_stake < SLASH_LAMPORTS {
                    Some(AgentTrustError::InsufficientStake)
                } else if !self.agent_account.counters_consistent()
                    || self.agent_account.dispute_losses == u64::MAX {
                    Some(AgentTrustError::Overflow)
                } else {
                    None
                }
            },
            DisputeResolution::AgentWins => {
                if !self.agent_account.counters_consistent() || self.agent_account.total_tasks
                    == u64::MAX {
                    Some(AgentTrustError::Overflow)
                } else {
                    None
                }
            },
        }
    }

    /// Why the resolution is refused, if it is: the dispute cannot be
    /// resolved at this time, or else the agent's record cannot take the
    /// verdict.
    pub open spec fn error(self, resolution: DisputeResolution, now: i64) -> Option<
        AgentTrustError,
    > {
        if self.dispute.resolve_error(now) is Some {
            self.dispute.resolve_error(now)
        } else {
            self.agent_error(resolution)
        }
    }

    /// The agent's record once the verdict has fallen: slashed and charged
    /// with a loss where the client wins, credited with a success where the
    /// agent wins, and rescored either way.
    pub open spec fn judged(agent: Agent, resolution: DisputeResolution) -> Agent {
        match resolution {
            DisputeResolution::ClientWins => agent.with_stake_removed(
                SLASH_LAMPORTS,
            ).with_dispute_loss().rescored(),
            DisputeResolution::AgentWins => agent.with_success().rescored(),
        }
    }

    /// The records once the resolution is accepted.
    pub open spec fn applied(self, resolution: DisputeResolution, now: i64) -> ResolveDispute {
        ResolveDispute {
            dispute: self.dispute.resolved(resolution, now),
            agent_account: ResolveDispute::judged(self.agent_account, resolution),
            escrow: Escrow { balance: 0, ..self.escrow },
            ..self
        }
    }

    /// What an accepted resolution reports: the whole bounty back to the
    /// client and the slash where the client wins, the split of a confirmed
    /// task where the agent wins.
    pub open spec fn event(self, resolution: DisputeResolution) -> SettlementEvent {
        let reputation = ResolveDispute::judged(self.agent_account, resolution).reputation_score;
        match resolution {
            DisputeResolution::ClientWins => SettlementEvent::DisputeResolved {
                resolution,
                client_refund: self.task.bounty,
                agent_payment: 0,
                fee: 0,
                slashed: SLASH_LAMPORTS,
                reputation,
            },
            DisputeResolution::AgentWins => SettlementEvent::DisputeResolved {
                resolution,
                client_refund: 0,
                agent_payment: payout_of(self.task.bounty as int) as u64,
                fee: fee_of(self.task.bounty as int) as u64,
                slashed: 0,
                reputation,
            },
        }
    }
}

/// A resolution releases exactly what the escrow of the task holds: refund,
/// payment and fee together are the bounty, and the escrow is empty
/// afterwards. The slash comes from the agent's stake, not from the escrow.
pub proof fn lemma_resolution_conserves_escrow(ctx: ResolveDispute, resolution: DisputeResolution)
    requires
        ctx.escrow.balance == ctx.task.bounty,
    ensures
        ctx.event(resolution) matches SettlementEvent::DisputeResolved {
            client_refund,
            agent_payment,
            fee,
            ..
        } && client_refund + agent_payment + fee == ctx.escrow.balance,
        forall|now: i64| (#[trigger] ctx.applied(resolution, now)).escrow.balance == 0,
{
    lemma_fee_and_payout_conserve(ctx.task.bounty as int);
}

/// Resolves a dispute with the arbitrator's verdict, applies it to the
/// agent's record, recomputes the agent's score and empties the escrow. The
/// event tells where the bounty goes and what is slashed.
pub fn handler(ctx: &mut ResolveDispute, resolution: DisputeResolution, now: i64) -> (res: Result<
    SettlementEvent,
    AgentTrustError,
>)
    ensures
        match res {
            Ok(event) => {
                &&& old(ctx).error(resolution, now) is None
                &&& *final(ctx) == old(ctx).applied(resolution, now)
                &&& event == old(ctx).event(resolution)
            },
            Err(e) => {
                &&& old(ctx).error(resolution, now) == Some(e)
                &&& *final(ctx) == *old(ctx)
            },
        },
        final(ctx).task == old(ctx).task,
        old(ctx).dispute.well_formed() ==> final(ctx).dispute.well_formed(),
        old(ctx).agent_account.well_formed() ==> final(ctx).agent_account.well_formed(),
{
    ctx.dispute.check_resolve(now)?;
    let bounty = ctx.task.bounty;
    match resolution {
        DisputeResolution::ClientWins => {
            if ctx.agent_account.total_stake < SLASH_LAMPORTS {
                return Err(AgentTrustError::InsufficientStake);
            }
            if !ctx.agent_account.has_consistent_counters() || ctx.agent_account.dispute_losses
                == u64::MAX {
                return Err(AgentTrustError::Overflow);
            }
            ctx.dispute.resolve(resolution, now)?;
            ctx.agent_account.decrease_stake(SLASH_LAMPORTS)?;
            ctx.agent_account.record_dispute_loss()?;
            ctx.agent_account.update_reputation_score();
            ctx.escrow.balance = 0;
            Ok(
                SettlementEvent::DisputeResolved {
                    resolution,
                    client_refund: bounty,
                    agent_payment: 0,
                    fee: 0,
                    slashed: SLASH_LAMPORTS,
                    reputation: ctx.agent_account.reputation_score,
                },
            )
        },
        DisputeResolution::AgentWins => {
            if !ctx.agent_account.has_consistent_counters() || ctx.agent_account.total_tasks
                == u64::MAX {
                return Err(AgentTrustError::Overflow);
            }
            ctx.dispute.resolve(resolution, now)?;
            ctx.agent_account.record_success()?;
            ctx.agent_account.update_reputation_score();
            ctx.escrow.balance = 0;
            Ok(
                SettlementEvent::DisputeResolved {
                    resolution,
                    client_refund: 0,
                    agent_payment: payout_to_agent(bounty),
                    fee: fee(bounty),
                    slashed: 0,
                    reputation: ctx.agent_account.reputation_score,
                },
            )
        },
    }
}

} // verus!
