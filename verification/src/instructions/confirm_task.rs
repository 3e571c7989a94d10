//! The client accepts a deliverable: the task is confirmed, the escrow is
//! released to the agent less the fee, and the agent's record gains a success.

use vstd::prelude::*;
use crate::errors::AgentTrustError;
use crate::escrow::{
    fee, fee_of, lemma_fee_and_payout_conserve, payout_of, payout_to_agent, Escrow,
};
use crate::events::SettlementEvent;
use crate::key::Key;
use crate::state::agent::Agent;
use crate::state::task::Task;

verus! {

/// What a confirmation works on.
#[derive(Debug, PartialEq, Eq)]
pub struct ConfirmTask {
    /// The authenticated caller.
    pub client: Key,
    /// The task to confirm.
    pub task: Task,
    /// The record of the agent to credit.
    pub agent_account: Agent,
    /// The escrow of the task.
    pub escrow: Escrow,
}

impl Clone for ConfirmTask {
    /// A copy of the records, equal to them in every field.
    fn clone(&self) -> (copy: ConfirmTask)
        ensures
            copy == *self,
    {
        ConfirmTask {
            client: self.client,
            task: self.task.clone(),
            agent_account: self.agent_account.clone(),
            escrow: self.escrow,
        }
    }
}

impl ConfirmTask {
    /// Why the confirmation is refused, if it is: the caller is not the
    /// task's client, the task is not submitted, or the agent's counters
    /// cannot take a success, being inconsistent or at their maximum; in this
    /// order.
    pub open spec fn error(self) -> Option<AgentTrustError> {
        if self.task.response_error(self.client) is Some {
            self.task.response_error(self.client)
        } else if !self.agent_account.counters_consistent() || self.agent_account.total_tasks
            == u64::MAX {
            Some(AgentTrustError::Overflow)
        } else {
            None
        }
    }

    /// The records once the confirmation is accepted.
    pub open spec fn applied(self) -> ConfirmTask {
        ConfirmTask {
            task: self.task.confirmed(),
            agent_account: self.agent_account.with_success().rescored(),
            escrow: Escrow { balance: 0, ..self.escrow },
            ..self
        }
    }

    /// What an accepted confirmation reports.
    pub open spec fn event(self) -> SettlementEvent {
        SettlementEvent::TaskConfirmed {
            agent_payment: payout_of(self.task.bounty as int) as u64,
            fee: fee_of(self.task.bounty as int) as u64,
            reputation: self.applied().agent_account.reputation_score,
        }
    }
}

/// A confirmation releases exactly what the escrow of the task holds: payment
/// and fee together are the bounty, and the escrow is empty afterwards.
pub proof fn lemma_confirmation_conserves_escrow(ctx: ConfirmTask)
    requires
        ctx.escrow.balance == ctx.task.bounty,
    ensures
        ctx.event() matches SettlementEvent::TaskConfirmed { agent_payment, fee, .. }
            && agent_payment + fee == ctx.escrow.balance,
        ctx.applied().escrow.balance == 0,
{
    lemma_fee_and_payout_conserve(ctx.task.bounty as int);
}

/// Confirms a submitted task on behalf of its client, credits the agent with
/// a success, recomputes the agent's score and empties the escrow. The event
/// tells how the bounty is split between agent and protocol.
pub fn handler(ctx: &mut ConfirmTask) -> (res: Result<SettlementEvent, AgentTrustError>)
    ensures
        match res {
            Ok(event) => {
                &&& old(ctx).error() is None
                &&& *final(ctx) == old(ctx).applied()
                &&& event == old(ctx).event()
            },
            Err(e) => {
                &&& old(ctx).error() == Some(e)
                &&& *final(ctx) == *old(ctx)
            },
        },
        old(ctx).task.status.leads_to(final(ctx).task.status),
        old(ctx).task.well_formed() ==> final(ctx).task.well_formed(),
        old(ctx).agent_account.well_formed() ==> final(ctx).agent_account.well_formed(),
{
    ctx.task.check_response(&ctx.client)?;
    if !ctx.agent_account.has_consistent_counters() || ctx.agent_account.total_tasks == u64::MAX {
        return Err(AgentTrustError::Overflow);
    }
    ctx.task.confirm(ctx.client)?;
    ctx.agent_account.record_success()?;
    ctx.agent_account.update_reputation_score();
    ctx.escrow.balance = 0;
    Ok(
        SettlementEvent::TaskConfirmed {
            agent_payment: payout_to_agent(ctx.task.bounty),
            fee: fee(ctx.task.bounty),
            reputation: ctx.agent_account.reputation_score,
        },
    )
}

} // verus!
