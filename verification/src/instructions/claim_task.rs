//! A registered agent claims an open task.

use vstd::prelude::*;
use crate::errors::AgentTrustError;
use crate::events::SettlementEvent;
use crate::key::Key;
use crate::state::agent::Agent;
use crate::state::task::Task;
use crate::TaskStatus;

verus! {

/// What a claim works on.
#[derive(Debug, PartialEq, Eq)]
pub struct ClaimTask {
    /// The authenticated caller, who claims the task.
    pub agent: Key,
    /// The task to claim.
    pub task: Task,
    /// The caller's agent record, which shows that it is registered.
    pub agent_account: Agent,
}

impl Clone for ClaimTask {
    /// A copy of the records, equal to them in every field.
    fn clone(&self) -> (copy: ClaimTask)
        ensures
            copy == *self,
    {
        ClaimTask {
            agent: self.agent,
            task: self.task.clone(),
            agent_account: self.agent_account.clone(),
        }
    }
}

impl ClaimTask {
    /// Why the claim is refused, if it is: the task is not open, the agent
    /// record is not the caller's, or the deadline has come; in this order.
    pub open spec fn error(self, now: i64) -> Option<AgentTrustError> {
        if self.task.status != TaskStatus::Open {
            Some(AgentTrustError::TaskNotOpen)
        } else if self.agent_account.owner != self.agent {
            Some(AgentTrustError::Unauthorized)
        } else {
            self.task.claim_error(now)
        }
    }

    /// The records once the claim is accepted.
    pub open spec fn applied(self, now: i64) -> ClaimTask {
        ClaimTask { task: self.task.claimed(self.agent, now), ..self }
    }

    /// What an accepted claim reports.
    pub open spec fn event(self) -> SettlementEvent {
        SettlementEvent::TaskClaimed { agent: self.agent }
    }
}

/// Of two claims on one task the second is refused: once a claim has been
/// accepted, a claim by anyone on the task as it then stands is refused with
/// `TaskNotOpen`, whoever makes it and whenever.
pub proof fn lemma_claim_task_is_exclusive(first: ClaimTask, now1: i64, second: ClaimTask, now2: i64)
    requires
        first.error(now1) is None,
        second.task == first.applied(now1).task,
    ensures
        second.error(now2) == Some(AgentTrustError::TaskNotOpen),
        first.applied(now1).task.agent == Some(first.agent),
{
}

/// A registered agent that claims an open task is refused with
/// `DeadlinePassed` at the very second of the deadline and accepted a second
/// earlier.
pub proof fn lemma_claim_task_deadline_is_exclusive(ctx: ClaimTask)
    requires
        ctx.task.status == TaskStatus::Open,
        ctx.agent_account.owner == ctx.agent,
    ensures
        ctx.error(ctx.task.deadline) == Some(AgentTrustError::DeadlinePassed),
        ctx.task.deadline > i64::MIN ==> ctx.error((ctx.task.deadline - 1) as i64) is None,
{
}

/// Binds an open task to the calling agent, strictly before its deadline.
pub fn handler(ctx: &mut ClaimTask, now: i64) -> (res: Result<SettlementEvent, AgentTrustError>)
    ensures
        match res {
            Ok(event) => {
                &&& old(ctx).error(now) is None
                &&& *final(ctx) == old(ctx).applied(now)
                &&& event == old(ctx).event()
            },
            Err(e) => {
                &&& old(ctx).error(now) == Some(e)
                &&& *final(ctx) == *old(ctx)
            },
        },
        old(ctx).task.status.leads_to(final(ctx).task.status),
        old(ctx).task.well_formed() ==> final(ctx).task.well_formed(),
{
    match ctx.task.status {
        TaskStatus::Open => {},
        _ => {
            return Err(AgentTrustError::TaskNotOpen);
        },
    }
    if ctx.agent_account.owner != ctx.agent {
        return Err(AgentTrustError::Unauthorized);
    }
    ctx.task.claim(ctx.agent, now)?;
    Ok(SettlementEvent::TaskClaimed { agent: ctx.agent })
}

} // verus!
