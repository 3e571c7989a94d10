//! The assigned agent hands in its deliverable.

use vstd::prelude::*;
use crate::errors::AgentTrustError;
use crate::events::SettlementEvent;
use crate::key::Key;
use crate::state::task::Task;

verus! {

/// What a submission works on.
#[derive(Debug, PartialEq, Eq)]
pub struct SubmitTask {
    /// The authenticated caller.
    pub agent: Key,
    /// The task to submit the deliverable of.
    pub task: Task,
}

impl Clone for SubmitTask {
    /// A copy of the records, equal to them in every field.
    fn clone(&self) -> (copy: SubmitTask)
        ensures
            copy == *self,
    {
        SubmitTask {
            agent: self.agent,
            task: self.task.clone(),
        }
    }
}

impl SubmitTask {
    /// Why the submission is refused, if it is: the caller is not the
    /// assigned agent, or the task is not in the claimed state; in this
    /// order.
    pub open spec fn error(self) -> Option<AgentTrustError> {
        self.task.submit_error(self.agent)
    }

    /// The records once the submission is accepted.
    pub open spec fn applied(self, deliverable_hash: [u8; 32], now: i64) -> SubmitTask {
        SubmitTask { task: self.task.submitted(deliverable_hash, now), ..self }
    }

    /// What an accepted submission reports.
    pub open spec fn event(deliverable_hash: [u8; 32]) -> SettlementEvent {
        SettlementEvent::TaskSubmitted { deliverable_hash }
    }
}

/// Records the deliverable of a claimed task on behalf of its agent.
pub fn handler(ctx: &mut SubmitTask, deliverable_hash: [u8; 32], now: i64) -> (res: Result<
    SettlementEvent,
    AgentTrustError,
>)
    ensures
        match res {
            Ok(event) => {
                &&& old(ctx).error() is None
                &&& *final(ctx) == old(ctx).applied(deliverable_hash, now)
                &&& event == SubmitTask::event(deliverable_hash)
            },
            Err(e) => {
                &&& old(ctx).error() == Some(e)
                &&& *final(ctx) == *old(ctx)
            },
        },
        old(ctx).task.status.leads_to(final(ctx).task.status),
        old(ctx).task.well_formed() ==> final(ctx).task.well_formed(),
{
    ctx.task.submit(ctx.agent, deliverable_hash, now)?;
    Ok(SettlementEvent::TaskSubmitted { deliverable_hash })
}

} // verus!
