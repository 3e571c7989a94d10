//! The client contests a deliverable: the task is disputed and a dispute is
//! filed over it.

use vstd::prelude::*;
use crate::errors::AgentTrustError;
use crate::events::SettlementEvent;
use crate::key::Key;
use crate::state::dispute::Dispute;
use crate::state::task::Task;

verus! {

/// What the filing of a dispute works on.
#[derive(Debug, PartialEq, Eq)]
pub struct DisputeTask {
    /// The authenticated caller.
    pub client: Key,
    /// The task to dispute.
    pub task: Task,
    /// The key under which the task is stored.
    pub task_key: Key,
    /// Bump seed of the key under which the new dispute is stored.
    pub dispute_bump: u8,
}

impl Clone for DisputeTask {
    /// A copy of the records, equal to them in every field.
    fn clone(&self) -> (copy: DisputeTask)
        ensures
            copy == *self,
    {
        DisputeTask {
            client: self.client,
            task: self.task.clone(),
            task_key: self.task_key,
            dispute_bump: self.dispute_bump,
        }
    }
}

impl DisputeTask {
    /// Why the filing is refused, if it is: the caller is not the task's
    /// client, or the task is not submitted; in this order.
    pub open spec fn error(self) -> Option<AgentTrustError> {
        self.task.response_error(self.client)
    }

    /// The records once the filing is accepted: the task disputed.
    pub open spec fn applied(self) -> DisputeTask {
        DisputeTask { task: self.task.disputed(), ..self }
    }

    /// The dispute that an accepted filing makes: in its evidence period,
    /// filed at `now`.
    pub open spec fn filed(self, now: i64) -> Dispute {
        Dispute::filed(self.task_key, self.dispute_bump, now)
    }

    /// What an accepted filing reports.
    pub open spec fn event(self) -> SettlementEvent {
        SettlementEvent::TaskDisputed { task: self.task_key }
    }
}

/// Disputes a submitted task on behalf of its client and hands back the
/// dispute filed over it, whose evidence window starts at `now`.
pub fn handler(ctx: &mut DisputeTask, now: i64) -> (res: Result<
    (Dispute, SettlementEvent),
    AgentTrustError,
>)
    ensures
        match res {
            Ok((dispute, event)) => {
                &&& old(ctx).error() is None
                &&& *final(ctx) == old(ctx).applied()
                &&& dispute == old(ctx).filed(now)
                &&& event == old(ctx).event()
                &&& dispute.well_formed()
            },
            Err(e) => {
                &&& old(ctx).error() == Some(e)
                &&& *final(ctx) == *old(ctx)
            },
        },
        old(ctx).task.status.leads_to(final(ctx).task.status),
        old(ctx).task.well_formed() ==> final(ctx).task.well_formed(),
{
    ctx.task.dispute(ctx.client)?;
    let dispute = Dispute::create(ctx.task_key, ctx.dispute_bump, now);
    Ok((dispute, SettlementEvent::TaskDisputed { task: ctx.task_key }))
}

} // verus!
