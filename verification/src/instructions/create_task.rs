//! A client posts a task: its record is made and its escrow opened with the
//! bounty.

use vstd::prelude::*;
use crate::errors::AgentTrustError;
use crate::escrow::{fee, fee_of, Escrow};
use crate::events::SettlementEvent;
use crate::key::Key;
use crate::state::task::Task;

verus! {

/// What the creation of a task works on.
#[derive(Clone, Copy, Debug, PartialEq, Eq)]
pub struct CreateTask {
    /// The authenticated caller, who posts and funds the task.
    pub client: Key,
    /// Lamports the client holds.
    pub client_lamports: u64,
    /// Bump seed of the key under which the new task is stored.
    pub task_bump: u8,
    /// Bump seed of the key under which its escrow is stored.
    pub escrow_bump: u8,
}

impl CreateTask {
    /// What the client must hold to post a task: the bounty and the fee on
    /// it.
    pub open spec fn total_required(bounty: u64) -> int {
        bounty + fee_of(bounty as int)
    }

    /// Why the creation is refused, if it is: bounty and fee together leave
    /// the range of an amount, the client holds less than that, or the terms
    /// are not acceptable; in this order.
    pub open spec fn error(self, title: Seq<char>, bounty: u64, deadline: i64, now: i64) -> Option<
        AgentTrustError,
    > {
        if CreateTask::total_required(bounty) > u64::MAX {
            Some(AgentTrustError::Overflow)
        } else if self.client_lamports < CreateTask::total_required(bounty) {
            Some(AgentTrustError::InsufficientFunds)
        } else {
            Task::create_error(title, bounty, deadline, now)
        }
    }

    /// The task that an accepted creation makes: open, and the caller's.
    pub open spec fn created(
        self,
        title: String,
        description_hash: [u8; 32],
        bounty: u64,
        deadline: i64,
        now: i64,
    ) -> Task {
        Task::created(self.client, title, description_hash, bounty, deadline, self.task_bump, now)
    }

    /// The escrow that an accepted creation opens: it holds the bounty.
    pub open spec fn escrow(self, bounty: u64) -> Escrow {
        Escrow { balance: bounty, bump: self.escrow_bump }
    }

    /// What an accepted creation reports.
    pub open spec fn event(bounty: u64, deadline: i64) -> SettlementEvent {
        SettlementEvent::TaskCreated { bounty, fee: fee_of(bounty as int) as u64, deadline }
    }
}

/// Creates a task for the calling client and hands back its record and its
/// escrow, which holds the bounty. The client must hold bounty and fee
/// together; the fee is assessed here and not moved.
pub fn handler(
    ctx: &CreateTask,
    title: String,
    description_hash: [u8; 32],
    bounty: u64,
    deadline: i64,
    now: i64,
) -> (res: Result<(Task, Escrow, SettlementEvent), AgentTrustError>)
    ensures
        match res {
            Ok((task, escrow, event)) => {
                &&& ctx.error(title@, bounty, deadline, now) is None
                &&& task == ctx.created(title, description_hash, bounty, deadline, now)
                &&& escrow == ctx.escrow(bounty)
                &&& event == CreateTask::event(bounty, deadline)
                &&& task.well_formed()
            },
            Err(e) => ctx.error(title@, bounty, deadline, now) == Some(e),
        },
{
    let fee = fee(bounty);
    let total_required = match bounty.checked_add(fee) {
        Some(total) => total,
        None => {
            return Err(AgentTrustError::Overflow);
        },
    };
    if ctx.client_lamports < total_required {
        return Err(AgentTrustError::InsufficientFunds);
    }
    let task = Task::create(
        ctx.client,
        title,
        description_hash,
        bounty,
        deadline,
        ctx.task_bump,
        now,
    )?;
    let escrow = Escrow { balance: bounty, bump: ctx.escrow_bump };
    Ok((task, escrow, SettlementEvent::TaskCreated { bounty, fee, deadline }))
}

} // verus!
