//! An agent adds to its stake.

use vstd::prelude::*;
use crate::errors::AgentTrustError;
use crate::events::SettlementEvent;
use crate::key::Key;
use crate::state::agent::Agent;

verus! {

/// What an increase of stake works on.
#[derive(Debug, PartialEq, Eq)]
pub struct IncreaseStake {
    /// The authenticated caller.
    pub owner: Key,
    /// The agent record to add stake to.
    pub agent: Agent,
}

impl Clone for IncreaseStake {
    /// A copy of the records, equal to them in every field.
    fn clone(&self) -> (copy: IncreaseStake)
        ensures
            copy == *self,
    {
        IncreaseStake {
            owner: self.owner,
            agent: self.agent.clone(),
        }
    }
}

impl IncreaseStake {
    /// Why the increase is refused, if it is: the record is not the
    /// caller's, the amount is zero, or the record cannot take the stake,
    /// because the sum leaves the range of an amount or the counters are
    /// inconsistent; in this order.
    pub open spec fn error(self, amount: u64) -> Option<AgentTrustError> {
        if self.agent.owner != self.owner {
            Some(AgentTrustError::Unauthorized)
        } else if amount == 0 {
            Some(AgentTrustError::InvalidBounty)
        } else if self.agent.total_stake + amount > u64::MAX || !self.agent.counters_consistent() {
            Some(AgentTrustError::Overflow)
        } else {
            None
        }
    }

    /// The records once the increase is accepted: the stake raised and the
    /// score recomputed.
    pub open spec fn applied(self, amount: u64) -> IncreaseStake {
        IncreaseStake { agent: self.agent.with_stake_added(amount).rescored(), ..self }
    }

    /// What an accepted increase reports.
    pub open spec fn event(self, amount: u64) -> SettlementEvent {
        SettlementEvent::StakeIncreased {
            amount,
            total_stake: self.applied(amount).agent.total_stake,
            reputation: self.applied(amount).agent.reputation_score,
        }
    }
}

/// Adds a positive amount to the stake of the caller's agent record and
/// recomputes its score.
pub fn handler(ctx: &mut IncreaseStake, amount: u64) -> (res: Result<
    SettlementEvent,
    AgentTrustError,
>)
    ensures
        match res {
            Ok(event) => {
                &&& old(ctx).error(amount) is None
                &&& *final(ctx) == old(ctx).applied(amount)
                &&& event == old(ctx).event(amount)
            },
            Err(e) => {
                &&& old(ctx).error(amount) == Some(e)
                &&& *final(ctx) == *old(ctx)
            },
        },
        old(ctx).agent.well_formed() ==> final(ctx).agent.well_formed(),
{
    if ctx.agent.owner != ctx.owner {
        return Err(AgentTrustError::Unauthorized);
    }
    if amount == 0 {
        return Err(AgentTrustError::InvalidBounty);
    }
    if !ctx.agent.has_consistent_counters() {
        return Err(AgentTrustError::Overflow);
    }
    ctx.agent.increase_stake(amount)?;
    ctx.agent.update_reputation_score();
    Ok(
        SettlementEvent::StakeIncreased {
            amount,
            total_stake: ctx.agent.total_stake,
            reputation: ctx.agent.reputation_score,
        },
    )
}

} // verus!
