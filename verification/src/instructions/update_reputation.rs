//! Anyone may have an agent's stored score brought up to date.

use vstd::prelude::*;
use crate::errors::AgentTrustError;
use crate::events::SettlementEvent;
use crate::key::Key;
use crate::state::agent::Agent;

verus! {

/// What a recomputation works on.
#[derive(Debug, PartialEq, Eq)]
pub struct UpdateReputation {
    /// The agent record to rescore.
    pub agent_account: Agent,
    /// The authenticated caller; anyone may ask, since the score depends on
    /// the record alone.
    pub authority: Key,
}

impl Clone for UpdateReputation {
    /// A copy of the records, equal to them in every field.
    fn clone(&self) -> (copy: UpdateReputation)
        ensures
            copy == *self,
    {
        UpdateReputation {
            agent_account: self.agent_account.clone(),
            authority: self.authority,
        }
    }
}

impl UpdateReputation {
    /// Why the recomputation is refused, if it is: the counters are
    /// inconsistent, so that no score is defined.
    pub open spec fn error(self) -> Option<AgentTrustError> {
        if !self.agent_account.counters_consistent() {
            Some(AgentTrustError::Overflow)
        } else {
            None
        }
    }

    /// The records once the score is recomputed.
    pub open spec fn applied(self) -> UpdateReputation {
        UpdateReputation { agent_account: self.agent_account.rescored(), ..self }
    }

    /// What the recomputation reports.
    pub open spec fn event(self) -> SettlementEvent {
        SettlementEvent::ReputationUpdated {
            old_score: self.agent_account.reputation_score,
            new_score: self.agent_account.rescored().reputation_score,
        }
    }
}

/// A second recomputation changes nothing: it is accepted as the first was,
/// leaves the records as the first left them, and reports the same score as
/// old and new.
pub proof fn lemma_update_reputation_is_idempotent(ctx: UpdateReputation)
    requires
        ctx.error() is None,
    ensures
        ctx.applied().error() is None,
        ctx.applied().applied() == ctx.applied(),
        ctx.applied().event() == (SettlementEvent::ReputationUpdated {
            old_score: ctx.applied().agent_account.reputation_score,
            new_score: ctx.applied().agent_account.reputation_score,
        }),
{
}

/// Recomputes the stored score of an agent from its counters and stake. On
/// consistent counters it always succeeds.
pub fn handler(ctx: &mut UpdateReputation) -> (res: Result<SettlementEvent, AgentTrustError>)
    ensures
        match res {
            Ok(event) => {
                &&& old(ctx).error() is None
                &&& *final(ctx) == old(ctx).applied()
                &&& event == old(ctx).event()
                &&& final(ctx).agent_account.reputation_score <= 100
            },
            Err(e) => {
                &&& old(ctx).error() == Some(e)
                &&& *final(ctx) == *old(ctx)
            },
        },
        old(ctx).agent_account.well_formed() ==> final(ctx).agent_account.well_formed(),
{
    if !ctx.agent_account.has_consistent_counters() {
        return Err(AgentTrustError::Overflow);
    }
    let old_score = ctx.agent_account.reputation_score;
    ctx.agent_account.update_reputation_score();
    Ok(
        SettlementEvent::ReputationUpdated {
            old_score,
            new_score: ctx.agent_account.reputation_score,
        },
    )
}

} // verus!
