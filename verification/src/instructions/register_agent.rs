//! A new participant registers as an agent.

use vstd::prelude::*;
use crate::errors::AgentTrustError;
use crate::events::SettlementEvent;
use crate::key::Key;
use crate::state::agent::{Agent, INITIAL_REPUTATION};

verus! {

/// What a registration works on.
#[derive(Clone, Copy, Debug, PartialEq, Eq)]
pub struct RegisterAgent {
    /// The authenticated caller, who becomes the agent's owner.
    pub owner: Key,
    /// Bump seed of the key under which the new record is stored.
    pub agent_bump: u8,
}

impl RegisterAgent {
    /// Why the registration is refused, if it is: the name is too long, or
    /// the stake too small; in this order.
    pub open spec fn error(name: Seq<char>, initial_stake: u64) -> Option<AgentTrustError> {
        Agent::register_error(name, initial_stake)
    }

    /// The record that an accepted registration makes.
    pub open spec fn registered(self, name: String, initial_stake: u64, now: i64) -> Agent {
        Agent::registered(self.owner, name, initial_stake, self.agent_bump, now)
    }

    /// What an accepted registration reports.
    pub open spec fn event(self, initial_stake: u64) -> SettlementEvent {
        SettlementEvent::AgentRegistered {
            owner: self.owner,
            initial_stake,
            reputation: INITIAL_REPUTATION,
        }
    }
}

/// Registers the caller as an agent with the given name and stake, and hands
/// back the new record. The new agent has no history and the neutral score.
pub fn handler(ctx: &RegisterAgent, name: String, initial_stake: u64, now: i64) -> (res: Result<
    (Agent, SettlementEvent),
    AgentTrustError,
>)
    ensures
        match res {
            Ok((agent, event)) => {
                &&& RegisterAgent::error(name@, initial_stake) is None
                &&& agent == ctx.registered(name, initial_stake, now)
                &&& event == ctx.event(initial_stake)
                &&& agent.well_formed()
            },
            Err(e) => RegisterAgent::error(name@, initial_stake) == Some(e),
        },
{
    let agent = Agent::register(ctx.owner, name, initial_stake, ctx.agent_bump, now)?;
    let event = SettlementEvent::AgentRegistered {
        owner: ctx.owner,
        initial_stake,
        reputation: agent.reputation_score,
    };
    Ok((agent, event))
}

} // verus!
