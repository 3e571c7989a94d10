//! Agents: stake, track record and the reputation score computed from them.

use vstd::prelude::*;
use crate::errors::AgentTrustError;
use crate::key::Key;
use crate::text::{byte_len, utf8_len};
use crate::{MAX_AGENT_NAME_LEN, MINIMUM_STAKE_LAMPORTS};

verus! {

/// Score of an agent that has just registered.
pub const INITIAL_REPUTATION: u64 = 50;

/// Most points the success rate can contribute to a score.
pub const SUCCESS_WEIGHT: u64 = 60;

/// Most points the stake can contribute to a score.
pub const STAKE_WEIGHT: u64 = 40;

/// Stake at and above which the stake component is at its maximum (100 SOL).
pub const MAX_STAKE_REFERENCE: u64 = 100_000_000_000;

/// Points taken off a score for each dispute lost.
pub const DISPUTE_PENALTY: u64 = 10;

/// The bytes of `agent`, which tag the key of an agent's record.
pub const AGENT_SEED_TAG: [u8; 5] = [0x61, 0x67, 0x65, 0x6e, 0x74];

/// One registered participant.
#[derive(Debug, PartialEq, Eq)]
pub struct Agent {
    /// Identity of the registering caller.
    pub owner: Key,
    /// Display name, at most `MAX_AGENT_NAME_LEN` bytes.
    pub name: String,
    /// Score as of the last recomputation, between 0 and 100.
    pub reputation_score: u64,
    /// Tasks completed successfully.
    pub successful_tasks: u64,
    /// Tasks attempted.
    pub total_tasks: u64,
    /// Stake in lamports.
    pub total_stake: u64,
    /// Disputes lost.
    pub dispute_losses: u64,
    /// When the agent registered, in Unix seconds.
    pub created_at: i64,
    /// Bump seed of the record's key.
    pub bump: u8,
}

impl Clone for Agent {
    /// A copy of the record, equal to it in every field.
    fn clone(&self) -> (copy: Agent)
        ensures
            copy == *self,
    {
        Agent {
            owner: self.owner,
            name: self.name.clone(),
            reputation_score: self.reputation_score,
            successful_tasks: self.successful_tasks,
            total_tasks: self.total_tasks,
            total_stake: self.total_stake,
            dispute_losses: self.dispute_losses,
            created_at: self.created_at,
            bump: self.bump,
        }
    }
}

/// Share of attempted tasks that succeeded, in percent, rounded down; zero
/// for an agent without history.
pub open spec fn success_rate(successful_tasks: int, total_tasks: int) -> int {
    if total_tasks > 0 {
        successful_tasks * 100 / total_tasks
    } else {
        0
    }
}

/// Points earned by the success rate.
pub open spec fn success_component(successful_tasks: int, total_tasks: int) -> int {
    success_rate(successful_tasks, total_tasks) * SUCCESS_WEIGHT as int / 100
}

/// Stake in percent of `MAX_STAKE_REFERENCE`, rounded down and capped at 100.
pub open spec fn stake_normalized(total_stake: int) -> int {
    let capped = if total_stake < MAX_STAKE_REFERENCE as int {
        total_stake
    } else {
        MAX_STAKE_REFERENCE as int
    };
    capped * 100 / MAX_STAKE_REFERENCE as int
}

/// Points earned by the stake.
pub open spec fn stake_component(total_stake: int) -> int {
    stake_normalized(total_stake) * STAKE_WEIGHT as int / 100
}

/// The reputation score of a track record: success and stake components
/// together, less the penalty for lost disputes, and never below zero.
pub open spec fn reputation_of(
    successful_tasks: int,
    total_tasks: int,
    total_stake: int,
    dispute_losses: int,
) -> int {
    let raw = success_component(successful_tasks, total_tasks) + stake_component(total_stake);
    let penalty = dispute_losses * DISPUTE_PENALTY as int;
    if raw > penalty {
        raw - penalty
    } else {
        0
    }
}

/// The success component lies between 0 and `SUCCESS_WEIGHT` whenever no more
/// tasks succeeded than were attempted.
pub proof fn lemma_success_component_bounds(successful_tasks: int, total_tasks: int)
    requires
        0 <= successful_tasks <= total_tasks,
    ensures
        0 <= success_rate(successful_tasks, total_tasks) <= 100,
        0 <= success_component(successful_tasks, total_tasks) <= SUCCESS_WEIGHT,
{
    if total_tasks > 0 {
        assert(0 <= successful_tasks * 100 / total_tasks <= 100) by (nonlinear_arith)
            requires
                0 <= successful_tasks <= total_tasks,
                total_tasks > 0,
        ;
    }
}

/// The stake component lies between 0 and `STAKE_WEIGHT` for every stake.
pub proof fn lemma_stake_component_bounds(total_stake: int)
    requires
        0 <= total_stake,
    ensures
        0 <= stake_normalized(total_stake) <= 100,
        0 <= stake_component(total_stake) <= STAKE_WEIGHT,
{
}

/// A score is always between 0 and 100: the two components are capped at
/// their weights, which add up to 100, and the penalty only lowers the sum.
pub proof fn lemma_reputation_bounds(
    successful_tasks: int,
    total_tasks: int,
    total_stake: int,
    dispute_losses: int,
)
    requires
        0 <= successful_tasks <= total_tasks,
        0 <= total_stake,
        0 <= dispute_losses,
    ensures
        0 <= reputation_of(successful_tasks, total_tasks, total_stake, dispute_losses) <= 100,
{
    lemma_success_component_bounds(successful_tasks, total_tasks);
    lemma_stake_component_bounds(total_stake);
}

impl Agent {
    /// What holds of every agent record that the operations produce.
    pub open spec fn well_formed(&self) -> bool {
        &&& utf8_len(self.name@) <= MAX_AGENT_NAME_LEN
        &&& self.counters_consistent()
        &&& self.reputation_score <= 100
    }

    /// Whether no more tasks are counted as successful than as attempted.
    /// Only of such a record is the score defined.
    pub open spec fn counters_consistent(&self) -> bool {
        self.successful_tasks <= self.total_tasks
    }

    /// The score that the record's counters and stake give.
    pub open spec fn reputation(&self) -> int {
        reputation_of(
            self.successful_tasks as int,
            self.total_tasks as int,
            self.total_stake as int,
            self.dispute_losses as int,
        )
    }

    /// Why a registration with this name and stake is refused, if it is.
    pub open spec fn register_error(name: Seq<char>, initial_stake: u64) -> Option<
        AgentTrustError,
    > {
        if utf8_len(name) > MAX_AGENT_NAME_LEN {
            Some(AgentTrustError::NameTooLong)
        } else if initial_stake < MINIMUM_STAKE_LAMPORTS {
            Some(AgentTrustError::InsufficientStake)
        } else {
            None
        }
    }

    /// The record of an agent that has just registered: no history, the
    /// initial stake, and the neutral starting score.
    pub open spec fn registered(
        owner: Key,
        name: String,
        initial_stake: u64,
        bump: u8,
        now: i64,
    ) -> Agent {
        Agent {
            owner,
            name,
            reputation_score: INITIAL_REPUTATION,
            successful_tasks: 0,
            total_tasks: 0,
            total_stake: initial_stake,
            dispute_losses: 0,
            created_at: now,
            bump,
        }
    }

    /// The record with its stored score brought up to date.
    pub open spec fn rescored(self) -> Agent {
        Agent { reputation_score: self.reputation() as u64, ..self }
    }

    /// The record after one more successful task.
    pub open spec fn with_success(self) -> Agent {
        Agent {
            successful_tasks: (self.successful_tasks + 1) as u64,
            total_tasks: (self.total_tasks + 1) as u64,
            ..self
        }
    }

    /// The record after one more lost dispute.
    pub open spec fn with_dispute_loss(self) -> Agent {
        Agent { dispute_losses: (self.dispute_losses + 1) as u64, ..self }
    }

    /// The record with `amount` added to its stake.
    pub open spec fn with_stake_added(self, amount: u64) -> Agent {
        Agent { total_stake: (self.total_stake + amount) as u64, ..self }
    }

    /// The record with `amount` taken from its stake.
    pub open spec fn with_stake_removed(self, amount: u64) -> Agent {
        Agent { total_stake: (self.total_stake - amount) as u64, ..self }
    }

    /// Makes the record of a newly registered agent. The name must fit in
    /// `MAX_AGENT_NAME_LEN` bytes and the stake must reach
    /// `MINIMUM_STAKE_LAMPORTS`; the name is checked first.
    pub fn register(owner: Key, name: String, initial_stake: u64, bump: u8, now: i64) -> (res:
        Result<Agent, AgentTrustError>)
        ensures
            match res {
                Ok(agent) => {
                    &&& Agent::register_error(name@, initial_stake) is None
                    &&& agent == Agent::registered(owner, name, initial_stake, bump, now)
                    &&& agent.well_formed()
                },
                Err(e) => Agent::register_error(name@, initial_stake) == Some(e),
            },
    {
        if byte_len(&name) > MAX_AGENT_NAME_LEN {
            return Err(AgentTrustError::NameTooLong);
        }
        if initial_stake < MINIMUM_STAKE_LAMPORTS {
            return Err(AgentTrustError::InsufficientStake);
        }
        Ok(
            Agent {
                owner,
                name,
                reputation_score: INITIAL_REPUTATION,
                successful_tasks: 0,
                total_tasks: 0,
                total_stake: initial_stake,
                dispute_losses: 0,
                created_at: now,
                bump,
            },
        )
    }

    /// Adds `amount` to the stake, or refuses with `Overflow` when the sum
    /// does not fit in 64 bits.
    pub fn increase_stake(&mut self, amount: u64) -> (res: Result<(), AgentTrustError>)
        ensures
            match res {
                Ok(()) => {
                    &&& old(self).total_stake + amount <= u64::MAX
                    &&& *final(self) == old(self).with_stake_added(amount)
                },
                Err(e) => {
                    &&& e == AgentTrustError::Overflow
                    &&& old(self).total_stake + amount > u64::MAX
                    &&& *final(self) == *old(self)
                },
            },
            old(self).well_formed() ==> final(self).well_formed(),
    {
        match self.total_stake.checked_add(amount) {
            Some(sum) => {
                self.total_stake = sum;
                Ok(())
            },
            None => Err(AgentTrustError::Overflow),
        }
    }

    /// Takes `amount` from the stake, as a slash does, or refuses with
    /// `InsufficientStake` when the stake is smaller than that.
    pub fn decrease_stake(&mut self, amount: u64) -> (res: Result<(), AgentTrustError>)
        ensures
            match res {
                Ok(()) => {
                    &&& old(self).total_stake >= amount
                    &&& *final(self) == old(self).with_stake_removed(amount)
                },
                Err(e) => {
                    &&& e == AgentTrustError::InsufficientStake
                    &&& old(self).total_stake < amount
                    &&& *final(self) == *old(self)
                },
            },
            old(self).well_formed() ==> final(self).well_formed(),
    {
        if self.total_stake < amount {
            return Err(AgentTrustError::InsufficientStake);
        }
        self.total_stake = self.total_stake - amount;
        Ok(())
    }

    /// Counts one more task, completed successfully; refuses with `Overflow`
    /// when a counter is at its maximum.
    pub fn record_success(&mut self) -> (res: Result<(), AgentTrustError>)
        ensures
            match res {
                Ok(()) => {
                    &&& old(self).successful_tasks < u64::MAX
                    &&& old(self).total_tasks < u64::MAX
                    &&& *final(self) == old(self).with_success()
                },
                Err(e) => {
                    &&& e == AgentTrustError::Overflow
                    &&& (old(self).successful_tasks == u64::MAX || old(self).total_tasks
                        == u64::MAX)
                    &&& *final(self) == *old(self)
                },
            },
            old(self).well_formed() ==> final(self).well_formed(),
    {
        if self.successful_tasks == u64::MAX || self.total_tasks == u64::MAX {
            return Err(AgentTrustError::Overflow);
        }
        self.successful_tasks = self.successful_tasks + 1;
        self.total_tasks = self.total_tasks + 1;
        Ok(())
    }

    /// Counts one more task attempted, without a success; refuses with
    /// `Overflow` when the counter is at its maximum.
    pub fn record_attempt(&mut self) -> (res: Result<(), AgentTrustError>)
        ensures
            match res {
                Ok(()) => {
                    &&& old(self).total_tasks < u64::MAX
                    &&& *final(self) == (Agent {
                        total_tasks: (old(self).total_tasks + 1) as u64,
                        ..*old(self)
                    })
                },
                Err(e) => {
                    &&& e == AgentTrustError::Overflow
                    &&& old(self).total_tasks == u64::MAX
                    &&& *final(self) == *old(self)
                },
            },
            old(self).well_formed() ==> final(self).well_formed(),
    {
        if self.total_tasks == u64::MAX {
            return Err(AgentTrustError::Overflow);
        }
        self.total_tasks = self.total_tasks + 1;
        Ok(())
    }

    /// Counts one more dispute lost. The number of tasks attempted stays as
    /// it is. Refuses with `Overflow` when the counter is at its maximum.
    pub fn record_dispute_loss(&mut self) -> (res: Result<(), AgentTrustError>)
        ensures
            match res {
                Ok(()) => {
                    &&& old(self).dispute_losses < u64::MAX
                    &&& *final(self) == old(self).with_dispute_loss()
                },
                Err(e) => {
                    &&& e == AgentTrustError::Overflow
                    &&& old(self).dispute_losses == u64::MAX
                    &&& *final(self) == *old(self)
                },
            },
            old(self).well_formed() ==> final(self).well_formed(),
    {
        if self.dispute_losses == u64::MAX {
            return Err(AgentTrustError::Overflow);
        }
        self.dispute_losses = self.dispute_losses + 1;
        Ok(())
    }

    /// Whether the counters are consistent, so that the record can be scored.
    pub fn has_consistent_counters(&self) -> (ok: bool)
        ensures
            ok == self.counters_consistent(),
    {
        self.successful_tasks <= self.total_tasks
    }

    /// Whether the record is sound.
    pub fn is_well_formed(&self) -> (ok: bool)
        ensures
            ok == self.well_formed(),
    {
        byte_len(&self.name) <= MAX_AGENT_NAME_LEN && self.successful_tasks <= self.total_tasks
            && self.reputation_score <= 100
    }

    /// Computes the reputation score from the counters and the stake; the
    /// stored score is neither read nor changed.
    pub fn calculate_reputation(&self) -> (score: u64)
        requires
            self.counters_consistent(),
        ensures
            score as int == self.reputation(),
            score <= 100,
    {
        proof {
            lemma_success_component_bounds(self.successful_tasks as int, self.total_tasks as int);
            lemma_stake_component_bounds(self.total_stake as int);
        }
        let success_rate: u128 = if self.total_tasks > 0 {
            self.successful_tasks as u128 * 100 / self.total_tasks as u128
        } else {
            0
        };
        let success_component: u128 = success_rate * SUCCESS_WEIGHT as u128 / 100;

        let capped: u64 = if self.total_stake < MAX_STAKE_REFERENCE {
            self.total_stake
        } else {
            MAX_STAKE_REFERENCE
        };
        let stake_normalized: u64 = capped * 100 / MAX_STAKE_REFERENCE;
        let stake_component: u64 = stake_normalized * STAKE_WEIGHT / 100;

        let raw: u128 = success_component + stake_component as u128;
        assert(self.dispute_losses * DISPUTE_PENALTY <= u128::MAX) by (nonlinear_arith)
            requires
                self.dispute_losses <= u64::MAX,
                DISPUTE_PENALTY <= u64::MAX,
        ;
        let penalty: u128 = self.dispute_losses as u128 * DISPUTE_PENALTY as u128;
        if raw > penalty {
            (raw - penalty) as u64
        } else {
            0
        }
    }

    /// Recomputes the score and stores it. Nothing else changes, so a second
    /// call on the same counters changes nothing at all.
    pub fn update_reputation_score(&mut self)
        requires
            old(self).counters_consistent(),
        ensures
            *final(self) == old(self).rescored(),
            final(self).reputation_score <= 100,
            old(self).well_formed() ==> final(self).well_formed(),
    {
        self.reputation_score = self.calculate_reputation();
    }
}

/// Recomputing a score is idempotent: once a record is up to date,
/// recomputing it again gives the same record.
pub proof fn lemma_rescoring_is_idempotent(agent: Agent)
    ensures
        agent.rescored().rescored() == agent.rescored(),
{
}

/// The seeds from which the key of an agent's record is derived: the tag
/// `agent`, then the owner's bytes.
pub fn get_agent_seeds(owner: &Key) -> (seeds: Vec<&[u8]>)
    ensures
        seeds@.len() == 2,
        seeds@[0]@ == AGENT_SEED_TAG@,
        seeds@[1]@ == owner.bytes@,
{
    let mut seeds: Vec<&[u8]> = Vec::new();
    seeds.push(AGENT_SEED_TAG.as_slice());
    seeds.push(owner.bytes.as_slice());
    seeds
}

} // verus!
