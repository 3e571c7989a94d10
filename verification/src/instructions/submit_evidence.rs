//! A party to a dispute submits its evidence.

use vstd::prelude::*;
use crate::errors::AgentTrustError;
use crate::events::SettlementEvent;
use crate::key::Key;
use crate::state::dispute::Dispute;
use crate::state::task::Task;

verus! {

/// What a submission of evidence works on.
#[derive(Debug, PartialEq, Eq)]
pub struct SubmitEvidence {
    /// The authenticated caller.
    pub participant: Key,
    /// The disputed task, which names the two parties.
    pub task: Task,
    /// The key under which the task is stored.
    pub task_key: Key,
    /// The dispute to add evidence to.
    pub dispute: Dispute,
}

impl Clone for SubmitEvidence {
    /// A copy of the records, equal to them in every field.
    fn clone(&self) -> (copy: SubmitEvidence)
        ensures
            copy == *self,
    {
        SubmitEvidence {
            participant: self.participant,
            task: self.task.clone(),
            task_key: self.task_key,
            dispute: self.dispute,
        }
    }
}

impl SubmitEvidence {
    /// Whether the caller is the task's client.
    pub open spec fn is_client(self) -> bool {
        self.task.client == self.participant
    }

    /// Whether the caller is the task's agent.
    pub open spec fn is_agent(self) -> bool {
        self.task.agent == Some(self.participant)
    }

    /// Why the submission is refused, if it is: the dispute is over another
    /// task, the caller is neither client nor agent of the task, or the
    /// dispute does not take evidence from that side now; in this order.
    pub open spec fn error(self, now: i64) -> Option<AgentTrustError> {
        if self.dispute.task != self.task_key {
            Some(AgentTrustError::InvalidDisputeStatus)
        } else if !self.is_client() && !self.is_agent() {
            Some(AgentTrustError::Unauthorized)
        } else {
            self.dispute.submit_evidence_error(self.is_client(), now)
        }
    }

    /// The records once the submission is accepted. A caller that is both
    /// client and agent of the task submits as the client.
    pub open spec fn applied(self, evidence_hash: [u8; 32]) -> SubmitEvidence {
        SubmitEvidence { dispute: self.dispute.with_evidence(evidence_hash, self.is_client()), ..self }
    }

    /// What an accepted submission reports.
    pub open spec fn event(self) -> SettlementEvent {
        SettlementEvent::EvidenceSubmitted { by_client: self.is_client() }
    }
}

/// A party submits evidence once: after its evidence has been accepted, a
/// further submission by the same party on the dispute as it then stands is
/// refused, whatever the hash and whenever it comes. While the window is open
/// the refusal is `EvidenceAlreadySubmitted`.
pub proof fn lemma_submit_evidence_once(
    first: SubmitEvidence,
    hash1: [u8; 32],
    now1: i64,
    second: SubmitEvidence,
    now2: i64,
)
    requires
        first.error(now1) is None,
        second.dispute == first.applied(hash1).dispute,
        second.task == first.task,
        second.task_key == first.task_key,
        second.participant == first.participant,
    ensures
        second.error(now2) is Some,
        !second.dispute.evidence_period_over(now2) ==> second.error(now2) == Some(
            AgentTrustError::EvidenceAlreadySubmitted,
        ),
{
}

/// Records the caller's evidence on its side of the dispute: once per side,
/// while the evidence period runs and its window is open.
pub fn handler(ctx: &mut SubmitEvidence, evidence_hash: [u8; 32], now: i64) -> (res: Result<
    SettlementEvent,
    AgentTrustError,
>)
    ensures
        match res {
            Ok(event) => {
                &&& old(ctx).error(now) is None
                &&& *final(ctx) == old(ctx).applied(evidence_hash)
                &&& event == old(ctx).event()
            },
            Err(e) => {
                &&& old(ctx).error(now) == Some(e)
                &&& *final(ctx) == *old(ctx)
            },
        },
        old(ctx).dispute.well_formed() ==> final(ctx).dispute.well_formed(),
{
    if ctx.dispute.task != ctx.task_key {
        return Err(AgentTrustError::InvalidDisputeStatus);
    }
    let is_client = ctx.task.client == ctx.participant;
    let is_agent = ctx.task.is_assigned_to(&ctx.participant);
    if !is_client && !is_agent {
        return Err(AgentTrustError::Unauthorized);
    }
    ctx.dispute.submit_evidence(evidence_hash, is_client, now)?;
    Ok(SettlementEvent::EvidenceSubmitted { by_client: is_client })
}

} // verus!
