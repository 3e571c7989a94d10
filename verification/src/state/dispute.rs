//! Disputes: the evidence window of a contested task and its resolution.

use vstd::prelude::*;
use crate::errors::AgentTrustError;
use crate::key::Key;
use crate::{DisputeResolution, DisputeStatus, DISPUTE_WINDOW_SECONDS};

verus! {

/// The bytes of `dispute`, which tag the key of a dispute's record.
pub const DISPUTE_SEED_TAG: [u8; 7] = [0x64, 0x69, 0x73, 0x70, 0x75, 0x74, 0x65];

/// The dispute over one task.
#[derive(Clone, Copy, Debug, PartialEq, Eq)]
pub struct Dispute {
    /// Key of the disputed task.
    pub task: Key,
    /// Content identifier of the client's evidence; unset until submitted.
    pub client_evidence: Option<[u8; 32]>,
    /// Content identifier of the agent's evidence; unset until submitted.
    pub agent_evidence: Option<[u8; 32]>,
    /// When the dispute was filed, in Unix seconds.
    pub filed_at: i64,
    /// When it was resolved.
    pub resolved_at: Option<i64>,
    /// The verdict; set together with `resolved_at`.
    pub resolution: Option<DisputeResolution>,
    /// Where the dispute stands.
    pub status: DisputeStatus,
    /// Bump seed of the record's key.
    pub bump: u8,
}

/// One attempted operation on an existing dispute, with the time it was made
/// at.
#[derive(Clone, Copy, Debug)]
pub enum DisputeOp {
    /// One side, the client if `is_client`, submits evidence at time `now`.
    SubmitEvidence { evidence_hash: [u8; 32], is_client: bool, now: i64 },
    /// The evidence period is closed at time `now`.
    MoveToJudgment { now: i64 },
    /// The arbitrator gives its verdict at time `now`.
    Resolve { resolution: DisputeResolution, now: i64 },
}

impl DisputeStatus {
    /// How far along its lifecycle a dispute in this state is.
    pub open spec fn stage(self) -> nat {
        match self {
            DisputeStatus::EvidencePeriod => 0,
            DisputeStatus::JudgmentPending => 1,
            DisputeStatus::Resolved => 2,
        }
    }
}

impl Dispute {
    /// What holds of every dispute record that the operations produce: time
    /// and verdict of the resolution are set exactly when it is resolved.
    pub open spec fn well_formed(&self) -> bool {
        &&& self.resolved_at is Some <==> self.status == DisputeStatus::Resolved
        &&& self.resolution is Some <==> self.status == DisputeStatus::Resolved
    }

    /// The last second of the evidence window.
    pub open spec fn window_end(self) -> int {
        self.filed_at + DISPUTE_WINDOW_SECONDS
    }

    /// Whether the evidence window has elapsed at time `now`. At the last
    /// second of the window it has not.
    pub open spec fn evidence_period_over(self, now: i64) -> bool {
        now > self.window_end()
    }

    /// Seconds left of the evidence window at time `now`; zero once it has
    /// elapsed.
    pub open spec fn time_remaining(self, now: i64) -> int {
        if self.window_end() > now {
            self.window_end() - now
        } else {
            0
        }
    }

    /// The evidence that one side has submitted.
    pub open spec fn evidence_of(self, is_client: bool) -> Option<[u8; 32]> {
        if is_client {
            self.client_evidence
        } else {
            self.agent_evidence
        }
    }

    /// The record of a dispute that has just been filed over `task`.
    pub open spec fn filed(task: Key, bump: u8, now: i64) -> Dispute {
        Dispute {
            task,
            client_evidence: None,
            agent_evidence: None,
            filed_at: now,
            resolved_at: None,
            resolution: None,
            status: DisputeStatus::EvidencePeriod,
            bump,
        }
    }

    /// Why evidence from one side at time `now` is refused, if it is. The
    /// state is checked first, then the window, then the side's slot.
    pub open spec fn submit_evidence_error(self, is_client: bool, now: i64) -> Option<
        AgentTrustError,
    > {
        if self.status != DisputeStatus::EvidencePeriod {
            Some(AgentTrustError::DisputeNotInEvidencePeriod)
        } else if self.evidence_period_over(now) {
            Some(AgentTrustError::EvidencePeriodOver)
        } else if self.evidence_of(is_client) is Some {
            Some(AgentTrustError::EvidenceAlreadySubmitted)
        } else {
            None
        }
    }

    /// The dispute with one side's evidence set.
    pub open spec fn with_evidence(self, evidence_hash: [u8; 32], is_client: bool) -> Dispute {
        if is_client {
            Dispute { client_evidence: Some(evidence_hash), ..self }
        } else {
            Dispute { agent_evidence: Some(evidence_hash), ..self }
        }
    }

    /// Whether a verdict may be given at time `now`: always once judgment is
    /// pending; during the evidence period only when the window has elapsed
    /// or both sides have submitted.
    pub open spec fn ready_for_verdict(self, now: i64) -> bool {
        self.status == DisputeStatus::EvidencePeriod ==> self.evidence_period_over(now) || (
        self.client_evidence is Some && self.agent_evidence is Some)
    }

    /// Why a resolution at time `now` is refused, if it is.
    pub open spec fn resolve_error(self, now: i64) -> Option<AgentTrustError> {
        if self.status == DisputeStatus::Resolved {
            Some(AgentTrustError::DisputeAlreadyResolved)
        } else if !self.ready_for_verdict(now) {
            Some(AgentTrustError::EvidencePeriodActive)
        } else {
            None
        }
    }

    /// The dispute once resolved at time `now`.
    pub open spec fn resolved(self, resolution: DisputeResolution, now: i64) -> Dispute {
        Dispute {
            resolution: Some(resolution),
            resolved_at: Some(now),
            status: DisputeStatus::Resolved,
            ..self
        }
    }

    /// Why closing the evidence period at time `now` is refused, if it is.
    pub open spec fn move_to_judgment_error(self, now: i64) -> Option<AgentTrustError> {
        if self.status != DisputeStatus::EvidencePeriod {
            Some(AgentTrustError::InvalidDisputeStatus)
        } else if !self.evidence_period_over(now) {
            Some(AgentTrustError::EvidencePeriodActive)
        } else {
            None
        }
    }

    /// The dispute once its evidence period is closed.
    pub open spec fn judgment_pending(self) -> Dispute {
        Dispute { status: DisputeStatus::JudgmentPending, ..self }
    }

    /// Why the operation `op` is refused, if it is.
    pub open spec fn error_of(self, op: DisputeOp) -> Option<AgentTrustError> {
        match op {
            DisputeOp::SubmitEvidence { evidence_hash, is_client, now } => {
                self.submit_evidence_error(is_client, now)
            },
            DisputeOp::MoveToJudgment { now } => self.move_to_judgment_error(now),
            DisputeOp::Resolve { resolution, now } => self.resolve_error(now),
        }
    }

    /// The dispute after the operation `op` was attempted: changed as the
    /// operation says where it is accepted, untouched where it is refused.
    pub open spec fn after(self, op: DisputeOp) -> Dispute {
        if self.error_of(op) is Some {
            self
        } else {
            match op {
                DisputeOp::SubmitEvidence { evidence_hash, is_client, now } => {
                    self.with_evidence(evidence_hash, is_client)
                },
                DisputeOp::MoveToJudgment { now } => self.judgment_pending(),
                DisputeOp::Resolve { resolution, now } => self.resolved(resolution, now),
            }
        }
    }

    /// The dispute after the operations `ops` were attempted one after
    /// another.
    pub open spec fn after_all(self, ops: Seq<DisputeOp>) -> Dispute
        decreases ops.len(),
    {
        if ops.len() == 0 {
            self
        } else {
            self.after_all(ops.drop_last()).after(ops.last())
        }
    }

    /// Makes the record of a dispute filed over `task` at time `now`: no
    /// evidence yet, and the evidence period running.
    pub fn create(task: Key, bump: u8, now: i64) -> (dispute: Dispute)
        ensures
            dispute == Dispute::filed(task, bump, now),
            dispute.well_formed(),
    {
        Dispute {
            task,
            client_evidence: None,
            agent_evidence: None,
            filed_at: now,
            resolved_at: None,
            resolution: None,
            status: DisputeStatus::EvidencePeriod,
            bump,
        }
    }

    /// Records the evidence of one side: the client's if `is_client`, else
    /// the agent's. Each side can do so once, while the evidence period runs
    /// and its window is open.
    pub fn submit_evidence(&mut self, evidence_hash: [u8; 32], is_client: bool, now: i64) -> (res:
        Result<(), AgentTrustError>)
        ensures
            match res {
                Ok(()) => {
                    &&& old(self).submit_evidence_error(is_client, now) is None
                    &&& *final(self) == old(self).with_evidence(evidence_hash, is_client)
                },
                Err(e) => {
                    &&& old(self).submit_evidence_error(is_client, now) == Some(e)
                    &&& *final(self) == *old(self)
                },
            },
            *final(self) == old(self).after(
                DisputeOp::SubmitEvidence { evidence_hash, is_client, now },
            ),
            old(self).well_formed() ==> final(self).well_formed(),
    {
        match self.status {
            DisputeStatus::EvidencePeriod => {},
            _ => {
                return Err(AgentTrustError::DisputeNotInEvidencePeriod);
            },
        }
        if self.is_evidence_period_over(now) {
            return Err(AgentTrustError::EvidencePeriodOver);
        }
        if is_client {
            if self.client_evidence.is_some() {
                return Err(AgentTrustError::EvidenceAlreadySubmitted);
            }
            self.client_evidence = Some(evidence_hash);
        } else {
            if self.agent_evidence.is_some() {
                return Err(AgentTrustError::EvidenceAlreadySubmitted);
            }
            self.agent_evidence = Some(evidence_hash);
        }
        Ok(())
    }

    /// Records the verdict. A resolved dispute cannot be resolved again, and
    /// while the evidence period runs a verdict must wait until the window
    /// has elapsed or both sides have submitted.
    pub fn resolve(&mut self, resolution: DisputeResolution, now: i64) -> (res: Result<
        (),
        AgentTrustError,
    >)
        ensures
            match res {
                Ok(()) => {
                    &&& old(self).resolve_error(now) is None
                    &&& *final(self) == old(self).resolved(resolution, now)
                },
                Err(e) => {
                    &&& old(self).resolve_error(now) == Some(e)
                    &&& *final(self) == *old(self)
                },
            },
            *final(self) == old(self).after(DisputeOp::Resolve { resolution, now }),
            old(self).well_formed() ==> final(self).well_formed(),
    {
        self.check_resolve(now)?;
        self.resolution = Some(resolution);
        self.resolved_at = Some(now);
        self.status = DisputeStatus::Resolved;
        Ok(())
    }

    /// Tells whether a verdict may be given at time `now`, without changing
    /// the dispute.
    pub fn check_resolve(&self, now: i64) -> (res: Result<(), AgentTrustError>)
        ensures
            match res {
                Ok(()) => self.resolve_error(now) is None,
                Err(e) => self.resolve_error(now) == Some(e),
            },
    {
        match self.status {
            DisputeStatus::Resolved => Err(AgentTrustError::DisputeAlreadyResolved),
            DisputeStatus::EvidencePeriod => {
                let both = self.client_evidence.is_some() && self.agent_evidence.is_some();
                if self.is_evidence_period_over(now) || both {
                    Ok(())
                } else {
                    Err(AgentTrustError::EvidencePeriodActive)
                }
            },
            DisputeStatus::JudgmentPending => Ok(()),
        }
    }

    /// Whether the record is sound.
    pub fn is_well_formed(&self) -> (ok: bool)
        ensures
            ok == self.well_formed(),
    {
        let resolved = match self.status {
            DisputeStatus::Resolved => true,
            _ => false,
        };
        self.resolved_at.is_some() == resolved && self.resolution.is_some() == resolved
    }

    /// Closes the evidence period once its window has elapsed.
    pub fn move_to_judgment(&mut self, now: i64) -> (res: Result<(), AgentTrustError>)
        ensures
            match res {
                Ok(()) => {
                    &&& old(self).move_to_judgment_error(now) is None
                    &&& *final(self) == old(self).judgment_pending()
                },
                Err(e) => {
                    &&& old(self).move_to_judgment_error(now) == Some(e)
                    &&& *final(self) == *old(self)
                },
            },
            *final(self) == old(self).after(DisputeOp::MoveToJudgment { now }),
            old(self).well_formed() ==> final(self).well_formed(),
    {
        match self.status {
            DisputeStatus::EvidencePeriod => {},
            _ => {
                return Err(AgentTrustError::InvalidDisputeStatus);
            },
        }
        if !self.is_evidence_period_over(now) {
            return Err(AgentTrustError::EvidencePeriodActive);
        }
        self.status = DisputeStatus::JudgmentPending;
        Ok(())
    }

    /// Whether the evidence window has elapsed at time `now`. A window whose
    /// end lies beyond the range of the clock never elapses.
    pub fn is_evidence_period_over(&self, now: i64) -> (over: bool)
        ensures
            over == self.evidence_period_over(now),
    {
        match self.filed_at.checked_add(DISPUTE_WINDOW_SECONDS) {
            Some(end) => now > end,
            None => false,
        }
    }

    /// Seconds left of the evidence window at time `now`: zero once it has
    /// elapsed, and `i64::MAX` where more than that is left.
    pub fn get_time_remaining(&self, now: i64) -> (left: i64)
        ensures
            self.time_remaining(now) <= i64::MAX ==> left == self.time_remaining(now),
            self.time_remaining(now) > i64::MAX ==> left == i64::MAX,
    {
        let end: i128 = self.filed_at as i128 + DISPUTE_WINDOW_SECONDS as i128;
        let left: i128 = end - now as i128;
        if left <= 0 {
            0
        } else if left > i64::MAX as i128 {
            i64::MAX
        } else {
            left as i64
        }
    }
}

/// One operation never moves a dispute back, and leaves a sound record
/// sound. The task and the time of filing stay as they are, evidence that has
/// been submitted stays as it is, and so does the verdict once given.
pub proof fn lemma_dispute_step(dispute: Dispute, op: DisputeOp)
    ensures
        dispute.status.stage() <= dispute.after(op).status.stage(),
        dispute.well_formed() ==> dispute.after(op).well_formed(),
        dispute.after(op).task == dispute.task,
        dispute.after(op).filed_at == dispute.filed_at,
        dispute.client_evidence is Some ==> dispute.after(op).client_evidence
            == dispute.client_evidence,
        dispute.agent_evidence is Some ==> dispute.after(op).agent_evidence
            == dispute.agent_evidence,
        dispute.status == DisputeStatus::Resolved ==> dispute.after(op) == dispute,
{
}

/// Whatever operations are attempted on a dispute, its status only moves
/// forward along evidence period, judgment pending, resolved; a resolved
/// dispute never changes again, so a verdict is given at most once.
pub proof fn lemma_dispute_status_only_moves_forward(dispute: Dispute, ops: Seq<DisputeOp>)
    ensures
        dispute.status.stage() <= dispute.after_all(ops).status.stage(),
        dispute.well_formed() ==> dispute.after_all(ops).well_formed(),
        dispute.after_all(ops).task == dispute.task,
        dispute.after_all(ops).filed_at == dispute.filed_at,
        dispute.status == DisputeStatus::Resolved ==> dispute.after_all(ops) == dispute,
    decreases ops.len(),
{
    if ops.len() > 0 {
        lemma_dispute_status_only_moves_forward(dispute, ops.drop_last());
        lemma_dispute_step(dispute.after_all(ops.drop_last()), ops.last());
    }
}

/// Each side submits evidence at most once. After one side's evidence has
/// been accepted, a second submission from that side is refused whatever its
/// hash and whenever it comes, and the dispute keeps the first; while the
/// window is still open the refusal is `EvidenceAlreadySubmitted`.
pub proof fn lemma_evidence_is_submitted_once(
    dispute: Dispute,
    first: [u8; 32],
    second: [u8; 32],
    is_client: bool,
    now1: i64,
    now2: i64,
)
    requires
        dispute.submit_evidence_error(is_client, now1) is None,
    ensures
        dispute.with_evidence(first, is_client).submit_evidence_error(is_client, now2) is Some,
        !dispute.evidence_period_over(now2) ==> dispute.with_evidence(
            first,
            is_client,
        ).submit_evidence_error(is_client, now2) == Some(
            AgentTrustError::EvidenceAlreadySubmitted,
        ),
        dispute.with_evidence(first, is_client).after(
            DisputeOp::SubmitEvidence { evidence_hash: second, is_client, now: now2 },
        ).evidence_of(is_client) == Some(first),
        dispute.with_evidence(first, is_client).evidence_of(!is_client) == dispute.evidence_of(
            !is_client,
        ),
{
}

/// Evidence that has been submitted is never replaced, whatever operations
/// follow.
pub proof fn lemma_evidence_is_final(dispute: Dispute, ops: Seq<DisputeOp>, is_client: bool)
    requires
        dispute.evidence_of(is_client) is Some,
    ensures
        dispute.after_all(ops).evidence_of(is_client) == dispute.evidence_of(is_client),
    decreases ops.len(),
{
    if ops.len() > 0 {
        lemma_evidence_is_final(dispute, ops.drop_last(), is_client);
        lemma_dispute_step(dispute.after_all(ops.drop_last()), ops.last());
    }
}

/// Attempting one run of operations and then another is attempting the two
/// runs joined.
pub proof fn lemma_after_all_concat(dispute: Dispute, first: Seq<DisputeOp>, then: Seq<DisputeOp>)
    ensures
        dispute.after_all(first + then) == dispute.after_all(first).after_all(then),
    decreases then.len(),
{
    if then.len() == 0 {
        assert(first + then =~= first);
    } else {
        lemma_after_all_concat(dispute, first, then.drop_last());
        assert((first + then).drop_last() =~= first + then.drop_last());
        assert((first + then).last() == then.last());
    }
}

/// In any run of operations on a dispute, whatever they are and whenever
/// they come, each side's evidence is accepted at most once: if the
/// submission at position `i` is accepted, a submission from the same side at
/// any later position `j` is refused, and at the end of the run the dispute
/// still holds the evidence of `i` for that side.
pub proof fn lemma_later_evidence_is_refused(dispute: Dispute, ops: Seq<DisputeOp>, i: int, j: int)
    requires
        0 <= i < j < ops.len(),
        ops[i] is SubmitEvidence,
        ops[j] is SubmitEvidence,
        ops[i]->is_client == ops[j]->is_client,
        dispute.after_all(ops.take(i)).error_of(ops[i]) is None,
    ensures
        dispute.after_all(ops.take(j)).error_of(ops[j]) is Some,
        dispute.after_all(ops).evidence_of(ops[i]->is_client) == Some(ops[i]->evidence_hash),
{
    let side = ops[i]->is_client;
    let heard = dispute.after_all(ops.take(i + 1));
    assert(heard.evidence_of(side) == Some(ops[i]->evidence_hash)) by {
        assert(ops.take(i + 1).drop_last() =~= ops.take(i));
        assert(ops.take(i + 1).last() == ops[i]);
    }
    let between = ops.subrange(i + 1, j);
    assert(dispute.after_all(ops.take(j)) == heard.after_all(between)) by {
        assert(ops.take(j) =~= ops.take(i + 1) + between);
        lemma_after_all_concat(dispute, ops.take(i + 1), between);
    }
    lemma_evidence_is_final(heard, between, side);
    let rest = ops.subrange(i + 1, ops.len() as int);
    assert(dispute.after_all(ops) == heard.after_all(rest)) by {
        assert(ops =~= ops.take(i + 1) + rest);
        lemma_after_all_concat(dispute, ops.take(i + 1), rest);
    }
    lemma_evidence_is_final(heard, rest, side);
}

/// While only one side has been heard, a dispute in its evidence period
/// cannot be resolved during the window, its last second included, and can
/// be resolved at any later time.
pub proof fn lemma_verdict_waits_for_window(dispute: Dispute, now: i64)
    requires
        dispute.status == DisputeStatus::EvidencePeriod,
        dispute.client_evidence is None || dispute.agent_evidence is None,
    ensures
        now <= dispute.window_end() ==> dispute.resolve_error(now) == Some(
            AgentTrustError::EvidencePeriodActive,
        ),
        now > dispute.window_end() ==> dispute.resolve_error(now) is None,
{
}

/// The seeds from which the key of a dispute's record is derived: the tag
/// `dispute`, then the bytes of the task's key.
pub fn get_dispute_seeds(task: &Key) -> (seeds: Vec<&[u8]>)
    ensures
        seeds@.len() == 2,
        seeds@[0]@ == DISPUTE_SEED_TAG@,
        seeds@[1]@ == task.bytes@,
{
    let mut seeds: Vec<&[u8]> = Vec::new();
    seeds.push(DISPUTE_SEED_TAG.as_slice());
    seeds.push(task.bytes.as_slice());
    seeds
}

} // verus!
