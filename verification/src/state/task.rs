//! Tasks: one posted job and its way from open to settled.

use vstd::prelude::*;
use vstd::bytes::{
    lemma_auto_spec_u64_to_from_le_bytes, spec_u64_from_le_bytes, spec_u64_to_le_bytes,
    u64_to_le_bytes,
};
use crate::errors::AgentTrustError;
use crate::key::Key;
use crate::text::{byte_len, utf8_len};
use crate::{TaskStatus, MAX_TASK_TITLE_LEN};

verus! {

/// The bytes of `task`, which tag the key of a task's record.
pub const TASK_SEED_TAG: [u8; 4] = [0x74, 0x61, 0x73, 0x6b];

/// One posted job.
#[derive(Debug, PartialEq, Eq)]
pub struct Task {
    /// Who posted the task.
    pub client: Key,
    /// Who claimed it; unset while the task is open.
    pub agent: Option<Key>,
    /// Title, at most `MAX_TASK_TITLE_LEN` bytes.
    pub title: String,
    /// Content identifier of the full description.
    pub description_hash: [u8; 32],
    /// Lamports escrowed for the work.
    pub bounty: u64,
    /// Unix time from which the task can no longer be claimed.
    pub deadline: i64,
    /// Where the task stands.
    pub status: TaskStatus,
    /// Content identifier of the deliverable; unset until submission.
    pub deliverable_hash: Option<[u8; 32]>,
    /// When the task was created, in Unix seconds.
    pub created_at: i64,
    /// When it was claimed.
    pub claimed_at: Option<i64>,
    /// When the deliverable was submitted.
    pub submitted_at: Option<i64>,
    /// Bump seed of the record's key.
    pub bump: u8,
}

impl Clone for Task {
    /// A copy of the record, equal to it in every field.
    fn clone(&self) -> (copy: Task)
        ensures
            copy == *self,
    {
        Task {
            client: self.client,
            agent: self.agent,
            title: self.title.clone(),
            description_hash: self.description_hash,
            bounty: self.bounty,
            deadline: self.deadline,
            status: self.status,
            deliverable_hash: self.deliverable_hash,
            created_at: self.created_at,
            claimed_at: self.claimed_at,
            submitted_at: self.submitted_at,
            bump: self.bump,
        }
    }
}

/// One attempted operation on an existing task, with the caller and the time
/// it was made at.
#[derive(Clone, Copy, Debug)]
pub enum TaskOp {
    /// `agent` claims the task at time `now`.
    Claim { agent: Key, now: i64 },
    /// `caller` submits a deliverable at time `now`.
    Submit { caller: Key, deliverable_hash: [u8; 32], now: i64 },
    /// `caller` confirms the deliverable.
    Confirm { caller: Key },
    /// `caller` disputes the deliverable.
    Dispute { caller: Key },
}

impl TaskStatus {
    /// How far along its lifecycle a task in this state is. `Confirmed` and
    /// `Disputed` are both ends of it.
    pub open spec fn stage(self) -> nat {
        match self {
            TaskStatus::Open => 0,
            TaskStatus::Claimed => 1,
            TaskStatus::Submitted => 2,
            TaskStatus::Confirmed => 3,
            TaskStatus::Disputed => 3,
        }
    }

    /// Whether one operation can take a task from this state to `next`.
    pub open spec fn steps_to(self, next: TaskStatus) -> bool {
        match (self, next) {
            (TaskStatus::Open, TaskStatus::Claimed) => true,
            (TaskStatus::Claimed, TaskStatus::Submitted) => true,
            (TaskStatus::Submitted, TaskStatus::Confirmed) => true,
            (TaskStatus::Submitted, TaskStatus::Disputed) => true,
            _ => false,
        }
    }

    /// Whether a task in this state can be in state `later` after any number
    /// of operations: the same state, or one further along.
    pub open spec fn leads_to(self, later: TaskStatus) -> bool {
        self == later || self.stage() < later.stage()
    }

    /// Whether a task in this state has been claimed.
    pub open spec fn has_agent(self) -> bool {
        self != TaskStatus::Open
    }

    /// Whether a task in this state has a deliverable.
    pub open spec fn has_deliverable(self) -> bool {
        self == TaskStatus::Submitted || self == TaskStatus::Confirmed || self
            == TaskStatus::Disputed
    }
}

impl Task {
    /// What holds of every task record that the operations produce.
    pub open spec fn well_formed(&self) -> bool {
        &&& utf8_len(self.title@) <= MAX_TASK_TITLE_LEN
        &&& self.bounty > 0
        &&& self.deadline > self.created_at
        &&& self.agent is Some <==> self.status.has_agent()
        &&& self.claimed_at is Some <==> self.status.has_agent()
        &&& self.deliverable_hash is Some <==> self.status.has_deliverable()
        &&& self.submitted_at is Some <==> self.status.has_deliverable()
    }

    /// Why creating a task with these terms at time `now` is refused, if it
    /// is. The title is checked first, then the bounty, then the deadline.
    pub open spec fn create_error(title: Seq<char>, bounty: u64, deadline: i64, now: i64) -> Option<
        AgentTrustError,
    > {
        if utf8_len(title) > MAX_TASK_TITLE_LEN {
            Some(AgentTrustError::TitleTooLong)
        } else if bounty == 0 {
            Some(AgentTrustError::InvalidBounty)
        } else if deadline <= now {
            Some(AgentTrustError::InvalidDeadline)
        } else {
            None
        }
    }

    /// The record of a task that has just been created.
    pub open spec fn created(
        client: Key,
        title: String,
        description_hash: [u8; 32],
        bounty: u64,
        deadline: i64,
        bump: u8,
        now: i64,
    ) -> Task {
        Task {
            client,
            agent: None,
            title,
            description_hash,
            bounty,
            deadline,
            status: TaskStatus::Open,
            deliverable_hash: None,
            created_at: now,
            claimed_at: None,
            submitted_at: None,
            bump,
        }
    }

    /// Why a claim at time `now` is refused, if it is.
    pub open spec fn claim_error(self, now: i64) -> Option<AgentTrustError> {
        if self.status != TaskStatus::Open {
            Some(AgentTrustError::TaskNotOpen)
        } else if now >= self.deadline {
            Some(AgentTrustError::DeadlinePassed)
        } else {
            None
        }
    }

    /// The task once `agent` has claimed it at time `now`.
    pub open spec fn claimed(self, agent: Key, now: i64) -> Task {
        Task { agent: Some(agent), status: TaskStatus::Claimed, claimed_at: Some(now), ..self }
    }

    /// Why a submission by `caller` is refused, if it is.
    pub open spec fn submit_error(self, caller: Key) -> Option<AgentTrustError> {
        if self.agent != Some(caller) {
            Some(AgentTrustError::NotAssignedAgent)
        } else if self.status != TaskStatus::Claimed {
            Some(AgentTrustError::TaskNotClaimed)
        } else {
            None
        }
    }

    /// The task once its deliverable has been submitted at time `now`.
    pub open spec fn submitted(self, deliverable_hash: [u8; 32], now: i64) -> Task {
        Task {
            deliverable_hash: Some(deliverable_hash),
            status: TaskStatus::Submitted,
            submitted_at: Some(now),
            ..self
        }
    }

    /// Why `caller` may not respond to the submission, by confirming or by
    /// disputing the deliverable, if that is so.
    pub open spec fn response_error(self, caller: Key) -> Option<AgentTrustError> {
        if self.client != caller {
            Some(AgentTrustError::NotClient)
        } else if self.status != TaskStatus::Submitted {
            Some(AgentTrustError::TaskNotSubmitted)
        } else {
            None
        }
    }

    /// The task once its client has confirmed the deliverable.
    pub open spec fn confirmed(self) -> Task {
        Task { status: TaskStatus::Confirmed, ..self }
    }

    /// The task once its client has disputed the deliverable.
    pub open spec fn disputed(self) -> Task {
        Task { status: TaskStatus::Disputed, ..self }
    }

    /// Why the operation `op` is refused, if it is.
    pub open spec fn error_of(self, op: TaskOp) -> Option<AgentTrustError> {
        match op {
            TaskOp::Claim { agent, now } => self.claim_error(now),
            TaskOp::Submit { caller, deliverable_hash, now } => self.submit_error(caller),
            TaskOp::Confirm { caller } => self.response_error(caller),
            TaskOp::Dispute { caller } => self.response_error(caller),
        }
    }

    /// The task after the operation `op` was attempted: changed as the
    /// operation says where it is accepted, untouched where it is refused.
    pub open spec fn after(self, op: TaskOp) -> Task {
        if self.error_of(op) is Some {
            self
        } else {
            match op {
                TaskOp::Claim { agent, now } => self.claimed(agent, now),
                TaskOp::Submit { caller, deliverable_hash, now } => self.submitted(
                    deliverable_hash,
                    now,
                ),
                TaskOp::Confirm { caller } => self.confirmed(),
                TaskOp::Dispute { caller } => self.disputed(),
            }
        }
    }

    /// The task after the operations `ops` were attempted one after another.
    pub open spec fn after_all(self, ops: Seq<TaskOp>) -> Task
        decreases ops.len(),
    {
        if ops.len() == 0 {
            self
        } else {
            self.after_all(ops.drop_last()).after(ops.last())
        }
    }

    /// Makes the record of a new task, open for claiming. The title must fit
    /// in `MAX_TASK_TITLE_LEN` bytes, the bounty must be positive, and the
    /// deadline must lie after `now`.
    pub fn create(
        client: Key,
        title: String,
        description_hash: [u8; 32],
        bounty: u64,
        deadline: i64,
        bump: u8,
        now: i64,
    ) -> (res: Result<Task, AgentTrustError>)
        ensures
            match res {
                Ok(task) => {
                    &&& Task::create_error(title@, bounty, deadline, now) is None
                    &&& task == Task::created(
                        client,
                        title,
                        description_hash,
                        bounty,
                        deadline,
                        bump,
                        now,
                    )
                    &&& task.well_formed()
                },
                Err(e) => Task::create_error(title@, bounty, deadline, now) == Some(e),
            },
    {
        if byte_len(&title) > MAX_TASK_TITLE_LEN {
            return Err(AgentTrustError::TitleTooLong);
        }
        if bounty == 0 {
            return Err(AgentTrustError::InvalidBounty);
        }
        if deadline <= now {
            return Err(AgentTrustError::InvalidDeadline);
        }
        Ok(
            Task {
                client,
                agent: None,
                title,
                description_hash,
                bounty,
                deadline,
                status: TaskStatus::Open,
                deliverable_hash: None,
                created_at: now,
                claimed_at: None,
                submitted_at: None,
                bump,
            },
        )
    }

    /// Binds the task to `agent`. Only an open task can be claimed, and only
    /// strictly before its deadline.
    pub fn claim(&mut self, agent: Key, now: i64) -> (res: Result<(), AgentTrustError>)
        ensures
            match res {
                Ok(()) => {
                    &&& old(self).claim_error(now) is None
                    &&& *final(self) == old(self).claimed(agent, now)
                },
                Err(e) => {
                    &&& old(self).claim_error(now) == Some(e)
                    &&& *final(self) == *old(self)
                },
            },
            *final(self) == old(self).after(TaskOp::Claim { agent, now }),
            old(self).well_formed() ==> final(self).well_formed(),
    {
        match self.status {
            TaskStatus::Open => {},
            _ => {
                return Err(AgentTrustError::TaskNotOpen);
            },
        }
        if now >= self.deadline {
            return Err(AgentTrustError::DeadlinePassed);
        }
        self.agent = Some(agent);
        self.status = TaskStatus::Claimed;
        self.claimed_at = Some(now);
        Ok(())
    }

    /// Records the deliverable. Only the assigned agent can submit, and only
    /// on a claimed task; who calls is checked first.
    pub fn submit(&mut self, caller: Key, deliverable_hash: [u8; 32], now: i64) -> (res: Result<
        (),
        AgentTrustError,
    >)
        ensures
            match res {
                Ok(()) => {
                    &&& old(self).submit_error(caller) is None
                    &&& *final(self) == old(self).submitted(deliverable_hash, now)
                },
                Err(e) => {
                    &&& old(self).submit_error(caller) == Some(e)
                    &&& *final(self) == *old(self)
                },
            },
            *final(self) == old(self).after(TaskOp::Submit { caller, deliverable_hash, now }),
            old(self).well_formed() ==> final(self).well_formed(),
    {
        if !self.is_assigned_to(&caller) {
            return Err(AgentTrustError::NotAssignedAgent);
        }
        match self.status {
            TaskStatus::Claimed => {},
            _ => {
                return Err(AgentTrustError::TaskNotClaimed);
            },
        }
        self.deliverable_hash = Some(deliverable_hash);
        self.status = TaskStatus::Submitted;
        self.submitted_at = Some(now);
        Ok(())
    }

    /// Accepts the deliverable. Only the client can confirm, and only a
    /// submitted task; who calls is checked first.
    pub fn confirm(&mut self, caller: Key) -> (res: Result<(), AgentTrustError>)
        ensures
            match res {
                Ok(()) => {
                    &&& old(self).response_error(caller) is None
                    &&& *final(self) == old(self).confirmed()
                },
                Err(e) => {
                    &&& old(self).response_error(caller) == Some(e)
                    &&& *final(self) == *old(self)
                },
            },
            *final(self) == old(self).after(TaskOp::Confirm { caller }),
            old(self).well_formed() ==> final(self).well_formed(),
    {
        self.check_response(&caller)?;
        self.status = TaskStatus::Confirmed;
        Ok(())
    }

    /// Contests the deliverable. Only the client can dispute, and only a
    /// submitted task; who calls is checked first.
    pub fn dispute(&mut self, caller: Key) -> (res: Result<(), AgentTrustError>)
        ensures
            match res {
                Ok(()) => {
                    &&& old(self).response_error(caller) is None
                    &&& *final(self) == old(self).disputed()
                },
                Err(e) => {
                    &&& old(self).response_error(caller) == Some(e)
                    &&& *final(self) == *old(self)
                },
            },
            *final(self) == old(self).after(TaskOp::Dispute { caller }),
            old(self).well_formed() ==> final(self).well_formed(),
    {
        self.check_response(&caller)?;
        self.status = TaskStatus::Disputed;
        Ok(())
    }

    /// Tells whether `caller` may respond to the submission now, by
    /// confirming or by disputing the deliverable, without changing the task.
    pub fn check_response(&self, caller: &Key) -> (res: Result<(), AgentTrustError>)
        ensures
            match res {
                Ok(()) => self.response_error(*caller) is None,
                Err(e) => self.response_error(*caller) == Some(e),
            },
    {
        if self.client != *caller {
            return Err(AgentTrustError::NotClient);
        }
        match self.status {
            TaskStatus::Submitted => Ok(()),
            _ => Err(AgentTrustError::TaskNotSubmitted),
        }
    }

    /// Whether the record is sound.
    pub fn is_well_formed(&self) -> (ok: bool)
        ensures
            ok == self.well_formed(),
    {
        let claimed = match self.status {
            TaskStatus::Open => false,
            _ => true,
        };
        let delivered = match self.status {
            TaskStatus::Open => false,
            TaskStatus::Claimed => false,
            _ => true,
        };
        byte_len(&self.title) <= MAX_TASK_TITLE_LEN && self.bounty > 0 && self.deadline
            > self.created_at && self.agent.is_some() == claimed && self.claimed_at.is_some()
            == claimed && self.deliverable_hash.is_some() == delivered
            && self.submitted_at.is_some() == delivered
    }

    /// Whether `who` is the agent that the task is bound to.
    pub fn is_assigned_to(&self, who: &Key) -> (r: bool)
        ensures
            r == (self.agent == Some(*who)),
    {
        match &self.agent {
            Some(agent) => *agent == *who,
            None => false,
        }
    }

    /// Whether `now` lies after the deadline. At the very second of the
    /// deadline it does not, though a claim made then already comes too late.
    pub fn is_deadline_passed(&self, now: i64) -> (r: bool)
        ensures
            r == (now > self.deadline),
    {
        now > self.deadline
    }
}

/// One operation moves a task at most one step along its lifecycle, never
/// back, and leaves a sound record sound. The terms fixed at creation stay as
/// they are, and so does the agent once one is bound.
pub proof fn lemma_task_step(task: Task, op: TaskOp)
    ensures
        task.after(op).status == task.status || task.status.steps_to(task.after(op).status),
        task.status.leads_to(task.after(op).status),
        task.well_formed() ==> task.after(op).well_formed(),
        task.after(op).client == task.client,
        task.after(op).title == task.title,
        task.after(op).description_hash == task.description_hash,
        task.after(op).bounty == task.bounty,
        task.after(op).deadline == task.deadline,
        task.after(op).created_at == task.created_at,
        task.status.has_agent() ==> task.after(op).agent == task.agent,
        task.status.has_agent() ==> task.after(op).claimed_at == task.claimed_at,
        task.status.has_deliverable() ==> task.after(op).deliverable_hash
            == task.deliverable_hash,
        task.status.has_deliverable() ==> task.after(op).submitted_at == task.submitted_at,
{
}

/// Whatever operations are attempted on a task, in whatever order, its status
/// only moves forward along open, claimed, submitted, then confirmed or
/// disputed: a task that has left `Open` is never open again, one that has
/// left `Claimed` is never merely claimed again, and a confirmed or disputed
/// task stays what it is.
pub proof fn lemma_task_status_only_moves_forward(task: Task, ops: Seq<TaskOp>)
    ensures
        task.status.leads_to(task.after_all(ops).status),
        task.status.stage() <= task.after_all(ops).status.stage(),
        task.status != TaskStatus::Open ==> task.after_all(ops).status != TaskStatus::Open,
        task.status.stage() > 1 ==> task.after_all(ops).status != TaskStatus::Claimed,
        task.status.stage() == 3 ==> task.after_all(ops).status == task.status,
    decreases ops.len(),
{
    if ops.len() > 0 {
        lemma_task_status_only_moves_forward(task, ops.drop_last());
        lemma_task_step(task.after_all(ops.drop_last()), ops.last());
    }
}

/// Whatever operations are attempted on a sound task record, the record stays
/// sound, and the terms fixed at creation stay as they were: client, title,
/// description, bounty, deadline and time of creation.
pub proof fn lemma_task_terms_are_fixed(task: Task, ops: Seq<TaskOp>)
    ensures
        task.well_formed() ==> task.after_all(ops).well_formed(),
        task.after_all(ops).client == task.client,
        task.after_all(ops).title == task.title,
        task.after_all(ops).description_hash == task.description_hash,
        task.after_all(ops).bounty == task.bounty,
        task.after_all(ops).deadline == task.deadline,
        task.after_all(ops).created_at == task.created_at,
    decreases ops.len(),
{
    if ops.len() > 0 {
        lemma_task_terms_are_fixed(task, ops.drop_last());
        lemma_task_step(task.after_all(ops.drop_last()), ops.last());
    }
}

/// Once a task has an agent, no later operation binds it to another.
pub proof fn lemma_task_agent_is_bound_once(task: Task, ops: Seq<TaskOp>)
    requires
        task.status.has_agent(),
    ensures
        task.after_all(ops).agent == task.agent,
        task.after_all(ops).claimed_at == task.claimed_at,
    decreases ops.len(),
{
    if ops.len() > 0 {
        lemma_task_agent_is_bound_once(task, ops.drop_last());
        lemma_task_status_only_moves_forward(task, ops.drop_last());
        lemma_task_step(task.after_all(ops.drop_last()), ops.last());
    }
}

/// A claim that is accepted shuts out every other: whoever claims next, and
/// whenever, is refused with `TaskNotOpen`, and the task stays with the first
/// claimant.
pub proof fn lemma_claim_is_exclusive(task: Task, first: Key, now1: i64, second: Key, now2: i64)
    requires
        task.claim_error(now1) is None,
    ensures
        task.claimed(first, now1).claim_error(now2) == Some(AgentTrustError::TaskNotOpen),
        task.claimed(first, now1).after(TaskOp::Claim { agent: second, now: now2 }).agent
            == Some(first),
{
}

/// Attempting one run of operations and then another is attempting the two
/// runs joined.
pub proof fn lemma_after_all_concat(task: Task, first: Seq<TaskOp>, then: Seq<TaskOp>)
    ensures
        task.after_all(first + then) == task.after_all(first).after_all(then),
    decreases then.len(),
{
    if then.len() == 0 {
        assert(first + then =~= first);
    } else {
        lemma_after_all_concat(task, first, then.drop_last());
        assert((first + then).drop_last() =~= first + then.drop_last());
        assert((first + then).last() == then.last());
    }
}

/// In any run of operations on a task, whatever they are and whenever they
/// come, at most one claim is accepted: if the claim at position `i` is,
/// a claim at any later position `j` is refused with `TaskNotOpen`, and at
/// the end of the run the task is still bound to the claimant of `i`.
pub proof fn lemma_later_claims_are_refused(task: Task, ops: Seq<TaskOp>, i: int, j: int)
    requires
        0 <= i < j < ops.len(),
        ops[i] is Claim,
        ops[j] is Claim,
        task.after_all(ops.take(i)).error_of(ops[i]) is None,
    ensures
        task.after_all(ops.take(j)).error_of(ops[j]) == Some(AgentTrustError::TaskNotOpen),
        task.after_all(ops).agent == Some(ops[i]->Claim_agent),
{
    let claimed = task.after_all(ops.take(i + 1));
    assert(claimed.status == TaskStatus::Claimed && claimed.agent == Some(ops[i]->Claim_agent)) by {
        assert(ops.take(i + 1).drop_last() =~= ops.take(i));
        assert(ops.take(i + 1).last() == ops[i]);
    }
    let between = ops.subrange(i + 1, j);
    assert(task.after_all(ops.take(j)) == claimed.after_all(between)) by {
        assert(ops.take(j) =~= ops.take(i + 1) + between);
        lemma_after_all_concat(task, ops.take(i + 1), between);
    }
    lemma_task_status_only_moves_forward(claimed, between);
    let rest = ops.subrange(i + 1, ops.len() as int);
    assert(task.after_all(ops) == claimed.after_all(rest)) by {
        assert(ops =~= ops.take(i + 1) + rest);
        lemma_after_all_concat(task, ops.take(i + 1), rest);
    }
    lemma_task_agent_is_bound_once(claimed, rest);
}

/// Of any number of claims competing for one open task before its deadline,
/// exactly one is accepted, the first to be applied. Every other one is
/// refused with `TaskNotOpen`, and the task ends up with the first claimant.
pub proof fn lemma_one_claim_wins(task: Task, attempts: Seq<TaskOp>, i: int)
    requires
        task.status == TaskStatus::Open,
        forall|j: int|
            0 <= j < attempts.len() ==> (#[trigger] attempts[j]) is Claim && attempts[j]->Claim_now
                < task.deadline,
        0 <= i < attempts.len(),
    ensures
        i == 0 ==> task.after_all(attempts.take(i)).error_of(attempts[i]) is None,
        i > 0 ==> task.after_all(attempts.take(i)).error_of(attempts[i]) == Some(
            AgentTrustError::TaskNotOpen,
        ),
        task.after_all(attempts).status == TaskStatus::Claimed,
        task.after_all(attempts).agent == Some(attempts[0]->Claim_agent),
{
    lemma_claims_after_first(task, attempts, i);
    lemma_claims_after_first(task, attempts, attempts.len() as int);
    assert(attempts.take(attempts.len() as int) =~= attempts);
}

/// After the first `n` of a run of timely claims on an open task, the task is
/// open if `n` is zero and claimed by the first claimant otherwise.
proof fn lemma_claims_after_first(task: Task, attempts: Seq<TaskOp>, n: int)
    requires
        task.status == TaskStatus::Open,
        forall|j: int|
            0 <= j < attempts.len() ==> (#[trigger] attempts[j]) is Claim && attempts[j]->Claim_now
                < task.deadline,
        0 <= n <= attempts.len(),
    ensures
        n == 0 ==> task.after_all(attempts.take(n)) == task,
        n > 0 ==> task.after_all(attempts.take(n)).status == TaskStatus::Claimed,
        n > 0 ==> task.after_all(attempts.take(n)).agent == Some(attempts[0]->Claim_agent),
        task.after_all(attempts.take(n)).deadline == task.deadline,
    decreases n,
{
    if n > 0 {
        lemma_claims_after_first(task, attempts, n - 1);
        assert(attempts.take(n).drop_last() =~= attempts.take(n - 1));
        assert(attempts.take(n).last() == attempts[n - 1]);
    }
}

/// The deadline itself is too late: a claim of an open task at the very
/// second of its deadline is refused with `DeadlinePassed`, and one a second
/// earlier is accepted.
pub proof fn lemma_deadline_is_exclusive(task: Task)
    requires
        task.status == TaskStatus::Open,
    ensures
        task.claim_error(task.deadline) == Some(AgentTrustError::DeadlinePassed),
        task.deadline > i64::MIN ==> task.claim_error((task.deadline - 1) as i64) is None,
        forall|now: i64| task.claim_error(now) is None <==> now < task.deadline,
{
}

/// The seeds of a task's key as one run of bytes: the tag `task`, the
/// client's bytes, and the client's task number in little-endian order.
pub open spec fn task_seeds(client: Key, task_id: u64) -> Seq<u8> {
    TASK_SEED_TAG@ + client.bytes@ + spec_u64_to_le_bytes(task_id)
}

/// Different tasks have different seeds: the seeds tell both the client and
/// the task number, so that keys derived from them do not collide unless the
/// derivation itself does.
pub proof fn lemma_task_seeds_are_injective(client1: Key, id1: u64, client2: Key, id2: u64)
    requires
        task_seeds(client1, id1) == task_seeds(client2, id2),
    ensures
        client1 == client2,
        id1 == id2,
{
    lemma_auto_spec_u64_to_from_le_bytes();
    let seeds1 = task_seeds(client1, id1);
    let seeds2 = task_seeds(client2, id2);
    assert(client1.bytes@ =~= seeds1.subrange(4, 36));
    assert(client2.bytes@ =~= seeds2.subrange(4, 36));
    assert(client1.bytes =~= client2.bytes);
    assert(spec_u64_to_le_bytes(id1) =~= seeds1.subrange(36, 44));
    assert(spec_u64_to_le_bytes(id2) =~= seeds2.subrange(36, 44));
    assert(spec_u64_from_le_bytes(spec_u64_to_le_bytes(id1)) == id1);
    assert(spec_u64_from_le_bytes(spec_u64_to_le_bytes(id2)) == id2);
}

/// The seeds from which the key of a task's record is derived: the tag `task`,
/// the client's bytes, and the client's task number in little-endian order.
pub fn get_task_seeds(client: &Key, task_id: u64) -> (seeds: Vec<u8>)
    ensures
        seeds@ == task_seeds(*client, task_id),
        seeds@.len() == 44,
{
    proof {
        lemma_auto_spec_u64_to_from_le_bytes();
    }
    let mut seeds: Vec<u8> = Vec::new();
    seeds.extend_from_slice(TASK_SEED_TAG.as_slice());
    seeds.extend_from_slice(client.bytes.as_slice());
    let number = u64_to_le_bytes(task_id);
    seeds.extend_from_slice(number.as_slice());
    seeds
}

} // verus!
