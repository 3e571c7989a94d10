use agenttrust::errors::AgentTrustError;
use agenttrust::escrow::Escrow;
use agenttrust::events::SettlementEvent;
use agenttrust::instructions::resolve_dispute::SLASH_LAMPORTS;
use agenttrust::instructions::{
    ClaimTask, ConfirmTask, CreateTask, DisputeTask, IncreaseStake, RegisterAgent, ResolveDispute,
    SubmitEvidence, SubmitTask, UpdateReputation,
};
use agenttrust::key::Key;
use agenttrust::state::{Agent, Dispute, Task};
use agenttrust::{
    claim_task, confirm_task, create_task, dispute_task, increase_stake, register_agent,
    resolve_dispute, submit_evidence, submit_task, update_reputation, DisputeResolution,
    DisputeStatus, TaskStatus, MINIMUM_STAKE_LAMPORTS,
};

const T: i64 = 1_700_000_000;
const DEADLINE: i64 = T + 7 * 86_400;

fn client_key() -> Key {
    Key { bytes: [0xC1; 32] }
}

fn agent_key() -> Key {
    Key { bytes: [0xA1; 32] }
}

fn other_key() -> Key {
    Key { bytes: [0x55; 32] }
}

fn authority_key() -> Key {
    Key { bytes: [0xAA; 32] }
}

fn stored_task_key() -> Key {
    Key { bytes: [0x7A; 32] }
}

fn registered_agent(stake: u64) -> Agent {
    let ctx = RegisterAgent { owner: agent_key(), agent_bump: 255 };
    let (agent, _) = register_agent(&ctx, String::from("worker"), stake, T).unwrap();
    agent
}

fn agent_with_history(successful_tasks: u64, total_tasks: u64, total_stake: u64) -> Agent {
    let mut agent = registered_agent(MINIMUM_STAKE_LAMPORTS);
    agent.successful_tasks = successful_tasks;
    agent.total_tasks = total_tasks;
    agent.total_stake = total_stake;
    agent
}

fn created(bounty: u64) -> (Task, Escrow) {
    let ctx = CreateTask {
        client: client_key(),
        client_lamports: u64::MAX,
        task_bump: 254,
        escrow_bump: 253,
    };
    let (task, escrow, _) =
        create_task(&ctx, String::from("Label a dataset"), [7u8; 32], bounty, DEADLINE, T).unwrap();
    (task, escrow)
}

fn submitted(bounty: u64) -> (Task, Escrow) {
    let (task, escrow) = created(bounty);
    let mut claim =
        ClaimTask { agent: agent_key(), task, agent_account: registered_agent(20_000_000) };
    claim_task(&mut claim, T + 10).unwrap();
    let mut submit = SubmitTask { agent: agent_key(), task: claim.task };
    submit_task(&mut submit, [9u8; 32], T + 20).unwrap();
    (submit.task, escrow)
}

fn disputed(bounty: u64, filed_at: i64) -> (Task, Escrow, Dispute) {
    let (task, escrow) = submitted(bounty);
    let mut ctx =
        DisputeTask { client: client_key(), task, task_key: stored_task_key(), dispute_bump: 252 };
    let (dispute, _) = dispute_task(&mut ctx, filed_at).unwrap();
    (ctx.task, escrow, dispute)
}

#[test]
fn confirming_after_one_failed_run_scores_thirty() {
    let (task, escrow) = submitted(1_000_000);
    assert_eq!(escrow.balance, 1_000_000);
    let mut ctx = ConfirmTask {
        client: client_key(),
        task,
        agent_account: agent_with_history(0, 1, 20_000_000),
        escrow,
    };
    let event = confirm_task(&mut ctx);
    assert_eq!(
        event,
        Ok(SettlementEvent::TaskConfirmed { agent_payment: 990_000, fee: 10_000, reputation: 30 })
    );
    assert_eq!(ctx.task.status, TaskStatus::Confirmed);
    assert_eq!(ctx.agent_account.total_tasks, 2);
    assert_eq!(ctx.agent_account.successful_tasks, 1);
    // Rate 50, so the success component is 30; this stake earns nothing.
    assert_eq!(ctx.agent_account.reputation_score, 30);
    assert_eq!(ctx.escrow.balance, 0);
}

#[test]
fn resolving_with_one_side_heard_waits_for_the_window() {
    let (task, escrow, dispute) = disputed(1_000_000, T);
    assert_eq!(dispute.filed_at, T);
    let mut evidence = SubmitEvidence {
        participant: client_key(),
        task: task.clone(),
        task_key: stored_task_key(),
        dispute,
    };
    assert_eq!(
        submit_evidence(&mut evidence, [1u8; 32], T + 60),
        Ok(SettlementEvent::EvidenceSubmitted { by_client: true })
    );

    let mut ctx = ResolveDispute {
        authority: authority_key(),
        dispute: evidence.dispute,
        task,
        agent_account: registered_agent(20_000_000),
        escrow,
    };
    let before = ctx.clone();
    assert_eq!(
        resolve_dispute(&mut ctx, DisputeResolution::AgentWins, T + 3_600),
        Err(AgentTrustError::EvidencePeriodActive)
    );
    assert_eq!(ctx, before);
    let event = resolve_dispute(&mut ctx, DisputeResolution::AgentWins, T + 86_401);
    assert!(event.is_ok());
    assert_eq!(ctx.dispute.status, DisputeStatus::Resolved);
    assert_eq!(ctx.dispute.resolved_at, Some(T + 86_401));
    assert_eq!(ctx.dispute.resolution, Some(DisputeResolution::AgentWins));
}

#[test]
fn client_wins_and_the_agent_is_slashed() {
    let (task, escrow, dispute) = disputed(1_000_000, T);
    let mut ctx = ResolveDispute {
        authority: authority_key(),
        dispute,
        task,
        agent_account: registered_agent(20_000_000),
        escrow,
    };
    let event = resolve_dispute(&mut ctx, DisputeResolution::ClientWins, T + 86_401);
    assert_eq!(SLASH_LAMPORTS, MINIMUM_STAKE_LAMPORTS / 2);
    assert_eq!(SLASH_LAMPORTS, 10_000_000);
    assert_eq!(
        event,
        Ok(SettlementEvent::DisputeResolved {
            resolution: DisputeResolution::ClientWins,
            client_refund: 1_000_000,
            agent_payment: 0,
            fee: 0,
            slashed: 10_000_000,
            reputation: 0,
        })
    );
    assert_eq!(ctx.agent_account.total_stake, 10_000_000);
    assert_eq!(ctx.agent_account.dispute_losses, 1);
    assert_eq!(ctx.agent_account.total_tasks, 0);
    assert_eq!(ctx.agent_account.successful_tasks, 0);
    assert_eq!(ctx.agent_account.reputation_score, 0);
    assert_eq!(ctx.escrow.balance, 0);
    assert_eq!(ctx.task.status, TaskStatus::Disputed);
    assert_eq!(ctx.dispute.status, DisputeStatus::Resolved);
}

#[test]
fn agent_wins_is_paid_as_for_a_confirmed_task() {
    let (task, escrow, dispute) = disputed(2_500_000_000, T);
    let mut ctx = ResolveDispute {
        authority: authority_key(),
        dispute,
        task,
        agent_account: agent_with_history(3, 4, 30_000_000_000),
        escrow,
    };
    let event = resolve_dispute(&mut ctx, DisputeResolution::AgentWins, T + 86_401);
    // 4 of 5: rate 80, component 48; 30 SOL: 12.
    assert_eq!(
        event,
        Ok(SettlementEvent::DisputeResolved {
            resolution: DisputeResolution::AgentWins,
            client_refund: 0,
            agent_payment: 2_475_000_000,
            fee: 25_000_000,
            slashed: 0,
            reputation: 60,
        })
    );
    assert_eq!(ctx.agent_account.successful_tasks, 4);
    assert_eq!(ctx.agent_account.total_tasks, 5);
    assert_eq!(ctx.agent_account.total_stake, 30_000_000_000);
    assert_eq!(ctx.agent_account.dispute_losses, 0);
    assert_eq!(ctx.escrow.balance, 0);
}

#[test]
fn resolve_refuses_a_slash_that_the_stake_does_not_cover() {
    let (task, escrow, dispute) = disputed(1_000_000, T);
    let mut ctx = ResolveDispute {
        authority: authority_key(),
        dispute,
        task,
        agent_account: agent_with_history(0, 0, 9_999_999),
        escrow,
    };
    let before = ctx.clone();
    assert_eq!(
        resolve_dispute(&mut ctx, DisputeResolution::ClientWins, T + 86_401),
        Err(AgentTrustError::InsufficientStake)
    );
    assert_eq!(ctx, before);
    // The same record can take the other verdict.
    assert!(resolve_dispute(&mut ctx, DisputeResolution::AgentWins, T + 86_401).is_ok());
}

#[test]
fn resolve_refuses_counters_at_their_maximum() {
    let (task, escrow, dispute) = disputed(1_000_000, T);
    let mut agent = agent_with_history(1, 2, 20_000_000);
    agent.dispute_losses = u64::MAX;
    let mut ctx =
        ResolveDispute { authority: authority_key(), dispute, task, agent_account: agent, escrow };
    let before = ctx.clone();
    assert_eq!(
        resolve_dispute(&mut ctx, DisputeResolution::ClientWins, T + 86_401),
        Err(AgentTrustError::Overflow)
    );
    assert_eq!(ctx, before);

    ctx.agent_account.total_tasks = u64::MAX;
    let before = ctx.clone();
    assert_eq!(
        resolve_dispute(&mut ctx, DisputeResolution::AgentWins, T + 86_401),
        Err(AgentTrustError::Overflow)
    );
    assert_eq!(ctx, before);
}

#[test]
fn resolve_happens_once_per_dispute() {
    let (task, escrow, dispute) = disputed(1_000_000, T);
    let mut ctx = ResolveDispute {
        authority: authority_key(),
        dispute,
        task,
        agent_account: registered_agent(40_000_000),
        escrow,
    };
    resolve_dispute(&mut ctx, DisputeResolution::ClientWins, T + 86_401).unwrap();
    let before = ctx.clone();
    assert_eq!(
        resolve_dispute(&mut ctx, DisputeResolution::ClientWins, T + 86_402),
        Err(AgentTrustError::DisputeAlreadyResolved)
    );
    assert_eq!(ctx, before);
    assert_eq!(ctx.agent_account.total_stake, 30_000_000);
    assert_eq!(ctx.agent_account.dispute_losses, 1);
}

#[test]
fn increase_stake_reports_each_refusal() {
    let mut ctx = IncreaseStake { owner: other_key(), agent: registered_agent(20_000_000) };
    let before = ctx.clone();
    assert_eq!(increase_stake(&mut ctx, 5), Err(AgentTrustError::Unauthorized));
    assert_eq!(increase_stake(&mut ctx, 0), Err(AgentTrustError::Unauthorized));
    assert_eq!(ctx, before);

    let mut ctx = IncreaseStake { owner: agent_key(), agent: registered_agent(20_000_000) };
    let before = ctx.clone();
    assert_eq!(increase_stake(&mut ctx, 0), Err(AgentTrustError::InvalidBounty));
    assert_eq!(increase_stake(&mut ctx, u64::MAX), Err(AgentTrustError::Overflow));
    assert_eq!(ctx, before);
    assert_eq!(ctx.agent.reputation_score, 50);
}

#[test]
fn claim_task_binds_the_caller() {
    let (task, _) = created(1_000_000);
    let mut ctx =
        ClaimTask { agent: agent_key(), task, agent_account: registered_agent(20_000_000) };
    assert_eq!(
        claim_task(&mut ctx, DEADLINE - 1),
        Ok(SettlementEvent::TaskClaimed { agent: agent_key() })
    );
    assert_eq!(ctx.task.status, TaskStatus::Claimed);
    assert_eq!(ctx.task.agent, Some(agent_key()));
    assert_eq!(ctx.task.claimed_at, Some(DEADLINE - 1));
    assert_eq!(ctx.agent_account, registered_agent(20_000_000));
}

#[test]
fn claim_task_at_the_deadline_fails() {
    let (task, _) = created(1_000_000);
    let mut ctx =
        ClaimTask { agent: agent_key(), task, agent_account: registered_agent(20_000_000) };
    let before = ctx.clone();
    assert_eq!(claim_task(&mut ctx, DEADLINE), Err(AgentTrustError::DeadlinePassed));
    assert_eq!(ctx, before);
    assert!(claim_task(&mut ctx, DEADLINE - 1).is_ok());
}

#[test]
fn claim_task_needs_the_callers_own_agent_record() {
    let (task, _) = created(1_000_000);
    let mut ctx =
        ClaimTask { agent: other_key(), task, agent_account: registered_agent(20_000_000) };
    let before = ctx.clone();
    assert_eq!(claim_task(&mut ctx, T + 1), Err(AgentTrustError::Unauthorized));
    // Checked before the deadline.
    assert_eq!(claim_task(&mut ctx, DEADLINE), Err(AgentTrustError::Unauthorized));
    assert_eq!(ctx, before);
}

#[test]
fn claim_task_twice_fails_with_task_not_open() {
    let (task, _) = created(1_000_000);
    let mut first =
        ClaimTask { agent: agent_key(), task, agent_account: registered_agent(20_000_000) };
    claim_task(&mut first, T + 1).unwrap();

    let mut rival = registered_agent(20_000_000);
    rival.owner = other_key();
    let mut second = ClaimTask { agent: other_key(), task: first.task.clone(), agent_account: rival };
    let before = second.clone();
    assert_eq!(claim_task(&mut second, T + 1), Err(AgentTrustError::TaskNotOpen));
    assert_eq!(second, before);
    assert_eq!(second.task.agent, Some(agent_key()));

    // The state is checked before the caller's record.
    let mut third = ClaimTask {
        agent: other_key(),
        task: first.task.clone(),
        agent_account: registered_agent(20_000_000),
    };
    assert_eq!(claim_task(&mut third, T + 1), Err(AgentTrustError::TaskNotOpen));
}

#[test]
fn submit_task_reports_each_refusal() {
    let (task, _) = created(1_000_000);
    let mut claim =
        ClaimTask { agent: agent_key(), task, agent_account: registered_agent(20_000_000) };
    claim_task(&mut claim, T + 1).unwrap();

    let mut wrong = SubmitTask { agent: other_key(), task: claim.task.clone() };
    let before = wrong.clone();
    assert_eq!(
        submit_task(&mut wrong, [9u8; 32], T + 2),
        Err(AgentTrustError::NotAssignedAgent)
    );
    assert_eq!(wrong, before);

    let mut right = SubmitTask { agent: agent_key(), task: claim.task };
    assert_eq!(
        submit_task(&mut right, [9u8; 32], T + 2),
        Ok(SettlementEvent::TaskSubmitted { deliverable_hash: [9u8; 32] })
    );
    assert_eq!(right.task.status, TaskStatus::Submitted);
    assert_eq!(right.task.deliverable_hash, Some([9u8; 32]));
    assert_eq!(right.task.submitted_at, Some(T + 2));
    let before = right.clone();
    assert_eq!(submit_task(&mut right, [8u8; 32], T + 3), Err(AgentTrustError::TaskNotClaimed));
    assert_eq!(right, before);
}

#[test]
fn confirm_task_reports_each_refusal() {
    let (task, escrow) = submitted(1_000_000);
    let mut ctx = ConfirmTask {
        client: agent_key(),
        task: task.clone(),
        agent_account: registered_agent(20_000_000),
        escrow,
    };
    let before = ctx.clone();
    assert_eq!(confirm_task(&mut ctx), Err(AgentTrustError::NotClient));
    assert_eq!(ctx, before);

    let (open, open_escrow) = created(1_000_000);
    let mut ctx = ConfirmTask {
        client: client_key(),
        task: open,
        agent_account: registered_agent(20_000_000),
        escrow: open_escrow,
    };
    let before = ctx.clone();
    assert_eq!(confirm_task(&mut ctx), Err(AgentTrustError::TaskNotSubmitted));
    assert_eq!(ctx, before);

    let mut ctx = ConfirmTask {
        client: client_key(),
        task,
        agent_account: agent_with_history(5, u64::MAX, 20_000_000),
        escrow,
    };
    let before = ctx.clone();
    assert_eq!(confirm_task(&mut ctx), Err(AgentTrustError::Overflow));
    assert_eq!(ctx, before);
}

#[test]
fn confirm_task_happens_once() {
    let (task, escrow) = submitted(1_000_000);
    let mut ctx = ConfirmTask {
        client: client_key(),
        task,
        agent_account: registered_agent(20_000_000),
        escrow,
    };
    confirm_task(&mut ctx).unwrap();
    let before = ctx.clone();
    assert_eq!(confirm_task(&mut ctx), Err(AgentTrustError::TaskNotSubmitted));
    assert_eq!(ctx, before);
    assert_eq!(ctx.agent_account.successful_tasks, 1);
    assert_eq!(ctx.agent_account.total_tasks, 1);
    // All of one task succeeded: 60 points, and none for this stake.
    assert_eq!(ctx.agent_account.reputation_score, 60);
}

#[test]
fn submit_evidence_takes_the_side_of_the_caller() {
    let (task, _, dispute) = disputed(1_000_000, T);
    let mut by_agent = SubmitEvidence {
        participant: agent_key(),
        task: task.clone(),
        task_key: stored_task_key(),
        dispute,
    };
    assert_eq!(
        submit_evidence(&mut by_agent, [2u8; 32], T + 1),
        Ok(SettlementEvent::EvidenceSubmitted { by_client: false })
    );
    assert_eq!(by_agent.dispute.agent_evidence, Some([2u8; 32]));
    assert_eq!(by_agent.dispute.client_evidence, None);

    let mut by_client = SubmitEvidence {
        participant: client_key(),
        task,
        task_key: stored_task_key(),
        dispute: by_agent.dispute,
    };
    assert_eq!(
        submit_evidence(&mut by_client, [1u8; 32], T + 2),
        Ok(SettlementEvent::EvidenceSubmitted { by_client: true })
    );
    assert_eq!(by_client.dispute.agent_evidence, Some([2u8; 32]));
    assert_eq!(by_client.dispute.client_evidence, Some([1u8; 32]));

    let before = by_client.clone();
    assert_eq!(
        submit_evidence(&mut by_client, [3u8; 32], T + 3),
        Err(AgentTrustError::EvidenceAlreadySubmitted)
    );
    assert_eq!(by_client, before);
}

#[test]
fn submit_evidence_reports_each_refusal() {
    let (task, _, dispute) = disputed(1_000_000, T);
    let mut stranger = SubmitEvidence {
        participant: other_key(),
        task: task.clone(),
        task_key: stored_task_key(),
        dispute,
    };
    let before = stranger.clone();
    assert_eq!(submit_evidence(&mut stranger, [1u8; 32], T + 1), Err(AgentTrustError::Unauthorized));
    assert_eq!(stranger, before);

    let mut elsewhere = SubmitEvidence {
        participant: client_key(),
        task: task.clone(),
        task_key: other_key(),
        dispute,
    };
    let before = elsewhere.clone();
    assert_eq!(
        submit_evidence(&mut elsewhere, [1u8; 32], T + 1),
        Err(AgentTrustError::InvalidDisputeStatus)
    );
    assert_eq!(elsewhere, before);

    let mut late = SubmitEvidence {
        participant: client_key(),
        task: task.clone(),
        task_key: stored_task_key(),
        dispute,
    };
    assert_eq!(
        submit_evidence(&mut late, [1u8; 32], T + 86_401),
        Err(AgentTrustError::EvidencePeriodOver)
    );
    assert!(submit_evidence(&mut late, [1u8; 32], T + 86_400).is_ok());

    let mut closed = dispute;
    closed.move_to_judgment(T + 86_401).unwrap();
    let mut after = SubmitEvidence {
        participant: agent_key(),
        task,
        task_key: stored_task_key(),
        dispute: closed,
    };
    assert_eq!(
        submit_evidence(&mut after, [2u8; 32], T + 1),
        Err(AgentTrustError::DisputeNotInEvidencePeriod)
    );
}

#[test]
fn update_reputation_recomputes_and_is_idempotent() {
    let mut ctx = UpdateReputation {
        agent_account: agent_with_history(3, 4, 30_000_000_000),
        authority: other_key(),
    };
    assert_eq!(
        update_reputation(&mut ctx),
        Ok(SettlementEvent::ReputationUpdated { old_score: 50, new_score: 45 + 12 })
    );
    assert_eq!(ctx.agent_account.reputation_score, 57);
    let once = ctx.clone();
    assert_eq!(
        update_reputation(&mut ctx),
        Ok(SettlementEvent::ReputationUpdated { old_score: 57, new_score: 57 })
    );
    assert_eq!(ctx, once);
}

#[test]
fn whole_life_of_a_confirmed_task() {
    let agent = registered_agent(100_000_000_000);
    let (task, escrow) = created(10_000);
    let mut claim = ClaimTask { agent: agent_key(), task, agent_account: agent };
    claim_task(&mut claim, T + 1).unwrap();
    let mut submit = SubmitTask { agent: agent_key(), task: claim.task };
    submit_task(&mut submit, [9u8; 32], T + 2).unwrap();
    let mut confirm = ConfirmTask {
        client: client_key(),
        task: submit.task,
        agent_account: claim.agent_account,
        escrow,
    };
    assert_eq!(
        confirm_task(&mut confirm),
        Ok(SettlementEvent::TaskConfirmed { agent_payment: 9_900, fee: 100, reputation: 100 })
    );
    assert_eq!(confirm.task.status, TaskStatus::Confirmed);
    assert_eq!(confirm.task.agent, Some(agent_key()));
    assert_eq!(confirm.task.deliverable_hash, Some([9u8; 32]));
    assert_eq!(confirm.task.claimed_at, Some(T + 1));
    assert_eq!(confirm.task.submitted_at, Some(T + 2));
    assert_eq!(confirm.task.created_at, T);
    assert_eq!(confirm.escrow.balance, 0);
}

#[test]
fn new_agent_scores_fifty_and_twenty_once_it_stakes_fifty_sol() {
    let ctx = RegisterAgent { owner: agent_key(), agent_bump: 255 };
    let (agent, event) = register_agent(&ctx, String::from("worker"), 20_000_000, T).unwrap();
    assert_eq!(
        event,
        SettlementEvent::AgentRegistered {
            owner: agent_key(),
            initial_stake: 20_000_000,
            reputation: 50
        }
    );
    assert_eq!(agent.reputation_score, 50);
    assert_eq!(agent.total_stake, 20_000_000);
    assert_eq!(agent.owner, agent_key());
    assert_eq!(agent.created_at, T);
    assert_eq!(agent.bump, 255);

    let mut ctx = IncreaseStake { owner: agent_key(), agent };
    let event = increase_stake(&mut ctx, 50_000_000_000 - 20_000_000);
    assert_eq!(
        event,
        Ok(SettlementEvent::StakeIncreased {
            amount: 49_980_000_000,
            total_stake: 50_000_000_000,
            reputation: 20
        })
    );
    assert_eq!(ctx.agent.total_stake, 50_000_000_000);
    assert_eq!(ctx.agent.reputation_score, 20);
}

#[test]
fn register_agent_reports_each_refusal() {
    let ctx = RegisterAgent { owner: agent_key(), agent_bump: 255 };
    assert_eq!(
        register_agent(&ctx, "n".repeat(33), 20_000_000, T),
        Err(AgentTrustError::NameTooLong)
    );
    assert_eq!(
        register_agent(&ctx, String::from("worker"), 19_999_999, T),
        Err(AgentTrustError::InsufficientStake)
    );
}

fn funded_client(client_lamports: u64) -> CreateTask {
    CreateTask { client: client_key(), client_lamports, task_bump: 254, escrow_bump: 253 }
}

#[test]
fn create_task_opens_the_escrow_with_the_bounty() {
    let ctx = funded_client(1_010_000);
    let (task, escrow, event) =
        create_task(&ctx, String::from("Label a dataset"), [7u8; 32], 1_000_000, DEADLINE, T).unwrap();
    assert_eq!(
        event,
        SettlementEvent::TaskCreated { bounty: 1_000_000, fee: 10_000, deadline: DEADLINE }
    );
    assert_eq!(escrow, Escrow { balance: 1_000_000, bump: 253 });
    assert_eq!(
        task,
        Task {
            client: client_key(),
            agent: None,
            title: String::from("Label a dataset"),
            description_hash: [7u8; 32],
            bounty: 1_000_000,
            deadline: DEADLINE,
            status: TaskStatus::Open,
            deliverable_hash: None,
            created_at: T,
            claimed_at: None,
            submitted_at: None,
            bump: 254,
        }
    );
}

#[test]
fn create_task_needs_bounty_and_fee_together() {
    let ctx = funded_client(1_009_999);
    assert_eq!(
        create_task(&ctx, String::from("t"), [7u8; 32], 1_000_000, DEADLINE, T),
        Err(AgentTrustError::InsufficientFunds)
    );
    // Below one hundred lamports the fee is nothing.
    assert!(create_task(&funded_client(99), String::from("t"), [7u8; 32], 99, DEADLINE, T).is_ok());
    assert_eq!(
        create_task(&funded_client(100), String::from("t"), [7u8; 32], 100, DEADLINE, T),
        Err(AgentTrustError::InsufficientFunds)
    );
    assert!(create_task(&funded_client(101), String::from("t"), [7u8; 32], 100, DEADLINE, T).is_ok());
}

#[test]
fn create_task_refuses_a_total_beyond_the_range() {
    let ctx = funded_client(u64::MAX);
    assert_eq!(
        create_task(&ctx, String::from("t"), [7u8; 32], u64::MAX, DEADLINE, T),
        Err(AgentTrustError::Overflow)
    );
    // The largest bounty whose total still fits.
    let largest = u64::MAX - u64::MAX / 101 - 1;
    assert_eq!(largest as u128 + largest as u128 / 100, u64::MAX as u128 - 1);
    assert!(create_task(&ctx, String::from("t"), [7u8; 32], largest, DEADLINE, T).is_ok());
    assert_eq!(
        create_task(&ctx, String::from("t"), [7u8; 32], largest + 2, DEADLINE, T),
        Err(AgentTrustError::Overflow)
    );
}

#[test]
fn create_task_checks_funds_before_the_terms() {
    let broke = funded_client(0);
    assert_eq!(
        create_task(&broke, "t".repeat(65), [7u8; 32], 1, T, T),
        Err(AgentTrustError::InsufficientFunds)
    );
    // A zero bounty needs no funds, and is then refused for itself.
    assert_eq!(
        create_task(&broke, String::from("t"), [7u8; 32], 0, DEADLINE, T),
        Err(AgentTrustError::InvalidBounty)
    );
    let ctx = funded_client(10);
    assert_eq!(
        create_task(&ctx, "t".repeat(65), [7u8; 32], 1, DEADLINE, T),
        Err(AgentTrustError::TitleTooLong)
    );
    assert_eq!(
        create_task(&ctx, String::from("t"), [7u8; 32], 1, T, T),
        Err(AgentTrustError::InvalidDeadline)
    );
}

#[test]
fn dispute_task_files_the_dispute() {
    let (task, _) = submitted(1_000_000);
    let mut ctx =
        DisputeTask { client: client_key(), task, task_key: stored_task_key(), dispute_bump: 252 };
    let (dispute, event) = dispute_task(&mut ctx, T + 100).unwrap();
    assert_eq!(event, SettlementEvent::TaskDisputed { task: stored_task_key() });
    assert_eq!(ctx.task.status, TaskStatus::Disputed);
    assert_eq!(
        dispute,
        Dispute {
            task: stored_task_key(),
            client_evidence: None,
            agent_evidence: None,
            filed_at: T + 100,
            resolved_at: None,
            resolution: None,
            status: DisputeStatus::EvidencePeriod,
            bump: 252,
        }
    );
}

#[test]
fn dispute_task_reports_each_refusal() {
    let (task, _) = submitted(1_000_000);
    let mut ctx =
        DisputeTask { client: agent_key(), task, task_key: stored_task_key(), dispute_bump: 252 };
    let before = ctx.clone();
    assert_eq!(dispute_task(&mut ctx, T + 100), Err(AgentTrustError::NotClient));
    assert_eq!(ctx, before);

    let (open, _) = created(1_000_000);
    let mut ctx = DisputeTask {
        client: client_key(),
        task: open,
        task_key: stored_task_key(),
        dispute_bump: 252,
    };
    let before = ctx.clone();
    assert_eq!(dispute_task(&mut ctx, T + 100), Err(AgentTrustError::TaskNotSubmitted));
    assert_eq!(ctx, before);
}

#[test]
fn a_task_is_disputed_once() {
    let (task, _) = submitted(1_000_000);
    let mut ctx =
        DisputeTask { client: client_key(), task, task_key: stored_task_key(), dispute_bump: 252 };
    assert!(dispute_task(&mut ctx, T + 100).is_ok());
    let before = ctx.clone();
    assert_eq!(dispute_task(&mut ctx, T + 101), Err(AgentTrustError::TaskNotSubmitted));
    assert_eq!(ctx, before);
}

#[test]
fn records_stay_sound_through_a_disputed_task() {
    let mut agent = registered_agent(20_000_000);
    assert!(agent.is_well_formed());
    assert!(agent.has_consistent_counters());
    let (task, escrow) = created(1_000_000);
    assert!(task.is_well_formed());
    let mut claim = ClaimTask { agent: agent_key(), task, agent_account: agent.clone() };
    claim_task(&mut claim, T + 1).unwrap();
    assert!(claim.task.is_well_formed());
    let mut submit = SubmitTask { agent: agent_key(), task: claim.task };
    submit_task(&mut submit, [9u8; 32], T + 2).unwrap();
    assert!(submit.task.is_well_formed());
    let mut filing = DisputeTask {
        client: client_key(),
        task: submit.task,
        task_key: stored_task_key(),
        dispute_bump: 252,
    };
    let (dispute, _) = dispute_task(&mut filing, T + 3).unwrap();
    assert!(filing.task.is_well_formed());
    assert!(dispute.is_well_formed());
    let mut resolution = ResolveDispute {
        authority: authority_key(),
        dispute,
        task: filing.task,
        agent_account: agent.clone(),
        escrow,
    };
    resolve_dispute(&mut resolution, DisputeResolution::ClientWins, T + 86_404).unwrap();
    assert!(resolution.dispute.is_well_formed());
    assert!(resolution.task.is_well_formed());
    assert!(resolution.agent_account.is_well_formed());

    // A record that no operation produces is told apart.
    agent.successful_tasks = 2;
    agent.total_tasks = 1;
    assert!(!agent.has_consistent_counters());
    assert!(!agent.is_well_formed());
    let mut task = resolution.task.clone();
    task.agent = None;
    assert!(!task.is_well_formed());
    let mut zero_bounty = resolution.task.clone();
    zero_bounty.bounty = 0;
    assert!(!zero_bounty.is_well_formed());
    let mut dispute = resolution.dispute;
    dispute.resolution = None;
    assert!(!dispute.is_well_formed());
    let mut scored = registered_agent(20_000_000);
    scored.reputation_score = 101;
    assert!(!scored.is_well_formed());
}

#[test]
fn inconsistent_counters_are_not_scored() {
    let broken = agent_with_history(2, 1, 20_000_000);

    let mut update = UpdateReputation { agent_account: broken.clone(), authority: other_key() };
    let before = update.clone();
    assert_eq!(update_reputation(&mut update), Err(AgentTrustError::Overflow));
    assert_eq!(update, before);

    let mut stake = IncreaseStake { owner: agent_key(), agent: broken.clone() };
    let before = stake.clone();
    assert_eq!(increase_stake(&mut stake, 5), Err(AgentTrustError::Overflow));
    // The amount is checked first.
    assert_eq!(increase_stake(&mut stake, 0), Err(AgentTrustError::InvalidBounty));
    assert_eq!(stake, before);

    let (task, escrow) = submitted(1_000_000);
    let mut confirm =
        ConfirmTask { client: client_key(), task, agent_account: broken.clone(), escrow };
    let before = confirm.clone();
    assert_eq!(confirm_task(&mut confirm), Err(AgentTrustError::Overflow));
    assert_eq!(confirm, before);
    // Who calls is checked first.
    confirm.client = other_key();
    assert_eq!(confirm_task(&mut confirm), Err(AgentTrustError::NotClient));

    let (task, escrow, dispute) = disputed(1_000_000, T);
    let mut resolve = ResolveDispute {
        authority: authority_key(),
        dispute,
        task,
        agent_account: broken,
        escrow,
    };
    let before = resolve.clone();
    assert_eq!(
        resolve_dispute(&mut resolve, DisputeResolution::AgentWins, T + 86_401),
        Err(AgentTrustError::Overflow)
    );
    assert_eq!(
        resolve_dispute(&mut resolve, DisputeResolution::ClientWins, T + 86_401),
        Err(AgentTrustError::Overflow)
    );
    // The dispute is checked first, and the stake before the counters.
    assert_eq!(
        resolve_dispute(&mut resolve, DisputeResolution::ClientWins, T + 1),
        Err(AgentTrustError::EvidencePeriodActive)
    );
    assert_eq!(resolve, before);
    resolve.agent_account.total_stake = 1;
    assert_eq!(
        resolve_dispute(&mut resolve, DisputeResolution::ClientWins, T + 86_401),
        Err(AgentTrustError::InsufficientStake)
    );
}
