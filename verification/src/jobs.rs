//! Opening, routing, delivering, settling and refunding jobs.
//!
//! An instruction that moves tokens is called with the replies that the token
//! program has given so far, none at first, and says what to call next until it
//! is finished. `now` is the time of the chain's clock, in seconds.

use crate::accounts::{AssignJob, CancelJob, CreateJob, DeliverJob, RefundJob, SettleJob};
use crate::errors::{CanasError, Failure};
use crate::events::{
    Closed, Closing, JobAssigned, JobCreated, JobDelivered, JobRefunded, JobSettled,
};
use crate::keys::Pubkey;
use crate::math::floor_sub;
use crate::state::{
    zero_hash, Account, Config, Job, Provider, BPS_DENOM, REP_MAX, STATUS_ASSIGNED,
    STATUS_DELIVERED, STATUS_OPEN,
};
use crate::token::{next_call, progress, Step, TokenCall, TokenReply};
use vstd::prelude::*;

verus! {

// ---- create_job ----

/// What keeps a job from being opened, if anything.
pub open spec fn create_job_checks(config: Config, amount: u64) -> Result<(), CanasError> {
    if config.paused {
        Err(CanasError::Paused)
    } else if config.usdc_mint == Pubkey::unset() {
        Err(CanasError::MintNotSet)
    } else if amount == 0 {
        Err(CanasError::ZeroAmount)
    } else {
        Ok(())
    }
}

/// The payment goes from the requester's tokens into the vault.
pub open spec fn create_job_calls(a: CreateJob, amount: u64) -> Seq<TokenCall> {
    seq![
        TokenCall::Transfer {
            from: a.requester_token.key,
            to: a.vault.key,
            authority: a.requester,
            signer: None,
            amount,
        },
    ]
}

/// The record of a job that has just been opened.
pub open spec fn new_job(
    requester: Pubkey,
    mint: Pubkey,
    amount: u64,
    nonce: u64,
    params_hash: [u8; 32],
    model_hash: [u8; 32],
    now: i64,
    bump: u8,
) -> Job {
    Job {
        requester,
        provider: Pubkey::unset(),
        mint,
        amount,
        nonce,
        params_hash,
        model_hash,
        output_phash: zero_hash(),
        created_at: now,
        assigned_at: 0,
        delivered_at: 0,
        status: STATUS_OPEN,
        bump,
    }
}

/// The accounts and the report once the payment is in the vault. The job takes
/// the number of jobs so far as its nonce.
pub open spec fn create_job_end(
    a: CreateJob,
    amount: u64,
    params_hash: [u8; 32],
    model_hash: [u8; 32],
    now: i64,
) -> Result<(CreateJob, JobCreated), CanasError> {
    let nonce = a.config.data.job_count;
    if nonce == u64::MAX {
        Err(CanasError::Overflow)
    } else {
        Ok(
            (
                CreateJob {
                    config: Account {
                        data: Config { job_count: (nonce + 1) as u64, ..a.config.data },
                        ..a.config
                    },
                    job: Account {
                        data: new_job(
                            a.requester,
                            a.mint,
                            amount,
                            nonce,
                            params_hash,
                            model_hash,
                            now,
                            a.job_bump,
                        ),
                        ..a.job
                    },
                    ..a
                },
                JobCreated { job: a.job.key, requester: a.requester, amount, nonce },
            ),
        )
    }
}

/// Opens a job: the requester locks `amount` in the job's vault.
pub fn create_job(
    accounts: &mut CreateJob,
    amount: u64,
    params_hash: [u8; 32],
    model_hash: [u8; 32],
    now: i64,
    replies: &Vec<TokenReply>,
) -> (r: Result<Step<JobCreated>, Failure>)
    ensures
        (r, *final(accounts)) == progress(
            *old(accounts),
            create_job_checks(old(accounts).config.data, amount),
            create_job_calls(*old(accounts), amount),
            replies@,
            create_job_end(*old(accounts), amount, params_hash, model_hash, now),
        ),
{
    if accounts.config.data.paused {
        return Err(Failure::Program(CanasError::Paused));
    }
    if accounts.config.data.usdc_mint == Pubkey::default() {
        return Err(Failure::Program(CanasError::MintNotSet));
    }
    if amount == 0 {
        return Err(Failure::Program(CanasError::ZeroAmount));
    }
    let calls: Vec<TokenCall> = vec![
        TokenCall::Transfer {
            from: accounts.requester_token.key,
            to: accounts.vault.key,
            authority: accounts.requester,
            signer: None,
            amount,
        },
    ];
    assert(calls@ =~= create_job_calls(*accounts, amount));
    if let Some(call) = next_call(&calls, replies)? {
        return Ok(Step::Call(call));
    }
    let nonce = accounts.config.data.job_count;
    match nonce.checked_add(1) {
        Some(job_count) => {
            accounts.job.data = Job {
                requester: accounts.requester,
                provider: Pubkey::default(),
                mint: accounts.mint,
                amount,
                nonce,
                params_hash,
                model_hash,
                output_phash: [0u8; 32],
                created_at: now,
                assigned_at: 0,
                delivered_at: 0,
                status: STATUS_OPEN,
                bump: accounts.job_bump,
            };
            accounts.config.data.job_count = job_count;
            Ok(
                Step::Done(
                    JobCreated {
                        job: accounts.job.key,
                        requester: accounts.requester,
                        amount,
                        nonce,
                    },
                ),
            )
        },
        None => Err(Failure::Program(CanasError::Overflow)),
    }
}

// ---- assign_job ----

/// What keeps a job from being routed to a provider, if anything.
pub open spec fn assign_job_checks(job: Job, provider: Provider) -> Result<(), CanasError> {
    if job.status != STATUS_OPEN {
        Err(CanasError::BadStatus)
    } else if !provider.active {
        Err(CanasError::ProviderInactive)
    } else if provider.in_flight == u32::MAX {
        Err(CanasError::Overflow)
    } else {
        Ok(())
    }
}

/// A job that the provider record at `provider` works on since `now`.
pub open spec fn assigned(job: Job, provider: Pubkey, now: i64) -> Job {
    Job { provider, status: STATUS_ASSIGNED, assigned_at: now, ..job }
}

/// A provider with one more job in flight.
pub open spec fn occupied(provider: Provider) -> Provider {
    Provider { in_flight: (provider.in_flight + 1) as u32, ..provider }
}

/// The accounts and the report once the job is routed.
pub open spec fn assign_job_end(a: AssignJob, now: i64) -> (AssignJob, JobAssigned) {
    (
        AssignJob {
            job: Account { data: assigned(a.job.data, a.provider.key, now), ..a.job },
            provider: Account { data: occupied(a.provider.data), ..a.provider },
            ..a
        },
        JobAssigned { job: a.job.key, provider: a.provider.key },
    )
}

/// Routes an open job to an active provider.
pub fn assign_job(accounts: &mut AssignJob, now: i64) -> (r: Result<JobAssigned, CanasError>)
    ensures
        match assign_job_checks(old(accounts).job.data, old(accounts).provider.data) {
            Err(error) => r == Err::<JobAssigned, CanasError>(error) && *final(accounts) == *old(
                accounts,
            ),
            Ok(_) => r is Ok && (*final(accounts), r->Ok_0) == assign_job_end(*old(accounts), now),
        },
{
    if accounts.job.data.status != STATUS_OPEN {
        return Err(CanasError::BadStatus);
    }
    if !accounts.provider.data.active {
        return Err(CanasError::ProviderInactive);
    }
    match accounts.provider.data.in_flight.checked_add(1) {
        Some(in_flight) => {
            accounts.job.data.provider = accounts.provider.key;
            accounts.job.data.status = STATUS_ASSIGNED;
            accounts.job.data.assigned_at = now;
            accounts.provider.data.in_flight = in_flight;
            Ok(JobAssigned { job: accounts.job.key, provider: accounts.provider.key })
        },
        None => Err(CanasError::Overflow),
    }
}

// ---- deliver_job ----

/// What keeps an output from being attested, if anything.
pub open spec fn deliver_job_checks(job: Job) -> Result<(), CanasError> {
    if job.status != STATUS_ASSIGNED {
        Err(CanasError::BadStatus)
    } else {
        Ok(())
    }
}

/// A job whose output was attested at `now`.
pub open spec fn delivered(job: Job, output_phash: [u8; 32], now: i64) -> Job {
    Job { output_phash, delivered_at: now, status: STATUS_DELIVERED, ..job }
}

/// The accounts and the report once the output is attested.
pub open spec fn deliver_job_end(a: DeliverJob, output_phash: [u8; 32], now: i64) -> (
    DeliverJob,
    JobDelivered,
) {
    (
        DeliverJob {
            job: Account { data: delivered(a.job.data, output_phash, now), ..a.job },
            ..a
        },
        JobDelivered { job: a.job.key, output_phash },
    )
}

/// Attests the output of a job by its perceptual hash.
pub fn deliver_job(accounts: &mut DeliverJob, output_phash: [u8; 32], now: i64) -> (r: Result<
    JobDelivered,
    CanasError,
>)
    ensures
        match deliver_job_checks(old(accounts).job.data) {
            Err(error) => r == Err::<JobDelivered, CanasError>(error) && *final(accounts) == *old(
                accounts,
            ),
            Ok(_) => r is Ok && (*final(accounts), r->Ok_0) == deliver_job_end(
                *old(accounts),
                output_phash,
                now,
            ),
        },
{
    if accounts.job.data.status != STATUS_ASSIGNED {
        return Err(CanasError::BadStatus);
    }
    accounts.job.data.output_phash = output_phash;
    accounts.job.data.delivered_at = now;
    accounts.job.data.status = STATUS_DELIVERED;
    Ok(JobDelivered { job: accounts.job.key, output_phash })
}

// ---- settle_job ----

/// The part of `amount` that `bps` basis points make, rounded down, in the 64
/// bits of an amount.
pub open spec fn share(amount: u64, bps: u16) -> u64 {
    (amount * bps / BPS_DENOM as int) as u64
}

fn share_of(amount: u64, bps: u16) -> (r: u64)
    ensures
        r == share(amount, bps),
{
    assert(amount * bps <= u64::MAX * u16::MAX) by (nonlinear_arith)
        requires
            amount <= u64::MAX,
            bps <= u16::MAX,
    ;
    let part: u128 = amount as u128 * bps as u128 / BPS_DENOM as u128;
    #[verifier::truncate]
    (part as u64)
}

/// Whether `window` seconds have passed at `now` since `start`. The end of the
/// window may lie beyond every time that the clock can show.
fn elapsed(start: i64, window: i64, now: i64) -> (r: bool)
    ensures
        r == (now >= start + window),
{
    now as i128 >= start as i128 + window as i128
}

/// The signer is the admin and not the requester: acceptance by lapse of time.
pub open spec fn settles_by_lapse(a: SettleJob) -> bool {
    a.authority == a.config.data.admin && a.authority != a.job.data.requester
}

/// What keeps a job from being settled, if anything.
pub open spec fn settle_job_checks(a: SettleJob, now: i64) -> Result<(), CanasError> {
    if a.job.data.status != STATUS_DELIVERED {
        Err(CanasError::BadStatus)
    } else if a.authority != a.job.data.requester && a.authority != a.config.data.admin {
        Err(CanasError::Unauthorized)
    } else if settles_by_lapse(a) && now < a.job.data.delivered_at + a.config.data.dispute_window {
        Err(CanasError::WindowNotElapsed)
    } else if a.vault.data.amount < provider_share(a) {
        Err(CanasError::Overflow)
    } else {
        Ok(())
    }
}

/// What the provider receives: its share of the agreed amount.
pub open spec fn provider_share(a: SettleJob) -> u64 {
    share(a.job.data.amount, a.config.data.provider_bps)
}

/// What the treasury receives: everything else that the vault holds.
pub open spec fn treasury_share(a: SettleJob) -> u64 {
    (a.vault.data.amount - provider_share(a)) as u64
}

/// A transfer out of an escrow vault, which the job signs for; none where there
/// is nothing to move.
pub open spec fn payout(
    vault: Pubkey,
    to: Pubkey,
    job: Account<Job>,
    amount: u64,
) -> Seq<TokenCall> {
    if amount > 0 {
        seq![
            TokenCall::Transfer {
                from: vault,
                to,
                authority: job.key,
                signer: Some(job.data.signer()),
                amount,
            },
        ]
    } else {
        seq![]
    }
}

/// The closing of an escrow vault; its rent goes to `destination`.
pub open spec fn close_vault(vault: Pubkey, destination: Pubkey, job: Account<Job>) -> TokenCall {
    TokenCall::CloseAccount {
        account: vault,
        destination,
        authority: job.key,
        signer: Some(job.data.signer()),
    }
}

fn push_payout(
    calls: &mut Vec<TokenCall>,
    vault: Pubkey,
    to: Pubkey,
    job: &Account<Job>,
    amount: u64,
)
    ensures
        final(calls)@ == old(calls)@ + payout(vault, to, *job, amount),
{
    if amount > 0 {
        calls.push(
            TokenCall::Transfer {
                from: vault,
                to,
                authority: job.key,
                signer: Some(job.data.to_signer()),
                amount,
            },
        );
    }
    assert(calls@ =~= old(calls)@ + payout(vault, to, *job, amount));
}

/// The provider's share goes to its payout account, the rest of the vault to the
/// treasury, and the vault is closed.
pub open spec fn settle_job_calls(a: SettleJob) -> Seq<TokenCall> {
    (payout(a.vault.key, a.provider_payout.key, a.job, provider_share(a)) + payout(
        a.vault.key,
        a.treasury.key,
        a.job,
        treasury_share(a),
    )).push(close_vault(a.vault.key, a.requester, a.job))
}

/// A provider that has been paid `amount` for a job.
pub open spec fn paid(provider: Provider, amount: u64) -> Provider {
    Provider {
        jobs_done: (provider.jobs_done + 1) as u64,
        total_earned: (provider.total_earned + amount) as u64,
        in_flight: floor_sub(provider.in_flight as int, 1) as u32,
        reputation: if provider.reputation + 2 <= REP_MAX {
            (provider.reputation + 2) as u32
        } else {
            REP_MAX
        },
        ..provider
    }
}

/// What is reported of a settlement: the verifiers' share is out of what the
/// treasury received.
pub open spec fn settlement(a: SettleJob) -> JobSettled {
    let verifier_amt = share(a.job.data.amount, a.config.data.verifier_bps);
    JobSettled {
        job: a.job.key,
        provider: a.provider.key,
        provider_amt: provider_share(a),
        verifier_amt,
        protocol_amt: floor_sub(treasury_share(a) as int, verifier_amt as int) as u64,
    }
}

/// The accounts and the report once the vault is closed. The job record is
/// closed too; its rent goes to the requester.
pub open spec fn settle_job_end(a: SettleJob) -> Result<
    (SettleJob, Closing<JobSettled>),
    CanasError,
> {
    if a.provider.data.jobs_done == u64::MAX || a.provider.data.total_earned + provider_share(a)
        > u64::MAX || a.config.data.total_settled + a.job.data.amount > u128::MAX {
        Err(CanasError::Overflow)
    } else {
        Ok(
            (
                SettleJob {
                    config: Account {
                        data: Config {
                            total_settled: (a.config.data.total_settled
                                + a.job.data.amount) as u128,
                            ..a.config.data
                        },
                        ..a.config
                    },
                    provider: Account {
                        data: paid(a.provider.data, provider_share(a)),
                        ..a.provider
                    },
                    ..a
                },
                Closing {
                    event: settlement(a),
                    closed: Closed { account: a.job.key, rent_to: a.requester },
                },
            ),
        )
    }
}

/// Settles a delivered job: splits the escrow and closes the vault and the job.
/// The requester may settle at once, the admin once the dispute window has
/// elapsed.
pub fn settle_job(accounts: &mut SettleJob, now: i64, replies: &Vec<TokenReply>) -> (r: Result<
    Step<Closing<JobSettled>>,
    Failure,
>)
    ensures
        (r, *final(accounts)) == progress(
            *old(accounts),
            settle_job_checks(*old(accounts), now),
            settle_job_calls(*old(accounts)),
            replies@,
            settle_job_end(*old(accounts)),
        ),
{
    let job = accounts.job;
    let config = accounts.config.data;
    if job.data.status != STATUS_DELIVERED {
        return Err(Failure::Program(CanasError::BadStatus));
    }
    let is_requester = accounts.authority == job.data.requester;
    let is_admin = accounts.authority == config.admin;
    if !is_requester && !is_admin {
        return Err(Failure::Program(CanasError::Unauthorized));
    }
    if is_admin && !is_requester && !elapsed(job.data.delivered_at, config.dispute_window, now) {
        return Err(Failure::Program(CanasError::WindowNotElapsed));
    }
    let provider_amt = share_of(job.data.amount, config.provider_bps);
    let verifier_amt = share_of(job.data.amount, config.verifier_bps);
    let vault_balance = accounts.vault.data.amount;
    if vault_balance < provider_amt {
        return Err(Failure::Program(CanasError::Overflow));
    }
    let rest = vault_balance - provider_amt;
    let protocol_amt = rest.saturating_sub(verifier_amt);

    let mut calls: Vec<TokenCall> = Vec::new();
    push_payout(&mut calls, accounts.vault.key, accounts.provider_payout.key, &job, provider_amt);
    push_payout(&mut calls, accounts.vault.key, accounts.treasury.key, &job, rest);
    calls.push(
        TokenCall::CloseAccount {
            account: accounts.vault.key,
            destination: accounts.requester,
            authority: job.key,
            signer: Some(job.data.to_signer()),
        },
    );
    assert(calls@ =~= settle_job_calls(*accounts));
    if let Some(call) = next_call(&calls, replies)? {
        return Ok(Step::Call(call));
    }
    let provider = accounts.provider.data;
    match (
        provider.jobs_done.checked_add(1),
        provider.total_earned.checked_add(provider_amt),
        config.total_settled.checked_add(job.data.amount as u128),
    ) {
        (Some(jobs_done), Some(total_earned), Some(total_settled)) => {
            accounts.provider.data.jobs_done = jobs_done;
            accounts.provider.data.total_earned = total_earned;
            accounts.provider.data.in_flight = provider.in_flight.saturating_sub(1);
            let raised = provider.reputation.saturating_add(2);
            accounts.provider.data.reputation = if raised <= REP_MAX {
                raised
            } else {
                REP_MAX
            };
            accounts.config.data.total_settled = total_settled;
            Ok(
                Step::Done(
                    Closing {
                        event: JobSettled {
                            job: job.key,
                            provider: accounts.provider.key,
                            provider_amt,
                            verifier_amt,
                            protocol_amt,
                        },
                        closed: Closed { account: job.key, rent_to: accounts.requester },
                    },
                ),
            )
        },
        _ => Err(Failure::Program(CanasError::Overflow)),
    }
}

// ---- cancel_job ----

/// What keeps a job from being cancelled, if anything.
pub open spec fn cancel_job_checks(a: CancelJob) -> Result<(), CanasError> {
    if a.job.data.status != STATUS_OPEN {
        Err(CanasError::BadStatus)
    } else if a.authority != a.job.data.requester && a.authority != a.config.data.admin {
        Err(CanasError::Unauthorized)
    } else {
        Ok(())
    }
}

/// Everything that the vault holds goes to the requester's tokens, and the vault
/// is closed.
pub open spec fn cancel_job_calls(a: CancelJob) -> Seq<TokenCall> {
    payout(a.vault.key, a.requester_token.key, a.job, a.vault.data.amount).push(
        close_vault(a.vault.key, a.requester, a.job),
    )
}

/// The report once the vault is closed. The job record is closed too; its rent
/// goes to the requester.
pub open spec fn cancel_job_end(a: CancelJob) -> Result<
    (CancelJob, Closing<JobRefunded>),
    CanasError,
> {
    Ok(
        (
            a,
            Closing {
                event: JobRefunded { job: a.job.key, amount: a.vault.data.amount },
                closed: Closed { account: a.job.key, rent_to: a.requester },
            },
        ),
    )
}

/// Cancels a job that no provider has picked up, and refunds the whole escrow.
/// The requester or the admin may call it.
pub fn cancel_job(accounts: &CancelJob, replies: &Vec<TokenReply>) -> (r: Result<
    Step<Closing<JobRefunded>>,
    Failure,
>)
    ensures
        r == progress(
            *accounts,
            cancel_job_checks(*accounts),
            cancel_job_calls(*accounts),
            replies@,
            cancel_job_end(*accounts),
        ).0,
{
    let job = accounts.job;
    let amount = accounts.vault.data.amount;
    if job.data.status != STATUS_OPEN {
        return Err(Failure::Program(CanasError::BadStatus));
    }
    if accounts.authority != job.data.requester && accounts.authority
        != accounts.config.data.admin {
        return Err(Failure::Program(CanasError::Unauthorized));
    }
    let mut calls: Vec<TokenCall> = Vec::new();
    push_payout(&mut calls, accounts.vault.key, accounts.requester_token.key, &job, amount);
    calls.push(
        TokenCall::CloseAccount {
            account: accounts.vault.key,
            destination: accounts.requester,
            authority: job.key,
            signer: Some(job.data.to_signer()),
        },
    );
    assert(calls@ =~= cancel_job_calls(*accounts));
    if let Some(call) = next_call(&calls, replies)? {
        return Ok(Step::Call(call));
    }
    Ok(
        Step::Done(
            Closing {
                event: JobRefunded { job: job.key, amount },
                closed: Closed { account: job.key, rent_to: accounts.requester },
            },
        ),
    )
}

// ---- refund_job ----

/// What keeps a job from being refunded, if anything. The admin may refund at any
/// time; the requester only a job that was not delivered, after the window.
pub open spec fn refund_job_checks(a: RefundJob, now: i64) -> Result<(), CanasError> {
    if a.job.data.status != STATUS_ASSIGNED && a.job.data.status != STATUS_DELIVERED {
        Err(CanasError::BadStatus)
    } else if a.authority == a.config.data.admin {
        Ok(())
    } else if a.authority != a.job.data.requester || a.job.data.status != STATUS_ASSIGNED {
        Err(CanasError::Unauthorized)
    } else if now < a.job.data.assigned_at + a.config.data.dispute_window {
        Err(CanasError::WindowNotElapsed)
    } else {
        Ok(())
    }
}

/// Everything that the vault holds goes to the requester's tokens, and the vault
/// is closed.
pub open spec fn refund_job_calls(a: RefundJob) -> Seq<TokenCall> {
    payout(a.vault.key, a.requester_token.key, a.job, a.vault.data.amount).push(
        close_vault(a.vault.key, a.requester, a.job),
    )
}

/// A provider that is relieved of a job, at the cost of reputation.
pub open spec fn relieved(provider: Provider, reputation_penalty: u32) -> Provider {
    Provider {
        in_flight: floor_sub(provider.in_flight as int, 1) as u32,
        reputation: floor_sub(provider.reputation as int, reputation_penalty as int) as u32,
        ..provider
    }
}

/// The accounts and the report once the vault is closed. The job record is
/// closed too; its rent goes to the requester.
pub open spec fn refund_job_end(a: RefundJob, reputation_penalty: u32) -> Result<
    (RefundJob, Closing<JobRefunded>),
    CanasError,
> {
    Ok(
        (
            RefundJob {
                provider: Account {
                    data: relieved(a.provider.data, reputation_penalty),
                    ..a.provider
                },
                ..a
            },
            Closing {
                event: JobRefunded { job: a.job.key, amount: a.vault.data.amount },
                closed: Closed { account: a.job.key, rent_to: a.requester },
            },
        ),
    )
}

/// Refunds a job that failed or is in dispute, and closes it.
pub fn refund_job(
    accounts: &mut RefundJob,
    reputation_penalty: u32,
    now: i64,
    replies: &Vec<TokenReply>,
) -> (r: Result<Step<Closing<JobRefunded>>, Failure>)
    ensures
        (r, *final(accounts)) == progress(
            *old(accounts),
            refund_job_checks(*old(accounts), now),
            refund_job_calls(*old(accounts)),
            replies@,
            refund_job_end(*old(accounts), reputation_penalty),
        ),
{
    let job = accounts.job;
    let config = accounts.config.data;
    let amount = accounts.vault.data.amount;
    if job.data.status != STATUS_ASSIGNED && job.data.status != STATUS_DELIVERED {
        return Err(Failure::Program(CanasError::BadStatus));
    }
    let is_admin = accounts.authority == config.admin;
    let is_requester = accounts.authority == job.data.requester;
    if !is_admin && !is_requester {
        return Err(Failure::Program(CanasError::Unauthorized));
    }
    if !is_admin {
        if job.data.status != STATUS_ASSIGNED {
            return Err(Failure::Program(CanasError::Unauthorized));
        }
        if !elapsed(job.data.assigned_at, config.dispute_window, now) {
            return Err(Failure::Program(CanasError::WindowNotElapsed));
        }
    }
    let mut calls: Vec<TokenCall> = Vec::new();
    push_payout(&mut calls, accounts.vault.key, accounts.requester_token.key, &job, amount);
    calls.push(
        TokenCall::CloseAccount {
            account: accounts.vault.key,
            destination: accounts.requester,
            authority: job.key,
            signer: Some(job.data.to_signer()),
        },
    );
    assert(calls@ =~= refund_job_calls(*accounts));
    if let Some(call) = next_call(&calls, replies)? {
        return Ok(Step::Call(call));
    }
    let provider = accounts.provider.data;
    accounts.provider.data.in_flight = provider.in_flight.saturating_sub(1);
    accounts.provider.data.reputation = provider.reputation.saturating_sub(reputation_penalty);
    Ok(
        Step::Done(
            Closing {
                event: JobRefunded { job: job.key, amount },
                closed: Closed { account: job.key, rent_to: accounts.requester },
            },
        ),
    )
}

} // verus!
