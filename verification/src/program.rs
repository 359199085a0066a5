//! The program's instructions as they are called from outside: the rules about the
//! accounts are tested before the instruction begins, and where one is broken the
//! instruction fails with it and changes nothing.

use crate::accounts::{
    AdminOnly, AssignJob, CancelJob, CloseConfig, CloseProvider, CreateJob, DeliverJob, Initialize,
    RefundJob, RegisterProvider, SettleJob, SlashProvider, TopUpBond,
};
use crate::admin;
use crate::admin::{
    initial_config, mints_checks, params_checks, reconfigured, with_admin, with_mints, with_params,
    with_paused,
};
use crate::errors::{CanasError, Failure};
use crate::events::{
    Closed, Closing, JobAssigned, JobCreated, JobDelivered, JobRefunded, JobSettled,
    ProviderRegistered, ProviderSlashed,
};
use crate::jobs;
use crate::jobs::{
    assign_job_checks, assign_job_end, cancel_job_calls, cancel_job_checks, cancel_job_end,
    create_job_calls, create_job_checks, create_job_end, deliver_job_checks, deliver_job_end,
    refund_job_calls, refund_job_checks, refund_job_end, settle_job_calls, settle_job_checks,
    settle_job_end,
};
use crate::keys::Pubkey;
use crate::providers;
use crate::providers::{
    close_provider_calls, close_provider_checks, close_provider_end, register_provider_calls,
    register_provider_checks, register_provider_end, slash_provider_calls, slash_provider_checks,
    slash_provider_end, top_up_bond_calls, top_up_bond_checks, top_up_bond_end,
};
use crate::state::Account;
use crate::token::{progress, Step, TokenReply};
use vstd::prelude::*;

verus! {

/// What an instruction comes to that makes no calls: it begins in state `start` if the
/// rules about the accounts and then its own checks allow it, and ends as `end` says.
pub open spec fn outcome<A, E>(
    start: A,
    constraints: Result<(), Failure>,
    checks: Result<(), CanasError>,
    end: (A, E),
) -> (Result<E, Failure>, A) {
    match constraints {
        Err(failure) => (Err(failure), start),
        Ok(_) => match checks {
            Err(error) => (Err(Failure::Program(error)), start),
            Ok(_) => (Ok(end.1), end.0),
        },
    }
}

/// An error of the program as a failure.
fn as_failure<T>(r: Result<T, CanasError>) -> (f: Result<T, Failure>)
    ensures
        f == (match r {
            Ok(t) => Ok(t),
            Err(error) => Err(Failure::Program(error)),
        }),
{
    match r {
        Ok(t) => Ok(t),
        Err(error) => Err(Failure::Program(error)),
    }
}

// ---- the configuration ----

/// One-time global setup: the signer becomes admin, and the mints are left unset.
pub fn initialize(
    accounts: &mut Initialize,
    treasury: Pubkey,
    provider_bps: u16,
    verifier_bps: u16,
    protocol_bps: u16,
    dispute_window: i64,
) -> (r: Result<(), Failure>)
    ensures
        (r, *final(accounts)) == outcome(
            *old(accounts),
            old(accounts).constraints(),
            params_checks(provider_bps, verifier_bps, protocol_bps, dispute_window),
            (
                Initialize {
                    config: Account {
                        data: initial_config(
                            old(accounts).admin,
                            treasury,
                            provider_bps,
                            verifier_bps,
                            protocol_bps,
                            dispute_window,
                            old(accounts).config_bump,
                        ),
                        ..old(accounts).config
                    },
                    ..*old(accounts)
                },
                (),
            ),
        ),
{
    accounts.validate()?;
    as_failure(
        admin::initialize(
            accounts,
            treasury,
            provider_bps,
            verifier_bps,
            protocol_bps,
            dispute_window,
        ),
    )
}

/// Wires the payment mint and the bond mint; the admin alone may.
pub fn set_mints(
    accounts: &mut AdminOnly,
    usdc_mint: Pubkey,
    cnsnet_mint: Pubkey,
) -> (r: Result<(), Failure>)
    ensures
        (r, *final(accounts)) == outcome(
            *old(accounts),
            old(accounts).constraints(),
            mints_checks(old(accounts).config.data, usdc_mint, cnsnet_mint),
            (
                reconfigured(
                    *old(accounts),
                    with_mints(old(accounts).config.data, usdc_mint, cnsnet_mint),
                ),
                (),
            ),
        ),
{
    accounts.validate()?;
    as_failure(admin::set_mints(accounts, usdc_mint, cnsnet_mint))
}

/// Tunes the fee split, the dispute window and the treasury; the admin alone may.
pub fn set_params(
    accounts: &mut AdminOnly,
    provider_bps: u16,
    verifier_bps: u16,
    protocol_bps: u16,
    dispute_window: i64,
    treasury: Pubkey,
) -> (r: Result<(), Failure>)
    ensures
        (r, *final(accounts)) == outcome(
            *old(accounts),
            old(accounts).constraints(),
            params_checks(provider_bps, verifier_bps, protocol_bps, dispute_window),
            (
                reconfigured(
                    *old(accounts),
                    with_params(
                        old(accounts).config.data,
                        provider_bps,
                        verifier_bps,
                        protocol_bps,
                        dispute_window,
                        treasury,
                    ),
                ),
                (),
            ),
        ),
{
    accounts.validate()?;
    as_failure(
        admin::set_params(
            accounts,
            provider_bps,
            verifier_bps,
            protocol_bps,
            dispute_window,
            treasury,
        ),
    )
}

/// Pauses or resumes the opening of new jobs; the admin alone may.
pub fn set_paused(
    accounts: &mut AdminOnly,
    paused: bool,
) -> (r: Result<(), Failure>)
    ensures
        (r, *final(accounts)) == outcome(
            *old(accounts),
            old(accounts).constraints(),
            Ok(()),
            (
                reconfigured(
                    *old(accounts),
                    with_paused(old(accounts).config.data, paused),
                ),
                (),
            ),
        ),
{
    accounts.validate()?;
    as_failure(admin::set_paused(accounts, paused))
}

/// Hands the admin role to another key; the admin alone may.
pub fn set_admin(
    accounts: &mut AdminOnly,
    new_admin: Pubkey,
) -> (r: Result<(), Failure>)
    ensures
        (r, *final(accounts)) == outcome(
            *old(accounts),
            old(accounts).constraints(),
            Ok(()),
            (
                reconfigured(
                    *old(accounts),
                    with_admin(old(accounts).config.data, new_admin),
                ),
                (),
            ),
        ),
{
    accounts.validate()?;
    as_failure(admin::set_admin(accounts, new_admin))
}

/// Closes the configuration; the admin alone may, and receives the rent.
pub fn close_config(accounts: &CloseConfig) -> (r: Result<Closed, Failure>)
    ensures
        r == (match accounts.constraints() {
            Err(failure) => Err(failure),
            Ok(_) => Ok((Closed { account: accounts.config.key, rent_to: accounts.admin })),
        }),
{
    accounts.validate()?;
    as_failure(admin::close_config(accounts))
}

// ---- providers ----

/// Registers a provider and stakes its first bond.
pub fn register_provider(
    accounts: &mut RegisterProvider,
    bond_amount: u64,
    replies: &Vec<TokenReply>,
) -> (r: Result<Step<ProviderRegistered>, Failure>)
    ensures
        match old(accounts).constraints() {
            Err(failure) => {
                &&& r == Err::<Step<ProviderRegistered>, Failure>(failure)
                &&& *final(accounts) == *old(accounts)
            },
            Ok(_) => (r, *final(accounts)) == progress(
                *old(accounts),
                register_provider_checks(*old(accounts), bond_amount),
                register_provider_calls(*old(accounts), bond_amount),
                replies@,
                register_provider_end(*old(accounts), bond_amount),
            ),
        },
{
    accounts.validate()?;
    providers::register_provider(accounts, bond_amount, replies)
}

/// Adds to the bond.
pub fn top_up_bond(
    accounts: &mut TopUpBond,
    amount: u64,
    replies: &Vec<TokenReply>,
) -> (r: Result<Step<()>, Failure>)
    ensures
        match old(accounts).constraints() {
            Err(failure) => {
                &&& r == Err::<Step<()>, Failure>(failure)
                &&& *final(accounts) == *old(accounts)
            },
            Ok(_) => (r, *final(accounts)) == progress(
                *old(accounts),
                top_up_bond_checks(amount),
                top_up_bond_calls(*old(accounts), amount),
                replies@,
                top_up_bond_end(*old(accounts), amount),
            ),
        },
{
    accounts.validate()?;
    providers::top_up_bond(accounts, amount, replies)
}

/// Closes a provider: the remaining bond and all rent go to the authority.
pub fn close_provider(
    accounts: &CloseProvider,
    replies: &Vec<TokenReply>,
) -> (r: Result<Step<Closed>, Failure>)
    ensures
        r == (match accounts.constraints() {
            Err(failure) => Err(failure),
            Ok(_) => progress(
                *accounts,
                close_provider_checks(*accounts),
                close_provider_calls(*accounts),
                replies@,
                close_provider_end(*accounts),
            ).0,
        }),
{
    accounts.validate()?;
    providers::close_provider(accounts, replies)
}

/// Takes part of a provider's bond; the admin alone may.
pub fn slash_provider(
    accounts: &mut SlashProvider,
    amount: u64,
    reputation_penalty: u32,
    replies: &Vec<TokenReply>,
) -> (r: Result<Step<ProviderSlashed>, Failure>)
    ensures
        match old(accounts).constraints() {
            Err(failure) => {
                &&& r == Err::<Step<ProviderSlashed>, Failure>(failure)
                &&& *final(accounts) == *old(accounts)
            },
            Ok(_) => (r, *final(accounts)) == progress(
                *old(accounts),
                slash_provider_checks(*old(accounts), amount),
                slash_provider_calls(*old(accounts), amount),
                replies@,
                slash_provider_end(*old(accounts), amount, reputation_penalty),
            ),
        },
{
    accounts.validate()?;
    providers::slash_provider(accounts, amount, reputation_penalty, replies)
}

// ---- jobs ----

/// Opens a job: the requester locks `amount` in the job's vault.
pub fn create_job(
    accounts: &mut CreateJob,
    amount: u64,
    params_hash: [u8; 32],
    model_hash: [u8; 32],
    now: i64,
    replies: &Vec<TokenReply>,
) -> (r: Result<Step<JobCreated>, Failure>)
    ensures
        match old(accounts).constraints() {
            Err(failure) => {
                &&& r == Err::<Step<JobCreated>, Failure>(failure)
                &&& *final(accounts) == *old(accounts)
            },
            Ok(_) => (r, *final(accounts)) == progress(
                *old(accounts),
                create_job_checks(old(accounts).config.data, amount),
                create_job_calls(*old(accounts), amount),
                replies@,
                create_job_end(*old(accounts), amount, params_hash, model_hash, now),
            ),
        },
{
    accounts.validate()?;
    jobs::create_job(accounts, amount, params_hash, model_hash, now, replies)
}

/// Routes an open job to an active provider; the admin alone may.
pub fn assign_job(
    accounts: &mut AssignJob,
    now: i64,
) -> (r: Result<JobAssigned, Failure>)
    ensures
        (r, *final(accounts)) == outcome(
            *old(accounts),
            old(accounts).constraints(),
            assign_job_checks(old(accounts).job.data, old(accounts).provider.data),
            assign_job_end(*old(accounts), now),
        ),
{
    accounts.validate()?;
    as_failure(jobs::assign_job(accounts, now))
}

/// Attests the output of a job; the provider that it is assigned to alone may.
pub fn deliver_job(
    accounts: &mut DeliverJob,
    output_phash: [u8; 32],
    now: i64,
) -> (r: Result<JobDelivered, Failure>)
    ensures
        (r, *final(accounts)) == outcome(
            *old(accounts),
            old(accounts).constraints(),
            deliver_job_checks(old(accounts).job.data),
            deliver_job_end(*old(accounts), output_phash, now),
        ),
{
    accounts.validate()?;
    as_failure(jobs::deliver_job(accounts, output_phash, now))
}

/// Settles a delivered job: splits the escrow and closes the vault and the job.
pub fn settle_job(
    accounts: &mut SettleJob,
    now: i64,
    replies: &Vec<TokenReply>,
) -> (r: Result<Step<Closing<JobSettled>>, Failure>)
    ensures
        match old(accounts).constraints() {
            Err(failure) => {
                &&& r == Err::<Step<Closing<JobSettled>>, Failure>(failure)
                &&& *final(accounts) == *old(accounts)
            },
            Ok(_) => (r, *final(accounts)) == progress(
                *old(accounts),
                settle_job_checks(*old(accounts), now),
                settle_job_calls(*old(accounts)),
                replies@,
                settle_job_end(*old(accounts)),
            ),
        },
{
    accounts.validate()?;
    jobs::settle_job(accounts, now, replies)
}

/// Cancels a job that no provider has picked up, and refunds the whole escrow.
pub fn cancel_job(
    accounts: &CancelJob,
    replies: &Vec<TokenReply>,
) -> (r: Result<Step<Closing<JobRefunded>>, Failure>)
    ensures
        r == (match accounts.constraints() {
            Err(failure) => Err(failure),
            Ok(_) => progress(
                *accounts,
                cancel_job_checks(*accounts),
                cancel_job_calls(*accounts),
                replies@,
                cancel_job_end(*accounts),
            ).0,
        }),
{
    accounts.validate()?;
    jobs::cancel_job(accounts, replies)
}

/// Refunds a job that failed or is in dispute, and closes it.
pub fn refund_job(
    accounts: &mut RefundJob,
    reputation_penalty: u32,
    now: i64,
    replies: &Vec<TokenReply>,
) -> (r: Result<Step<Closing<JobRefunded>>, Failure>)
    ensures
        match old(accounts).constraints() {
            Err(failure) => {
                &&& r == Err::<Step<Closing<JobRefunded>>, Failure>(failure)
                &&& *final(accounts) == *old(accounts)
            },
            Ok(_) => (r, *final(accounts)) == progress(
                *old(accounts),
                refund_job_checks(*old(accounts), now),
                refund_job_calls(*old(accounts)),
                replies@,
                refund_job_end(*old(accounts), reputation_penalty),
            ),
        },
{
    accounts.validate()?;
    jobs::refund_job(accounts, reputation_penalty, now, replies)
}

} // verus!
