//! What each instruction does, told by what goes in and what comes out.
//!
//! Every law here is about a call of the instruction itself: it holds of whatever the
//! call returns and leaves behind, for all accounts, arguments and replies of the
//! token program.

use crate::accounts::{
    AdminOnly, AssignJob, CancelJob, CloseConfig, CloseProvider, CreateJob, DeliverJob, Initialize,
    RefundJob, RegisterProvider, SettleJob, SlashProvider, TopUpBond,
};
use crate::address::{PdaSigner, Seeds};
use crate::admin;
use crate::errors::{CanasError, Failure};
use crate::events::{
    Closed, Closing, JobAssigned, JobCreated, JobDelivered, JobRefunded, JobSettled,
    ProviderRegistered, ProviderSlashed,
};
use crate::jobs;
use crate::jobs::{settle_job_calls, share};
use crate::keys::Pubkey;
use crate::laws::share_is_rounded_down;
use crate::providers;
use crate::state::{Config, Job, Provider};
use crate::token::{next_call, outflow, Step, TokenCall, TokenReply};
use vstd::prelude::*;

verus! {
// ---- opening a job ----

/// No job is opened while openings are paused, before the payment mint is set, or for
/// nothing; every other opening goes on.
pub proof fn opening_is_refused(
    a: &mut CreateJob,
    amount: u64,
    params_hash: [u8; 32],
    model_hash: [u8; 32],
    now: i64,
    replies: Vec<TokenReply>,
    r: Result<Step<JobCreated>, Failure>,
)
    requires
        call_ensures(jobs::create_job, (a, amount, params_hash, model_hash, now, &replies), r),
    ensures
        ({
            let o = *old(a);
            &&& o.config.data.paused ==> (r matches Err(Failure::Program(CanasError::Paused)))
            &&& !o.config.data.paused && o.config.data.usdc_mint == Pubkey::unset()
                ==> (r matches Err(Failure::Program(CanasError::MintNotSet)))
            &&& !o.config.data.paused && o.config.data.usdc_mint != Pubkey::unset() && amount
                == 0 ==> (r matches Err(Failure::Program(CanasError::ZeroAmount)))
            &&& !o.config.data.paused && o.config.data.usdc_mint != Pubkey::unset()
                && amount > 0 && replies@.len() == 0 ==> r is Ok
        }),
{
}

/// An opening makes one call: it moves the whole amount from the requester's tokens into
/// the vault, on the requester's own signature. A refused call fails it.
pub proof fn opening_takes_the_payment_first(
    a: &mut CreateJob,
    amount: u64,
    params_hash: [u8; 32],
    model_hash: [u8; 32],
    now: i64,
    replies: Vec<TokenReply>,
    r: Result<Step<JobCreated>, Failure>,
)
    requires
        call_ensures(jobs::create_job, (a, amount, params_hash, model_hash, now, &replies), r),
    ensures
        ({
            let o = *old(a);
            let open = !o.config.data.paused && o.config.data.usdc_mint != Pubkey::unset()
                && amount > 0;
            let stopped = replies@.contains(TokenReply::Refused);
            &&& open && stopped ==> (r matches Err(Failure::TokenRefused))
            &&& open && replies@.len() == 0 ==> (r matches Ok(Step::Call(call)) && call
                == (TokenCall::Transfer {
                from: o.requester_token.key,
                to: o.vault.key,
                authority: o.requester,
                signer: None,
                amount,
            }))
            &&& replies@.len() > 0 ==> !(r matches Ok(Step::Call(_)))
            &&& open && !stopped && replies@.len() > 0 && o.config.data.job_count == u64::MAX
                ==> (r matches Err(Failure::Program(CanasError::Overflow)))
            &&& open && !stopped && replies@.len() > 0 && o.config.data.job_count < u64::MAX
                ==> (r matches Ok(Step::Done(_)))
        }),
{
}

/// The record of a job that has just been opened holds what the requester gave, byte for
/// byte: the two hashes, the amount that is paid in, the mint, the time of the call. It has
/// the number of jobs so far as its nonce, it is open, and no later step has left a trace.
pub proof fn opening_records_what_was_given(
    a: &mut CreateJob,
    amount: u64,
    params_hash: [u8; 32],
    model_hash: [u8; 32],
    now: i64,
    replies: Vec<TokenReply>,
    r: Result<Step<JobCreated>, Failure>,
)
    requires
        call_ensures(jobs::create_job, (a, amount, params_hash, model_hash, now, &replies), r),
    ensures
        ({
            let o = *old(a);
            let f = *final(a);
            &&& r matches Ok(Step::Done(e)) ==> {
                &&& f.job.key == o.job.key
                &&& f.job.data.requester == o.requester
                &&& f.job.data.mint == o.mint
                &&& f.job.data.amount == amount
                &&& f.job.data.nonce == o.config.data.job_count
                &&& forall|i: int|
                    0 <= i < 32 ==> #[trigger] f.job.data.params_hash@[i] == params_hash@[i]
                &&& forall|i: int|
                    0 <= i < 32 ==> #[trigger] f.job.data.model_hash@[i] == model_hash@[i]
                &&& f.job.data.params_hash == params_hash
                &&& f.job.data.model_hash == model_hash
                &&& f.job.data.created_at == now
                &&& f.job.data.bump == o.job_bump
                &&& f.job.data.status == 0
                &&& f.job.data.provider == Pubkey::unset()
                &&& f.job.data.assigned_at == 0
                &&& f.job.data.delivered_at == 0
                &&& forall|i: int| 0 <= i < 32 ==> #[trigger] f.job.data.output_phash@[i] == 0
                &&& e.job == o.job.key
                &&& e.requester == o.requester
                &&& e.amount == amount
                &&& e.nonce == o.config.data.job_count
            }
        }),
{
}

/// An opening raises the number of jobs by one, and changes nothing else but the record of
/// the job.
pub proof fn opening_counts_the_job(
    a: &mut CreateJob,
    amount: u64,
    params_hash: [u8; 32],
    model_hash: [u8; 32],
    now: i64,
    replies: Vec<TokenReply>,
    r: Result<Step<JobCreated>, Failure>,
)
    requires
        call_ensures(jobs::create_job, (a, amount, params_hash, model_hash, now, &replies), r),
    ensures
        ({
            let o = *old(a);
            let f = *final(a);
            &&& r matches Ok(Step::Done(_)) ==> {
                &&& f.config.data.job_count == o.config.data.job_count + 1
                &&& f.config.key == o.config.key
                &&& f.config.data == (Config {
                    job_count: f.config.data.job_count,
                    ..o.config.data
                })
                &&& f == (CreateJob { config: f.config, job: f.job, ..o })
            }
        }),
{
}

/// An opening that fails or waits for the token program leaves the accounts as they were.
pub proof fn opening_changes_nothing_before_the_end(
    a: &mut CreateJob,
    amount: u64,
    params_hash: [u8; 32],
    model_hash: [u8; 32],
    now: i64,
    replies: Vec<TokenReply>,
    r: Result<Step<JobCreated>, Failure>,
)
    requires
        call_ensures(jobs::create_job, (a, amount, params_hash, model_hash, now, &replies), r),
    ensures
        !(r matches Ok(Step::Done(_))) ==> *final(a) == *old(a),
{
}

/// Two openings that differ in a hash, in the amount or in the time never leave the same
/// record.
pub proof fn openings_tell_their_terms_apart(
    a: &mut CreateJob,
    b: &mut CreateJob,
    amount: u64,
    params_hash: [u8; 32],
    model_hash: [u8; 32],
    now: i64,
    amount2: u64,
    params_hash2: [u8; 32],
    model_hash2: [u8; 32],
    now2: i64,
    replies: Vec<TokenReply>,
    replies2: Vec<TokenReply>,
    r: Result<Step<JobCreated>, Failure>,
    r2: Result<Step<JobCreated>, Failure>,
)
    requires
        call_ensures(jobs::create_job, (a, amount, params_hash, model_hash, now, &replies), r),
        call_ensures(jobs::create_job, (b, amount2, params_hash2, model_hash2, now2, &replies2),
            r2),
        r matches Ok(Step::Done(_)),
        r2 matches Ok(Step::Done(_)),
        params_hash != params_hash2 || model_hash != model_hash2 || amount != amount2 || now
            != now2,
    ensures
        final(a).job.data != final(b).job.data,
{
}

// ---- routing a job ----

/// A job is routed if and only if it is open, the provider is active and its jobs in flight
/// can be counted on; else the first of these that fails is the error.
pub proof fn routing_needs_an_open_job_and_an_active_provider(
    a: &mut AssignJob,
    now: i64,
    r: Result<JobAssigned, CanasError>,
)
    requires
        call_ensures(jobs::assign_job, (a, now), r),
    ensures
        ({
            let o = *old(a);
            &&& o.job.data.status != 0
                ==> r == Err::<JobAssigned, CanasError>(CanasError::BadStatus)
            &&& o.job.data.status == 0 && !o.provider.data.active
                ==> r == Err::<JobAssigned, CanasError>(CanasError::ProviderInactive)
            &&& o.job.data.status == 0 && o.provider.data.active && o.provider.data.in_flight
                == u32::MAX ==> r == Err::<JobAssigned, CanasError>(CanasError::Overflow)
            &&& o.job.data.status == 0 && o.provider.data.active
                && o.provider.data.in_flight < u32::MAX ==> r is Ok
            &&& r is Err ==> *final(a) == o
        }),
{
}

/// A routed job names the provider's record and the time of the call, and the provider has
/// one more job in flight; nothing else changes.
pub proof fn routing_hands_the_job_to_the_provider(
    a: &mut AssignJob,
    now: i64,
    r: Result<JobAssigned, CanasError>,
)
    requires
        call_ensures(jobs::assign_job, (a, now), r),
    ensures
        ({
            let o = *old(a);
            let f = *final(a);
            &&& r matches Ok(e) ==> {
                &&& f.job.data.provider == o.provider.key
                &&& f.job.data.assigned_at == now
                &&& f.job.data.status == 1
                &&& f.job.key == o.job.key
                &&& f.job.data == (Job {
                    provider: f.job.data.provider,
                    assigned_at: f.job.data.assigned_at,
                    status: f.job.data.status,
                    ..o.job.data
                })
                &&& f.provider.data.in_flight == o.provider.data.in_flight + 1
                &&& f.provider.key == o.provider.key
                &&& f.provider.data == (Provider {
                    in_flight: f.provider.data.in_flight,
                    ..o.provider.data
                })
                &&& f == (AssignJob { job: f.job, provider: f.provider, ..o })
                &&& e.job == o.job.key
                &&& e.provider == o.provider.key
            }
        }),
{
}

// ---- delivering a job ----

/// An output is attested if and only if the job is assigned. The record then holds the
/// attested hash, byte for byte, and the time of the call; the reported hash is the recorded
/// one; nothing else changes.
pub proof fn delivery_records_the_attested_hash(
    a: &mut DeliverJob,
    output_phash: [u8; 32],
    now: i64,
    r: Result<JobDelivered, CanasError>,
)
    requires
        call_ensures(jobs::deliver_job, (a, output_phash, now), r),
    ensures
        ({
            let o = *old(a);
            let f = *final(a);
            &&& r is Ok <==> o.job.data.status == 1
            &&& r is Err ==> r == Err::<JobDelivered, CanasError>(CanasError::BadStatus) && f == o
            &&& r matches Ok(e) ==> {
                &&& forall|i: int|
                    0 <= i < 32 ==> #[trigger] f.job.data.output_phash@[i] == output_phash@[i]
                &&& f.job.data.output_phash == output_phash
                &&& f.job.data.delivered_at == now
                &&& f.job.data.status == 2
                &&& f.job.key == o.job.key
                &&& f.job.data == (Job {
                    output_phash: f.job.data.output_phash,
                    delivered_at: f.job.data.delivered_at,
                    status: f.job.data.status,
                    ..o.job.data
                })
                &&& f == (DeliverJob { job: f.job, ..o })
                &&& e.job == o.job.key
                &&& e.output_phash == f.job.data.output_phash
            }
        }),
{
}

/// Two deliveries of different hashes never leave the same record, and two of the same hash
/// never report different ones.
pub proof fn deliveries_tell_their_outputs_apart(
    a: &mut DeliverJob,
    b: &mut DeliverJob,
    output_phash: [u8; 32],
    output_phash2: [u8; 32],
    now: i64,
    now2: i64,
    r: Result<JobDelivered, CanasError>,
    r2: Result<JobDelivered, CanasError>,
)
    requires
        call_ensures(jobs::deliver_job, (a, output_phash, now), r),
        call_ensures(jobs::deliver_job, (b, output_phash2, now2), r2),
        r is Ok,
        r2 is Ok,
    ensures
        output_phash != output_phash2 ==> final(a).job.data != final(b).job.data,
        output_phash == output_phash2 <==> r->Ok_0.output_phash == r2->Ok_0.output_phash,
{
}

// ---- settling a job ----

/// A share is the whole number `y` with `y * 10_000 <= amount * bps < (y + 1) * 10_000`, of
/// which an amount holds the low 64 bits.
proof fn lemma_share(amount: u64, bps: u16, y: int, x: u64)
    requires
        y * 10_000 <= amount * bps < (y + 1) * 10_000,
        x == y % 0x1_0000_0000_0000_0000,
    ensures
        share(amount, bps) == x,
{
    let p = amount * bps;
    assert(0 <= p <= 0xffff_ffff_ffff_ffff * 0xffff) by (nonlinear_arith)
        requires
            p == amount * bps,
            0 <= amount <= 0xffff_ffff_ffff_ffff,
            0 <= bps <= 0xffff,
    ;
    assert(p / 10_000 == y);
    let whole = y as u128;
    assert(whole as u64 == whole % 0x1_0000_0000_0000_0000) by (bit_vector);
}

/// A job is settled only once it is delivered, by the requester at any time or by the admin
/// once the dispute window has elapsed, and only from a vault that covers the provider's part
/// `x`: the provider's basis points of the amount of the job, rounded down, in 64 bits. Every
/// other settlement goes on.
pub proof fn settlement_is_refused(
    a: &mut SettleJob,
    now: i64,
    replies: Vec<TokenReply>,
    r: Result<Step<Closing<JobSettled>>, Failure>,
    y: int,
    x: u64,
)
    requires
        call_ensures(jobs::settle_job, (a, now, &replies), r),
        y * 10_000 <= old(a).job.data.amount * old(a).config.data.provider_bps < (y + 1) * 10_000,
        x == y % 0x1_0000_0000_0000_0000,
    ensures
        ({
            let o = *old(a);
            let due = o.job.data.status == 2;
            let lapsed = now >= o.job.data.delivered_at + o.config.data.dispute_window;
            let by_requester = o.authority == o.job.data.requester;
            let by_admin = o.authority == o.config.data.admin;
            let allowed = due && (by_requester || by_admin && lapsed) && o.vault.data.amount >= x;
            &&& !due ==> (r matches Err(Failure::Program(CanasError::BadStatus)))
            &&& due && !by_requester && !by_admin
                ==> (r matches Err(Failure::Program(CanasError::Unauthorized)))
            &&& due && !by_requester && by_admin && !lapsed
                ==> (r matches Err(Failure::Program(CanasError::WindowNotElapsed)))
            &&& due && (by_requester || by_admin && lapsed) && o.vault.data.amount < x
                ==> (r matches Err(Failure::Program(CanasError::Overflow)))
            &&& allowed && replies@.len() == 0 ==> r is Ok
        }),
{
    lemma_share(old(a).job.data.amount, old(a).config.data.provider_bps, y, x);
}

/// A settlement pays the provider's part `x` to its payout account, then everything else
/// that the vault holds to the treasury, each only where there is something to pay, and then
/// closes the vault; the job signs for each, and the rent goes to the requester.
pub proof fn settlement_pays_the_provider_then_the_treasury(
    a: &mut SettleJob,
    now: i64,
    replies: Vec<TokenReply>,
    r: Result<Step<Closing<JobSettled>>, Failure>,
    y: int,
    x: u64,
)
    requires
        call_ensures(jobs::settle_job, (a, now, &replies), r),
        y * 10_000 <= old(a).job.data.amount * old(a).config.data.provider_bps < (y + 1) * 10_000,
        x == y % 0x1_0000_0000_0000_0000,
    ensures
        ({
            let o = *old(a);
            let due = o.job.data.status == 2;
            let lapsed = now >= o.job.data.delivered_at + o.config.data.dispute_window;
            let by_requester = o.authority == o.job.data.requester;
            let by_admin = o.authority == o.config.data.admin;
            let allowed = due && (by_requester || by_admin && lapsed) && o.vault.data.amount >= x;
            let rest = (o.vault.data.amount - x) as u64;
            let paid = if x > 0 { 1int } else { 0 };
            let last = paid + if rest > 0 { 1int } else { 0 };
            let stopped = replies@.contains(TokenReply::Refused);
            &&& allowed && stopped ==> (r matches Err(Failure::TokenRefused))
            &&& allowed && !stopped && x > 0 && replies@.len() == 0
                ==> (r matches Ok(Step::Call(call)) && call == (TokenCall::Transfer {
                from: o.vault.key,
                to: o.provider_payout.key,
                authority: o.job.key,
                signer: Some(
                    PdaSigner {
                        seeds: Seeds::Job {
                            requester: o.job.data.requester,
                            nonce: o.job.data.nonce,
                        },
                        bump: o.job.data.bump,
                    },
                ),
                amount: x,
            }))
            &&& allowed && !stopped && rest > 0 && replies@.len() == paid
                ==> (r matches Ok(Step::Call(call)) && call == (TokenCall::Transfer {
                from: o.vault.key,
                to: o.treasury.key,
                authority: o.job.key,
                signer: Some(
                    PdaSigner {
                        seeds: Seeds::Job {
                            requester: o.job.data.requester,
                            nonce: o.job.data.nonce,
                        },
                        bump: o.job.data.bump,
                    },
                ),
                amount: rest,
            }))
            &&& allowed && !stopped && replies@.len() == last
                ==> (r matches Ok(Step::Call(call)) && call == (TokenCall::CloseAccount {
                account: o.vault.key,
                destination: o.requester,
                authority: o.job.key,
                signer: Some(
                    PdaSigner {
                        seeds: Seeds::Job {
                            requester: o.job.data.requester,
                            nonce: o.job.data.nonce,
                        },
                        bump: o.job.data.bump,
                    },
                ),
            }))
            &&& replies@.len() > last ==> !(r matches Ok(Step::Call(_)))
        }),
{
    lemma_share(old(a).job.data.amount, old(a).config.data.provider_bps, y, x);
}

/// Once its calls are completed a settlement is done, unless a counter would overflow.
pub proof fn settlement_ends_after_its_calls(
    a: &mut SettleJob,
    now: i64,
    replies: Vec<TokenReply>,
    r: Result<Step<Closing<JobSettled>>, Failure>,
    y: int,
    x: u64,
)
    requires
        call_ensures(jobs::settle_job, (a, now, &replies), r),
        y * 10_000 <= old(a).job.data.amount * old(a).config.data.provider_bps < (y + 1) * 10_000,
        x == y % 0x1_0000_0000_0000_0000,
    ensures
        ({
            let o = *old(a);
            let due = o.job.data.status == 2;
            let lapsed = now >= o.job.data.delivered_at + o.config.data.dispute_window;
            let by_requester = o.authority == o.job.data.requester;
            let by_admin = o.authority == o.config.data.admin;
            let allowed = due && (by_requester || by_admin && lapsed) && o.vault.data.amount >= x;
            let rest = o.vault.data.amount - x;
            let last = (if x > 0 { 1int } else { 0 }) + if rest > 0 { 1int } else { 0 };
            let stopped = replies@.contains(TokenReply::Refused);
            &&& allowed && !stopped && replies@.len() > last
                ==> if o.provider.data.jobs_done == u64::MAX
                || o.provider.data.total_earned + x > u64::MAX || o.config.data.total_settled
                + o.job.data.amount > u128::MAX {
                r matches Err(Failure::Program(CanasError::Overflow))
            } else {
                r matches Ok(Step::Done(_))
            }
        }),
{
    lemma_share(old(a).job.data.amount, old(a).config.data.provider_bps, y, x);
}

/// A settlement credits the provider with its part `x`, one more job done, one less in
/// flight, and two points of reputation up to 10_000; its bond, its standing and its
/// addresses stay.
pub proof fn settlement_credits_the_provider(
    a: &mut SettleJob,
    now: i64,
    replies: Vec<TokenReply>,
    r: Result<Step<Closing<JobSettled>>, Failure>,
    y: int,
    x: u64,
)
    requires
        call_ensures(jobs::settle_job, (a, now, &replies), r),
        y * 10_000 <= old(a).job.data.amount * old(a).config.data.provider_bps < (y + 1) * 10_000,
        x == y % 0x1_0000_0000_0000_0000,
    ensures
        ({
            let o = *old(a);
            let f = *final(a);
            &&& r matches Ok(Step::Done(_)) ==> {
                &&& f.provider.data.total_earned == o.provider.data.total_earned + x
                &&& f.provider.data.jobs_done == o.provider.data.jobs_done + 1
                &&& o.provider.data.in_flight > 0 ==> f.provider.data.in_flight
                    == o.provider.data.in_flight - 1
                &&& o.provider.data.in_flight == 0 ==> f.provider.data.in_flight == 0
                &&& o.provider.data.reputation <= 9_998 ==> f.provider.data.reputation
                    == o.provider.data.reputation + 2
                &&& o.provider.data.reputation > 9_998 ==> f.provider.data.reputation == 10_000
                &&& f.provider.key == o.provider.key
                &&& f.provider.data == (Provider {
                    total_earned: f.provider.data.total_earned,
                    jobs_done: f.provider.data.jobs_done,
                    in_flight: f.provider.data.in_flight,
                    reputation: f.provider.data.reputation,
                    ..o.provider.data
                })
            }
        }),
{
    lemma_share(old(a).job.data.amount, old(a).config.data.provider_bps, y, x);
}

/// A settlement adds the amount of the job to what has been settled, and changes nothing
/// else but the record of the provider.
pub proof fn settlement_adds_to_the_volume(
    a: &mut SettleJob,
    now: i64,
    replies: Vec<TokenReply>,
    r: Result<Step<Closing<JobSettled>>, Failure>,
    y: int,
    x: u64,
)
    requires
        call_ensures(jobs::settle_job, (a, now, &replies), r),
        y * 10_000 <= old(a).job.data.amount * old(a).config.data.provider_bps < (y + 1) * 10_000,
        x == y % 0x1_0000_0000_0000_0000,
    ensures
        ({
            let o = *old(a);
            let f = *final(a);
            &&& r matches Ok(Step::Done(_)) ==> {
                &&& f.config.data.total_settled == o.config.data.total_settled + o.job.data.amount
                &&& f.config.key == o.config.key
                &&& f.config.data == (Config {
                    total_settled: f.config.data.total_settled,
                    ..o.config.data
                })
                &&& f == (SettleJob { config: f.config, provider: f.provider, ..o })
            }
        }),
{
    lemma_share(old(a).job.data.amount, old(a).config.data.provider_bps, y, x);
}

/// A settlement reports the provider's part `x`, the verifiers' part `v`, reckoned like it,
/// and as the protocol's part what is left of the vault after both, or nothing. The record of
/// the job is closed, and its rent goes to the requester.
pub proof fn settlement_reports_the_split(
    a: &mut SettleJob,
    now: i64,
    replies: Vec<TokenReply>,
    r: Result<Step<Closing<JobSettled>>, Failure>,
    y: int,
    x: u64,
    z: int,
    v: u64,
)
    requires
        call_ensures(jobs::settle_job, (a, now, &replies), r),
        y * 10_000 <= old(a).job.data.amount * old(a).config.data.provider_bps < (y + 1) * 10_000,
        x == y % 0x1_0000_0000_0000_0000,
        z * 10_000 <= old(a).job.data.amount * old(a).config.data.verifier_bps < (z + 1) * 10_000,
        v == z % 0x1_0000_0000_0000_0000,
    ensures
        ({
            let o = *old(a);
            &&& r matches Ok(Step::Done(e)) ==> {
                &&& e.event.job == o.job.key
                &&& e.event.provider == o.provider.key
                &&& e.event.provider_amt == x
                &&& e.event.verifier_amt == v
                &&& o.vault.data.amount >= x + v ==> e.event.protocol_amt + x + v
                    == o.vault.data.amount
                &&& o.vault.data.amount < x + v ==> e.event.protocol_amt == 0
                &&& e.closed.account == o.job.key
                &&& e.closed.rent_to == o.requester
            }
        }),
{
    lemma_share(old(a).job.data.amount, old(a).config.data.provider_bps, y, x);
    lemma_share(old(a).job.data.amount, old(a).config.data.verifier_bps, z, v);
}

/// A settlement that fails or waits for the token program leaves the accounts as they were.
pub proof fn settlement_changes_nothing_before_the_end(
    a: &mut SettleJob,
    now: i64,
    replies: Vec<TokenReply>,
    r: Result<Step<Closing<JobSettled>>, Failure>,
)
    requires
        call_ensures(jobs::settle_job, (a, now, &replies), r),
    ensures
        !(r matches Ok(Step::Done(_))) ==> *final(a) == *old(a),
{
}

/// What the calls of a settlement that goes through bring into the payout account is the
/// provider's basis points of the amount of the job, rounded down; the treasury receives
/// the rest of the vault, and the provider's earnings grow by what was brought in. Payout,
/// treasury and vault are three accounts.
pub proof fn settlement_splits_by_basis_points(
    a: &mut SettleJob,
    now: i64,
    replies: Vec<TokenReply>,
    r: Result<Step<Closing<JobSettled>>, Failure>,
)
    requires
        call_ensures(jobs::settle_job, (a, now, &replies), r),
        r matches Ok(Step::Done(_)),
        old(a).config.data.provider_bps <= 10_000,
        old(a).provider_payout.key != old(a).vault.key,
        old(a).treasury.key != old(a).vault.key,
        old(a).provider_payout.key != old(a).treasury.key,
    ensures
        ({
            let o = *old(a);
            let x = -outflow(settle_job_calls(o), o.provider_payout.key);
            &&& x * 10_000 <= o.job.data.amount * o.config.data.provider_bps < (x + 1) * 10_000
            &&& -outflow(settle_job_calls(o), o.treasury.key) == o.vault.data.amount - x
            &&& outflow(settle_job_calls(o), o.vault.key) == o.vault.data.amount
            &&& final(a).provider.data.total_earned == o.provider.data.total_earned + x
            &&& r matches Ok(Step::Done(e)) && e.event.provider_amt == x
        }),
{
    reveal_with_fuel(outflow, 4);
    share_is_rounded_down(old(a).job.data.amount, old(a).config.data.provider_bps);
}

/// The calls that a settlement makes, one after each completed one, are those whose flow is
/// reckoned.
pub proof fn settlement_makes_the_reckoned_calls(
    a: &mut SettleJob,
    now: i64,
    replies: Vec<TokenReply>,
    r: Result<Step<Closing<JobSettled>>, Failure>,
)
    requires
        call_ensures(jobs::settle_job, (a, now, &replies), r),
    ensures
        r matches Ok(Step::Call(call)) ==> replies@.len() < settle_job_calls(*old(a)).len() && call
            == settle_job_calls(*old(a))[replies@.len() as int],
        (r matches Ok(Step::Done(_))) ==> replies@.len() >= settle_job_calls(*old(a)).len(),
{
}

/// A part of a payment is never less for more basis points or a greater payment.
pub proof fn settlements_pay_more_for_more(
    a: &mut SettleJob,
    b: &mut SettleJob,
    now: i64,
    replies: Vec<TokenReply>,
    replies2: Vec<TokenReply>,
    r: Result<Step<Closing<JobSettled>>, Failure>,
    r2: Result<Step<Closing<JobSettled>>, Failure>,
)
    requires
        call_ensures(jobs::settle_job, (a, now, &replies), r),
        call_ensures(jobs::settle_job, (b, now, &replies2), r2),
        r matches Ok(Step::Done(_)),
        r2 matches Ok(Step::Done(_)),
        old(a).config.data.provider_bps <= old(b).config.data.provider_bps <= 10_000,
        old(a).job.data.amount <= old(b).job.data.amount,
    ensures
        r matches Ok(Step::Done(e)) && r2 matches Ok(Step::Done(e2)) && e.event.provider_amt
            <= e2.event.provider_amt <= old(b).job.data.amount,
{
    let (m, n) = (old(a).job.data.amount, old(b).job.data.amount);
    let (p, q) = (old(a).config.data.provider_bps, old(b).config.data.provider_bps);
    assert(m * p <= n * q) by (nonlinear_arith)
        requires
            0 <= m <= n,
            0 <= p <= q,
    ;
    share_is_rounded_down(m, p);
    share_is_rounded_down(n, q);
}

// ---- cancelling a job ----

/// Only an open job is cancelled, and only by its requester or the admin; every other
/// cancellation goes on.
pub proof fn cancellation_is_refused(
    a: CancelJob,
    replies: Vec<TokenReply>,
    r: Result<Step<Closing<JobRefunded>>, Failure>,
)
    requires
        call_ensures(jobs::cancel_job, (&a, &replies), r),
    ensures
        ({
            let o = a;
            let standing = o.authority == o.job.data.requester || o.authority
                == o.config.data.admin;
            let allowed = o.job.data.status == 0 && standing;
            &&& o.job.data.status != 0 ==> (r matches Err(Failure::Program(CanasError::BadStatus)))
            &&& o.job.data.status == 0 && !standing
                ==> (r matches Err(Failure::Program(CanasError::Unauthorized)))
            &&& allowed && replies@.len() == 0 ==> r is Ok
        }),
{
}

/// A cancellation pays everything that the vault holds to the requester's tokens, if it holds
/// anything, and then closes the vault; the job signs for each, and the rent goes to the
/// requester. Then it is done.
pub proof fn cancellation_returns_the_whole_vault(
    a: CancelJob,
    replies: Vec<TokenReply>,
    r: Result<Step<Closing<JobRefunded>>, Failure>,
)
    requires
        call_ensures(jobs::cancel_job, (&a, &replies), r),
    ensures
        ({
            let o = a;
            let standing = o.authority == o.job.data.requester || o.authority
                == o.config.data.admin;
            let allowed = o.job.data.status == 0 && standing;
            let paid = if o.vault.data.amount > 0 { 1int } else { 0 };
            let stopped = replies@.contains(TokenReply::Refused);
            &&& allowed && stopped ==> (r matches Err(Failure::TokenRefused))
            &&& allowed && !stopped && o.vault.data.amount > 0 && replies@.len() == 0
                ==> (r matches Ok(Step::Call(call)) && call == (TokenCall::Transfer {
                from: o.vault.key,
                to: o.requester_token.key,
                authority: o.job.key,
                signer: Some(
                    PdaSigner {
                        seeds: Seeds::Job {
                            requester: o.job.data.requester,
                            nonce: o.job.data.nonce,
                        },
                        bump: o.job.data.bump,
                    },
                ),
                amount: o.vault.data.amount,
            }))
            &&& allowed && !stopped && replies@.len() == paid
                ==> (r matches Ok(Step::Call(call)) && call == (TokenCall::CloseAccount {
                account: o.vault.key,
                destination: o.requester,
                authority: o.job.key,
                signer: Some(
                    PdaSigner {
                        seeds: Seeds::Job {
                            requester: o.job.data.requester,
                            nonce: o.job.data.nonce,
                        },
                        bump: o.job.data.bump,
                    },
                ),
            }))
            &&& allowed && !stopped && replies@.len() > paid ==> (r matches Ok(Step::Done(_)))
            &&& (r matches Ok(Step::Done(_))) ==> allowed && !stopped && replies@.len() > paid
        }),
{
}

/// A cancellation reports what the vault held and closes the record of the job; its rent goes to
/// the requester.
pub proof fn cancellation_reports_the_whole_vault(
    a: CancelJob,
    replies: Vec<TokenReply>,
    r: Result<Step<Closing<JobRefunded>>, Failure>,
)
    requires
        call_ensures(jobs::cancel_job, (&a, &replies), r),
    ensures
        ({
            let o = a;
            &&& r matches Ok(Step::Done(e)) ==> {
                &&& e.event.job == o.job.key
                &&& e.event.amount == o.vault.data.amount
                &&& e.closed.account == o.job.key
                &&& e.closed.rent_to == o.requester
            }
        }),
{
}

// ---- refunding a job ----

/// Only a job in a provider's hands is refunded: by the admin at any time, by the requester
/// only before its delivery and once the dispute window has elapsed. Every other refund goes
/// on.
pub proof fn refund_is_refused(
    a: &mut RefundJob,
    reputation_penalty: u32,
    now: i64,
    replies: Vec<TokenReply>,
    r: Result<Step<Closing<JobRefunded>>, Failure>,
)
    requires
        call_ensures(jobs::refund_job, (a, reputation_penalty, now, &replies), r),
    ensures
        ({
            let o = *old(a);
            let held = o.job.data.status == 1 || o.job.data.status == 2;
            let by_admin = o.authority == o.config.data.admin;
            let by_requester = o.authority == o.job.data.requester;
            let lapsed = now >= o.job.data.assigned_at + o.config.data.dispute_window;
            let allowed = held && (by_admin || by_requester && o.job.data.status == 1 && lapsed);
            &&& !held ==> (r matches Err(Failure::Program(CanasError::BadStatus)))
            &&& held && !by_admin && (!by_requester || o.job.data.status != 1)
                ==> (r matches Err(Failure::Program(CanasError::Unauthorized)))
            &&& held && !by_admin && by_requester && o.job.data.status == 1 && !lapsed
                ==> (r matches Err(Failure::Program(CanasError::WindowNotElapsed)))
            &&& allowed && replies@.len() == 0 ==> r is Ok
        }),
{
}

/// A refund pays everything that the vault holds to the requester's tokens, if it holds
/// anything, and then closes the vault; the job signs for each, and the rent goes to the
/// requester. Then it is done.
pub proof fn refund_returns_the_whole_vault(
    a: &mut RefundJob,
    reputation_penalty: u32,
    now: i64,
    replies: Vec<TokenReply>,
    r: Result<Step<Closing<JobRefunded>>, Failure>,
)
    requires
        call_ensures(jobs::refund_job, (a, reputation_penalty, now, &replies), r),
    ensures
        ({
            let o = *old(a);
            let held = o.job.data.status == 1 || o.job.data.status == 2;
            let by_admin = o.authority == o.config.data.admin;
            let by_requester = o.authority == o.job.data.requester;
            let lapsed = now >= o.job.data.assigned_at + o.config.data.dispute_window;
            let allowed = held && (by_admin || by_requester && o.job.data.status == 1 && lapsed);
            let paid = if o.vault.data.amount > 0 { 1int } else { 0 };
            let stopped = replies@.contains(TokenReply::Refused);
            &&& allowed && stopped ==> (r matches Err(Failure::TokenRefused))
            &&& allowed && !stopped && o.vault.data.amount > 0 && replies@.len() == 0
                ==> (r matches Ok(Step::Call(call)) && call == (TokenCall::Transfer {
                from: o.vault.key,
                to: o.requester_token.key,
                authority: o.job.key,
                signer: Some(
                    PdaSigner {
                        seeds: Seeds::Job {
                            requester: o.job.data.requester,
                            nonce: o.job.data.nonce,
                        },
                        bump: o.job.data.bump,
                    },
                ),
                amount: o.vault.data.amount,
            }))
            &&& allowed && !stopped && replies@.len() == paid
                ==> (r matches Ok(Step::Call(call)) && call == (TokenCall::CloseAccount {
                account: o.vault.key,
                destination: o.requester,
                authority: o.job.key,
                signer: Some(
                    PdaSigner {
                        seeds: Seeds::Job {
                            requester: o.job.data.requester,
                            nonce: o.job.data.nonce,
                        },
                        bump: o.job.data.bump,
                    },
                ),
            }))
            &&& allowed && !stopped && replies@.len() > paid ==> (r matches Ok(Step::Done(_)))
            &&& (r matches Ok(Step::Done(_))) ==> allowed && !stopped && replies@.len() > paid
        }),
{
}

/// A refund reports what the vault held and closes the record of the job; its rent goes to
/// the requester.
pub proof fn refund_reports_the_whole_vault(
    a: &mut RefundJob,
    reputation_penalty: u32,
    now: i64,
    replies: Vec<TokenReply>,
    r: Result<Step<Closing<JobRefunded>>, Failure>,
)
    requires
        call_ensures(jobs::refund_job, (a, reputation_penalty, now, &replies), r),
    ensures
        ({
            let o = *old(a);
            &&& r matches Ok(Step::Done(e)) ==> {
                &&& e.event.job == o.job.key
                &&& e.event.amount == o.vault.data.amount
                &&& e.closed.account == o.job.key
                &&& e.closed.rent_to == o.requester
            }
        }),
{
}

/// A refund leaves the provider's reputation at what it was less the penalty, and at zero
/// where the penalty is the greater: it never rises, and without a penalty it stays. The
/// provider has one job less in flight; nothing else changes.
pub proof fn refund_lowers_the_reputation(
    a: &mut RefundJob,
    reputation_penalty: u32,
    now: i64,
    replies: Vec<TokenReply>,
    r: Result<Step<Closing<JobRefunded>>, Failure>,
)
    requires
        call_ensures(jobs::refund_job, (a, reputation_penalty, now, &replies), r),
    ensures
        ({
            let o = *old(a);
            let f = *final(a);
            &&& r matches Ok(Step::Done(_)) ==> {
                &&& reputation_penalty <= o.provider.data.reputation ==> f.provider.data.reputation
                    + reputation_penalty == o.provider.data.reputation
                &&& reputation_penalty > o.provider.data.reputation ==> f.provider.data.reputation
                    == 0
                &&& f.provider.data.reputation <= o.provider.data.reputation
                &&& reputation_penalty == 0 ==> f.provider.data.reputation
                    == o.provider.data.reputation
                &&& o.provider.data.in_flight > 0 ==> f.provider.data.in_flight
                    == o.provider.data.in_flight - 1
                &&& o.provider.data.in_flight == 0 ==> f.provider.data.in_flight == 0
                &&& f.provider.key == o.provider.key
                &&& f.provider.data == (Provider {
                    reputation: f.provider.data.reputation,
                    in_flight: f.provider.data.in_flight,
                    ..o.provider.data
                })
                &&& f == (RefundJob { provider: f.provider, ..o })
            }
        }),
{
}

/// A refund that fails or waits for the token program leaves the accounts as they were.
pub proof fn refund_changes_nothing_before_the_end(
    a: &mut RefundJob,
    reputation_penalty: u32,
    now: i64,
    replies: Vec<TokenReply>,
    r: Result<Step<Closing<JobRefunded>>, Failure>,
)
    requires
        call_ensures(jobs::refund_job, (a, reputation_penalty, now, &replies), r),
    ensures
        !(r matches Ok(Step::Done(_))) ==> *final(a) == *old(a),
{
}

// ---- registering a provider ----

/// No provider registers before the bond mint is set, without a bond, or with a payout
/// account of another mint than payments; every other registration goes on.
pub proof fn registration_is_refused(
    a: &mut RegisterProvider,
    bond_amount: u64,
    replies: Vec<TokenReply>,
    r: Result<Step<ProviderRegistered>, Failure>,
)
    requires
        call_ensures(providers::register_provider, (a, bond_amount, &replies), r),
    ensures
        ({
            let o = *old(a);
            let open = o.config.data.cnsnet_mint != Pubkey::unset() && bond_amount > 0
                && o.payout.data.mint == o.config.data.usdc_mint;
            &&& o.config.data.cnsnet_mint == Pubkey::unset()
                ==> (r matches Err(Failure::Program(CanasError::MintNotSet)))
            &&& o.config.data.cnsnet_mint != Pubkey::unset() && bond_amount == 0
                ==> (r matches Err(Failure::Program(CanasError::ZeroAmount)))
            &&& o.config.data.cnsnet_mint != Pubkey::unset() && bond_amount > 0
                && o.payout.data.mint != o.config.data.usdc_mint
                ==> (r matches Err(Failure::Program(CanasError::WrongMint)))
            &&& open && replies@.len() == 0 ==> r is Ok
        }),
{
}

/// A registration makes one call: it moves the whole bond from the authority's tokens into
/// the bond vault, on the authority's own signature. Then it is done.
pub proof fn registration_stakes_the_bond(
    a: &mut RegisterProvider,
    bond_amount: u64,
    replies: Vec<TokenReply>,
    r: Result<Step<ProviderRegistered>, Failure>,
)
    requires
        call_ensures(providers::register_provider, (a, bond_amount, &replies), r),
    ensures
        ({
            let o = *old(a);
            let open = o.config.data.cnsnet_mint != Pubkey::unset() && bond_amount > 0
                && o.payout.data.mint == o.config.data.usdc_mint;
            let stopped = replies@.contains(TokenReply::Refused);
            &&& open && stopped ==> (r matches Err(Failure::TokenRefused))
            &&& open && replies@.len() == 0 ==> (r matches Ok(Step::Call(call)) && call
                == (TokenCall::Transfer {
                from: o.provider_token.key,
                to: o.bond_vault.key,
                authority: o.authority,
                signer: None,
                amount: bond_amount,
            }))
            &&& replies@.len() > 0 ==> !(r matches Ok(Step::Call(_)))
            &&& open && !stopped && replies@.len() > 0 ==> (r matches Ok(Step::Done(_)))
        }),
{
}

/// The record of a new provider names the authority and the payout account, holds the bond
/// that was staked, starts with a reputation of 9_000 and no history, and is active; nothing
/// else changes.
pub proof fn registration_records_the_provider(
    a: &mut RegisterProvider,
    bond_amount: u64,
    replies: Vec<TokenReply>,
    r: Result<Step<ProviderRegistered>, Failure>,
)
    requires
        call_ensures(providers::register_provider, (a, bond_amount, &replies), r),
    ensures
        ({
            let o = *old(a);
            let f = *final(a);
            &&& r matches Ok(Step::Done(e)) ==> {
                &&& f.provider.key == o.provider.key
                &&& f.provider.data.authority == o.authority
                &&& f.provider.data.payout == o.payout.key
                &&& f.provider.data.bond == bond_amount
                &&& f.provider.data.reputation == 9_000
                &&& f.provider.data.jobs_done == 0
                &&& f.provider.data.total_earned == 0
                &&& f.provider.data.in_flight == 0
                &&& f.provider.data.active
                &&& f.provider.data.bump == o.provider_bump
                &&& f == (RegisterProvider { provider: f.provider, ..o })
                &&& e.provider == o.provider.key
                &&& e.authority == o.authority
                &&& e.bond == bond_amount
            }
        }),
{
}

/// A registration that fails or waits for the token program leaves the accounts as they
/// were.
pub proof fn registration_changes_nothing_before_the_end(
    a: &mut RegisterProvider,
    bond_amount: u64,
    replies: Vec<TokenReply>,
    r: Result<Step<ProviderRegistered>, Failure>,
)
    requires
        call_ensures(providers::register_provider, (a, bond_amount, &replies), r),
    ensures
        !(r matches Ok(Step::Done(_))) ==> *final(a) == *old(a),
{
}

// ---- topping a bond up ----

/// Topping up takes something: it moves the whole addition from the authority's tokens into
/// the bond vault, on the authority's own signature. Then it is done, unless the bond would
/// overflow.
pub proof fn top_up_moves_the_addition(
    a: &mut TopUpBond,
    amount: u64,
    replies: Vec<TokenReply>,
    r: Result<Step<()>, Failure>,
)
    requires
        call_ensures(providers::top_up_bond, (a, amount, &replies), r),
    ensures
        ({
            let o = *old(a);
            let stopped = replies@.contains(TokenReply::Refused);
            &&& amount == 0 ==> (r matches Err(Failure::Program(CanasError::ZeroAmount)))
            &&& amount > 0 && stopped ==> (r matches Err(Failure::TokenRefused))
            &&& amount > 0 && replies@.len() == 0 ==> (r matches Ok(Step::Call(call)) && call
                == (TokenCall::Transfer {
                from: o.provider_token.key,
                to: o.bond_vault.key,
                authority: o.authority,
                signer: None,
                amount: amount,
            }))
            &&& replies@.len() > 0 ==> !(r matches Ok(Step::Call(_)))
            &&& amount > 0 && !stopped && replies@.len() > 0
                && o.provider.data.bond + amount > u64::MAX
                ==> (r matches Err(Failure::Program(CanasError::Overflow)))
            &&& amount > 0 && !stopped && replies@.len() > 0
                && o.provider.data.bond + amount <= u64::MAX ==> (r matches Ok(Step::Done(_)))
        }),
{
}

/// Topping up adds exactly the addition to the bond, and changes nothing else.
pub proof fn top_up_adds_to_the_bond(
    a: &mut TopUpBond,
    amount: u64,
    replies: Vec<TokenReply>,
    r: Result<Step<()>, Failure>,
)
    requires
        call_ensures(providers::top_up_bond, (a, amount, &replies), r),
    ensures
        ({
            let o = *old(a);
            let f = *final(a);
            &&& r matches Ok(Step::Done(_)) ==> {
                &&& f.provider.data.bond == o.provider.data.bond + amount
                &&& f.provider.key == o.provider.key
                &&& f.provider.data == (Provider {
                    bond: f.provider.data.bond,
                    ..o.provider.data
                })
                &&& f == (TopUpBond { provider: f.provider, ..o })
            }
        }),
{
}

/// Topping up that fails or waits for the token program leaves the accounts as they were.
pub proof fn top_up_changes_nothing_before_the_end(
    a: &mut TopUpBond,
    amount: u64,
    replies: Vec<TokenReply>,
    r: Result<Step<()>, Failure>,
)
    requires
        call_ensures(providers::top_up_bond, (a, amount, &replies), r),
    ensures
        !(r matches Ok(Step::Done(_))) ==> *final(a) == *old(a),
{
}

// ---- closing a provider ----

/// A provider closes if and only if it has no job in flight. Everything that its bond vault
/// holds goes to the authority's tokens, if it holds anything, then the vault is closed, and
/// then the record; the record signs for the calls, and all rent goes to the authority.
pub proof fn closing_provider_returns_the_vault(
    a: CloseProvider,
    replies: Vec<TokenReply>,
    r: Result<Step<Closed>, Failure>,
)
    requires
        call_ensures(providers::close_provider, (&a, &replies), r),
    ensures
        ({
            let o = a;
            let idle = o.provider.data.in_flight == 0;
            let paid = if o.bond_vault.data.amount > 0 { 1int } else { 0 };
            let stopped = replies@.contains(TokenReply::Refused);
            &&& o.provider.data.in_flight != 0
                ==> (r matches Err(Failure::Program(CanasError::JobsInFlight)))
            &&& idle && stopped ==> (r matches Err(Failure::TokenRefused))
            &&& idle && !stopped && o.bond_vault.data.amount > 0 && replies@.len() == 0
                ==> (r matches Ok(Step::Call(call)) && call == (TokenCall::Transfer {
                from: o.bond_vault.key,
                to: o.provider_token.key,
                authority: o.provider.key,
                signer: Some(
                    PdaSigner {
                        seeds: Seeds::Provider { authority: o.provider.data.authority },
                        bump: o.provider.data.bump,
                    },
                ),
                amount: o.bond_vault.data.amount,
            }))
            &&& idle && !stopped && replies@.len() == paid
                ==> (r matches Ok(Step::Call(call)) && call == (TokenCall::CloseAccount {
                account: o.bond_vault.key,
                destination: o.authority,
                authority: o.provider.key,
                signer: Some(
                    PdaSigner {
                        seeds: Seeds::Provider { authority: o.provider.data.authority },
                        bump: o.provider.data.bump,
                    },
                ),
            }))
            &&& idle && !stopped && replies@.len() > paid
                ==> (r matches Ok(Step::Done(closed)) && closed.account
                == o.provider.key && closed.rent_to == o.authority)
        }),
{
}

// ---- slashing a provider ----

/// A slash takes something, and no more than the vault holds: it moves exactly the amount
/// from the bond vault to the slash destination; the provider's record signs for it. Then it
/// is done.
pub proof fn slash_moves_the_amount(
    a: &mut SlashProvider,
    amount: u64,
    reputation_penalty: u32,
    replies: Vec<TokenReply>,
    r: Result<Step<ProviderSlashed>, Failure>,
)
    requires
        call_ensures(providers::slash_provider, (a, amount, reputation_penalty, &replies), r),
    ensures
        ({
            let o = *old(a);
            let open = 0 < amount <= o.bond_vault.data.amount;
            let stopped = replies@.contains(TokenReply::Refused);
            &&& amount == 0 ==> (r matches Err(Failure::Program(CanasError::ZeroAmount)))
            &&& amount > o.bond_vault.data.amount
                ==> (r matches Err(Failure::Program(CanasError::InsufficientBond)))
            &&& open && stopped ==> (r matches Err(Failure::TokenRefused))
            &&& open && replies@.len() == 0
                ==> (r matches Ok(Step::Call(call)) && call == (TokenCall::Transfer {
                from: o.bond_vault.key,
                to: o.slash_destination.key,
                authority: o.provider.key,
                signer: Some(
                    PdaSigner {
                        seeds: Seeds::Provider { authority: o.provider.data.authority },
                        bump: o.provider.data.bump,
                    },
                ),
                amount,
            }))
            &&& replies@.len() > 0 ==> !(r matches Ok(Step::Call(_)))
            &&& open && !stopped && replies@.len() > 0 ==> (r matches Ok(Step::Done(_)))
        }),
{
}

/// A slash lowers the bond by the amount and the reputation by the penalty, each to zero at
/// the least, and changes nothing else of the provider but its standing.
pub proof fn slash_lowers_bond_and_reputation(
    a: &mut SlashProvider,
    amount: u64,
    reputation_penalty: u32,
    replies: Vec<TokenReply>,
    r: Result<Step<ProviderSlashed>, Failure>,
)
    requires
        call_ensures(providers::slash_provider, (a, amount, reputation_penalty, &replies), r),
    ensures
        ({
            let o = *old(a);
            let f = *final(a);
            &&& r matches Ok(Step::Done(e)) ==> {
                &&& amount <= o.provider.data.bond ==> f.provider.data.bond + amount
                    == o.provider.data.bond
                &&& amount > o.provider.data.bond ==> f.provider.data.bond == 0
                &&& reputation_penalty <= o.provider.data.reputation ==> f.provider.data.reputation
                    + reputation_penalty == o.provider.data.reputation
                &&& reputation_penalty > o.provider.data.reputation ==> f.provider.data.reputation
                    == 0
                &&& f.provider.key == o.provider.key
                &&& f.provider.data == (Provider {
                    bond: f.provider.data.bond,
                    reputation: f.provider.data.reputation,
                    active: f.provider.data.active,
                    ..o.provider.data
                })
                &&& f == (SlashProvider { provider: f.provider, ..o })
                &&& e.provider == o.provider.key
                &&& e.amount == amount
                &&& e.new_bond == f.provider.data.bond
            }
        }),
{
}

/// A slash of less than the bond leaves an active provider active, whatever the penalty; one
/// of the whole bond or more leaves it inactive; and none makes an inactive one active.
pub proof fn slash_deactivates_only_without_bond(
    a: &mut SlashProvider,
    amount: u64,
    reputation_penalty: u32,
    replies: Vec<TokenReply>,
    r: Result<Step<ProviderSlashed>, Failure>,
)
    requires
        call_ensures(providers::slash_provider, (a, amount, reputation_penalty, &replies), r),
    ensures
        ({
            let o = *old(a);
            let f = *final(a);
            &&& r matches Ok(Step::Done(_)) ==> {
                &&& amount < o.provider.data.bond ==> f.provider.data.active
                    == o.provider.data.active
                &&& amount >= o.provider.data.bond ==> !f.provider.data.active
                &&& f.provider.data.active ==> o.provider.data.active
            }
        }),
{
}

/// A slash that fails or waits for the token program leaves the accounts as they were.
pub proof fn slash_changes_nothing_before_the_end(
    a: &mut SlashProvider,
    amount: u64,
    reputation_penalty: u32,
    replies: Vec<TokenReply>,
    r: Result<Step<ProviderSlashed>, Failure>,
)
    requires
        call_ensures(providers::slash_provider, (a, amount, reputation_penalty, &replies), r),
    ensures
        !(r matches Ok(Step::Done(_))) ==> *final(a) == *old(a),
{
}

/// After a slash of less than its bond an active provider still gets an open job, if its jobs
/// in flight can be counted on.
pub proof fn provider_with_bond_left_gets_further_jobs(
    a: &mut SlashProvider,
    amount: u64,
    reputation_penalty: u32,
    replies: Vec<TokenReply>,
    r: Result<Step<ProviderSlashed>, Failure>,
    b: &mut AssignJob,
    now: i64,
    r2: Result<JobAssigned, CanasError>,
)
    requires
        call_ensures(providers::slash_provider, (a, amount, reputation_penalty, &replies), r),
        r matches Ok(Step::Done(_)),
        amount < old(a).provider.data.bond,
        old(a).provider.data.active,
        old(a).provider.data.in_flight < u32::MAX,
        call_ensures(jobs::assign_job, (b, now), r2),
        old(b).provider == final(a).provider,
        old(b).job.data.status == 0,
    ensures
        r2 is Ok,
{
}

// ---- the configuration ----

/// A configuration is set up if and only if the three parts make a whole and the window is no
/// negative time. It holds what was given; the signer is its admin, no mint is set, nothing
/// has been counted, and openings are not paused.
pub proof fn setup_writes_the_configuration(
    a: &mut Initialize,
    treasury: Pubkey,
    provider_bps: u16,
    verifier_bps: u16,
    protocol_bps: u16,
    dispute_window: i64,
    r: Result<(), CanasError>,
)
    requires
        call_ensures(admin::initialize, (a, treasury, provider_bps, verifier_bps, protocol_bps,
            dispute_window), r),
    ensures
        ({
            let o = *old(a);
            let f = *final(a);
            &&& r is Ok
                <==> provider_bps + verifier_bps + protocol_bps == 10_000 && dispute_window >= 0
            &&& provider_bps + verifier_bps + protocol_bps != 10_000
                ==> r == Err::<(), CanasError>(CanasError::BadSplit)
            &&& provider_bps + verifier_bps + protocol_bps == 10_000 && dispute_window < 0
                ==> r == Err::<(), CanasError>(CanasError::BadWindow)
            &&& r is Err ==> f == o
            &&& r is Ok ==> {
                &&& f.config.key == o.config.key
                &&& f.config.data.admin == o.admin
                &&& f.config.data.treasury == treasury
                &&& f.config.data.usdc_mint == Pubkey::unset()
                &&& f.config.data.cnsnet_mint == Pubkey::unset()
                &&& f.config.data.provider_bps == provider_bps
                &&& f.config.data.verifier_bps == verifier_bps
                &&& f.config.data.protocol_bps == protocol_bps
                &&& f.config.data.dispute_window == dispute_window
                &&& f.config.data.job_count == 0
                &&& f.config.data.total_settled == 0
                &&& !f.config.data.paused
                &&& f.config.data.bump == o.config_bump
                &&& f == (Initialize { config: f.config, ..o })
            }
        }),
{
}

/// Both mints are set, each if and only if it was not set before or is given again as it is;
/// nothing else changes.
pub proof fn mints_are_wired_once(
    a: &mut AdminOnly,
    usdc_mint: Pubkey,
    cnsnet_mint: Pubkey,
    r: Result<(), CanasError>,
)
    requires
        call_ensures(admin::set_mints, (a, usdc_mint, cnsnet_mint), r),
    ensures
        ({
            let o = *old(a);
            let f = *final(a);
            &&& r is Ok <==> (o.config.data.usdc_mint == Pubkey::unset() || o.config.data.usdc_mint
                == usdc_mint) && (o.config.data.cnsnet_mint == Pubkey::unset()
                || o.config.data.cnsnet_mint == cnsnet_mint)
            &&& r is Err ==> r == Err::<(), CanasError>(CanasError::MintLocked) && f == o
            &&& r is Ok ==> {
                &&& f.config.data.usdc_mint == usdc_mint
                &&& f.config.data.cnsnet_mint == cnsnet_mint
                &&& f.config.key == o.config.key
                &&& f.config.data == (Config {
                    usdc_mint: f.config.data.usdc_mint,
                    cnsnet_mint: f.config.data.cnsnet_mint,
                    ..o.config.data
                })
                &&& f == (AdminOnly { config: f.config, ..o })
            }
        }),
{
}

/// The split, the window and the treasury are replaced if and only if the three parts make a
/// whole and the window is no negative time; nothing else changes.
pub proof fn tuning_replaces_the_parameters(
    a: &mut AdminOnly,
    provider_bps: u16,
    verifier_bps: u16,
    protocol_bps: u16,
    dispute_window: i64,
    treasury: Pubkey,
    r: Result<(), CanasError>,
)
    requires
        call_ensures(admin::set_params, (a, provider_bps, verifier_bps, protocol_bps,
            dispute_window, treasury), r),
    ensures
        ({
            let o = *old(a);
            let f = *final(a);
            &&& r is Ok
                <==> provider_bps + verifier_bps + protocol_bps == 10_000 && dispute_window >= 0
            &&& provider_bps + verifier_bps + protocol_bps != 10_000
                ==> r == Err::<(), CanasError>(CanasError::BadSplit)
            &&& provider_bps + verifier_bps + protocol_bps == 10_000 && dispute_window < 0
                ==> r == Err::<(), CanasError>(CanasError::BadWindow)
            &&& r is Err ==> f == o
            &&& r is Ok ==> {
                &&& f.config.data.provider_bps == provider_bps
                &&& f.config.data.verifier_bps == verifier_bps
                &&& f.config.data.protocol_bps == protocol_bps
                &&& f.config.data.dispute_window == dispute_window
                &&& f.config.data.treasury == treasury
                &&& f.config.key == o.config.key
                &&& f.config.data == (Config {
                    provider_bps: f.config.data.provider_bps,
                    verifier_bps: f.config.data.verifier_bps,
                    protocol_bps: f.config.data.protocol_bps,
                    dispute_window: f.config.data.dispute_window,
                    treasury: f.config.data.treasury,
                    ..o.config.data
                })
                &&& f == (AdminOnly { config: f.config, ..o })
            }
        }),
{
}

/// Openings are paused or resumed as told, and nothing else changes.
pub proof fn pausing_does_as_told(
    a: &mut AdminOnly,
    paused: bool,
    r: Result<(), CanasError>,
)
    requires
        call_ensures(admin::set_paused, (a, paused), r),
    ensures
        ({
            let o = *old(a);
            let f = *final(a);
            &&& r is Ok
            &&& f.config.data.paused == paused
            &&& f.config.key == o.config.key

            &&& f.config.data == (Config {
                    paused: f.config.data.paused,
                    ..o.config.data
                })

            &&& f == (AdminOnly { config: f.config, ..o })
        }),
{
}

/// The admin role goes to the given key, and nothing else changes.
pub proof fn handing_over_does_as_told(
    a: &mut AdminOnly,
    new_admin: Pubkey,
    r: Result<(), CanasError>,
)
    requires
        call_ensures(admin::set_admin, (a, new_admin), r),
    ensures
        ({
            let o = *old(a);
            let f = *final(a);
            &&& r is Ok
            &&& f.config.data.admin == new_admin
            &&& f.config.key == o.config.key

            &&& f.config.data == (Config {
                    admin: f.config.data.admin,
                    ..o.config.data
                })

            &&& f == (AdminOnly { config: f.config, ..o })
        }),
{
}

/// Closing the configuration closes its account, and its rent goes to the admin.
pub proof fn closing_names_the_configuration(
    a: CloseConfig,
    r: Result<Closed, CanasError>,
)
    requires
        call_ensures(admin::close_config, (&a,), r),
    ensures
        r matches Ok(closed) && closed.account == a.config.key && closed.rent_to == a.admin,
{
}

// ---- calls and replies ----

/// The call after some completed ones is the one at that place, and there is none after the
/// last; one refusal ends it.
pub proof fn calls_follow_the_replies(
    calls: Vec<TokenCall>,
    replies: Vec<TokenReply>,
    r: Result<Option<TokenCall>, Failure>,
)
    requires
        call_ensures(next_call, (&calls, &replies), r),
    ensures
        (exists|i: int| 0 <= i < replies@.len() && replies@[i] == TokenReply::Refused)
            <==> r is Err,
        r is Err ==> (r matches Err(Failure::TokenRefused)),
        r is Ok ==> (r->Ok_0 is Some <==> replies@.len() < calls@.len()),
        r matches Ok(Some(call)) ==> call == calls@[replies@.len() as int],
{
}

/// A transfer takes its amount out of the account that it comes from and brings it into the
/// account that it goes to; no other account and no closing counts.
pub proof fn flow_is_the_sum_of_transfers(
    calls: Seq<TokenCall>,
    from: Pubkey,
    to: Pubkey,
    authority: Pubkey,
    signer: Option<PdaSigner>,
    amount: u64,
    key: Pubkey,
)
    ensures
        outflow(seq![], key) == 0,
        ({
            let more = outflow(
                calls.push(TokenCall::Transfer { from, to, authority, signer, amount }),
                key,
            ) - outflow(calls, key);
            &&& from == key && to != key ==> more == amount
            &&& from != key && to == key ==> more == -amount
            &&& from == key && to == key ==> more == 0
            &&& from != key && to != key ==> more == 0
        }),
        outflow(
            calls.push(
                TokenCall::CloseAccount { account: from, destination: to, authority, signer },
            ),
            key,
        ) == outflow(calls, key),
{
    assert(calls.push(TokenCall::Transfer { from, to, authority, signer, amount }).drop_last()
        =~= calls);
    assert(calls.push(
        TokenCall::CloseAccount { account: from, destination: to, authority, signer },
    ).drop_last() =~= calls);
}

} // verus!
