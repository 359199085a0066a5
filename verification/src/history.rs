//! The market over time: what one instruction makes of it, and what holds along
//! every history, through any number of configurations, and along every run under one
//! configuration.

use crate::accounts::{
    AdminOnly, AssignJob, CancelJob, CloseConfig, CloseProvider, CreateJob, DeliverJob,
    Initialize, RefundJob, RegisterProvider, SettleJob, SlashProvider, TopUpBond,
};
use crate::address::{derived_at, PdaSigner, Seeds};
use crate::admin::{
    initial_config, mints_checks, params_checks, with_admin, with_mints, with_params, with_paused,
};
use crate::jobs::{
    assign_job_checks, assign_job_end, cancel_job_calls, cancel_job_checks, create_job_calls,
    create_job_checks, create_job_end, deliver_job_checks, deliver_job_end, refund_job_calls,
    refund_job_checks, refund_job_end, settle_job_calls, settle_job_checks, settle_job_end,
};
use crate::keys::Pubkey;
use crate::laws::same_terms;
use crate::market::{
    admin_keeps_market, assign_job_keeps_market, cancel_job_keeps_market,
    close_provider_keeps_market, create_job_keeps_market, deliver_job_keeps_market,
    donation_keeps_market, in_hand, lemma_moved_by_nothing, new_configuration_keeps_backing,
    refund_job_keeps_market, register_provider_keeps_market, settle_job_keeps_market,
    slash_provider_keeps_market, top_up_bond_keeps_market, Market,
};
use crate::providers::{
    close_provider_calls, close_provider_checks, register_provider_calls,
    register_provider_checks, register_provider_end, slash_provider_calls, slash_provider_checks,
    slash_provider_end, top_up_bond_calls, top_up_bond_checks, top_up_bond_end,
};
use crate::state::{Account, Job, STATUS_DELIVERED, STATUS_OPEN};
use crate::token::TokenCall;
use vstd::prelude::*;

verus! {

/// An instruction with its accounts and arguments, or a donation to a vault.
pub enum Action {
    Initialize {
        a: Initialize,
        treasury: Pubkey,
        provider_bps: u16,
        verifier_bps: u16,
        protocol_bps: u16,
        dispute_window: i64,
    },
    CloseConfig { a: CloseConfig },
    SetMints { a: AdminOnly, usdc_mint: Pubkey, cnsnet_mint: Pubkey },
    SetParams {
        a: AdminOnly,
        provider_bps: u16,
        verifier_bps: u16,
        protocol_bps: u16,
        dispute_window: i64,
        treasury: Pubkey,
    },
    SetPaused { a: AdminOnly, paused: bool },
    SetAdmin { a: AdminOnly, new_admin: Pubkey },
    Register { a: RegisterProvider, bond_amount: u64 },
    TopUp { a: TopUpBond, amount: u64 },
    Slash { a: SlashProvider, amount: u64, reputation_penalty: u32 },
    CloseProvider { a: CloseProvider },
    Create {
        a: CreateJob,
        amount: u64,
        params_hash: [u8; 32],
        model_hash: [u8; 32],
        now: i64,
    },
    Assign { a: AssignJob, now: i64 },
    Deliver { a: DeliverJob, output_phash: [u8; 32], now: i64 },
    Settle { a: SettleJob, now: i64 },
    Cancel { a: CancelJob },
    Refund { a: RefundJob, reputation_penalty: u32, now: i64 },
    DonateToBond { provider: Pubkey, amount: nat },
    DonateToEscrow { job: Pubkey, amount: nat },
}

impl Action {
    /// The action goes through: its accounts are those of the market and meet their
    /// rules, its checks pass, and its end is a success.
    ///
    /// A record that is created is new, at the address that its seeds and bump
    /// derive, and so is its vault. What is paid into a vault by a signer comes out of
    /// no vault: nobody but the program signs for one.
    pub open spec fn succeeds(self, m: Market) -> bool {
        match self {
            Action::Initialize {
                a,
                provider_bps,
                verifier_bps,
                protocol_bps,
                dispute_window,
                ..
            } => {
                &&& !m.configured
                &&& a.constraints() is Ok
                &&& params_checks(provider_bps, verifier_bps, protocol_bps, dispute_window) is Ok
            },
            Action::CloseConfig { a } => m.holds_config(a.config) && a.constraints() is Ok,
            Action::SetMints { a, usdc_mint, cnsnet_mint } => {
                &&& m.holds_config(a.config)
                &&& a.constraints() is Ok
                &&& mints_checks(m.config, usdc_mint, cnsnet_mint) is Ok
            },
            Action::SetParams {
                a,
                provider_bps,
                verifier_bps,
                protocol_bps,
                dispute_window,
                ..
            } => {
                &&& m.holds_config(a.config)
                &&& a.constraints() is Ok
                &&& params_checks(provider_bps, verifier_bps, protocol_bps, dispute_window) is Ok
            },
            Action::SetPaused { a, .. } => m.holds_config(a.config) && a.constraints() is Ok,
            Action::SetAdmin { a, .. } => m.holds_config(a.config) && a.constraints() is Ok,
            Action::Register { a, bond_amount } => {
                &&& m.holds_config(a.config)
                &&& !m.providers.contains_key(a.provider.key)
                &&& m.no_vault_at(a.bond_vault.key)
                &&& m.no_vault_at(a.provider_token.key)
                &&& a.provider_token.key != a.bond_vault.key
                &&& a.constraints() is Ok
                &&& register_provider_checks(a, bond_amount) is Ok
            },
            Action::TopUp { a, amount } => {
                &&& m.holds_provider(a.provider)
                &&& m.no_vault_at(a.provider_token.key)
                &&& a.constraints() is Ok
                &&& top_up_bond_checks(amount) is Ok
                &&& top_up_bond_end(a, amount) is Ok
            },
            Action::Slash { a, amount, .. } => {
                &&& m.holds_config(a.config)
                &&& m.holds_provider(a.provider)
                &&& m.bonds[a.provider.key] == a.bond_vault.data.amount
                &&& a.constraints() is Ok
                &&& slash_provider_checks(a, amount) is Ok
            },
            Action::CloseProvider { a } => {
                &&& m.holds_provider(a.provider)
                &&& m.bonds[a.provider.key] == a.bond_vault.data.amount
                &&& a.constraints() is Ok
                &&& close_provider_checks(a) is Ok
            },
            Action::Create { a, amount, params_hash, model_hash, now } => {
                &&& m.holds_config(a.config)
                &&& !m.jobs.contains_key(a.job.key)
                &&& m.no_vault_at(a.vault.key)
                &&& m.no_vault_at(a.requester_token.key)
                &&& a.requester_token.key != a.vault.key
                &&& a.constraints() is Ok
                &&& derived_at(
                    a.job.key,
                    (PdaSigner {
                        seeds: Seeds::Job { requester: a.requester, nonce: m.config.job_count },
                        bump: a.job_bump,
                    }),
                )
                &&& create_job_checks(m.config, amount) is Ok
                &&& create_job_end(a, amount, params_hash, model_hash, now) is Ok
            },
            Action::Assign { a, .. } => {
                &&& m.holds_config(a.config)
                &&& m.holds_job(a.job)
                &&& m.holds_provider(a.provider)
                &&& a.constraints() is Ok
                &&& assign_job_checks(a.job.data, a.provider.data) is Ok
            },
            Action::Deliver { a, .. } => {
                &&& m.holds_job(a.job)
                &&& m.holds_provider(a.provider)
                &&& a.constraints() is Ok
                &&& deliver_job_checks(a.job.data) is Ok
            },
            Action::Settle { a, now } => {
                &&& m.holds_config(a.config)
                &&& m.holds_job(a.job)
                &&& m.holds_provider(a.provider)
                &&& m.escrows[a.job.key] == a.vault.data.amount
                &&& a.constraints() is Ok
                &&& settle_job_checks(a, now) is Ok
                &&& settle_job_end(a) is Ok
            },
            Action::Cancel { a } => {
                &&& m.holds_config(a.config)
                &&& m.holds_job(a.job)
                &&& m.escrows[a.job.key] == a.vault.data.amount
                &&& a.constraints() is Ok
                &&& cancel_job_checks(a) is Ok
            },
            Action::Refund { a, now, .. } => {
                &&& m.holds_config(a.config)
                &&& m.holds_job(a.job)
                &&& m.holds_provider(a.provider)
                &&& m.escrows[a.job.key] == a.vault.data.amount
                &&& a.constraints() is Ok
                &&& refund_job_checks(a, now) is Ok
            },
            Action::DonateToBond { provider, .. } => m.providers.contains_key(provider),
            Action::DonateToEscrow { job, .. } => m.jobs.contains_key(job),
        }
    }

    /// The calls that the action makes to the token program.
    pub open spec fn calls(self) -> Seq<TokenCall> {
        match self {
            Action::Register { a, bond_amount } => register_provider_calls(a, bond_amount),
            Action::TopUp { a, amount } => top_up_bond_calls(a, amount),
            Action::Slash { a, amount, .. } => slash_provider_calls(a, amount),
            Action::CloseProvider { a } => close_provider_calls(a),
            Action::Create { a, amount, .. } => create_job_calls(a, amount),
            Action::Settle { a, .. } => settle_job_calls(a),
            Action::Cancel { a } => cancel_job_calls(a),
            Action::Refund { a, .. } => refund_job_calls(a),
            _ => seq![],
        }
    }

    /// The market with the records that the action leaves. A vault that it creates is
    /// empty as yet, and one that it closes is gone.
    pub open spec fn recorded(self, m: Market) -> Market {
        match self {
            Action::Initialize {
                a,
                treasury,
                provider_bps,
                verifier_bps,
                protocol_bps,
                dispute_window,
            } => m.with_configured(true).with_config(
                initial_config(
                    a.admin,
                    treasury,
                    provider_bps,
                    verifier_bps,
                    protocol_bps,
                    dispute_window,
                    a.config_bump,
                ),
            ),
            Action::CloseConfig { .. } => m.with_configured(false),
            Action::SetMints { usdc_mint, cnsnet_mint, .. } => m.with_config(
                with_mints(m.config, usdc_mint, cnsnet_mint),
            ),
            Action::SetParams {
                provider_bps,
                verifier_bps,
                protocol_bps,
                dispute_window,
                treasury,
                ..
            } => m.with_config(
                with_params(
                    m.config,
                    provider_bps,
                    verifier_bps,
                    protocol_bps,
                    dispute_window,
                    treasury,
                ),
            ),
            Action::SetPaused { paused, .. } => m.with_config(with_paused(m.config, paused)),
            Action::SetAdmin { new_admin, .. } => m.with_config(with_admin(m.config, new_admin)),
            Action::Register { a, bond_amount } => {
                let b = register_provider_end(a, bond_amount)->Ok_0.0;
                m.with_provider(b.provider).with_bond(a.provider.key, 0)
            },
            Action::TopUp { a, amount } => m.with_provider(
                top_up_bond_end(a, amount)->Ok_0.0.provider,
            ),
            Action::Slash { a, amount, reputation_penalty } => m.with_provider(
                slash_provider_end(a, amount, reputation_penalty)->Ok_0.0.provider,
            ),
            Action::CloseProvider { a } => m.without_provider(a.provider.key),
            Action::Create { a, amount, params_hash, model_hash, now } => {
                let b = create_job_end(a, amount, params_hash, model_hash, now)->Ok_0.0;
                m.with_config(b.config.data).with_job(b.job).with_escrow(a.job.key, 0)
            },
            Action::Assign { a, now } => {
                let b = assign_job_end(a, now).0;
                m.with_job(b.job).with_provider(b.provider)
            },
            Action::Deliver { a, output_phash, now } => m.with_job(
                deliver_job_end(a, output_phash, now).0.job,
            ),
            Action::Settle { a, .. } => {
                let b = settle_job_end(a)->Ok_0.0;
                m.with_config(b.config.data).with_provider(b.provider).without_job(a.job.key)
            },
            Action::Cancel { a } => m.without_job(a.job.key),
            Action::Refund { a, reputation_penalty, .. } => {
                let b = refund_job_end(a, reputation_penalty)->Ok_0.0;
                m.with_provider(b.provider).without_job(a.job.key)
            },
            Action::DonateToBond { provider, amount } => m.with_bond(
                provider,
                m.bonds[provider] + amount,
            ),
            Action::DonateToEscrow { job, amount } => m.with_escrow(job, m.escrows[job] + amount),
        }
    }

    /// The market after the action: the records that it leaves, and in every vault what
    /// its calls leave there, also in a vault of another provider or job that it pays.
    pub open spec fn after(self, m: Market) -> Market {
        self.recorded(m).moved(self.calls())
    }

    /// The job that the action works on, where it works on one that exists.
    pub open spec fn job(self) -> Option<Account<Job>> {
        match self {
            Action::Assign { a, .. } => Some(a.job),
            Action::Deliver { a, .. } => Some(a.job),
            Action::Settle { a, .. } => Some(a.job),
            Action::Cancel { a } => Some(a.job),
            Action::Refund { a, .. } => Some(a.job),
            _ => None,
        }
    }

    /// The action pays the escrow of its job out and closes the job.
    pub open spec fn closes_job(self) -> bool {
        self is Settle || self is Cancel || self is Refund
    }
}

// ---- one action ----

/// Every action that goes through keeps the market backed. Every one but the setting
/// up of a new configuration keeps the records in step with the configuration.
pub proof fn every_action_keeps_market(m: Market, action: Action)
    requires
        m.backed(),
        action.succeeds(m),
    ensures
        action.after(m).backed(),
        m.consistent() && action !is Initialize ==> action.after(m).consistent(),
{
    let unset = Pubkey::unset();
    lemma_moved_by_nothing(action.recorded(m));
    match action {
        Action::Initialize {
            a,
            treasury,
            provider_bps,
            verifier_bps,
            protocol_bps,
            dispute_window,
        } => {
            new_configuration_keeps_backing(
                m,
                initial_config(
                    a.admin,
                    treasury,
                    provider_bps,
                    verifier_bps,
                    protocol_bps,
                    dispute_window,
                    a.config_bump,
                ),
            );
        },
        Action::CloseConfig { .. } => {
            new_configuration_keeps_backing(m, m.config);
        },
        Action::SetMints { usdc_mint, cnsnet_mint, .. } => {
            admin_keeps_market(m, usdc_mint, cnsnet_mint, 0, 0, 0, 0, unset, false);
        },
        Action::SetParams {
            provider_bps,
            verifier_bps,
            protocol_bps,
            dispute_window,
            treasury,
            ..
        } => {
            admin_keeps_market(
                m,
                unset,
                unset,
                provider_bps,
                verifier_bps,
                protocol_bps,
                dispute_window,
                treasury,
                false,
            );
        },
        Action::SetPaused { paused, .. } => {
            admin_keeps_market(m, unset, unset, 0, 0, 0, 0, unset, paused);
        },
        Action::SetAdmin { new_admin, .. } => {
            admin_keeps_market(m, unset, unset, 0, 0, 0, 0, new_admin, false);
        },
        Action::Register { a, bond_amount } => {
            register_provider_keeps_market(m, a, bond_amount);
        },
        Action::TopUp { a, amount } => {
            top_up_bond_keeps_market(m, a, amount);
        },
        Action::Slash { a, amount, reputation_penalty } => {
            slash_provider_keeps_market(m, a, amount, reputation_penalty);
        },
        Action::CloseProvider { a } => {
            close_provider_keeps_market(m, a);
        },
        Action::Create { a, amount, params_hash, model_hash, now } => {
            create_job_keeps_market(m, a, amount, params_hash, model_hash, now);
        },
        Action::Assign { a, now } => {
            assign_job_keeps_market(m, a, now);
        },
        Action::Deliver { a, output_phash, now } => {
            deliver_job_keeps_market(m, a, output_phash, now);
        },
        Action::Settle { a, now } => {
            settle_job_keeps_market(m, a, now);
        },
        Action::Cancel { a } => {
            cancel_job_keeps_market(m, a);
        },
        Action::Refund { a, reputation_penalty, now } => {
            refund_job_keeps_market(m, a, reputation_penalty, now);
        },
        Action::DonateToBond { provider, amount } => {
            donation_keeps_market(m, provider, amount);
        },
        Action::DonateToEscrow { job, amount } => {
            donation_keeps_market(m, job, amount);
        },
    }
}

/// No action but the setting up of a new configuration changes a mint that is set, so
/// none changes the payment mint while an escrow is paid in it, nor the bond mint while
/// a provider has its bond in it; and every escrow stays in the mint in which its job
/// was opened.
pub proof fn mints_never_change_under_escrows_and_bonds(
    m: Market,
    action: Action,
    job: Pubkey,
    provider: Pubkey,
)
    requires
        m.consistent(),
        action.succeeds(m),
        action !is Initialize,
    ensures
        m.config.usdc_mint != Pubkey::unset() ==> action.after(m).config.usdc_mint
            == m.config.usdc_mint,
        m.config.cnsnet_mint != Pubkey::unset() ==> action.after(m).config.cnsnet_mint
            == m.config.cnsnet_mint,
        m.jobs.contains_key(job) ==> {
            &&& m.jobs[job].mint == m.config.usdc_mint
            &&& action.after(m).config.usdc_mint == m.config.usdc_mint
            &&& action.after(m).jobs.contains_key(job) ==> action.after(m).jobs[job].mint
                == m.jobs[job].mint
        },
        m.providers.contains_key(provider) ==> action.after(m).config.cnsnet_mint
            == m.config.cnsnet_mint,
{
}

// ---- every history ----

/// `markets` are the states that a market goes through under `actions`, all of which
/// go through; among them may be the closing of the configuration and the setting up
/// of the next one.
pub open spec fn is_history(markets: Seq<Market>, actions: Seq<Action>) -> bool {
    &&& markets.len() == actions.len() + 1
    &&& markets[0].backed()
    &&& forall|i: int|
        0 <= i < actions.len() ==> {
            &&& (#[trigger] actions[i]).succeeds(markets[i])
            &&& markets[i + 1] == actions[i].after(markets[i])
        }
}

/// The market is backed at all times, through any number of configurations: every
/// provider's record is sound, active only with a bond, its vault covers the bond, and
/// it counts the jobs in its hands; every job's record is sound, its vault covers the
/// amount, and its provider is registered.
pub proof fn market_is_always_backed(markets: Seq<Market>, actions: Seq<Action>, k: int)
    requires
        is_history(markets, actions),
        0 <= k < markets.len(),
    ensures
        markets[k].backed(),
        forall|p: Pubkey| #[trigger]
            markets[k].providers.contains_key(p) ==> {
                &&& markets[k].providers[p].well_formed()
                &&& markets[k].bonds[p] >= markets[k].providers[p].bond
                &&& markets[k].providers[p].in_flight == in_hand(markets[k].jobs, p).len()
            },
        forall|j: Pubkey| #[trigger]
            markets[k].jobs.contains_key(j) ==> {
                &&& markets[k].jobs[j].well_formed()
                &&& markets[k].escrows[j] >= markets[k].jobs[j].amount
                &&& markets[k].jobs[j].status != STATUS_OPEN ==> markets[k].providers.contains_key(
                    markets[k].jobs[j].provider,
                )
            },
    decreases k,
{
    let m = markets[k];
    if k > 0 {
        market_is_always_backed(markets, actions, k - 1);
        every_action_keeps_market(markets[k - 1], actions[k - 1]);
    }
    assert forall|p: Pubkey| #[trigger] m.providers.contains_key(p) implies m.bonds[p]
        >= m.providers[p].bond by {
        assert(m.has_vault(Seeds::Bond { provider: p }));
    }
    assert forall|j: Pubkey| #[trigger] m.jobs.contains_key(j) implies m.escrows[j]
        >= m.jobs[j].amount by {
        assert(m.has_vault(Seeds::Vault { job: j }));
    }
}

/// `late` is what became of `early`: the terms are the same and the status has not
/// gone back; what a status has fixed stays fixed.
pub open spec fn advanced(early: Job, late: Job) -> bool {
    &&& same_terms(early, late)
    &&& early.status <= late.status
    &&& early.status == late.status ==> early == late
    &&& early.status != STATUS_OPEN ==> {
        &&& late.provider == early.provider
        &&& late.assigned_at == early.assigned_at
    }
    &&& early.status == STATUS_DELIVERED ==> {
        &&& late.output_phash == early.output_phash
        &&& late.delivered_at == early.delivered_at
    }
}

/// One action leaves a job alone, or takes it one step further.
pub proof fn job_only_advances(m: Market, action: Action, j: Pubkey)
    requires
        m.backed(),
        action.succeeds(m),
        m.jobs.contains_key(j),
        action.after(m).jobs.contains_key(j),
    ensures
        advanced(m.jobs[j], action.after(m).jobs[j]),
{
    if let Some(own) = action.job() {
        assert(m.holds_job(own));
    }
}

/// While the record of a job is there, its terms never change; from its assignment on
/// it keeps its provider and the time of the assignment, and from its delivery on also
/// the hash of its output and the time of the delivery.
pub proof fn living_job_only_advances(
    markets: Seq<Market>,
    actions: Seq<Action>,
    i: int,
    k: int,
    j: Pubkey,
)
    requires
        is_history(markets, actions),
        0 <= i <= k < markets.len(),
        forall|t: int| i <= t <= k ==> (#[trigger] markets[t]).jobs.contains_key(j),
    ensures
        advanced(markets[i].jobs[j], markets[k].jobs[j]),
    decreases k - i,
{
    if i < k {
        living_job_only_advances(markets, actions, i, k - 1, j);
        market_is_always_backed(markets, actions, k - 1);
        assert(actions[k - 1].succeeds(markets[k - 1]));
        assert(markets[k - 1].jobs.contains_key(j) && markets[k].jobs.contains_key(j));
        job_only_advances(markets[k - 1], actions[k - 1], j);
    }
}

/// How many jobs the actions from `i` up to `k`, without it, open.
pub open spec fn jobs_opened(actions: Seq<Action>, i: int, k: int) -> nat
    decreases k - i,
{
    if i >= k {
        0
    } else {
        jobs_opened(actions, i, k - 1) + (if actions[k - 1] is Create {
            1nat
        } else {
            0
        })
    }
}

/// From the setting up of a configuration on, `job_count` is the number of jobs opened
/// under it, and a job that is opened takes the number opened before it as its nonce.
pub proof fn job_count_is_the_number_of_jobs_opened(
    markets: Seq<Market>,
    actions: Seq<Action>,
    i: int,
    k: int,
)
    requires
        is_history(markets, actions),
        0 <= i < k < markets.len(),
        actions[i] is Initialize,
        forall|t: int| i < t < k ==> #[trigger] actions[t] !is Initialize,
    ensures
        markets[k].config.job_count == jobs_opened(actions, i, k),
        k < actions.len() ==> (actions[k] matches Action::Create { a, .. } ==> {
            &&& markets[k + 1].jobs.contains_key(a.job.key)
            &&& markets[k + 1].jobs[a.job.key].nonce == jobs_opened(actions, i, k)
            &&& markets[k + 1].config.job_count == jobs_opened(actions, i, k) + 1
        }),
    decreases k - i,
{
    assert(actions[k - 1].succeeds(markets[k - 1]));
    if k == i + 1 {
        assert(jobs_opened(actions, i, i) == 0);
    } else {
        job_count_is_the_number_of_jobs_opened(markets, actions, i, k - 1);
        assert(actions[k - 1] !is Initialize);
    }
    if k < actions.len() {
        assert(actions[k].succeeds(markets[k]));
    }
}

// ---- every run under one configuration: a closed job stays closed ----

/// A history under one configuration, from a consistent market on.
pub open spec fn is_run(markets: Seq<Market>, actions: Seq<Action>) -> bool {
    &&& is_history(markets, actions)
    &&& markets[0].consistent()
    &&& forall|i: int| 0 <= i < actions.len() ==> #[trigger] actions[i] !is Initialize
}

/// The market is consistent at all times under one configuration.
pub proof fn market_is_always_consistent(markets: Seq<Market>, actions: Seq<Action>, k: int)
    requires
        is_run(markets, actions),
        0 <= k < markets.len(),
    ensures
        markets[k].consistent(),
    decreases k,
{
    if k > 0 {
        market_is_always_consistent(markets, actions, k - 1);
        assert(actions[k - 1] !is Initialize);
        every_action_keeps_market(markets[k - 1], actions[k - 1]);
    }
}

/// The nonce has been given out, and no job there is has it.
pub open spec fn nonce_spent(m: Market, nonce: u64) -> bool {
    &&& nonce < m.config.job_count
    &&& forall|j: Pubkey| #[trigger] m.jobs.contains_key(j) ==> m.jobs[j].nonce != nonce
}

/// No seeds but `seeds` derive `key`, whatever the bump.
pub open spec fn sole_seeds(key: Pubkey, seeds: Seeds) -> bool {
    forall|signer: PdaSigner| #[trigger] derived_at(key, signer) ==> signer.seeds == seeds
}

/// A settlement, a cancellation or a refund leaves no record at the job's address
/// and spends its nonce.
pub proof fn closing_spends_the_job(m: Market, action: Action, job: Account<Job>)
    requires
        m.consistent(),
        action.succeeds(m),
        action.closes_job(),
        action.job() == Some(job),
    ensures
        m.holds_job(job),
        nonce_spent(action.after(m), job.data.nonce),
        forall|other: Account<Job>|
            other.key == job.key ==> !#[trigger] action.after(m).holds_job(other),
{
    let n = action.after(m);
    assert(m.jobs.contains_key(job.key));
    assert forall|j: Pubkey| #[trigger] n.jobs.contains_key(j) implies n.jobs[j].nonce
        != job.data.nonce by {
        assert(m.jobs.contains_key(j));
    }
}

/// A spent nonce stays spent, whatever is done under the same configuration.
pub proof fn spent_nonce_stays_spent(m: Market, action: Action, nonce: u64)
    requires
        m.consistent(),
        action.succeeds(m),
        action !is Initialize,
        nonce_spent(m, nonce),
    ensures
        nonce_spent(action.after(m), nonce),
{
    let n = action.after(m);
    assert forall|j: Pubkey| #[trigger] n.jobs.contains_key(j) implies n.jobs[j].nonce
        != nonce by {
        if m.jobs.contains_key(j) {
            assert(m.jobs[j].nonce != nonce);
        }
    }
}

/// The address of a closed job stays empty, whatever is done under the same
/// configuration, unless other seeds derive the same address.
pub proof fn closed_address_stays_empty(m: Market, action: Action, job: Account<Job>)
    requires
        m.consistent(),
        action.succeeds(m),
        nonce_spent(m, job.data.nonce),
        !m.jobs.contains_key(job.key),
        sole_seeds(job.key, job.data.signer().seeds),
    ensures
        !action.after(m).jobs.contains_key(job.key),
{
    if let Some(own) = action.job() {
        assert(m.holds_job(own));
    }
}

proof fn lemma_closed_at(
    markets: Seq<Market>,
    actions: Seq<Action>,
    i: int,
    k: int,
    job: Account<Job>,
)
    requires
        is_run(markets, actions),
        0 <= i < k < markets.len(),
        actions[i].closes_job(),
        actions[i].job() == Some(job),
    ensures
        nonce_spent(markets[k], job.data.nonce),
        sole_seeds(job.key, job.data.signer().seeds) ==> !markets[k].jobs.contains_key(job.key),
    decreases k,
{
    market_is_always_consistent(markets, actions, k - 1);
    assert(actions[k - 1].succeeds(markets[k - 1]) && actions[k - 1] !is Initialize);
    if k == i + 1 {
        closing_spends_the_job(markets[i], actions[i], job);
    } else {
        lemma_closed_at(markets, actions, i, k - 1, job);
        spent_nonce_stays_spent(markets[k - 1], actions[k - 1], job.data.nonce);
        if sole_seeds(job.key, job.data.signer().seeds) {
            closed_address_stays_empty(markets[k - 1], actions[k - 1], job);
        }
    }
}

/// After its settlement, cancellation or refund a job is never touched again: no
/// assignment, delivery, settlement, cancellation or refund of it goes through. Its
/// record, which its nonce tells apart from all others, is never there again; nor is
/// any record at its address, unless other seeds derive the same address.
pub proof fn closed_job_is_never_touched_again(
    markets: Seq<Market>,
    actions: Seq<Action>,
    i: int,
    k: int,
    job: Account<Job>,
)
    requires
        is_run(markets, actions),
        0 <= i < k < markets.len(),
        actions[i].closes_job(),
        actions[i].job() == Some(job),
    ensures
        forall|other: Account<Job>| #[trigger]
            markets[k].holds_job(other) ==> other.data.nonce != job.data.nonce,
        forall|later: Action| #[trigger]
            later.succeeds(markets[k]) ==> (later.job() matches Some(other) ==> other.data.nonce
                != job.data.nonce),
        sole_seeds(job.key, job.data.signer().seeds) ==> {
            &&& forall|other: Account<Job>| #[trigger]
                markets[k].holds_job(other) ==> other.key != job.key
            &&& forall|later: Action| #[trigger]
                later.succeeds(markets[k]) ==> (later.job() matches Some(other) ==> other.key
                    != job.key)
        },
{
    let m = markets[k];
    lemma_closed_at(markets, actions, i, k, job);
    assert forall|other: Account<Job>| #[trigger] m.holds_job(other) implies other.data.nonce
        != job.data.nonce by {
        assert(m.jobs.contains_key(other.key));
    }
    assert forall|later: Action| #[trigger] later.succeeds(m) implies (later.job() matches Some(
        other,
    ) ==> m.holds_job(other)) by {}
}

/// A job is paid out at most once: of two actions in a run that pay an escrow out and
/// close its job, each closes another job.
pub proof fn job_is_paid_out_at_most_once(
    markets: Seq<Market>,
    actions: Seq<Action>,
    i: int,
    k: int,
    first: Account<Job>,
    second: Account<Job>,
)
    requires
        is_run(markets, actions),
        0 <= i < k < actions.len(),
        actions[i].closes_job(),
        actions[k].closes_job(),
        actions[i].job() == Some(first),
        actions[k].job() == Some(second),
    ensures
        first.data.nonce != second.data.nonce,
        sole_seeds(first.key, first.data.signer().seeds) ==> first.key != second.key,
{
    closed_job_is_never_touched_again(markets, actions, i, k, first);
    assert(actions[k].succeeds(markets[k]));
}

} // verus!
