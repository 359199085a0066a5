//! Who is let in: which accounts each instruction takes, what a broken rule is answered
//! with, and at which addresses the program looks for its own accounts.
//!
//! Every law here is about calls of the functions themselves: it holds of whatever they
//! return, for all accounts and keys.

use crate::accounts::{
    AdminOnly, AssignJob, CancelJob, CloseConfig, CloseProvider, CreateJob, DeliverJob, Initialize,
    RefundJob, RegisterProvider, SettleJob, SlashProvider, TopUpBond,
};
use crate::address::{
    derived_at, found_address, found_at, found_key, program_address, PdaSigner, Seeds,
};
use crate::admin;
use crate::errors::{CanasError, Constraint, Failure};
use crate::events::{
    Closed, Closing, JobAssigned, JobCreated, JobDelivered, JobRefunded, JobSettled,
    ProviderRegistered, ProviderSlashed,
};
use crate::jobs;
use crate::keys::{lemma_bytes_determine_key, program_id, Pubkey};
use crate::program;
use crate::providers;
use crate::state::{Config, Job, Provider};
use crate::token::{Step, TokenCall, TokenReply};
use vstd::prelude::*;

verus! {

// ---- the rules about the accounts of each instruction ----

/// A new configuration is at its address.
///
/// The first of these rules that is broken is the answer; where none is, the accounts are
/// taken.
pub proof fn setup_takes_the_right_accounts(
    a: Initialize,
    config_at: bool,
    r: Result<(), Failure>,
)
    requires
        call_ensures(Initialize::check, (&a, config_at), r),
    ensures
        ({
            let c1 = config_at;
            &&& !c1 ==> (r matches Err(Failure::Constraint(Constraint::Seeds)))
            &&& c1 ==> r is Ok
        }),
{
}

/// An account of the program counts only at the address that its own seeds derive.
pub proof fn setup_looks_where_the_seeds_point(
    a: Initialize,
    config_at: bool,
    r: Result<(), Failure>,
    v: Result<(), Failure>,
)
    requires
        call_ensures(Initialize::check, (&a, config_at), r),
        call_ensures(Initialize::validate, (&a,), v),
        config_at == found_at(a.config.key, Seeds::Config, a.config_bump),
    ensures
        v == r,
{
}

/// The configuration is at its address, and the signer is its admin.
///
/// The first of these rules that is broken is the answer; where none is, the accounts are
/// taken.
pub proof fn administration_takes_the_right_accounts(
    a: AdminOnly,
    config_at: bool,
    r: Result<(), Failure>,
)
    requires
        call_ensures(AdminOnly::check, (&a, config_at), r),
    ensures
        ({
            let c1 = config_at;
            let c2 = a.config.data.admin == a.admin;
            &&& !c1 ==> (r matches Err(Failure::Constraint(Constraint::Seeds)))
            &&& c1 && !c2 ==> (r matches Err(Failure::Constraint(Constraint::HasOne)))
            &&& c1 && c2 ==> r is Ok
        }),
{
}

/// An account of the program counts only at the address that its own seeds derive.
pub proof fn administration_looks_where_the_seeds_point(
    a: AdminOnly,
    config_at: bool,
    r: Result<(), Failure>,
    v: Result<(), Failure>,
)
    requires
        call_ensures(AdminOnly::check, (&a, config_at), r),
        call_ensures(AdminOnly::validate, (&a,), v),
        config_at == derived_at(
            a.config.key,
            (PdaSigner { seeds: Seeds::Config, bump: a.config.data.bump }),
        ),
    ensures
        v == r,
{
}

/// The configuration is at its address, the signer is its admin, and it does not receive its
/// own rent.
///
/// The first of these rules that is broken is the answer; where none is, the accounts are
/// taken.
pub proof fn config_closing_takes_the_right_accounts(
    a: CloseConfig,
    config_at: bool,
    r: Result<(), Failure>,
)
    requires
        call_ensures(CloseConfig::check, (&a, config_at), r),
    ensures
        ({
            let c1 = config_at;
            let c2 = a.config.data.admin == a.admin;
            let c3 = a.config.key != a.admin;
            &&& !c1 ==> (r matches Err(Failure::Constraint(Constraint::Seeds)))
            &&& c1 && !c2 ==> (r matches Err(Failure::Constraint(Constraint::HasOne)))
            &&& c1 && c2 && !c3 ==> (r matches Err(Failure::Constraint(Constraint::Close)))
            &&& c1 && c2 && c3 ==> r is Ok
        }),
{
}

/// An account of the program counts only at the address that its own seeds derive.
pub proof fn config_closing_looks_where_the_seeds_point(
    a: CloseConfig,
    config_at: bool,
    r: Result<(), Failure>,
    v: Result<(), Failure>,
)
    requires
        call_ensures(CloseConfig::check, (&a, config_at), r),
        call_ensures(CloseConfig::validate, (&a,), v),
        config_at == derived_at(
            a.config.key,
            (PdaSigner { seeds: Seeds::Config, bump: a.config.data.bump }),
        ),
    ensures
        v == r,
{
}

/// Record, vault and configuration are at their addresses; the bond is in the bond mint, out
/// of tokens that the authority owns, and the payout account is in the payment mint.
///
/// The first of these rules that is broken is the answer; where none is, the accounts are
/// taken.
pub proof fn registration_takes_the_right_accounts(
    a: RegisterProvider,
    provider_at: bool,
    bond_vault_at: bool,
    config_at: bool,
    r: Result<(), Failure>,
)
    requires
        call_ensures(RegisterProvider::check, (&a, provider_at, bond_vault_at, config_at), r),
    ensures
        ({
            let c1 = provider_at;
            let c2 = bond_vault_at;
            let c3 = config_at;
            let c4 = a.cnsnet_mint == a.config.data.cnsnet_mint;
            let c5 = a.payout.data.mint == a.config.data.usdc_mint;
            let c6 = a.provider_token.data.owner == a.authority;
            let c7 = a.provider_token.data.mint == a.cnsnet_mint;
            &&& !c1 ==> (r matches Err(Failure::Constraint(Constraint::Seeds)))
            &&& c1 && !c2 ==> (r matches Err(Failure::Constraint(Constraint::Seeds)))
            &&& c1 && c2 && !c3 ==> (r matches Err(Failure::Constraint(Constraint::Seeds)))
            &&& c1 && c2 && c3 && !c4 ==> (r matches Err(Failure::Program(CanasError::WrongMint)))
            &&& c1 && c2 && c3 && c4 && !c5
                ==> (r matches Err(Failure::Constraint(Constraint::TokenMint)))
            &&& c1 && c2 && c3 && c4 && c5 && !c6
                ==> (r matches Err(Failure::Constraint(Constraint::TokenOwner)))
            &&& c1 && c2 && c3 && c4 && c5 && c6 && !c7
                ==> (r matches Err(Failure::Constraint(Constraint::TokenMint)))
            &&& c1 && c2 && c3 && c4 && c5 && c6 && c7 ==> r is Ok
        }),
{
}

/// An account of the program counts only at the address that its own seeds derive.
pub proof fn registration_looks_where_the_seeds_point(
    a: RegisterProvider,
    provider_at: bool,
    bond_vault_at: bool,
    config_at: bool,
    r: Result<(), Failure>,
    v: Result<(), Failure>,
)
    requires
        call_ensures(RegisterProvider::check, (&a, provider_at, bond_vault_at, config_at), r),
        call_ensures(RegisterProvider::validate, (&a,), v),
        provider_at == found_at(
            a.provider.key,
            (Seeds::Provider { authority: a.authority }),
            a.provider_bump,
        ),
        bond_vault_at == found_key(a.bond_vault.key, (Seeds::Bond { provider: a.provider.key })),
        config_at == derived_at(
            a.config.key,
            (PdaSigner { seeds: Seeds::Config, bump: a.config.data.bump }),
        ),
    ensures
        v == r,
{
}

/// The record is at its address and names the signer, the vault is at its address, and the
/// tokens are in the vault's mint and the signer's own.
///
/// The first of these rules that is broken is the answer; where none is, the accounts are
/// taken.
pub proof fn top_up_takes_the_right_accounts(
    a: TopUpBond,
    provider_at: bool,
    bond_vault_at: bool,
    r: Result<(), Failure>,
)
    requires
        call_ensures(TopUpBond::check, (&a, provider_at, bond_vault_at), r),
    ensures
        ({
            let c1 = provider_at;
            let c2 = a.provider.data.authority == a.authority;
            let c3 = bond_vault_at;
            let c4 = a.provider_token.data.mint == a.bond_vault.data.mint;
            let c5 = a.provider_token.data.owner == a.authority;
            &&& !c1 ==> (r matches Err(Failure::Constraint(Constraint::Seeds)))
            &&& c1 && !c2 ==> (r matches Err(Failure::Constraint(Constraint::HasOne)))
            &&& c1 && c2 && !c3 ==> (r matches Err(Failure::Constraint(Constraint::Seeds)))
            &&& c1 && c2 && c3 && !c4 ==> (r matches Err(Failure::Program(CanasError::WrongMint)))
            &&& c1 && c2 && c3 && c4 && !c5
                ==> (r matches Err(Failure::Constraint(Constraint::TokenOwner)))
            &&& c1 && c2 && c3 && c4 && c5 ==> r is Ok
        }),
{
}

/// An account of the program counts only at the address that its own seeds derive.
pub proof fn top_up_looks_where_the_seeds_point(
    a: TopUpBond,
    provider_at: bool,
    bond_vault_at: bool,
    r: Result<(), Failure>,
    v: Result<(), Failure>,
)
    requires
        call_ensures(TopUpBond::check, (&a, provider_at, bond_vault_at), r),
        call_ensures(TopUpBond::validate, (&a,), v),
        provider_at == derived_at(
            a.provider.key,
            (PdaSigner {
                seeds: Seeds::Provider { authority: a.authority },
                bump: a.provider.data.bump,
            }),
        ),
        bond_vault_at == found_key(a.bond_vault.key, (Seeds::Bond { provider: a.provider.key })),
    ensures
        v == r,
{
}

/// The record is at its address, names the signer and does not receive its own rent, the
/// vault is at its address, and the tokens are in the vault's mint and the signer's own.
///
/// The first of these rules that is broken is the answer; where none is, the accounts are
/// taken.
pub proof fn provider_closing_takes_the_right_accounts(
    a: CloseProvider,
    provider_at: bool,
    bond_vault_at: bool,
    r: Result<(), Failure>,
)
    requires
        call_ensures(CloseProvider::check, (&a, provider_at, bond_vault_at), r),
    ensures
        ({
            let c1 = provider_at;
            let c2 = a.provider.data.authority == a.authority;
            let c3 = a.provider.key != a.authority;
            let c4 = bond_vault_at;
            let c5 = a.provider_token.data.mint == a.bond_vault.data.mint;
            let c6 = a.provider_token.data.owner == a.authority;
            &&& !c1 ==> (r matches Err(Failure::Constraint(Constraint::Seeds)))
            &&& c1 && !c2 ==> (r matches Err(Failure::Constraint(Constraint::HasOne)))
            &&& c1 && c2 && !c3 ==> (r matches Err(Failure::Constraint(Constraint::Close)))
            &&& c1 && c2 && c3 && !c4 ==> (r matches Err(Failure::Constraint(Constraint::Seeds)))
            &&& c1 && c2 && c3 && c4 && !c5
                ==> (r matches Err(Failure::Program(CanasError::WrongMint)))
            &&& c1 && c2 && c3 && c4 && c5 && !c6
                ==> (r matches Err(Failure::Constraint(Constraint::TokenOwner)))
            &&& c1 && c2 && c3 && c4 && c5 && c6 ==> r is Ok
        }),
{
}

/// An account of the program counts only at the address that its own seeds derive.
pub proof fn provider_closing_looks_where_the_seeds_point(
    a: CloseProvider,
    provider_at: bool,
    bond_vault_at: bool,
    r: Result<(), Failure>,
    v: Result<(), Failure>,
)
    requires
        call_ensures(CloseProvider::check, (&a, provider_at, bond_vault_at), r),
        call_ensures(CloseProvider::validate, (&a,), v),
        provider_at == derived_at(
            a.provider.key,
            (PdaSigner {
                seeds: Seeds::Provider { authority: a.authority },
                bump: a.provider.data.bump,
            }),
        ),
        bond_vault_at == found_key(a.bond_vault.key, (Seeds::Bond { provider: a.provider.key })),
    ensures
        v == r,
{
}

/// Configuration, record and vault are at their addresses, the signer is the admin, and what
/// is slashed goes to an account of the vault's mint.
///
/// The first of these rules that is broken is the answer; where none is, the accounts are
/// taken.
pub proof fn slash_takes_the_right_accounts(
    a: SlashProvider,
    config_at: bool,
    provider_at: bool,
    bond_vault_at: bool,
    r: Result<(), Failure>,
)
    requires
        call_ensures(SlashProvider::check, (&a, config_at, provider_at, bond_vault_at), r),
    ensures
        ({
            let c1 = config_at;
            let c2 = a.config.data.admin == a.admin;
            let c3 = provider_at;
            let c4 = bond_vault_at;
            let c5 = a.slash_destination.data.mint == a.bond_vault.data.mint;
            &&& !c1 ==> (r matches Err(Failure::Constraint(Constraint::Seeds)))
            &&& c1 && !c2 ==> (r matches Err(Failure::Constraint(Constraint::HasOne)))
            &&& c1 && c2 && !c3 ==> (r matches Err(Failure::Constraint(Constraint::Seeds)))
            &&& c1 && c2 && c3 && !c4 ==> (r matches Err(Failure::Constraint(Constraint::Seeds)))
            &&& c1 && c2 && c3 && c4 && !c5
                ==> (r matches Err(Failure::Program(CanasError::WrongMint)))
            &&& c1 && c2 && c3 && c4 && c5 ==> r is Ok
        }),
{
}

/// An account of the program counts only at the address that its own seeds derive.
pub proof fn slash_looks_where_the_seeds_point(
    a: SlashProvider,
    config_at: bool,
    provider_at: bool,
    bond_vault_at: bool,
    r: Result<(), Failure>,
    v: Result<(), Failure>,
)
    requires
        call_ensures(SlashProvider::check, (&a, config_at, provider_at, bond_vault_at), r),
        call_ensures(SlashProvider::validate, (&a,), v),
        config_at == derived_at(
            a.config.key,
            (PdaSigner { seeds: Seeds::Config, bump: a.config.data.bump }),
        ),
        provider_at == derived_at(
            a.provider.key,
            (PdaSigner {
                seeds: Seeds::Provider { authority: a.provider.data.authority },
                bump: a.provider.data.bump,
            }),
        ),
        bond_vault_at == found_key(a.bond_vault.key, (Seeds::Bond { provider: a.provider.key })),
    ensures
        v == r,
{
}

/// Record, vault and configuration are at their addresses; the job is paid in the payment
/// mint, out of tokens that the requester owns.
///
/// The first of these rules that is broken is the answer; where none is, the accounts are
/// taken.
pub proof fn opening_takes_the_right_accounts(
    a: CreateJob,
    job_at: bool,
    vault_at: bool,
    config_at: bool,
    r: Result<(), Failure>,
)
    requires
        call_ensures(CreateJob::check, (&a, job_at, vault_at, config_at), r),
    ensures
        ({
            let c1 = job_at;
            let c2 = vault_at;
            let c3 = config_at;
            let c4 = a.mint == a.config.data.usdc_mint;
            let c5 = a.requester_token.data.owner == a.requester;
            let c6 = a.requester_token.data.mint == a.mint;
            &&& !c1 ==> (r matches Err(Failure::Constraint(Constraint::Seeds)))
            &&& c1 && !c2 ==> (r matches Err(Failure::Constraint(Constraint::Seeds)))
            &&& c1 && c2 && !c3 ==> (r matches Err(Failure::Constraint(Constraint::Seeds)))
            &&& c1 && c2 && c3 && !c4 ==> (r matches Err(Failure::Program(CanasError::WrongMint)))
            &&& c1 && c2 && c3 && c4 && !c5
                ==> (r matches Err(Failure::Constraint(Constraint::TokenOwner)))
            &&& c1 && c2 && c3 && c4 && c5 && !c6
                ==> (r matches Err(Failure::Constraint(Constraint::TokenMint)))
            &&& c1 && c2 && c3 && c4 && c5 && c6 ==> r is Ok
        }),
{
}

/// An account of the program counts only at the address that its own seeds derive.
pub proof fn opening_looks_where_the_seeds_point(
    a: CreateJob,
    job_at: bool,
    vault_at: bool,
    config_at: bool,
    r: Result<(), Failure>,
    v: Result<(), Failure>,
)
    requires
        call_ensures(CreateJob::check, (&a, job_at, vault_at, config_at), r),
        call_ensures(CreateJob::validate, (&a,), v),
        job_at == found_at(
            a.job.key,
            (Seeds::Job { requester: a.requester, nonce: a.config.data.job_count }),
            a.job_bump,
        ),
        vault_at == found_key(a.vault.key, (Seeds::Vault { job: a.job.key })),
        config_at == derived_at(
            a.config.key,
            (PdaSigner { seeds: Seeds::Config, bump: a.config.data.bump }),
        ),
    ensures
        v == r,
{
}

/// Configuration, job and provider are at their addresses, and the signer is the admin.
///
/// The first of these rules that is broken is the answer; where none is, the accounts are
/// taken.
pub proof fn routing_takes_the_right_accounts(
    a: AssignJob,
    config_at: bool,
    job_at: bool,
    provider_at: bool,
    r: Result<(), Failure>,
)
    requires
        call_ensures(AssignJob::check, (&a, config_at, job_at, provider_at), r),
    ensures
        ({
            let c1 = config_at;
            let c2 = a.config.data.admin == a.admin;
            let c3 = job_at;
            let c4 = provider_at;
            &&& !c1 ==> (r matches Err(Failure::Constraint(Constraint::Seeds)))
            &&& c1 && !c2 ==> (r matches Err(Failure::Constraint(Constraint::HasOne)))
            &&& c1 && c2 && !c3 ==> (r matches Err(Failure::Constraint(Constraint::Seeds)))
            &&& c1 && c2 && c3 && !c4 ==> (r matches Err(Failure::Constraint(Constraint::Seeds)))
            &&& c1 && c2 && c3 && c4 ==> r is Ok
        }),
{
}

/// An account of the program counts only at the address that its own seeds derive.
pub proof fn routing_looks_where_the_seeds_point(
    a: AssignJob,
    config_at: bool,
    job_at: bool,
    provider_at: bool,
    r: Result<(), Failure>,
    v: Result<(), Failure>,
)
    requires
        call_ensures(AssignJob::check, (&a, config_at, job_at, provider_at), r),
        call_ensures(AssignJob::validate, (&a,), v),
        config_at == derived_at(
            a.config.key,
            (PdaSigner { seeds: Seeds::Config, bump: a.config.data.bump }),
        ),
        job_at == derived_at(
            a.job.key,
            (PdaSigner {
                seeds: Seeds::Job {
                    requester: a.job.data.requester,
                    nonce: a.job.data.nonce,
                },
                bump: a.job.data.bump,
            }),
        ),
        provider_at == derived_at(
            a.provider.key,
            (PdaSigner {
                seeds: Seeds::Provider { authority: a.provider.data.authority },
                bump: a.provider.data.bump,
            }),
        ),
    ensures
        v == r,
{
}

/// Job and provider are at their addresses, the job is assigned to the provider, and the
/// signer is its authority.
///
/// The first of these rules that is broken is the answer; where none is, the accounts are
/// taken.
pub proof fn delivery_takes_the_right_accounts(
    a: DeliverJob,
    job_at: bool,
    provider_at: bool,
    r: Result<(), Failure>,
)
    requires
        call_ensures(DeliverJob::check, (&a, job_at, provider_at), r),
    ensures
        ({
            let c1 = job_at;
            let c2 = a.job.data.provider == a.provider.key;
            let c3 = provider_at;
            let c4 = a.provider.data.authority == a.authority;
            &&& !c1 ==> (r matches Err(Failure::Constraint(Constraint::Seeds)))
            &&& c1 && !c2 ==> (r matches Err(Failure::Program(CanasError::Unauthorized)))
            &&& c1 && c2 && !c3 ==> (r matches Err(Failure::Constraint(Constraint::Seeds)))
            &&& c1 && c2 && c3 && !c4 ==> (r matches Err(Failure::Constraint(Constraint::HasOne)))
            &&& c1 && c2 && c3 && c4 ==> r is Ok
        }),
{
}

/// An account of the program counts only at the address that its own seeds derive.
pub proof fn delivery_looks_where_the_seeds_point(
    a: DeliverJob,
    job_at: bool,
    provider_at: bool,
    r: Result<(), Failure>,
    v: Result<(), Failure>,
)
    requires
        call_ensures(DeliverJob::check, (&a, job_at, provider_at), r),
        call_ensures(DeliverJob::validate, (&a,), v),
        job_at == derived_at(
            a.job.key,
            (PdaSigner {
                seeds: Seeds::Job {
                    requester: a.job.data.requester,
                    nonce: a.job.data.nonce,
                },
                bump: a.job.data.bump,
            }),
        ),
        provider_at == derived_at(
            a.provider.key,
            (PdaSigner {
                seeds: Seeds::Provider { authority: a.authority },
                bump: a.provider.data.bump,
            }),
        ),
    ensures
        v == r,
{
}

/// Configuration, job, vault and provider are at their addresses; the rent goes to the job's
/// requester, the provider is the job's, and payout account and treasury are those that the
/// records name, in the payment mint.
///
/// The first of these rules that is broken is the answer; where none is, the accounts are
/// taken.
pub proof fn settlement_takes_the_right_accounts(
    a: SettleJob,
    config_at: bool,
    job_at: bool,
    vault_at: bool,
    provider_at: bool,
    r: Result<(), Failure>,
)
    requires
        call_ensures(SettleJob::check, (&a, config_at, job_at, vault_at, provider_at), r),
    ensures
        ({
            let c1 = config_at;
            let c2 = a.requester == a.job.data.requester;
            let c3 = job_at;
            let c4 = a.job.data.provider == a.provider.key;
            let c5 = a.job.key != a.requester;
            let c6 = vault_at;
            let c7 = provider_at;
            let c8 = a.provider_payout.data.mint == a.config.data.usdc_mint;
            let c9 = a.provider_payout.key == a.provider.data.payout;
            let c10 = a.treasury.data.mint == a.config.data.usdc_mint;
            let c11 = a.treasury.key == a.config.data.treasury;
            &&& !c1 ==> (r matches Err(Failure::Constraint(Constraint::Seeds)))
            &&& c1 && !c2 ==> (r matches Err(Failure::Constraint(Constraint::Address)))
            &&& c1 && c2 && !c3 ==> (r matches Err(Failure::Constraint(Constraint::Seeds)))
            &&& c1 && c2 && c3 && !c4
                ==> (r matches Err(Failure::Program(CanasError::Unauthorized)))
            &&& c1 && c2 && c3 && c4 && !c5
                ==> (r matches Err(Failure::Constraint(Constraint::Close)))
            &&& c1 && c2 && c3 && c4 && c5 && !c6
                ==> (r matches Err(Failure::Constraint(Constraint::Seeds)))
            &&& c1 && c2 && c3 && c4 && c5 && c6 && !c7
                ==> (r matches Err(Failure::Constraint(Constraint::Seeds)))
            &&& c1 && c2 && c3 && c4 && c5 && c6 && c7 && !c8
                ==> (r matches Err(Failure::Program(CanasError::WrongMint)))
            &&& c1 && c2 && c3 && c4 && c5 && c6 && c7 && c8 && !c9
                ==> (r matches Err(Failure::Program(CanasError::WrongDestination)))
            &&& c1 && c2 && c3 && c4 && c5 && c6 && c7 && c8 && c9 && !c10
                ==> (r matches Err(Failure::Program(CanasError::WrongMint)))
            &&& c1 && c2 && c3 && c4 && c5 && c6 && c7 && c8 && c9 && c10 && !c11
                ==> (r matches Err(Failure::Program(CanasError::WrongDestination)))
            &&& c1 && c2 && c3 && c4 && c5 && c6 && c7 && c8 && c9 && c10 && c11 ==> r is Ok
        }),
{
}

/// An account of the program counts only at the address that its own seeds derive.
pub proof fn settlement_looks_where_the_seeds_point(
    a: SettleJob,
    config_at: bool,
    job_at: bool,
    vault_at: bool,
    provider_at: bool,
    r: Result<(), Failure>,
    v: Result<(), Failure>,
)
    requires
        call_ensures(SettleJob::check, (&a, config_at, job_at, vault_at, provider_at), r),
        call_ensures(SettleJob::validate, (&a,), v),
        config_at == derived_at(
            a.config.key,
            (PdaSigner { seeds: Seeds::Config, bump: a.config.data.bump }),
        ),
        job_at == derived_at(
            a.job.key,
            (PdaSigner {
                seeds: Seeds::Job {
                    requester: a.job.data.requester,
                    nonce: a.job.data.nonce,
                },
                bump: a.job.data.bump,
            }),
        ),
        vault_at == found_key(a.vault.key, (Seeds::Vault { job: a.job.key })),
        provider_at == derived_at(
            a.provider.key,
            (PdaSigner {
                seeds: Seeds::Provider { authority: a.provider.data.authority },
                bump: a.provider.data.bump,
            }),
        ),
    ensures
        v == r,
{
}

/// Configuration, job and vault are at their addresses; the rent goes to the job's requester,
/// and so do the tokens, in the job's mint.
///
/// The first of these rules that is broken is the answer; where none is, the accounts are
/// taken.
pub proof fn cancellation_takes_the_right_accounts(
    a: CancelJob,
    config_at: bool,
    job_at: bool,
    vault_at: bool,
    r: Result<(), Failure>,
)
    requires
        call_ensures(CancelJob::check, (&a, config_at, job_at, vault_at), r),
    ensures
        ({
            let c1 = config_at;
            let c2 = a.requester == a.job.data.requester;
            let c3 = job_at;
            let c4 = a.job.key != a.requester;
            let c5 = vault_at;
            let c6 = a.requester_token.data.mint == a.job.data.mint;
            let c7 = a.requester_token.data.owner == a.job.data.requester;
            &&& !c1 ==> (r matches Err(Failure::Constraint(Constraint::Seeds)))
            &&& c1 && !c2 ==> (r matches Err(Failure::Constraint(Constraint::Address)))
            &&& c1 && c2 && !c3 ==> (r matches Err(Failure::Constraint(Constraint::Seeds)))
            &&& c1 && c2 && c3 && !c4 ==> (r matches Err(Failure::Constraint(Constraint::Close)))
            &&& c1 && c2 && c3 && c4 && !c5
                ==> (r matches Err(Failure::Constraint(Constraint::Seeds)))
            &&& c1 && c2 && c3 && c4 && c5 && !c6
                ==> (r matches Err(Failure::Program(CanasError::WrongMint)))
            &&& c1 && c2 && c3 && c4 && c5 && c6 && !c7
                ==> (r matches Err(Failure::Program(CanasError::WrongDestination)))
            &&& c1 && c2 && c3 && c4 && c5 && c6 && c7 ==> r is Ok
        }),
{
}

/// An account of the program counts only at the address that its own seeds derive.
pub proof fn cancellation_looks_where_the_seeds_point(
    a: CancelJob,
    config_at: bool,
    job_at: bool,
    vault_at: bool,
    r: Result<(), Failure>,
    v: Result<(), Failure>,
)
    requires
        call_ensures(CancelJob::check, (&a, config_at, job_at, vault_at), r),
        call_ensures(CancelJob::validate, (&a,), v),
        config_at == derived_at(
            a.config.key,
            (PdaSigner { seeds: Seeds::Config, bump: a.config.data.bump }),
        ),
        job_at == derived_at(
            a.job.key,
            (PdaSigner {
                seeds: Seeds::Job {
                    requester: a.job.data.requester,
                    nonce: a.job.data.nonce,
                },
                bump: a.job.data.bump,
            }),
        ),
        vault_at == found_key(a.vault.key, (Seeds::Vault { job: a.job.key })),
    ensures
        v == r,
{
}

/// Configuration, job, vault and provider are at their addresses; the provider is the job's,
/// the rent goes to the job's requester, and so do the tokens, in the job's mint.
///
/// The first of these rules that is broken is the answer; where none is, the accounts are
/// taken.
pub proof fn refund_takes_the_right_accounts(
    a: RefundJob,
    config_at: bool,
    job_at: bool,
    vault_at: bool,
    provider_at: bool,
    r: Result<(), Failure>,
)
    requires
        call_ensures(RefundJob::check, (&a, config_at, job_at, vault_at, provider_at), r),
    ensures
        ({
            let c1 = config_at;
            let c2 = a.requester == a.job.data.requester;
            let c3 = job_at;
            let c4 = a.job.data.provider == a.provider.key;
            let c5 = a.job.key != a.requester;
            let c6 = vault_at;
            let c7 = provider_at;
            let c8 = a.requester_token.data.mint == a.job.data.mint;
            let c9 = a.requester_token.data.owner == a.job.data.requester;
            &&& !c1 ==> (r matches Err(Failure::Constraint(Constraint::Seeds)))
            &&& c1 && !c2 ==> (r matches Err(Failure::Constraint(Constraint::Address)))
            &&& c1 && c2 && !c3 ==> (r matches Err(Failure::Constraint(Constraint::Seeds)))
            &&& c1 && c2 && c3 && !c4
                ==> (r matches Err(Failure::Program(CanasError::Unauthorized)))
            &&& c1 && c2 && c3 && c4 && !c5
                ==> (r matches Err(Failure::Constraint(Constraint::Close)))
            &&& c1 && c2 && c3 && c4 && c5 && !c6
                ==> (r matches Err(Failure::Constraint(Constraint::Seeds)))
            &&& c1 && c2 && c3 && c4 && c5 && c6 && !c7
                ==> (r matches Err(Failure::Constraint(Constraint::Seeds)))
            &&& c1 && c2 && c3 && c4 && c5 && c6 && c7 && !c8
                ==> (r matches Err(Failure::Program(CanasError::WrongMint)))
            &&& c1 && c2 && c3 && c4 && c5 && c6 && c7 && c8 && !c9
                ==> (r matches Err(Failure::Program(CanasError::WrongDestination)))
            &&& c1 && c2 && c3 && c4 && c5 && c6 && c7 && c8 && c9 ==> r is Ok
        }),
{
}

/// An account of the program counts only at the address that its own seeds derive.
pub proof fn refund_looks_where_the_seeds_point(
    a: RefundJob,
    config_at: bool,
    job_at: bool,
    vault_at: bool,
    provider_at: bool,
    r: Result<(), Failure>,
    v: Result<(), Failure>,
)
    requires
        call_ensures(RefundJob::check, (&a, config_at, job_at, vault_at, provider_at), r),
        call_ensures(RefundJob::validate, (&a,), v),
        config_at == derived_at(
            a.config.key,
            (PdaSigner { seeds: Seeds::Config, bump: a.config.data.bump }),
        ),
        job_at == derived_at(
            a.job.key,
            (PdaSigner {
                seeds: Seeds::Job {
                    requester: a.job.data.requester,
                    nonce: a.job.data.nonce,
                },
                bump: a.job.data.bump,
            }),
        ),
        vault_at == found_key(a.vault.key, (Seeds::Vault { job: a.job.key })),
        provider_at == derived_at(
            a.provider.key,
            (PdaSigner {
                seeds: Seeds::Provider { authority: a.provider.data.authority },
                bump: a.provider.data.bump,
            }),
        ),
    ensures
        v == r,
{
}

// ---- the rules come first ----

/// Called from outside, `initialize` answers with the broken rule and changes
/// nothing; where none is broken it does what the instruction does.
pub proof fn setup_begins_with_the_rules(
    a: &mut Initialize,
    b: &mut Initialize,
    treasury: Pubkey,
    provider_bps: u16,
    verifier_bps: u16,
    protocol_bps: u16,
    dispute_window: i64,
    v: Result<(), Failure>,
    q: Result<(), CanasError>,
    r: Result<(), Failure>,
)
    requires
        *old(a) == *old(b),
        call_ensures(Initialize::validate, (old(a),), v),
        call_ensures(admin::initialize, (b, treasury, provider_bps, verifier_bps, protocol_bps,
            dispute_window), q),
        call_ensures(program::initialize, (a, treasury, provider_bps, verifier_bps, protocol_bps,
            dispute_window), r),
    ensures
        v matches Err(failure)
            ==> (r matches Err(answer) && answer == failure) && *final(a) == *old(a),
        v is Ok ==> r == (match q {
            Ok(t) => Ok(t),
            Err(error) => Err(Failure::Program(error)),
        }) && *final(a) == *final(b),
{
}

/// Called from outside, `set_mints` answers with the broken rule and changes
/// nothing; where none is broken it does what the instruction does.
pub proof fn wiring_begins_with_the_rules(
    a: &mut AdminOnly,
    b: &mut AdminOnly,
    usdc_mint: Pubkey,
    cnsnet_mint: Pubkey,
    v: Result<(), Failure>,
    q: Result<(), CanasError>,
    r: Result<(), Failure>,
)
    requires
        *old(a) == *old(b),
        call_ensures(AdminOnly::validate, (old(a),), v),
        call_ensures(admin::set_mints, (b, usdc_mint, cnsnet_mint), q),
        call_ensures(program::set_mints, (a, usdc_mint, cnsnet_mint), r),
    ensures
        v matches Err(failure)
            ==> (r matches Err(answer) && answer == failure) && *final(a) == *old(a),
        v is Ok ==> r == (match q {
            Ok(t) => Ok(t),
            Err(error) => Err(Failure::Program(error)),
        }) && *final(a) == *final(b),
{
}

/// Called from outside, `set_params` answers with the broken rule and changes
/// nothing; where none is broken it does what the instruction does.
pub proof fn tuning_begins_with_the_rules(
    a: &mut AdminOnly,
    b: &mut AdminOnly,
    provider_bps: u16,
    verifier_bps: u16,
    protocol_bps: u16,
    dispute_window: i64,
    treasury: Pubkey,
    v: Result<(), Failure>,
    q: Result<(), CanasError>,
    r: Result<(), Failure>,
)
    requires
        *old(a) == *old(b),
        call_ensures(AdminOnly::validate, (old(a),), v),
        call_ensures(admin::set_params, (b, provider_bps, verifier_bps, protocol_bps,
            dispute_window, treasury), q),
        call_ensures(program::set_params, (a, provider_bps, verifier_bps, protocol_bps,
            dispute_window, treasury), r),
    ensures
        v matches Err(failure)
            ==> (r matches Err(answer) && answer == failure) && *final(a) == *old(a),
        v is Ok ==> r == (match q {
            Ok(t) => Ok(t),
            Err(error) => Err(Failure::Program(error)),
        }) && *final(a) == *final(b),
{
}

/// Called from outside, `set_paused` answers with the broken rule and changes
/// nothing; where none is broken it does what the instruction does.
pub proof fn pausing_begins_with_the_rules(
    a: &mut AdminOnly,
    b: &mut AdminOnly,
    paused: bool,
    v: Result<(), Failure>,
    q: Result<(), CanasError>,
    r: Result<(), Failure>,
)
    requires
        *old(a) == *old(b),
        call_ensures(AdminOnly::validate, (old(a),), v),
        call_ensures(admin::set_paused, (b, paused), q),
        call_ensures(program::set_paused, (a, paused), r),
    ensures
        v matches Err(failure)
            ==> (r matches Err(answer) && answer == failure) && *final(a) == *old(a),
        v is Ok ==> r == (match q {
            Ok(t) => Ok(t),
            Err(error) => Err(Failure::Program(error)),
        }) && *final(a) == *final(b),
{
}

/// Called from outside, `set_admin` answers with the broken rule and changes
/// nothing; where none is broken it does what the instruction does.
pub proof fn handing_over_begins_with_the_rules(
    a: &mut AdminOnly,
    b: &mut AdminOnly,
    new_admin: Pubkey,
    v: Result<(), Failure>,
    q: Result<(), CanasError>,
    r: Result<(), Failure>,
)
    requires
        *old(a) == *old(b),
        call_ensures(AdminOnly::validate, (old(a),), v),
        call_ensures(admin::set_admin, (b, new_admin), q),
        call_ensures(program::set_admin, (a, new_admin), r),
    ensures
        v matches Err(failure)
            ==> (r matches Err(answer) && answer == failure) && *final(a) == *old(a),
        v is Ok ==> r == (match q {
            Ok(t) => Ok(t),
            Err(error) => Err(Failure::Program(error)),
        }) && *final(a) == *final(b),
{
}

/// Called from outside, `close_config` answers with the broken rule and changes
/// nothing; where none is broken it does what the instruction does.
pub proof fn config_closing_begins_with_the_rules(
    a: CloseConfig,
    v: Result<(), Failure>,
    q: Result<Closed, CanasError>,
    r: Result<Closed, Failure>,
)
    requires
        call_ensures(CloseConfig::validate, (&a,), v),
        call_ensures(admin::close_config, (&a,), q),
        call_ensures(program::close_config, (&a,), r),
    ensures
        v matches Err(failure) ==> (r matches Err(answer) && answer == failure),
        v is Ok ==> r == (match q {
            Ok(t) => Ok(t),
            Err(error) => Err(Failure::Program(error)),
        }),
{
}

/// Called from outside, `register_provider` answers with the broken rule and changes
/// nothing; where none is broken it does what the instruction does.
pub proof fn registration_begins_with_the_rules(
    a: &mut RegisterProvider,
    b: &mut RegisterProvider,
    bond_amount: u64,
    replies: Vec<TokenReply>,
    v: Result<(), Failure>,
    q: Result<Step<ProviderRegistered>, Failure>,
    r: Result<Step<ProviderRegistered>, Failure>,
)
    requires
        *old(a) == *old(b),
        call_ensures(RegisterProvider::validate, (old(a),), v),
        call_ensures(providers::register_provider, (b, bond_amount, &replies), q),
        call_ensures(program::register_provider, (a, bond_amount, &replies), r),
    ensures
        v matches Err(failure)
            ==> (r matches Err(answer) && answer == failure) && *final(a) == *old(a),
        v is Ok ==> r == q && *final(a) == *final(b),
{
}

/// Called from outside, `top_up_bond` answers with the broken rule and changes
/// nothing; where none is broken it does what the instruction does.
pub proof fn top_up_begins_with_the_rules(
    a: &mut TopUpBond,
    b: &mut TopUpBond,
    amount: u64,
    replies: Vec<TokenReply>,
    v: Result<(), Failure>,
    q: Result<Step<()>, Failure>,
    r: Result<Step<()>, Failure>,
)
    requires
        *old(a) == *old(b),
        call_ensures(TopUpBond::validate, (old(a),), v),
        call_ensures(providers::top_up_bond, (b, amount, &replies), q),
        call_ensures(program::top_up_bond, (a, amount, &replies), r),
    ensures
        v matches Err(failure)
            ==> (r matches Err(answer) && answer == failure) && *final(a) == *old(a),
        v is Ok ==> r == q && *final(a) == *final(b),
{
}

/// Called from outside, `close_provider` answers with the broken rule and changes
/// nothing; where none is broken it does what the instruction does.
pub proof fn provider_closing_begins_with_the_rules(
    a: CloseProvider,
    replies: Vec<TokenReply>,
    v: Result<(), Failure>,
    q: Result<Step<Closed>, Failure>,
    r: Result<Step<Closed>, Failure>,
)
    requires
        call_ensures(CloseProvider::validate, (&a,), v),
        call_ensures(providers::close_provider, (&a, &replies), q),
        call_ensures(program::close_provider, (&a, &replies), r),
    ensures
        v matches Err(failure) ==> (r matches Err(answer) && answer == failure),
        v is Ok ==> r == q,
{
}

/// Called from outside, `slash_provider` answers with the broken rule and changes
/// nothing; where none is broken it does what the instruction does.
pub proof fn slash_begins_with_the_rules(
    a: &mut SlashProvider,
    b: &mut SlashProvider,
    amount: u64,
    reputation_penalty: u32,
    replies: Vec<TokenReply>,
    v: Result<(), Failure>,
    q: Result<Step<ProviderSlashed>, Failure>,
    r: Result<Step<ProviderSlashed>, Failure>,
)
    requires
        *old(a) == *old(b),
        call_ensures(SlashProvider::validate, (old(a),), v),
        call_ensures(providers::slash_provider, (b, amount, reputation_penalty, &replies), q),
        call_ensures(program::slash_provider, (a, amount, reputation_penalty, &replies), r),
    ensures
        v matches Err(failure)
            ==> (r matches Err(answer) && answer == failure) && *final(a) == *old(a),
        v is Ok ==> r == q && *final(a) == *final(b),
{
}

/// Called from outside, `create_job` answers with the broken rule and changes
/// nothing; where none is broken it does what the instruction does.
pub proof fn opening_begins_with_the_rules(
    a: &mut CreateJob,
    b: &mut CreateJob,
    amount: u64,
    params_hash: [u8; 32],
    model_hash: [u8; 32],
    now: i64,
    replies: Vec<TokenReply>,
    v: Result<(), Failure>,
    q: Result<Step<JobCreated>, Failure>,
    r: Result<Step<JobCreated>, Failure>,
)
    requires
        *old(a) == *old(b),
        call_ensures(CreateJob::validate, (old(a),), v),
        call_ensures(jobs::create_job, (b, amount, params_hash, model_hash, now, &replies), q),
        call_ensures(program::create_job, (a, amount, params_hash, model_hash, now, &replies), r),
    ensures
        v matches Err(failure)
            ==> (r matches Err(answer) && answer == failure) && *final(a) == *old(a),
        v is Ok ==> r == q && *final(a) == *final(b),
{
}

/// Called from outside, `assign_job` answers with the broken rule and changes
/// nothing; where none is broken it does what the instruction does.
pub proof fn routing_begins_with_the_rules(
    a: &mut AssignJob,
    b: &mut AssignJob,
    now: i64,
    v: Result<(), Failure>,
    q: Result<JobAssigned, CanasError>,
    r: Result<JobAssigned, Failure>,
)
    requires
        *old(a) == *old(b),
        call_ensures(AssignJob::validate, (old(a),), v),
        call_ensures(jobs::assign_job, (b, now), q),
        call_ensures(program::assign_job, (a, now), r),
    ensures
        v matches Err(failure)
            ==> (r matches Err(answer) && answer == failure) && *final(a) == *old(a),
        v is Ok ==> r == (match q {
            Ok(t) => Ok(t),
            Err(error) => Err(Failure::Program(error)),
        }) && *final(a) == *final(b),
{
}

/// Called from outside, `deliver_job` answers with the broken rule and changes
/// nothing; where none is broken it does what the instruction does.
pub proof fn delivery_begins_with_the_rules(
    a: &mut DeliverJob,
    b: &mut DeliverJob,
    output_phash: [u8; 32],
    now: i64,
    v: Result<(), Failure>,
    q: Result<JobDelivered, CanasError>,
    r: Result<JobDelivered, Failure>,
)
    requires
        *old(a) == *old(b),
        call_ensures(DeliverJob::validate, (old(a),), v),
        call_ensures(jobs::deliver_job, (b, output_phash, now), q),
        call_ensures(program::deliver_job, (a, output_phash, now), r),
    ensures
        v matches Err(failure)
            ==> (r matches Err(answer) && answer == failure) && *final(a) == *old(a),
        v is Ok ==> r == (match q {
            Ok(t) => Ok(t),
            Err(error) => Err(Failure::Program(error)),
        }) && *final(a) == *final(b),
{
}

/// Called from outside, `settle_job` answers with the broken rule and changes
/// nothing; where none is broken it does what the instruction does.
pub proof fn settlement_begins_with_the_rules(
    a: &mut SettleJob,
    b: &mut SettleJob,
    now: i64,
    replies: Vec<TokenReply>,
    v: Result<(), Failure>,
    q: Result<Step<Closing<JobSettled>>, Failure>,
    r: Result<Step<Closing<JobSettled>>, Failure>,
)
    requires
        *old(a) == *old(b),
        call_ensures(SettleJob::validate, (old(a),), v),
        call_ensures(jobs::settle_job, (b, now, &replies), q),
        call_ensures(program::settle_job, (a, now, &replies), r),
    ensures
        v matches Err(failure)
            ==> (r matches Err(answer) && answer == failure) && *final(a) == *old(a),
        v is Ok ==> r == q && *final(a) == *final(b),
{
}

/// Called from outside, `cancel_job` answers with the broken rule and changes
/// nothing; where none is broken it does what the instruction does.
pub proof fn cancellation_begins_with_the_rules(
    a: CancelJob,
    replies: Vec<TokenReply>,
    v: Result<(), Failure>,
    q: Result<Step<Closing<JobRefunded>>, Failure>,
    r: Result<Step<Closing<JobRefunded>>, Failure>,
)
    requires
        call_ensures(CancelJob::validate, (&a,), v),
        call_ensures(jobs::cancel_job, (&a, &replies), q),
        call_ensures(program::cancel_job, (&a, &replies), r),
    ensures
        v matches Err(failure) ==> (r matches Err(answer) && answer == failure),
        v is Ok ==> r == q,
{
}

/// Called from outside, `refund_job` answers with the broken rule and changes
/// nothing; where none is broken it does what the instruction does.
pub proof fn refund_begins_with_the_rules(
    a: &mut RefundJob,
    b: &mut RefundJob,
    reputation_penalty: u32,
    now: i64,
    replies: Vec<TokenReply>,
    v: Result<(), Failure>,
    q: Result<Step<Closing<JobRefunded>>, Failure>,
    r: Result<Step<Closing<JobRefunded>>, Failure>,
)
    requires
        *old(a) == *old(b),
        call_ensures(RefundJob::validate, (old(a),), v),
        call_ensures(jobs::refund_job, (b, reputation_penalty, now, &replies), q),
        call_ensures(program::refund_job, (a, reputation_penalty, now, &replies), r),
    ensures
        v matches Err(failure)
            ==> (r matches Err(answer) && answer == failure) && *final(a) == *old(a),
        v is Ok ==> r == q && *final(a) == *final(b),
{
}

// ---- who may, and whom it pays ----

/// `set_mints` changes the configuration only where the admin has signed.
pub proof fn only_the_admin_wires_the_mints(
    a: &mut AdminOnly,
    usdc_mint: Pubkey,
    cnsnet_mint: Pubkey,
    r: Result<(), Failure>,
)
    requires
        call_ensures(program::set_mints, (a, usdc_mint, cnsnet_mint), r),
    ensures
        *final(a) != *old(a) || r is Ok ==> old(a).admin == old(a).config.data.admin,
        final(a).config.key == old(a).config.key && final(a).admin == old(a).admin,
{
}

/// `set_params` changes the configuration only where the admin has signed.
pub proof fn only_the_admin_tunes(
    a: &mut AdminOnly,
    provider_bps: u16,
    verifier_bps: u16,
    protocol_bps: u16,
    dispute_window: i64,
    treasury: Pubkey,
    r: Result<(), Failure>,
)
    requires
        call_ensures(program::set_params, (a, provider_bps, verifier_bps, protocol_bps,
            dispute_window, treasury), r),
    ensures
        *final(a) != *old(a) || r is Ok ==> old(a).admin == old(a).config.data.admin,
        final(a).config.key == old(a).config.key && final(a).admin == old(a).admin,
{
}

/// `set_paused` changes the configuration only where the admin has signed.
pub proof fn only_the_admin_pauses(
    a: &mut AdminOnly,
    paused: bool,
    r: Result<(), Failure>,
)
    requires
        call_ensures(program::set_paused, (a, paused), r),
    ensures
        *final(a) != *old(a) || r is Ok ==> old(a).admin == old(a).config.data.admin,
        final(a).config.key == old(a).config.key && final(a).admin == old(a).admin,
{
}

/// `set_admin` changes the configuration only where the admin has signed.
pub proof fn only_the_admin_hands_over(
    a: &mut AdminOnly,
    new_admin: Pubkey,
    r: Result<(), Failure>,
)
    requires
        call_ensures(program::set_admin, (a, new_admin), r),
    ensures
        *final(a) != *old(a) || r is Ok ==> old(a).admin == old(a).config.data.admin,
        final(a).config.key == old(a).config.key && final(a).admin == old(a).admin,
{
}

/// The configuration is closed only where the admin has signed, who gets the rent.
pub proof fn only_the_admin_closes_the_configuration(
    a: CloseConfig,
    r: Result<Closed, Failure>,
)
    requires
        call_ensures(program::close_config, (&a,), r),
    ensures
        r matches Ok(closed)
            ==> a.admin == a.config.data.admin && closed.rent_to == a.config.data.admin,
{
}

/// A job is routed only where the admin has signed.
pub proof fn only_the_admin_routes(
    a: &mut AssignJob,
    now: i64,
    r: Result<JobAssigned, Failure>,
)
    requires
        call_ensures(program::assign_job, (a, now), r),
    ensures
        r is Ok ==> old(a).admin == old(a).config.data.admin,
{
}

/// A bond is slashed only where the admin has signed, and only into an account of its mint.
pub proof fn only_the_admin_slashes(
    a: &mut SlashProvider,
    amount: u64,
    reputation_penalty: u32,
    replies: Vec<TokenReply>,
    r: Result<Step<ProviderSlashed>, Failure>,
)
    requires
        call_ensures(program::slash_provider, (a, amount, reputation_penalty, &replies), r),
    ensures
        r is Ok ==> old(a).admin == old(a).config.data.admin,
        r is Ok ==> old(a).slash_destination.data.mint == old(a).bond_vault.data.mint,
{
}

/// An output is attested only by the authority of the provider that the job is assigned to.
pub proof fn only_the_assigned_provider_delivers(
    a: &mut DeliverJob,
    output_phash: [u8; 32],
    now: i64,
    r: Result<JobDelivered, Failure>,
)
    requires
        call_ensures(program::deliver_job, (a, output_phash, now), r),
    ensures
        r is Ok ==> old(a).job.data.provider == old(a).provider.key,
        r is Ok ==> old(a).provider.data.authority == old(a).authority,
{
}

/// A bond grows only by tokens that the signing authority of the record owns.
pub proof fn only_the_authority_tops_up(
    a: &mut TopUpBond,
    amount: u64,
    replies: Vec<TokenReply>,
    r: Result<Step<()>, Failure>,
)
    requires
        call_ensures(program::top_up_bond, (a, amount, &replies), r),
    ensures
        r is Ok ==> old(a).provider.data.authority == old(a).authority
            && old(a).provider_token.data.owner == old(a).authority,
{
}

/// A provider is closed only by its authority, and its bond goes to tokens that it owns.
pub proof fn only_the_authority_closes_its_record(
    a: CloseProvider,
    replies: Vec<TokenReply>,
    r: Result<Step<Closed>, Failure>,
)
    requires
        call_ensures(program::close_provider, (&a, &replies), r),
    ensures
        r is Ok ==> a.provider.data.authority == a.authority,
        r matches Ok(Step::Call(TokenCall::Transfer { to, .. })) ==> to
            == a.provider_token.key && a.provider_token.data.owner == a.provider.data.authority,
{
}

/// A settlement is called by the requester or the admin, and pays nobody but the payout account
/// of the assigned provider and the treasury of the configuration.
pub proof fn settlement_pays_nobody_else(
    a: &mut SettleJob,
    now: i64,
    replies: Vec<TokenReply>,
    r: Result<Step<Closing<JobSettled>>, Failure>,
)
    requires
        call_ensures(program::settle_job, (a, now, &replies), r),
    ensures
        r is Ok ==> old(a).authority == old(a).job.data.requester || old(a).authority
            == old(a).config.data.admin,
        r is Ok ==> old(a).job.data.provider == old(a).provider.key,
        r matches Ok(Step::Call(TokenCall::Transfer { from, to, .. })) ==> from
            == old(a).vault.key && (to == old(a).provider.data.payout || to
            == old(a).config.data.treasury),
        r matches Ok(Step::Done(e)) ==> e.closed.rent_to == old(a).job.data.requester,
{
}

/// A cancellation is called by the requester or the admin, and pays nobody but the requester,
/// in the mint of the job.
pub proof fn cancellation_pays_nobody_but_the_requester(
    a: CancelJob,
    replies: Vec<TokenReply>,
    r: Result<Step<Closing<JobRefunded>>, Failure>,
)
    requires
        call_ensures(program::cancel_job, (&a, &replies), r),
    ensures
        r is Ok ==> a.authority == a.job.data.requester || a.authority == a.config.data.admin,
        r is Ok ==> a.requester_token.data.owner == a.job.data.requester
            && a.requester_token.data.mint == a.job.data.mint,
        r matches Ok(Step::Call(TokenCall::Transfer { from, to, .. }))
            ==> from == a.vault.key && to == a.requester_token.key,
        r matches Ok(Step::Done(e)) ==> e.closed.rent_to == a.job.data.requester,
{
}

/// A refund is called by the requester or the admin, and pays nobody but the requester, in the
/// mint of the job.
pub proof fn refund_pays_nobody_but_the_requester(
    a: &mut RefundJob,
    reputation_penalty: u32,
    now: i64,
    replies: Vec<TokenReply>,
    r: Result<Step<Closing<JobRefunded>>, Failure>,
)
    requires
        call_ensures(program::refund_job, (a, reputation_penalty, now, &replies), r),
    ensures
        r is Ok ==> old(a).authority == old(a).job.data.requester || old(a).authority
            == old(a).config.data.admin,
        r is Ok ==> old(a).job.data.provider == old(a).provider.key,
        r is Ok ==> old(a).requester_token.data.owner == old(a).job.data.requester
            && old(a).requester_token.data.mint == old(a).job.data.mint,
        r matches Ok(Step::Call(TokenCall::Transfer { from, to, .. }))
            ==> from == old(a).vault.key && to == old(a).requester_token.key,
        r matches Ok(Step::Done(e)) ==> e.closed.rent_to == old(a).job.data.requester,
{
}

// ---- addresses ----

/// A key is the derived one if and only if the derivation, for this program, gives its
/// bytes; so no seeds with their bump derive two keys.
pub proof fn derivation_gives_one_key(s: PdaSigner, key: Pubkey, other: Pubkey, r: bool, q: bool)
    requires
        call_ensures(PdaSigner::is_at, (&s, &key), r),
        call_ensures(PdaSigner::is_at, (&s, &other), q),
    ensures
        r <==> program_address(s.parts(), program_id()) == Some(key@),
        r == derived_at(key, s),
        r && q ==> key == other,
{
    if r && q {
        lemma_bytes_determine_key(key, other);
    }
}

/// A key is the found one if and only if the search, for this program, gives its bytes, and
/// with the bump if it gives that bump; so no seeds have two found keys or two bumps.
pub proof fn search_gives_one_key(
    s: Seeds,
    key: Pubkey,
    bump: u8,
    other: Pubkey,
    r: bool,
    q: bool,
    o: bool,
)
    requires
        call_ensures(Seeds::is_found_with, (&s, &key, bump), r),
        call_ensures(Seeds::is_found, (&s, &key), q),
        call_ensures(Seeds::is_found, (&s, &other), o),
    ensures
        r <==> found_address(s.parts(), program_id()) == Some((key@, bump)),
        r == found_at(key, s, bump),
        r ==> q,
        r ==> program_address(s.parts().push(seq![bump]), program_id()) == Some(key@),
        q == found_key(key, s),
        q ==> (found_address(s.parts(), program_id()) matches Some((bytes, _)) && bytes == key@),
        q && o ==> key == other,
{
    if q && o {
        lemma_bytes_determine_key(key, other);
    }
}

/// The seeds are a label and then the fields, byte for byte; a nonce is in little-endian
/// order.
pub proof fn seeds_are_labels_and_fields(s: Seeds, r: Vec<Vec<u8>>)
    requires
        call_ensures(Seeds::to_parts, (&s,), r),
    ensures
        r.deep_view() == s.parts(),
        match s {
            Seeds::Config => {
                &&& r.deep_view().len() == 1
                &&& r.deep_view()[0] == seq![0x63u8, 0x6f, 0x6e, 0x66, 0x69, 0x67]
            },
            Seeds::Provider { authority } => {
                &&& r.deep_view().len() == 2
                &&& r.deep_view()[0] == seq![0x70u8, 0x72, 0x6f, 0x76, 0x69, 0x64, 0x65, 0x72]
                &&& r.deep_view()[1] == authority.bytes@
            },
            Seeds::Job { requester, nonce } => {
                &&& r.deep_view().len() == 3
                &&& r.deep_view()[0] == seq![0x6au8, 0x6f, 0x62]
                &&& r.deep_view()[1] == requester.bytes@
                &&& r.deep_view()[2] == vstd::bytes::spec_u64_to_le_bytes(nonce)
            },
            Seeds::Bond { provider } => {
                &&& r.deep_view().len() == 2
                &&& r.deep_view()[0] == seq![0x62u8, 0x6f, 0x6e, 0x64]
                &&& r.deep_view()[1] == provider.bytes@
            },
            Seeds::Vault { job } => {
                &&& r.deep_view().len() == 2
                &&& r.deep_view()[0] == seq![0x76u8, 0x61, 0x75, 0x6c, 0x74]
                &&& r.deep_view()[1] == job.bytes@
            },
        },
{
}

/// Different seeds are never the same byte strings, with whatever bump.
pub proof fn seeds_are_told_apart(s: PdaSigner, t: PdaSigner)
    ensures
        s.parts() == t.parts() <==> s == t,
{
    let (p, q) = (s.parts(), t.parts());
    if p == q {
        let (i, j) = (s.seeds.parts(), t.seeds.parts());
        assert(p.drop_last() =~= i && q.drop_last() =~= j);
        assert(p.last()[0] == s.bump && q.last()[0] == t.bump);
        assert(i[0].len() == j[0].len());
        vstd::bytes::lemma_auto_spec_u64_to_from_le_bytes();
        match (s.seeds, t.seeds) {
            (Seeds::Provider { authority: x }, Seeds::Provider { authority: y }) => {
                assert(i[1] == j[1]);
                lemma_bytes_determine_key(x, y);
            },
            (Seeds::Job { requester: x, nonce: m }, Seeds::Job { requester: y, nonce: n }) => {
                assert(i[1] == j[1] && i[2] == j[2]);
                lemma_bytes_determine_key(x, y);
            },
            (Seeds::Bond { provider: x }, Seeds::Bond { provider: y }) => {
                assert(i[1] == j[1]);
                lemma_bytes_determine_key(x, y);
            },
            (Seeds::Vault { job: x }, Seeds::Vault { job: y }) => {
                assert(i[1] == j[1]);
                lemma_bytes_determine_key(x, y);
            },
            _ => {},
        }
    }
}

/// The bump is the last of the byte strings, and a string of one byte.
pub proof fn bump_is_the_last_seed(s: PdaSigner, r: Vec<Vec<u8>>, q: Vec<Vec<u8>>)
    requires
        call_ensures(PdaSigner::to_parts, (&s,), r),
        call_ensures(Seeds::to_parts, (&s.seeds,), q),
    ensures
        r.deep_view().len() == q.deep_view().len() + 1,
        r.deep_view().drop_last() == q.deep_view(),
        r.deep_view().last() == seq![s.bump],
{
    assert(r.deep_view().drop_last() =~= q.deep_view());
}

/// A record signs with the seeds that it holds, and with its own bump.
pub proof fn records_sign_with_their_own_seeds(
    c: Config,
    p: Provider,
    j: Job,
    r: PdaSigner,
    s: PdaSigner,
    t: PdaSigner,
)
    requires
        call_ensures(Config::to_signer, (&c,), r),
        call_ensures(Provider::to_signer, (&p,), s),
        call_ensures(Job::to_signer, (&j,), t),
    ensures
        r.seeds == Seeds::Config && r.bump == c.bump,
        s.seeds == (Seeds::Provider { authority: p.authority }) && s.bump == p.bump,
        t.seeds == (Seeds::Job { requester: j.requester, nonce: j.nonce }) && t.bump == j.bump,
{
}

/// The key that stands for "not set" is all zeros, and no other key is.
pub proof fn unset_is_all_zeros(key: Pubkey)
    ensures
        key == Pubkey::unset() <==> forall|i: int| 0 <= i < 32 ==> #[trigger] key.bytes@[i] == 0,
{
    let unset = Pubkey::unset();
    assert forall|i: int| 0 <= i < 32 implies #[trigger] unset.bytes@[i] == 0 by {}
    if forall|i: int| 0 <= i < 32 ==> #[trigger] key.bytes@[i] == 0 {
        assert(key@ =~= unset@);
        lemma_bytes_determine_key(key, unset);
    }
}

// ---- texts ----

/// Each error is shown with its own text.
pub proof fn errors_are_shown_with_their_texts(error: CanasError, r: &'static str)
    requires
        call_ensures(CanasError::msg, (&error,), r),
    ensures
        error == CanasError::BadSplit ==> r@ == "fee split must sum to 10000 bps"@,
        error == CanasError::BadWindow ==> r@ == "dispute window must be non-negative"@,
        error == CanasError::Paused ==> r@ == "new jobs are paused"@,
        error == CanasError::MintNotSet ==> r@ == "mint not set yet"@,
        error == CanasError::WrongMint ==> r@ == "wrong mint"@,
        error == CanasError::WrongDestination ==> r@ == "wrong token destination"@,
        error == CanasError::ZeroAmount ==> r@ == "amount must be greater than zero"@,
        error == CanasError::JobsInFlight ==> r@ == "provider has jobs in flight"@,
        error == CanasError::ProviderInactive ==> r@ == "provider is not active"@,
        error == CanasError::InsufficientBond ==> r@ == "insufficient bond"@,
        error == CanasError::BadStatus ==> r@ == "invalid job status for this action"@,
        error == CanasError::Unauthorized ==> r@ == "unauthorized"@,
        error == CanasError::WindowNotElapsed ==> r@ == "dispute window has not elapsed"@,
        error == CanasError::MintLocked ==> r@ == "mint already set and locked"@,
        error == CanasError::Overflow ==> r@ == "arithmetic overflow"@,
{
}

} // verus!
