//! Setting up, tuning and closing the configuration.

use crate::accounts::{AdminOnly, CloseConfig, Initialize};
use crate::errors::CanasError;
use crate::events::Closed;
use crate::keys::Pubkey;
use crate::state::{Account, Config, BPS_DENOM};
use vstd::prelude::*;

verus! {

/// What is wrong with a fee split and a dispute window, if anything.
pub open spec fn params_checks(
    provider_bps: u16,
    verifier_bps: u16,
    protocol_bps: u16,
    dispute_window: i64,
) -> Result<(), CanasError> {
    if provider_bps + verifier_bps + protocol_bps != BPS_DENOM {
        Err(CanasError::BadSplit)
    } else if dispute_window < 0 {
        Err(CanasError::BadWindow)
    } else {
        Ok(())
    }
}

fn check_params(
    provider_bps: u16,
    verifier_bps: u16,
    protocol_bps: u16,
    dispute_window: i64,
) -> (r: Result<(), CanasError>)
    ensures
        r == params_checks(provider_bps, verifier_bps, protocol_bps, dispute_window),
{
    if provider_bps as u64 + verifier_bps as u64 + protocol_bps as u64 != BPS_DENOM {
        return Err(CanasError::BadSplit);
    }
    if dispute_window < 0 {
        return Err(CanasError::BadWindow);
    }
    Ok(())
}

/// The configuration that `initialize` writes.
pub open spec fn initial_config(
    admin: Pubkey,
    treasury: Pubkey,
    provider_bps: u16,
    verifier_bps: u16,
    protocol_bps: u16,
    dispute_window: i64,
    bump: u8,
) -> Config {
    Config {
        admin,
        treasury,
        usdc_mint: Pubkey::unset(),
        cnsnet_mint: Pubkey::unset(),
        provider_bps,
        verifier_bps,
        protocol_bps,
        dispute_window,
        job_count: 0,
        total_settled: 0,
        paused: false,
        bump,
    }
}

/// One-time global setup: the signer becomes admin, and the mints are left unset.
pub fn initialize(
    accounts: &mut Initialize,
    treasury: Pubkey,
    provider_bps: u16,
    verifier_bps: u16,
    protocol_bps: u16,
    dispute_window: i64,
) -> (r: Result<(), CanasError>)
    ensures
        r == params_checks(provider_bps, verifier_bps, protocol_bps, dispute_window),
        r is Err ==> *final(accounts) == *old(accounts),
        r is Ok ==> *final(accounts) == (Initialize {
            config: Account {
                data: initial_config(
                    old(accounts).admin,
                    treasury,
                    provider_bps,
                    verifier_bps,
                    protocol_bps,
                    dispute_window,
                    old(accounts).config_bump,
                ),
                ..old(accounts).config
            },
            ..*old(accounts)
        }),
{
    check_params(provider_bps, verifier_bps, protocol_bps, dispute_window)?;
    accounts.config.data = Config {
        admin: accounts.admin,
        treasury,
        usdc_mint: Pubkey::default(),
        cnsnet_mint: Pubkey::default(),
        provider_bps,
        verifier_bps,
        protocol_bps,
        dispute_window,
        job_count: 0,
        total_settled: 0,
        paused: false,
        bump: accounts.config_bump,
    };
    Ok(())
}

/// `mint` may be replaced by `new_mint`: it is unset, or nothing changes.
pub open spec fn mint_settable(mint: Pubkey, new_mint: Pubkey) -> bool {
    mint == Pubkey::unset() || mint == new_mint
}

/// What keeps the mints of `config` from being set, if anything.
pub open spec fn mints_checks(config: Config, usdc_mint: Pubkey, cnsnet_mint: Pubkey) -> Result<
    (),
    CanasError,
> {
    if mint_settable(config.usdc_mint, usdc_mint) && mint_settable(
        config.cnsnet_mint,
        cnsnet_mint,
    ) {
        Ok(())
    } else {
        Err(CanasError::MintLocked)
    }
}

/// `config` with the given mints.
pub open spec fn with_mints(config: Config, usdc_mint: Pubkey, cnsnet_mint: Pubkey) -> Config {
    Config { usdc_mint, cnsnet_mint, ..config }
}

/// `config` with the given fee split, dispute window and treasury.
pub open spec fn with_params(
    config: Config,
    provider_bps: u16,
    verifier_bps: u16,
    protocol_bps: u16,
    dispute_window: i64,
    treasury: Pubkey,
) -> Config {
    Config { provider_bps, verifier_bps, protocol_bps, dispute_window, treasury, ..config }
}

/// `config` with the opening of jobs paused or not.
pub open spec fn with_paused(config: Config, paused: bool) -> Config {
    Config { paused, ..config }
}

/// `config` under another admin.
pub open spec fn with_admin(config: Config, new_admin: Pubkey) -> Config {
    Config { admin: new_admin, ..config }
}

/// `accounts` with another configuration in the same account.
pub open spec fn reconfigured(accounts: AdminOnly, config: Config) -> AdminOnly {
    AdminOnly { config: Account { data: config, ..accounts.config }, ..accounts }
}

/// Wires the payment mint and the bond mint. Each can be set once and is then
/// locked.
pub fn set_mints(accounts: &mut AdminOnly, usdc_mint: Pubkey, cnsnet_mint: Pubkey) -> (r: Result<
    (),
    CanasError,
>)
    ensures
        r == mints_checks(old(accounts).config.data, usdc_mint, cnsnet_mint),
        r is Err ==> *final(accounts) == *old(accounts),
        r is Ok ==> *final(accounts) == reconfigured(
            *old(accounts),
            with_mints(old(accounts).config.data, usdc_mint, cnsnet_mint),
        ),
{
    let cfg = accounts.config.data;
    if cfg.usdc_mint != Pubkey::default() && cfg.usdc_mint != usdc_mint {
        return Err(CanasError::MintLocked);
    }
    if cfg.cnsnet_mint != Pubkey::default() && cfg.cnsnet_mint != cnsnet_mint {
        return Err(CanasError::MintLocked);
    }
    accounts.config.data.usdc_mint = usdc_mint;
    accounts.config.data.cnsnet_mint = cnsnet_mint;
    Ok(())
}

/// Tunes the fee split, the dispute window and the treasury.
pub fn set_params(
    accounts: &mut AdminOnly,
    provider_bps: u16,
    verifier_bps: u16,
    protocol_bps: u16,
    dispute_window: i64,
    treasury: Pubkey,
) -> (r: Result<(), CanasError>)
    ensures
        r == params_checks(provider_bps, verifier_bps, protocol_bps, dispute_window),
        r is Err ==> *final(accounts) == *old(accounts),
        r is Ok ==> *final(accounts) == reconfigured(
            *old(accounts),
            with_params(
                old(accounts).config.data,
                provider_bps,
                verifier_bps,
                protocol_bps,
                dispute_window,
                treasury,
            ),
        ),
{
    check_params(provider_bps, verifier_bps, protocol_bps, dispute_window)?;
    accounts.config.data.provider_bps = provider_bps;
    accounts.config.data.verifier_bps = verifier_bps;
    accounts.config.data.protocol_bps = protocol_bps;
    accounts.config.data.dispute_window = dispute_window;
    accounts.config.data.treasury = treasury;
    Ok(())
}

/// Pauses or resumes the opening of new jobs.
pub fn set_paused(accounts: &mut AdminOnly, paused: bool) -> (r: Result<(), CanasError>)
    ensures
        r is Ok,
        *final(accounts) == reconfigured(
            *old(accounts),
            with_paused(old(accounts).config.data, paused),
        ),
{
    accounts.config.data.paused = paused;
    Ok(())
}

/// Hands the admin role to another key.
pub fn set_admin(accounts: &mut AdminOnly, new_admin: Pubkey) -> (r: Result<(), CanasError>)
    ensures
        r is Ok,
        *final(accounts) == reconfigured(
            *old(accounts),
            with_admin(old(accounts).config.data, new_admin),
        ),
{
    accounts.config.data.admin = new_admin;
    Ok(())
}

/// Closes the configuration; its rent goes to the admin.
pub fn close_config(accounts: &CloseConfig) -> (r: Result<Closed, CanasError>)
    ensures
        r == Ok::<Closed, CanasError>(
            (Closed { account: accounts.config.key, rent_to: accounts.admin }),
        ),
{
    Ok(Closed { account: accounts.config.key, rent_to: accounts.admin })
}

} // verus!
