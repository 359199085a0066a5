//! Registering, staking, slashing and closing providers.
//!
//! An instruction that moves tokens is called with the replies that the token
//! program has given so far, none at first, and says what to call next until it
//! is finished.

use crate::accounts::{CloseProvider, RegisterProvider, SlashProvider, TopUpBond};
use crate::errors::{CanasError, Failure};
use crate::events::{Closed, ProviderRegistered, ProviderSlashed};
use crate::keys::Pubkey;
use crate::math::floor_sub;
use crate::state::{Account, Provider, REP_START};
use crate::token::{next_call, progress, Step, TokenCall, TokenReply};
use vstd::prelude::*;

verus! {

// ---- register_provider ----

/// What keeps a provider from registering, if anything.
pub open spec fn register_provider_checks(a: RegisterProvider, bond_amount: u64) -> Result<
    (),
    CanasError,
> {
    if a.config.data.cnsnet_mint == Pubkey::unset() {
        Err(CanasError::MintNotSet)
    } else if bond_amount == 0 {
        Err(CanasError::ZeroAmount)
    } else if a.payout.data.mint != a.config.data.usdc_mint {
        Err(CanasError::WrongMint)
    } else {
        Ok(())
    }
}

/// The bond goes from the authority's tokens into the bond vault.
pub open spec fn register_provider_calls(a: RegisterProvider, bond_amount: u64) -> Seq<TokenCall> {
    seq![
        TokenCall::Transfer {
            from: a.provider_token.key,
            to: a.bond_vault.key,
            authority: a.authority,
            signer: None,
            amount: bond_amount,
        },
    ]
}

/// The record of a provider that has just registered.
pub open spec fn new_provider(authority: Pubkey, payout: Pubkey, bond: u64, bump: u8) -> Provider {
    Provider {
        authority,
        payout,
        bond,
        reputation: REP_START,
        jobs_done: 0,
        total_earned: 0,
        in_flight: 0,
        active: true,
        bump,
    }
}

/// The accounts and the report once the bond is in the vault.
pub open spec fn register_provider_end(a: RegisterProvider, bond_amount: u64) -> Result<
    (RegisterProvider, ProviderRegistered),
    CanasError,
> {
    Ok(
        (
            RegisterProvider {
                provider: Account {
                    data: new_provider(a.authority, a.payout.key, bond_amount, a.provider_bump),
                    ..a.provider
                },
                ..a
            },
            ProviderRegistered {
                provider: a.provider.key,
                authority: a.authority,
                bond: bond_amount,
            },
        ),
    )
}

/// Registers a provider and stakes its first bond. `payout` will receive its
/// earnings.
pub fn register_provider(
    accounts: &mut RegisterProvider,
    bond_amount: u64,
    replies: &Vec<TokenReply>,
) -> (r: Result<Step<ProviderRegistered>, Failure>)
    ensures
        (r, *final(accounts)) == progress(
            *old(accounts),
            register_provider_checks(*old(accounts), bond_amount),
            register_provider_calls(*old(accounts), bond_amount),
            replies@,
            register_provider_end(*old(accounts), bond_amount),
        ),
{
    if accounts.config.data.cnsnet_mint == Pubkey::default() {
        return Err(Failure::Program(CanasError::MintNotSet));
    }
    if bond_amount == 0 {
        return Err(Failure::Program(CanasError::ZeroAmount));
    }
    if accounts.payout.data.mint != accounts.config.data.usdc_mint {
        return Err(Failure::Program(CanasError::WrongMint));
    }
    let calls: Vec<TokenCall> = vec![
        TokenCall::Transfer {
            from: accounts.provider_token.key,
            to: accounts.bond_vault.key,
            authority: accounts.authority,
            signer: None,
            amount: bond_amount,
        },
    ];
    assert(calls@ =~= register_provider_calls(*accounts, bond_amount));
    if let Some(call) = next_call(&calls, replies)? {
        return Ok(Step::Call(call));
    }
    accounts.provider.data = Provider {
        authority: accounts.authority,
        payout: accounts.payout.key,
        bond: bond_amount,
        reputation: REP_START,
        jobs_done: 0,
        total_earned: 0,
        in_flight: 0,
        active: true,
        bump: accounts.provider_bump,
    };
    Ok(
        Step::Done(
            ProviderRegistered {
                provider: accounts.provider.key,
                authority: accounts.authority,
                bond: bond_amount,
            },
        ),
    )
}

// ---- top_up_bond ----

/// What keeps a bond from growing, if anything.
pub open spec fn top_up_bond_checks(amount: u64) -> Result<(), CanasError> {
    if amount == 0 {
        Err(CanasError::ZeroAmount)
    } else {
        Ok(())
    }
}

/// The addition goes from the authority's tokens into the bond vault.
pub open spec fn top_up_bond_calls(a: TopUpBond, amount: u64) -> Seq<TokenCall> {
    seq![
        TokenCall::Transfer {
            from: a.provider_token.key,
            to: a.bond_vault.key,
            authority: a.authority,
            signer: None,
            amount,
        },
    ]
}

/// The accounts once the addition is in the vault.
pub open spec fn top_up_bond_end(a: TopUpBond, amount: u64) -> Result<
    (TopUpBond, ()),
    CanasError,
> {
    if a.provider.data.bond + amount > u64::MAX {
        Err(CanasError::Overflow)
    } else {
        Ok(
            (
                TopUpBond {
                    provider: Account {
                        data: Provider {
                            bond: (a.provider.data.bond + amount) as u64,
                            ..a.provider.data
                        },
                        ..a.provider
                    },
                    ..a
                },
                (),
            ),
        )
    }
}

/// Adds to the bond.
pub fn top_up_bond(accounts: &mut TopUpBond, amount: u64, replies: &Vec<TokenReply>) -> (r: Result<
    Step<()>,
    Failure,
>)
    ensures
        (r, *final(accounts)) == progress(
            *old(accounts),
            top_up_bond_checks(amount),
            top_up_bond_calls(*old(accounts), amount),
            replies@,
            top_up_bond_end(*old(accounts), amount),
        ),
{
    if amount == 0 {
        return Err(Failure::Program(CanasError::ZeroAmount));
    }
    let calls: Vec<TokenCall> = vec![
        TokenCall::Transfer {
            from: accounts.provider_token.key,
            to: accounts.bond_vault.key,
            authority: accounts.authority,
            signer: None,
            amount,
        },
    ];
    assert(calls@ =~= top_up_bond_calls(*accounts, amount));
    if let Some(call) = next_call(&calls, replies)? {
        return Ok(Step::Call(call));
    }
    match accounts.provider.data.bond.checked_add(amount) {
        Some(bond) => {
            accounts.provider.data.bond = bond;
            Ok(Step::Done(()))
        },
        None => Err(Failure::Program(CanasError::Overflow)),
    }
}

// ---- close_provider ----

/// What keeps a provider from closing, if anything.
pub open spec fn close_provider_checks(a: CloseProvider) -> Result<(), CanasError> {
    if a.provider.data.in_flight != 0 {
        Err(CanasError::JobsInFlight)
    } else {
        Ok(())
    }
}

/// Whatever the bond vault holds goes back to the authority's tokens, and the
/// vault is closed.
pub open spec fn close_provider_calls(a: CloseProvider) -> Seq<TokenCall> {
    let signer = a.provider.data.signer();
    let close = TokenCall::CloseAccount {
        account: a.bond_vault.key,
        destination: a.authority,
        authority: a.provider.key,
        signer: Some(signer),
    };
    if a.bond_vault.data.amount > 0 {
        seq![
            TokenCall::Transfer {
                from: a.bond_vault.key,
                to: a.provider_token.key,
                authority: a.provider.key,
                signer: Some(signer),
                amount: a.bond_vault.data.amount,
            },
            close,
        ]
    } else {
        seq![close]
    }
}

/// The record is closed once the vault is.
pub open spec fn close_provider_end(a: CloseProvider) -> Result<
    (CloseProvider, Closed),
    CanasError,
> {
    Ok((a, Closed { account: a.provider.key, rent_to: a.authority }))
}

/// Closes a provider: the remaining bond and all rent go to the authority.
/// Refused while jobs are in flight.
pub fn close_provider(accounts: &CloseProvider, replies: &Vec<TokenReply>) -> (r: Result<
    Step<Closed>,
    Failure,
>)
    ensures
        r == progress(
            *accounts,
            close_provider_checks(*accounts),
            close_provider_calls(*accounts),
            replies@,
            close_provider_end(*accounts),
        ).0,
{
    if accounts.provider.data.in_flight != 0 {
        return Err(Failure::Program(CanasError::JobsInFlight));
    }
    let remaining = accounts.bond_vault.data.amount;
    let signer = accounts.provider.data.to_signer();
    let mut calls: Vec<TokenCall> = Vec::new();
    if remaining > 0 {
        calls.push(
            TokenCall::Transfer {
                from: accounts.bond_vault.key,
                to: accounts.provider_token.key,
                authority: accounts.provider.key,
                signer: Some(signer),
                amount: remaining,
            },
        );
    }
    calls.push(
        TokenCall::CloseAccount {
            account: accounts.bond_vault.key,
            destination: accounts.authority,
            authority: accounts.provider.key,
            signer: Some(signer),
        },
    );
    assert(calls@ =~= close_provider_calls(*accounts));
    if let Some(call) = next_call(&calls, replies)? {
        return Ok(Step::Call(call));
    }
    Ok(Step::Done(Closed { account: accounts.provider.key, rent_to: accounts.authority }))
}

// ---- slash_provider ----

/// What keeps a bond from being slashed, if anything.
pub open spec fn slash_provider_checks(a: SlashProvider, amount: u64) -> Result<(), CanasError> {
    if amount == 0 {
        Err(CanasError::ZeroAmount)
    } else if amount > a.bond_vault.data.amount {
        Err(CanasError::InsufficientBond)
    } else {
        Ok(())
    }
}

/// What is slashed goes from the bond vault to the slash destination.
pub open spec fn slash_provider_calls(a: SlashProvider, amount: u64) -> Seq<TokenCall> {
    seq![
        TokenCall::Transfer {
            from: a.bond_vault.key,
            to: a.slash_destination.key,
            authority: a.provider.key,
            signer: Some(a.provider.data.signer()),
            amount,
        },
    ]
}

/// A provider after a slash: a smaller bond, a worse reputation, and no longer
/// active once no stake is left.
pub open spec fn slashed(provider: Provider, amount: u64, reputation_penalty: u32) -> Provider {
    let bond = floor_sub(provider.bond as int, amount as int) as u64;
    Provider {
        bond,
        reputation: floor_sub(provider.reputation as int, reputation_penalty as int) as u32,
        active: provider.active && bond != 0,
        ..provider
    }
}

/// The accounts and the report once the tokens are out of the vault.
pub open spec fn slash_provider_end(
    a: SlashProvider,
    amount: u64,
    reputation_penalty: u32,
) -> Result<(SlashProvider, ProviderSlashed), CanasError> {
    let provider = slashed(a.provider.data, amount, reputation_penalty);
    Ok(
        (
            SlashProvider { provider: Account { data: provider, ..a.provider }, ..a },
            ProviderSlashed { provider: a.provider.key, amount, new_bond: provider.bond },
        ),
    )
}

/// Takes part of a provider's bond: the penalty for fabricated or substituted
/// output.
pub fn slash_provider(
    accounts: &mut SlashProvider,
    amount: u64,
    reputation_penalty: u32,
    replies: &Vec<TokenReply>,
) -> (r: Result<Step<ProviderSlashed>, Failure>)
    ensures
        (r, *final(accounts)) == progress(
            *old(accounts),
            slash_provider_checks(*old(accounts), amount),
            slash_provider_calls(*old(accounts), amount),
            replies@,
            slash_provider_end(*old(accounts), amount, reputation_penalty),
        ),
{
    if amount == 0 {
        return Err(Failure::Program(CanasError::ZeroAmount));
    }
    if amount > accounts.bond_vault.data.amount {
        return Err(Failure::Program(CanasError::InsufficientBond));
    }
    let calls: Vec<TokenCall> = vec![
        TokenCall::Transfer {
            from: accounts.bond_vault.key,
            to: accounts.slash_destination.key,
            authority: accounts.provider.key,
            signer: Some(accounts.provider.data.to_signer()),
            amount,
        },
    ];
    assert(calls@ =~= slash_provider_calls(*accounts, amount));
    if let Some(call) = next_call(&calls, replies)? {
        return Ok(Step::Call(call));
    }
    accounts.provider.data.bond = accounts.provider.data.bond.saturating_sub(amount);
    accounts.provider.data.reputation = accounts.provider.data.reputation.saturating_sub(
        reputation_penalty,
    );
    if accounts.provider.data.bond == 0 {
        accounts.provider.data.active = false;
    }
    Ok(
        Step::Done(
            ProviderSlashed {
                provider: accounts.provider.key,
                amount,
                new_bond: accounts.provider.data.bond,
            },
        ),
    )
}

} // verus!
