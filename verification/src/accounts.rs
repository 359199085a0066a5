//! The accounts that each instruction works on, and the rules that they have to
//! meet before it begins.
//!
//! Every rule is tested in the order in which `rules` lists it; the first that is
//! broken decides how the instruction fails. Whether an account is at the address
//! that its seeds derive is a rule like the others: `rules` and `check` take the
//! answer as a parameter named after the account, `constraints` and `validate`
//! derive the address.

use crate::address::{derived_at, found_at, found_key, PdaSigner, Seeds};
use crate::errors::{CanasError, Constraint, Failure};
use crate::keys::Pubkey;
use crate::state::{Account, Config, Job, Provider, TokenAccount};
use vstd::prelude::*;

verus! {

/// The accounts of `initialize`: a configuration that has just been created
/// with `config_bump`, and the signer that becomes admin.
#[derive(Clone, Copy, Debug, PartialEq, Eq)]
pub struct Initialize {
    pub config: Account<Config>,
    pub config_bump: u8,
    /// Has signed.
    pub admin: Pubkey,
}

impl Initialize {
    /// The first rule about the accounts that is broken, if any.
    pub open spec fn rules(self, config_at: bool) -> Result<(), Failure> {
        if !config_at {
            Err(Failure::Constraint(Constraint::Seeds))
        } else {
            Ok(())
        }
    }

    /// Tests the rules about the accounts.
    pub fn check(&self, config_at: bool) -> (r: Result<(), Failure>)
        ensures
            r == self.rules(config_at),
    {
        if !config_at {
            return Err(Failure::Constraint(Constraint::Seeds));
        }
        Ok(())
    }

    /// The first rule about the accounts that is broken, if any, with the addresses
    /// that this program derives.
    pub open spec fn constraints(self) -> Result<(), Failure> {
        self.rules(
            found_at(self.config.key, Seeds::Config, self.config_bump),
        )
    }

    /// Derives the addresses and tests the rules about the accounts.
    pub fn validate(&self) -> (r: Result<(), Failure>)
        ensures
            r == self.constraints(),
            r is Ok ==> derived_at(
                self.config.key,
                (PdaSigner { seeds: Seeds::Config, bump: self.config_bump }),
            ),
    {
        let config_at = Seeds::Config.is_found_with(&self.config.key, self.config_bump);
        self.check(config_at)
    }
}

/// The accounts of an instruction that the admin gives on the configuration.
#[derive(Clone, Copy, Debug, PartialEq, Eq)]
pub struct AdminOnly {
    pub config: Account<Config>,
    /// Has signed.
    pub admin: Pubkey,
}

impl AdminOnly {
    /// The first rule about the accounts that is broken, if any.
    pub open spec fn rules(self, config_at: bool) -> Result<(), Failure> {
        if !config_at {
            Err(Failure::Constraint(Constraint::Seeds))
        } else if self.config.data.admin != self.admin {
            Err(Failure::Constraint(Constraint::HasOne))
        } else {
            Ok(())
        }
    }

    /// Tests the rules about the accounts.
    pub fn check(&self, config_at: bool) -> (r: Result<(), Failure>)
        ensures
            r == self.rules(config_at),
    {
        if !config_at {
            return Err(Failure::Constraint(Constraint::Seeds));
        }
        if self.config.data.admin != self.admin {
            return Err(Failure::Constraint(Constraint::HasOne));
        }
        Ok(())
    }

    /// The first rule about the accounts that is broken, if any, with the addresses
    /// that this program derives.
    pub open spec fn constraints(self) -> Result<(), Failure> {
        self.rules(
            derived_at(self.config.key, self.config.data.signer()),
        )
    }

    /// Derives the addresses and tests the rules about the accounts.
    pub fn validate(&self) -> (r: Result<(), Failure>)
        ensures
            r == self.constraints(),
    {
        let config_at = self.config.data.to_signer().is_at(&self.config.key);
        self.check(config_at)
    }
}

/// The accounts of `close_config`.
#[derive(Clone, Copy, Debug, PartialEq, Eq)]
pub struct CloseConfig {
    pub config: Account<Config>,
    /// Has signed.
    pub admin: Pubkey,
}

impl CloseConfig {
    /// The first rule about the accounts that is broken, if any.
    pub open spec fn rules(self, config_at: bool) -> Result<(), Failure> {
        if !config_at {
            Err(Failure::Constraint(Constraint::Seeds))
        } else if self.config.data.admin != self.admin {
            Err(Failure::Constraint(Constraint::HasOne))
        } else if self.config.key == self.admin {
            Err(Failure::Constraint(Constraint::Close))
        } else {
            Ok(())
        }
    }

    /// Tests the rules about the accounts.
    pub fn check(&self, config_at: bool) -> (r: Result<(), Failure>)
        ensures
            r == self.rules(config_at),
    {
        if !config_at {
            return Err(Failure::Constraint(Constraint::Seeds));
        }
        if self.config.data.admin != self.admin {
            return Err(Failure::Constraint(Constraint::HasOne));
        }
        if self.config.key == self.admin {
            return Err(Failure::Constraint(Constraint::Close));
        }
        Ok(())
    }

    /// The first rule about the accounts that is broken, if any, with the addresses
    /// that this program derives.
    pub open spec fn constraints(self) -> Result<(), Failure> {
        self.rules(
            derived_at(self.config.key, self.config.data.signer()),
        )
    }

    /// Derives the addresses and tests the rules about the accounts.
    pub fn validate(&self) -> (r: Result<(), Failure>)
        ensures
            r == self.constraints(),
    {
        let config_at = self.config.data.to_signer().is_at(&self.config.key);
        self.check(config_at)
    }
}

/// The accounts of `register_provider`: a provider record that has just been
/// created with `provider_bump`, and an empty bond vault.
#[derive(Clone, Copy, Debug, PartialEq, Eq)]
pub struct RegisterProvider {
    pub config: Account<Config>,
    /// Has signed.
    pub authority: Pubkey,
    pub cnsnet_mint: Pubkey,
    /// Will receive the earnings.
    pub payout: Account<TokenAccount>,
    pub provider: Account<Provider>,
    pub provider_bump: u8,
    /// Holds the bond.
    pub bond_vault: Account<TokenAccount>,
    /// The authority's own bond tokens.
    pub provider_token: Account<TokenAccount>,
}

impl RegisterProvider {
    /// The first rule about the accounts that is broken, if any.
    pub open spec fn rules(
        self,
        provider_at: bool,
        bond_vault_at: bool,
        config_at: bool,
    ) -> Result<(), Failure> {
        if !provider_at {
            Err(Failure::Constraint(Constraint::Seeds))
        } else if !bond_vault_at {
            Err(Failure::Constraint(Constraint::Seeds))
        } else if !config_at {
            Err(Failure::Constraint(Constraint::Seeds))
        } else if self.cnsnet_mint != self.config.data.cnsnet_mint {
            Err(Failure::Program(CanasError::WrongMint))
        } else if self.payout.data.mint != self.config.data.usdc_mint {
            Err(Failure::Constraint(Constraint::TokenMint))
        } else if self.provider_token.data.owner != self.authority {
            Err(Failure::Constraint(Constraint::TokenOwner))
        } else if self.provider_token.data.mint != self.cnsnet_mint {
            Err(Failure::Constraint(Constraint::TokenMint))
        } else {
            Ok(())
        }
    }

    /// Tests the rules about the accounts.
    pub fn check(
        &self,
        provider_at: bool,
        bond_vault_at: bool,
        config_at: bool,
    ) -> (r: Result<(), Failure>)
        ensures
            r == self.rules(provider_at, bond_vault_at, config_at),
    {
        if !provider_at {
            return Err(Failure::Constraint(Constraint::Seeds));
        }
        if !bond_vault_at {
            return Err(Failure::Constraint(Constraint::Seeds));
        }
        if !config_at {
            return Err(Failure::Constraint(Constraint::Seeds));
        }
        if self.cnsnet_mint != self.config.data.cnsnet_mint {
            return Err(Failure::Program(CanasError::WrongMint));
        }
        if self.payout.data.mint != self.config.data.usdc_mint {
            return Err(Failure::Constraint(Constraint::TokenMint));
        }
        if self.provider_token.data.owner != self.authority {
            return Err(Failure::Constraint(Constraint::TokenOwner));
        }
        if self.provider_token.data.mint != self.cnsnet_mint {
            return Err(Failure::Constraint(Constraint::TokenMint));
        }
        Ok(())
    }

    /// The first rule about the accounts that is broken, if any, with the addresses
    /// that this program derives.
    pub open spec fn constraints(self) -> Result<(), Failure> {
        self.rules(
            found_at(
                self.provider.key,
                Seeds::Provider { authority: self.authority },
                self.provider_bump,
            ),
            found_key(self.bond_vault.key, Seeds::Bond { provider: self.provider.key }),
            derived_at(self.config.key, self.config.data.signer()),
        )
    }

    /// Derives the addresses and tests the rules about the accounts.
    pub fn validate(&self) -> (r: Result<(), Failure>)
        ensures
            r == self.constraints(),
            r is Ok ==> derived_at(
                self.provider.key,
                (PdaSigner {
                    seeds: Seeds::Provider { authority: self.authority },
                    bump: self.provider_bump,
                }),
            ),
    {
        let seeds = Seeds::Provider { authority: self.authority };
        let provider_at = seeds.is_found_with(&self.provider.key, self.provider_bump);
        let seeds = Seeds::Bond { provider: self.provider.key };
        let bond_vault_at = seeds.is_found(&self.bond_vault.key);
        let config_at = self.config.data.to_signer().is_at(&self.config.key);
        self.check(provider_at, bond_vault_at, config_at)
    }
}

/// The accounts of `top_up_bond`.
#[derive(Clone, Copy, Debug, PartialEq, Eq)]
pub struct TopUpBond {
    /// Has signed.
    pub authority: Pubkey,
    pub provider: Account<Provider>,
    /// Holds the bond.
    pub bond_vault: Account<TokenAccount>,
    /// The authority's own bond tokens.
    pub provider_token: Account<TokenAccount>,
}

impl TopUpBond {
    /// The first rule about the accounts that is broken, if any.
    pub open spec fn rules(
        self,
        provider_at: bool,
        bond_vault_at: bool,
    ) -> Result<(), Failure> {
        if !provider_at {
            Err(Failure::Constraint(Constraint::Seeds))
        } else if self.provider.data.authority != self.authority {
            Err(Failure::Constraint(Constraint::HasOne))
        } else if !bond_vault_at {
            Err(Failure::Constraint(Constraint::Seeds))
        } else if self.provider_token.data.mint != self.bond_vault.data.mint {
            Err(Failure::Program(CanasError::WrongMint))
        } else if self.provider_token.data.owner != self.authority {
            Err(Failure::Constraint(Constraint::TokenOwner))
        } else {
            Ok(())
        }
    }

    /// Tests the rules about the accounts.
    pub fn check(&self, provider_at: bool, bond_vault_at: bool) -> (r: Result<(), Failure>)
        ensures
            r == self.rules(provider_at, bond_vault_at),
    {
        if !provider_at {
            return Err(Failure::Constraint(Constraint::Seeds));
        }
        if self.provider.data.authority != self.authority {
            return Err(Failure::Constraint(Constraint::HasOne));
        }
        if !bond_vault_at {
            return Err(Failure::Constraint(Constraint::Seeds));
        }
        if self.provider_token.data.mint != self.bond_vault.data.mint {
            return Err(Failure::Program(CanasError::WrongMint));
        }
        if self.provider_token.data.owner != self.authority {
            return Err(Failure::Constraint(Constraint::TokenOwner));
        }
        Ok(())
    }

    /// The first rule about the accounts that is broken, if any, with the addresses
    /// that this program derives.
    pub open spec fn constraints(self) -> Result<(), Failure> {
        let signer = PdaSigner {
            seeds: Seeds::Provider { authority: self.authority },
            bump: self.provider.data.bump,
        };
        self.rules(
            derived_at(self.provider.key, signer),
            found_key(self.bond_vault.key, Seeds::Bond { provider: self.provider.key }),
        )
    }

    /// Derives the addresses and tests the rules about the accounts.
    pub fn validate(&self) -> (r: Result<(), Failure>)
        ensures
            r == self.constraints(),
    {
        let signer = PdaSigner {
            seeds: Seeds::Provider { authority: self.authority },
            bump: self.provider.data.bump,
        };
        let provider_at = signer.is_at(&self.provider.key);
        let seeds = Seeds::Bond { provider: self.provider.key };
        let bond_vault_at = seeds.is_found(&self.bond_vault.key);
        self.check(provider_at, bond_vault_at)
    }
}

/// The accounts of `close_provider`.
#[derive(Clone, Copy, Debug, PartialEq, Eq)]
pub struct CloseProvider {
    /// Has signed.
    pub authority: Pubkey,
    pub provider: Account<Provider>,
    /// Holds the bond.
    pub bond_vault: Account<TokenAccount>,
    /// The authority's own bond tokens.
    pub provider_token: Account<TokenAccount>,
}

impl CloseProvider {
    /// The first rule about the accounts that is broken, if any.
    pub open spec fn rules(
        self,
        provider_at: bool,
        bond_vault_at: bool,
    ) -> Result<(), Failure> {
        if !provider_at {
            Err(Failure::Constraint(Constraint::Seeds))
        } else if self.provider.data.authority != self.authority {
            Err(Failure::Constraint(Constraint::HasOne))
        } else if self.provider.key == self.authority {
            Err(Failure::Constraint(Constraint::Close))
        } else if !bond_vault_at {
            Err(Failure::Constraint(Constraint::Seeds))
        } else if self.provider_token.data.mint != self.bond_vault.data.mint {
            Err(Failure::Program(CanasError::WrongMint))
        } else if self.provider_token.data.owner != self.authority {
            Err(Failure::Constraint(Constraint::TokenOwner))
        } else {
            Ok(())
        }
    }

    /// Tests the rules about the accounts.
    pub fn check(&self, provider_at: bool, bond_vault_at: bool) -> (r: Result<(), Failure>)
        ensures
            r == self.rules(provider_at, bond_vault_at),
    {
        if !provider_at {
            return Err(Failure::Constraint(Constraint::Seeds));
        }
        if self.provider.data.authority != self.authority {
            return Err(Failure::Constraint(Constraint::HasOne));
        }
        if self.provider.key == self.authority {
            return Err(Failure::Constraint(Constraint::Close));
        }
        if !bond_vault_at {
            return Err(Failure::Constraint(Constraint::Seeds));
        }
        if self.provider_token.data.mint != self.bond_vault.data.mint {
            return Err(Failure::Program(CanasError::WrongMint));
        }
        if self.provider_token.data.owner != self.authority {
            return Err(Failure::Constraint(Constraint::TokenOwner));
        }
        Ok(())
    }

    /// The first rule about the accounts that is broken, if any, with the addresses
    /// that this program derives.
    pub open spec fn constraints(self) -> Result<(), Failure> {
        let signer = PdaSigner {
            seeds: Seeds::Provider { authority: self.authority },
            bump: self.provider.data.bump,
        };
        self.rules(
            derived_at(self.provider.key, signer),
            found_key(self.bond_vault.key, Seeds::Bond { provider: self.provider.key }),
        )
    }

    /// Derives the addresses and tests the rules about the accounts.
    pub fn validate(&self) -> (r: Result<(), Failure>)
        ensures
            r == self.constraints(),
    {
        let signer = PdaSigner {
            seeds: Seeds::Provider { authority: self.authority },
            bump: self.provider.data.bump,
        };
        let provider_at = signer.is_at(&self.provider.key);
        let seeds = Seeds::Bond { provider: self.provider.key };
        let bond_vault_at = seeds.is_found(&self.bond_vault.key);
        self.check(provider_at, bond_vault_at)
    }
}

/// The accounts of `slash_provider`.
#[derive(Clone, Copy, Debug, PartialEq, Eq)]
pub struct SlashProvider {
    pub config: Account<Config>,
    /// Has signed.
    pub admin: Pubkey,
    pub provider: Account<Provider>,
    /// Holds the bond.
    pub bond_vault: Account<TokenAccount>,
    /// Receives what is taken.
    pub slash_destination: Account<TokenAccount>,
}

impl SlashProvider {
    /// The first rule about the accounts that is broken, if any.
    pub open spec fn rules(
        self,
        config_at: bool,
        provider_at: bool,
        bond_vault_at: bool,
    ) -> Result<(), Failure> {
        if !config_at {
            Err(Failure::Constraint(Constraint::Seeds))
        } else if self.config.data.admin != self.admin {
            Err(Failure::Constraint(Constraint::HasOne))
        } else if !provider_at {
            Err(Failure::Constraint(Constraint::Seeds))
        } else if !bond_vault_at {
            Err(Failure::Constraint(Constraint::Seeds))
        } else if self.slash_destination.data.mint != self.bond_vault.data.mint {
            Err(Failure::Program(CanasError::WrongMint))
        } else {
            Ok(())
        }
    }

    /// Tests the rules about the accounts.
    pub fn check(
        &self,
        config_at: bool,
        provider_at: bool,
        bond_vault_at: bool,
    ) -> (r: Result<(), Failure>)
        ensures
            r == self.rules(config_at, provider_at, bond_vault_at),
    {
        if !config_at {
            return Err(Failure::Constraint(Constraint::Seeds));
        }
        if self.config.data.admin != self.admin {
            return Err(Failure::Constraint(Constraint::HasOne));
        }
        if !provider_at {
            return Err(Failure::Constraint(Constraint::Seeds));
        }
        if !bond_vault_at {
            return Err(Failure::Constraint(Constraint::Seeds));
        }
        if self.slash_destination.data.mint != self.bond_vault.data.mint {
            return Err(Failure::Program(CanasError::WrongMint));
        }
        Ok(())
    }

    /// The first rule about the accounts that is broken, if any, with the addresses
    /// that this program derives.
    pub open spec fn constraints(self) -> Result<(), Failure> {
        self.rules(
            derived_at(self.config.key, self.config.data.signer()),
            derived_at(self.provider.key, self.provider.data.signer()),
            found_key(self.bond_vault.key, Seeds::Bond { provider: self.provider.key }),
        )
    }

    /// Derives the addresses and tests the rules about the accounts.
    pub fn validate(&self) -> (r: Result<(), Failure>)
        ensures
            r == self.constraints(),
    {
        let config_at = self.config.data.to_signer().is_at(&self.config.key);
        let provider_at = self.provider.data.to_signer().is_at(&self.provider.key);
        let seeds = Seeds::Bond { provider: self.provider.key };
        let bond_vault_at = seeds.is_found(&self.bond_vault.key);
        self.check(config_at, provider_at, bond_vault_at)
    }
}

/// The accounts of `create_job`: a job record that has just been created with
/// `job_bump`, and an empty escrow vault.
#[derive(Clone, Copy, Debug, PartialEq, Eq)]
pub struct CreateJob {
    pub config: Account<Config>,
    /// Has signed.
    pub requester: Pubkey,
    pub mint: Pubkey,
    pub job: Account<Job>,
    pub job_bump: u8,
    /// Holds the escrow.
    pub vault: Account<TokenAccount>,
    /// Pays the escrow.
    pub requester_token: Account<TokenAccount>,
}

impl CreateJob {
    /// The first rule about the accounts that is broken, if any.
    pub open spec fn rules(
        self,
        job_at: bool,
        vault_at: bool,
        config_at: bool,
    ) -> Result<(), Failure> {
        if !job_at {
            Err(Failure::Constraint(Constraint::Seeds))
        } else if !vault_at {
            Err(Failure::Constraint(Constraint::Seeds))
        } else if !config_at {
            Err(Failure::Constraint(Constraint::Seeds))
        } else if self.mint != self.config.data.usdc_mint {
            Err(Failure::Program(CanasError::WrongMint))
        } else if self.requester_token.data.owner != self.requester {
            Err(Failure::Constraint(Constraint::TokenOwner))
        } else if self.requester_token.data.mint != self.mint {
            Err(Failure::Constraint(Constraint::TokenMint))
        } else {
            Ok(())
        }
    }

    /// Tests the rules about the accounts.
    pub fn check(
        &self,
        job_at: bool,
        vault_at: bool,
        config_at: bool,
    ) -> (r: Result<(), Failure>)
        ensures
            r == self.rules(job_at, vault_at, config_at),
    {
        if !job_at {
            return Err(Failure::Constraint(Constraint::Seeds));
        }
        if !vault_at {
            return Err(Failure::Constraint(Constraint::Seeds));
        }
        if !config_at {
            return Err(Failure::Constraint(Constraint::Seeds));
        }
        if self.mint != self.config.data.usdc_mint {
            return Err(Failure::Program(CanasError::WrongMint));
        }
        if self.requester_token.data.owner != self.requester {
            return Err(Failure::Constraint(Constraint::TokenOwner));
        }
        if self.requester_token.data.mint != self.mint {
            return Err(Failure::Constraint(Constraint::TokenMint));
        }
        Ok(())
    }

    /// The first rule about the accounts that is broken, if any, with the addresses
    /// that this program derives.
    pub open spec fn constraints(self) -> Result<(), Failure> {
        self.rules(
            found_at(
                self.job.key,
                Seeds::Job { requester: self.requester, nonce: self.config.data.job_count },
                self.job_bump,
            ),
            found_key(self.vault.key, Seeds::Vault { job: self.job.key }),
            derived_at(self.config.key, self.config.data.signer()),
        )
    }

    /// Derives the addresses and tests the rules about the accounts.
    pub fn validate(&self) -> (r: Result<(), Failure>)
        ensures
            r == self.constraints(),
            r is Ok ==> derived_at(
                self.job.key,
                (PdaSigner {
                    seeds: Seeds::Job {
                        requester: self.requester,
                        nonce: self.config.data.job_count,
                    },
                    bump: self.job_bump,
                }),
            ),
    {
        let seeds = Seeds::Job { requester: self.requester, nonce: self.config.data.job_count };
        let job_at = seeds.is_found_with(&self.job.key, self.job_bump);
        let vault_at = (Seeds::Vault { job: self.job.key }).is_found(&self.vault.key);
        let config_at = self.config.data.to_signer().is_at(&self.config.key);
        self.check(job_at, vault_at, config_at)
    }
}

/// The accounts of `assign_job`.
#[derive(Clone, Copy, Debug, PartialEq, Eq)]
pub struct AssignJob {
    pub config: Account<Config>,
    /// Has signed.
    pub admin: Pubkey,
    pub job: Account<Job>,
    pub provider: Account<Provider>,
}

impl AssignJob {
    /// The first rule about the accounts that is broken, if any.
    pub open spec fn rules(
        self,
        config_at: bool,
        job_at: bool,
        provider_at: bool,
    ) -> Result<(), Failure> {
        if !config_at {
            Err(Failure::Constraint(Constraint::Seeds))
        } else if self.config.data.admin != self.admin {
            Err(Failure::Constraint(Constraint::HasOne))
        } else if !job_at {
            Err(Failure::Constraint(Constraint::Seeds))
        } else if !provider_at {
            Err(Failure::Constraint(Constraint::Seeds))
        } else {
            Ok(())
        }
    }

    /// Tests the rules about the accounts.
    pub fn check(
        &self,
        config_at: bool,
        job_at: bool,
        provider_at: bool,
    ) -> (r: Result<(), Failure>)
        ensures
            r == self.rules(config_at, job_at, provider_at),
    {
        if !config_at {
            return Err(Failure::Constraint(Constraint::Seeds));
        }
        if self.config.data.admin != self.admin {
            return Err(Failure::Constraint(Constraint::HasOne));
        }
        if !job_at {
            return Err(Failure::Constraint(Constraint::Seeds));
        }
        if !provider_at {
            return Err(Failure::Constraint(Constraint::Seeds));
        }
        Ok(())
    }

    /// The first rule about the accounts that is broken, if any, with the addresses
    /// that this program derives.
    pub open spec fn constraints(self) -> Result<(), Failure> {
        self.rules(
            derived_at(self.config.key, self.config.data.signer()),
            derived_at(self.job.key, self.job.data.signer()),
            derived_at(self.provider.key, self.provider.data.signer()),
        )
    }

    /// Derives the addresses and tests the rules about the accounts.
    pub fn validate(&self) -> (r: Result<(), Failure>)
        ensures
            r == self.constraints(),
    {
        let config_at = self.config.data.to_signer().is_at(&self.config.key);
        let job_at = self.job.data.to_signer().is_at(&self.job.key);
        let provider_at = self.provider.data.to_signer().is_at(&self.provider.key);
        self.check(config_at, job_at, provider_at)
    }
}

/// The accounts of `deliver_job`.
#[derive(Clone, Copy, Debug, PartialEq, Eq)]
pub struct DeliverJob {
    /// Has signed.
    pub authority: Pubkey,
    pub job: Account<Job>,
    pub provider: Account<Provider>,
}

impl DeliverJob {
    /// The first rule about the accounts that is broken, if any.
    pub open spec fn rules(self, job_at: bool, provider_at: bool) -> Result<(), Failure> {
        if !job_at {
            Err(Failure::Constraint(Constraint::Seeds))
        } else if self.job.data.provider != self.provider.key {
            Err(Failure::Program(CanasError::Unauthorized))
        } else if !provider_at {
            Err(Failure::Constraint(Constraint::Seeds))
        } else if self.provider.data.authority != self.authority {
            Err(Failure::Constraint(Constraint::HasOne))
        } else {
            Ok(())
        }
    }

    /// Tests the rules about the accounts.
    pub fn check(&self, job_at: bool, provider_at: bool) -> (r: Result<(), Failure>)
        ensures
            r == self.rules(job_at, provider_at),
    {
        if !job_at {
            return Err(Failure::Constraint(Constraint::Seeds));
        }
        if self.job.data.provider != self.provider.key {
            return Err(Failure::Program(CanasError::Unauthorized));
        }
        if !provider_at {
            return Err(Failure::Constraint(Constraint::Seeds));
        }
        if self.provider.data.authority != self.authority {
            return Err(Failure::Constraint(Constraint::HasOne));
        }
        Ok(())
    }

    /// The first rule about the accounts that is broken, if any, with the addresses
    /// that this program derives.
    pub open spec fn constraints(self) -> Result<(), Failure> {
        let signer = PdaSigner {
            seeds: Seeds::Provider { authority: self.authority },
            bump: self.provider.data.bump,
        };
        self.rules(
            derived_at(self.job.key, self.job.data.signer()),
            derived_at(self.provider.key, signer),
        )
    }

    /// Derives the addresses and tests the rules about the accounts.
    pub fn validate(&self) -> (r: Result<(), Failure>)
        ensures
            r == self.constraints(),
    {
        let signer = PdaSigner {
            seeds: Seeds::Provider { authority: self.authority },
            bump: self.provider.data.bump,
        };
        let job_at = self.job.data.to_signer().is_at(&self.job.key);
        let provider_at = signer.is_at(&self.provider.key);
        self.check(job_at, provider_at)
    }
}

/// The accounts of `settle_job`.
#[derive(Clone, Copy, Debug, PartialEq, Eq)]
pub struct SettleJob {
    pub config: Account<Config>,
    /// Has signed: the requester or the admin.
    pub authority: Pubkey,
    /// Receives the rent.
    pub requester: Pubkey,
    pub job: Account<Job>,
    /// Holds the escrow.
    pub vault: Account<TokenAccount>,
    pub provider: Account<Provider>,
    /// Receives the provider's share.
    pub provider_payout: Account<TokenAccount>,
    /// Receives the rest.
    pub treasury: Account<TokenAccount>,
}

impl SettleJob {
    /// The first rule about the accounts that is broken, if any.
    pub open spec fn rules(
        self,
        config_at: bool,
        job_at: bool,
        vault_at: bool,
        provider_at: bool,
    ) -> Result<(), Failure> {
        if !config_at {
            Err(Failure::Constraint(Constraint::Seeds))
        } else if self.requester != self.job.data.requester {
            Err(Failure::Constraint(Constraint::Address))
        } else if !job_at {
            Err(Failure::Constraint(Constraint::Seeds))
        } else if self.job.data.provider != self.provider.key {
            Err(Failure::Program(CanasError::Unauthorized))
        } else if self.job.key == self.requester {
            Err(Failure::Constraint(Constraint::Close))
        } else if !vault_at {
            Err(Failure::Constraint(Constraint::Seeds))
        } else if !provider_at {
            Err(Failure::Constraint(Constraint::Seeds))
        } else if self.provider_payout.data.mint != self.config.data.usdc_mint {
            Err(Failure::Program(CanasError::WrongMint))
        } else if self.provider_payout.key != self.provider.data.payout {
            Err(Failure::Program(CanasError::WrongDestination))
        } else if self.treasury.data.mint != self.config.data.usdc_mint {
            Err(Failure::Program(CanasError::WrongMint))
        } else if self.treasury.key != self.config.data.treasury {
            Err(Failure::Program(CanasError::WrongDestination))
        } else {
            Ok(())
        }
    }

    /// Tests the rules about the accounts.
    pub fn check(
        &self,
        config_at: bool,
        job_at: bool,
        vault_at: bool,
        provider_at: bool,
    ) -> (r: Result<(), Failure>)
        ensures
            r == self.rules(config_at, job_at, vault_at, provider_at),
    {
        if !config_at {
            return Err(Failure::Constraint(Constraint::Seeds));
        }
        if self.requester != self.job.data.requester {
            return Err(Failure::Constraint(Constraint::Address));
        }
        if !job_at {
            return Err(Failure::Constraint(Constraint::Seeds));
        }
        if self.job.data.provider != self.provider.key {
            return Err(Failure::Program(CanasError::Unauthorized));
        }
        if self.job.key == self.requester {
            return Err(Failure::Constraint(Constraint::Close));
        }
        if !vault_at {
            return Err(Failure::Constraint(Constraint::Seeds));
        }
        if !provider_at {
            return Err(Failure::Constraint(Constraint::Seeds));
        }
        if self.provider_payout.data.mint != self.config.data.usdc_mint {
            return Err(Failure::Program(CanasError::WrongMint));
        }
        if self.provider_payout.key != self.provider.data.payout {
            return Err(Failure::Program(CanasError::WrongDestination));
        }
        if self.treasury.data.mint != self.config.data.usdc_mint {
            return Err(Failure::Program(CanasError::WrongMint));
        }
        if self.treasury.key != self.config.data.treasury {
            return Err(Failure::Program(CanasError::WrongDestination));
        }
        Ok(())
    }

    /// The first rule about the accounts that is broken, if any, with the addresses
    /// that this program derives.
    pub open spec fn constraints(self) -> Result<(), Failure> {
        self.rules(
            derived_at(self.config.key, self.config.data.signer()),
            derived_at(self.job.key, self.job.data.signer()),
            found_key(self.vault.key, Seeds::Vault { job: self.job.key }),
            derived_at(self.provider.key, self.provider.data.signer()),
        )
    }

    /// Derives the addresses and tests the rules about the accounts.
    pub fn validate(&self) -> (r: Result<(), Failure>)
        ensures
            r == self.constraints(),
    {
        let config_at = self.config.data.to_signer().is_at(&self.config.key);
        let job_at = self.job.data.to_signer().is_at(&self.job.key);
        let vault_at = (Seeds::Vault { job: self.job.key }).is_found(&self.vault.key);
        let provider_at = self.provider.data.to_signer().is_at(&self.provider.key);
        self.check(config_at, job_at, vault_at, provider_at)
    }
}

/// The accounts of `cancel_job`.
#[derive(Clone, Copy, Debug, PartialEq, Eq)]
pub struct CancelJob {
    pub config: Account<Config>,
    /// Has signed: the requester or the admin.
    pub authority: Pubkey,
    /// Receives the rent.
    pub requester: Pubkey,
    pub job: Account<Job>,
    /// Holds the escrow.
    pub vault: Account<TokenAccount>,
    /// Receives the escrow.
    pub requester_token: Account<TokenAccount>,
}

impl CancelJob {
    /// The first rule about the accounts that is broken, if any.
    pub open spec fn rules(
        self,
        config_at: bool,
        job_at: bool,
        vault_at: bool,
    ) -> Result<(), Failure> {
        if !config_at {
            Err(Failure::Constraint(Constraint::Seeds))
        } else if self.requester != self.job.data.requester {
            Err(Failure::Constraint(Constraint::Address))
        } else if !job_at {
            Err(Failure::Constraint(Constraint::Seeds))
        } else if self.job.key == self.requester {
            Err(Failure::Constraint(Constraint::Close))
        } else if !vault_at {
            Err(Failure::Constraint(Constraint::Seeds))
        } else if self.requester_token.data.mint != self.job.data.mint {
            Err(Failure::Program(CanasError::WrongMint))
        } else if self.requester_token.data.owner != self.job.data.requester {
            Err(Failure::Program(CanasError::WrongDestination))
        } else {
            Ok(())
        }
    }

    /// Tests the rules about the accounts.
    pub fn check(
        &self,
        config_at: bool,
        job_at: bool,
        vault_at: bool,
    ) -> (r: Result<(), Failure>)
        ensures
            r == self.rules(config_at, job_at, vault_at),
    {
        if !config_at {
            return Err(Failure::Constraint(Constraint::Seeds));
        }
        if self.requester != self.job.data.requester {
            return Err(Failure::Constraint(Constraint::Address));
        }
        if !job_at {
            return Err(Failure::Constraint(Constraint::Seeds));
        }
        if self.job.key == self.requester {
            return Err(Failure::Constraint(Constraint::Close));
        }
        if !vault_at {
            return Err(Failure::Constraint(Constraint::Seeds));
        }
        if self.requester_token.data.mint != self.job.data.mint {
            return Err(Failure::Program(CanasError::WrongMint));
        }
        if self.requester_token.data.owner != self.job.data.requester {
            return Err(Failure::Program(CanasError::WrongDestination));
        }
        Ok(())
    }

    /// The first rule about the accounts that is broken, if any, with the addresses
    /// that this program derives.
    pub open spec fn constraints(self) -> Result<(), Failure> {
        self.rules(
            derived_at(self.config.key, self.config.data.signer()),
            derived_at(self.job.key, self.job.data.signer()),
            found_key(self.vault.key, Seeds::Vault { job: self.job.key }),
        )
    }

    /// Derives the addresses and tests the rules about the accounts.
    pub fn validate(&self) -> (r: Result<(), Failure>)
        ensures
            r == self.constraints(),
    {
        let config_at = self.config.data.to_signer().is_at(&self.config.key);
        let job_at = self.job.data.to_signer().is_at(&self.job.key);
        let vault_at = (Seeds::Vault { job: self.job.key }).is_found(&self.vault.key);
        self.check(config_at, job_at, vault_at)
    }
}

/// The accounts of `refund_job`.
#[derive(Clone, Copy, Debug, PartialEq, Eq)]
pub struct RefundJob {
    pub config: Account<Config>,
    /// Has signed: the requester or the admin.
    pub authority: Pubkey,
    /// Receives the rent.
    pub requester: Pubkey,
    pub job: Account<Job>,
    /// Holds the escrow.
    pub vault: Account<TokenAccount>,
    pub provider: Account<Provider>,
    /// Receives the escrow.
    pub requester_token: Account<TokenAccount>,
}

impl RefundJob {
    /// The first rule about the accounts that is broken, if any.
    pub open spec fn rules(
        self,
        config_at: bool,
        job_at: bool,
        vault_at: bool,
        provider_at: bool,
    ) -> Result<(), Failure> {
        if !config_at {
            Err(Failure::Constraint(Constraint::Seeds))
        } else if self.requester != self.job.data.requester {
            Err(Failure::Constraint(Constraint::Address))
        } else if !job_at {
            Err(Failure::Constraint(Constraint::Seeds))
        } else if self.job.data.provider != self.provider.key {
            Err(Failure::Program(CanasError::Unauthorized))
        } else if self.job.key == self.requester {
            Err(Failure::Constraint(Constraint::Close))
        } else if !vault_at {
            Err(Failure::Constraint(Constraint::Seeds))
        } else if !provider_at {
            Err(Failure::Constraint(Constraint::Seeds))
        } else if self.requester_token.data.mint != self.job.data.mint {
            Err(Failure::Program(CanasError::WrongMint))
        } else if self.requester_token.data.owner != self.job.data.requester {
            Err(Failure::Program(CanasError::WrongDestination))
        } else {
            Ok(())
        }
    }

    /// Tests the rules about the accounts.
    pub fn check(
        &self,
        config_at: bool,
        job_at: bool,
        vault_at: bool,
        provider_at: bool,
    ) -> (r: Result<(), Failure>)
        ensures
            r == self.rules(config_at, job_at, vault_at, provider_at),
    {
        if !config_at {
            return Err(Failure::Constraint(Constraint::Seeds));
        }
        if self.requester != self.job.data.requester {
            return Err(Failure::Constraint(Constraint::Address));
        }
        if !job_at {
            return Err(Failure::Constraint(Constraint::Seeds));
        }
        if self.job.data.provider != self.provider.key {
            return Err(Failure::Program(CanasError::Unauthorized));
        }
        if self.job.key == self.requester {
            return Err(Failure::Constraint(Constraint::Close));
        }
        if !vault_at {
            return Err(Failure::Constraint(Constraint::Seeds));
        }
        if !provider_at {
            return Err(Failure::Constraint(Constraint::Seeds));
        }
        if self.requester_token.data.mint != self.job.data.mint {
            return Err(Failure::Program(CanasError::WrongMint));
        }
        if self.requester_token.data.owner != self.job.data.requester {
            return Err(Failure::Program(CanasError::WrongDestination));
        }
        Ok(())
    }

    /// The first rule about the accounts that is broken, if any, with the addresses
    /// that this program derives.
    pub open spec fn constraints(self) -> Result<(), Failure> {
        self.rules(
            derived_at(self.config.key, self.config.data.signer()),
            derived_at(self.job.key, self.job.data.signer()),
            found_key(self.vault.key, Seeds::Vault { job: self.job.key }),
            derived_at(self.provider.key, self.provider.data.signer()),
        )
    }

    /// Derives the addresses and tests the rules about the accounts.
    pub fn validate(&self) -> (r: Result<(), Failure>)
        ensures
            r == self.constraints(),
    {
        let config_at = self.config.data.to_signer().is_at(&self.config.key);
        let job_at = self.job.data.to_signer().is_at(&self.job.key);
        let vault_at = (Seeds::Vault { job: self.job.key }).is_found(&self.vault.key);
        let provider_at = self.provider.data.to_signer().is_at(&self.provider.key);
        self.check(config_at, job_at, vault_at, provider_at)
    }
}

} // verus!
