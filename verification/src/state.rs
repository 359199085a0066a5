//! The records that the program keeps, and the token accounts that it reads.

use crate::address::{PdaSigner, Seeds};
use crate::keys::Pubkey;
use vstd::prelude::*;

verus! {

/// A job that waits for a provider.
pub const STATUS_OPEN: u8 = 0;

/// A job that a provider works on.
pub const STATUS_ASSIGNED: u8 = 1;

/// A job whose output has been attested.
pub const STATUS_DELIVERED: u8 = 2;

/// The whole of a payment, in basis points.
pub const BPS_DENOM: u64 = 10_000;

/// The best reputation, 100.00%.
pub const REP_MAX: u32 = 10_000;

/// The reputation of a provider that has just registered.
pub const REP_START: u32 = 9_000;

/// An account: its address and what it holds.
#[derive(Clone, Copy, Debug, PartialEq, Eq)]
pub struct Account<T> {
    pub key: Pubkey,
    pub data: T,
}

/// What the program reads of a token account.
#[derive(Clone, Copy, Debug, PartialEq, Eq)]
pub struct TokenAccount {
    pub mint: Pubkey,
    pub owner: Pubkey,
    pub amount: u64,
}

/// The global configuration.
#[derive(Clone, Copy, Debug, PartialEq, Eq)]
pub struct Config {
    /// Scheduler and arbiter.
    pub admin: Pubkey,
    /// The protocol's USDC token account.
    pub treasury: Pubkey,
    /// The payment mint, all zeros until it is set.
    pub usdc_mint: Pubkey,
    /// The bond mint, all zeros until it is set.
    pub cnsnet_mint: Pubkey,
    pub provider_bps: u16,
    pub verifier_bps: u16,
    pub protocol_bps: u16,
    /// Seconds.
    pub dispute_window: i64,
    pub job_count: u64,
    pub total_settled: u128,
    pub paused: bool,
    pub bump: u8,
}

/// A provider and its stake.
#[derive(Clone, Copy, Debug, PartialEq, Eq)]
pub struct Provider {
    pub authority: Pubkey,
    /// The USDC token account that receives the earnings.
    pub payout: Pubkey,
    pub bond: u64,
    /// 0 to 10000 for 0% to 100.00%.
    pub reputation: u32,
    pub jobs_done: u64,
    pub total_earned: u64,
    pub in_flight: u32,
    pub active: bool,
    pub bump: u8,
}

/// A job and the terms of its escrow.
#[derive(Clone, Copy, Debug, PartialEq, Eq)]
pub struct Job {
    pub requester: Pubkey,
    /// The address of the provider record, all zeros until one is assigned.
    pub provider: Pubkey,
    pub mint: Pubkey,
    pub amount: u64,
    pub nonce: u64,
    pub params_hash: [u8; 32],
    pub model_hash: [u8; 32],
    pub output_phash: [u8; 32],
    pub created_at: i64,
    pub assigned_at: i64,
    pub delivered_at: i64,
    pub status: u8,
    pub bump: u8,
}

impl Config {
    /// The bytes that a stored configuration takes.
    pub const SIZE: usize = 32 * 4 + 2 * 3 + 8 + 8 + 16 + 1 + 1;

    /// The three shares make a whole, and the dispute window is no negative time.
    pub open spec fn well_formed(self) -> bool {
        &&& self.provider_bps + self.verifier_bps + self.protocol_bps == BPS_DENOM
        &&& self.dispute_window >= 0
    }

    /// The seeds with which the program signs for the configuration.
    pub open spec fn signer(self) -> PdaSigner {
        PdaSigner { seeds: Seeds::Config, bump: self.bump }
    }

    /// The seeds with which the program signs for the configuration.
    pub fn to_signer(&self) -> (r: PdaSigner)
        ensures
            r == self.signer(),
    {
        PdaSigner { seeds: Seeds::Config, bump: self.bump }
    }
}

impl Provider {
    /// The bytes that a stored provider takes.
    pub const SIZE: usize = 32 + 32 + 8 + 4 + 8 + 8 + 4 + 1 + 1;

    /// The reputation is a percentage, and only a provider with a stake is active.
    pub open spec fn well_formed(self) -> bool {
        &&& self.reputation <= REP_MAX
        &&& self.active ==> self.bond > 0
    }

    /// The seeds with which the program signs for the provider record.
    pub open spec fn signer(self) -> PdaSigner {
        PdaSigner { seeds: Seeds::Provider { authority: self.authority }, bump: self.bump }
    }

    /// The seeds with which the program signs for the provider record.
    pub fn to_signer(&self) -> (r: PdaSigner)
        ensures
            r == self.signer(),
    {
        PdaSigner { seeds: Seeds::Provider { authority: self.authority }, bump: self.bump }
    }
}

impl Job {
    /// The bytes that a stored job takes.
    pub const SIZE: usize = 32 * 3 + 8 + 8 + 32 * 3 + 8 + 8 + 8 + 1 + 1;

    /// The status is one of the three, the escrow is not empty, and no step that
    /// lies ahead has left a trace.
    pub open spec fn well_formed(self) -> bool {
        &&& self.status == STATUS_OPEN || self.status == STATUS_ASSIGNED || self.status
            == STATUS_DELIVERED
        &&& self.amount > 0
        &&& self.status == STATUS_OPEN ==> self.provider == Pubkey::unset() && self.assigned_at == 0
        &&& self.status != STATUS_DELIVERED ==> self.output_phash == zero_hash()
            && self.delivered_at == 0
    }

    /// The seeds with which the program signs for the job record.
    pub open spec fn signer(self) -> PdaSigner {
        PdaSigner {
            seeds: Seeds::Job { requester: self.requester, nonce: self.nonce },
            bump: self.bump,
        }
    }

    /// The seeds with which the program signs for the job record.
    pub fn to_signer(&self) -> (r: PdaSigner)
        ensures
            r == self.signer(),
    {
        PdaSigner {
            seeds: Seeds::Job { requester: self.requester, nonce: self.nonce },
            bump: self.bump,
        }
    }
}

/// The hash of an output that has not been delivered: all zeros.
pub open spec fn zero_hash() -> [u8; 32] {
    vstd::array::spec_array_fill_for_copy_type::<u8, 32>(0u8)
}

} // verus!
