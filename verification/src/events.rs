//! What the program reports of an instruction that succeeded.

use crate::keys::Pubkey;
use vstd::prelude::*;

verus! {

#[derive(Clone, Copy, Debug, PartialEq, Eq)]
pub struct ProviderRegistered {
    pub provider: Pubkey,
    pub authority: Pubkey,
    pub bond: u64,
}

#[derive(Clone, Copy, Debug, PartialEq, Eq)]
pub struct ProviderSlashed {
    pub provider: Pubkey,
    pub amount: u64,
    pub new_bond: u64,
}

#[derive(Clone, Copy, Debug, PartialEq, Eq)]
pub struct JobCreated {
    pub job: Pubkey,
    pub requester: Pubkey,
    pub amount: u64,
    pub nonce: u64,
}

#[derive(Clone, Copy, Debug, PartialEq, Eq)]
pub struct JobAssigned {
    pub job: Pubkey,
    pub provider: Pubkey,
}

#[derive(Clone, Copy, Debug, PartialEq, Eq)]
pub struct JobDelivered {
    pub job: Pubkey,
    pub output_phash: [u8; 32],
}

#[derive(Clone, Copy, Debug, PartialEq, Eq)]
pub struct JobSettled {
    pub job: Pubkey,
    pub provider: Pubkey,
    pub provider_amt: u64,
    pub verifier_amt: u64,
    pub protocol_amt: u64,
}

#[derive(Clone, Copy, Debug, PartialEq, Eq)]
pub struct JobRefunded {
    pub job: Pubkey,
    pub amount: u64,
}

/// One of the program's accounts that goes out of existence, and the account
/// that its rent is paid back to.
#[derive(Clone, Copy, Debug, PartialEq, Eq)]
pub struct Closed {
    pub account: Pubkey,
    pub rent_to: Pubkey,
}

/// The outcome of an instruction that reports `event` and closes an account.
#[derive(Clone, Copy, Debug, PartialEq, Eq)]
pub struct Closing<E> {
    pub event: E,
    pub closed: Closed,
}

} // verus!
