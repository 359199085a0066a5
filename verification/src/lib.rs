//! Escrow, staking and settlement rules of the CANAS.NET job market.

pub mod accounts;
pub mod address;
pub mod admin;
pub mod admission;
pub mod effects;
pub mod errors;
pub mod events;
pub mod history;
pub mod jobs;
pub mod keys;
pub mod laws;
pub mod market;
pub mod math;
pub mod program;
pub mod providers;
pub mod state;
pub mod token;

pub use crate::keys::Pubkey;
