//! What an instruction fails with.

use vstd::prelude::*;

verus! {

/// The program's own errors.
#[derive(Clone, Copy, Debug, PartialEq, Eq, Structural)]
pub enum CanasError {
    BadSplit,
    BadWindow,
    Paused,
    MintNotSet,
    WrongMint,
    WrongDestination,
    ZeroAmount,
    JobsInFlight,
    ProviderInactive,
    InsufficientBond,
    BadStatus,
    Unauthorized,
    WindowNotElapsed,
    MintLocked,
    Overflow,
}

/// A rule about the accounts handed to an instruction, where the program has no
/// error of its own for it.
#[derive(Clone, Copy, Debug, PartialEq, Eq, Structural)]
pub enum Constraint {
    /// An account does not name the signer it has to name.
    HasOne,
    /// An account is not at the address its seeds derive.
    Seeds,
    /// An account to be closed would receive its own rent.
    Close,
    /// An account is not at the address it has to be at.
    Address,
    /// A token account is of another mint.
    TokenMint,
    /// A token account is owned by another key.
    TokenOwner,
}

/// Why an instruction failed.
#[derive(Clone, Copy, Debug, PartialEq, Eq, Structural)]
pub enum Failure {
    /// A rule of the program was broken.
    Program(CanasError),
    /// A rule about the accounts was broken.
    Constraint(Constraint),
    /// The token program refused a call.
    TokenRefused,
}

impl CanasError {
    /// The text shown for the error.
    pub open spec fn text(self) -> Seq<char> {
        match self {
            CanasError::BadSplit => "fee split must sum to 10000 bps"@,
            CanasError::BadWindow => "dispute window must be non-negative"@,
            CanasError::Paused => "new jobs are paused"@,
            CanasError::MintNotSet => "mint not set yet"@,
            CanasError::WrongMint => "wrong mint"@,
            CanasError::WrongDestination => "wrong token destination"@,
            CanasError::ZeroAmount => "amount must be greater than zero"@,
            CanasError::JobsInFlight => "provider has jobs in flight"@,
            CanasError::ProviderInactive => "provider is not active"@,
            CanasError::InsufficientBond => "insufficient bond"@,
            CanasError::BadStatus => "invalid job status for this action"@,
            CanasError::Unauthorized => "unauthorized"@,
            CanasError::WindowNotElapsed => "dispute window has not elapsed"@,
            CanasError::MintLocked => "mint already set and locked"@,
            CanasError::Overflow => "arithmetic overflow"@,
        }
    }

    /// The text shown for the error.
    pub fn msg(&self) -> (r: &'static str)
        ensures
            r@ == self.text(),
    {
        match self {
            CanasError::BadSplit => "fee split must sum to 10000 bps",
            CanasError::BadWindow => "dispute window must be non-negative",
            CanasError::Paused => "new jobs are paused",
            CanasError::MintNotSet => "mint not set yet",
            CanasError::WrongMint => "wrong mint",
            CanasError::WrongDestination => "wrong token destination",
            CanasError::ZeroAmount => "amount must be greater than zero",
            CanasError::JobsInFlight => "provider has jobs in flight",
            CanasError::ProviderInactive => "provider is not active",
            CanasError::InsufficientBond => "insufficient bond",
            CanasError::BadStatus => "invalid job status for this action",
            CanasError::Unauthorized => "unauthorized",
            CanasError::WindowNotElapsed => "dispute window has not elapsed",
            CanasError::MintLocked => "mint already set and locked",
            CanasError::Overflow => "arithmetic overflow",
        }
    }
}

} // verus!
