//! What an entry point can fail with.
use vstd::prelude::*;

verus! {

/// Failures of this program's own rules.
#[derive(Clone, Copy, Debug, PartialEq, Eq, Structural)]
pub enum RuntimeError {
    /// Token does not exist in allocation.
    TokenNotFound,
    /// Allocation already has three tokens.
    MaxTokensReached,
}

/// Every failure of an entry point. Whichever it is, nothing is changed.
#[derive(Clone, Copy, Debug, PartialEq, Eq, Structural)]
pub enum Error {
    /// One of this program's own rules.
    Runtime(RuntimeError),
    /// A checked operation left the range of `u64`.
    ArithmeticOverflow,
    /// An account does not hold what the instruction needs of it.
    InvalidAccountData,
    /// The arguments ask for nothing, or for what is not allowed.
    InvalidInstructionData,
    /// A condition on the accounts handed in does not hold.
    ConstraintRaw,
    /// An account is not at the address derived from its seeds.
    ConstraintSeeds,
    /// A token holding is of another mint.
    ConstraintTokenMint,
    /// A token holding is under another authority.
    ConstraintTokenOwner,
    /// A mint is under another authority.
    ConstraintMintMintAuthority,
    /// A mint has other decimals.
    ConstraintMintDecimals,
}

impl RuntimeError {
    /// The message of the error.
    pub fn message(&self) -> (r: &'static str)
        ensures
            r@ == match *self {
                RuntimeError::TokenNotFound => "Token does not exist in allocation"@,
                RuntimeError::MaxTokensReached => "Allocation already has three tokens"@,
            },
    {
        match self {
            RuntimeError::TokenNotFound => "Token does not exist in allocation",
            RuntimeError::MaxTokensReached => "Allocation already has three tokens",
        }
    }
}

} // verus!
