//! Errors, derived signers, token accounts and the token-operation facade.
pub mod account;
pub mod constraint;
pub mod cpi;
pub mod error;
pub mod signer;
