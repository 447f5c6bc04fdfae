//! Conditions on the accounts that several entry points share.
use vstd::prelude::*;
use crate::key::{lemma_key_ext, Key};
use crate::state::allocation::AllocationAccount;
use crate::state::fee::FeeConfigAccount;
use crate::utility::account::Mint;
use crate::utility::error::Error;
use crate::utility::signer::{
    allocation_address, fee_address, find_allocation_address, find_fee_address, is_allocation_address,
    is_fee_address,
};

verus! {

/// The first of two findings.
pub open spec fn first_of(a: Option<Error>, b: Option<Error>) -> Option<Error> {
    if a is Some {
        a
    } else {
        b
    }
}

/// What a check returns for a finding.
pub open spec fn verdict(finding: Option<Error>) -> Result<(), Error> {
    match finding {
        Some(e) => Err(e),
        None => Ok(()),
    }
}

/// Why `key` with `config` cannot serve as the fee configuration: it is
/// not at the derived address, or it was never initialized.
pub open spec fn fee_config_violation(key: Key, config: FeeConfigAccount) -> Option<Error> {
    if !is_fee_address(key) {
        Some(Error::ConstraintSeeds)
    } else if !config.initialized {
        Some(Error::ConstraintRaw)
    } else {
        None
    }
}

/// Why `key` is not the address of the allocation bound to `nft_mint`.
pub open spec fn allocation_seeds_violation(key: Key, nft_mint: Key) -> Option<Error> {
    if !is_allocation_address(key, nft_mint) {
        Some(Error::ConstraintSeeds)
    } else {
        None
    }
}

/// Why `key` with `allocation` cannot serve as the allocation bound to
/// `nft_mint`: it is not at the derived address, or it does not exist.
pub open spec fn allocation_violation(key: Key, nft_mint: Key, allocation: AllocationAccount) -> Option<
    Error,
> {
    if !is_allocation_address(key, nft_mint) {
        Some(Error::ConstraintSeeds)
    } else if !allocation.initialized {
        Some(Error::ConstraintRaw)
    } else {
        None
    }
}

/// Why `mint` cannot be the NFT of an allocation: it has decimals, or the
/// fee configuration is not the one who mints it.
pub open spec fn nft_mint_violation(mint: Mint, fee_config: Key) -> Option<Error> {
    if mint.decimals != 0 {
        Some(Error::ConstraintMintDecimals)
    } else if mint.mint_authority != Some(fee_config) {
        Some(Error::ConstraintMintMintAuthority)
    } else {
        None
    }
}

/// Checks that `key` is the fee configuration's address.
pub fn check_fee_address(key: &Key) -> (r: bool)
    ensures
        r == is_fee_address(*key),
{
    match find_fee_address() {
        Some((address, _)) => {
            proof {
                if address@ == key@ {
                    lemma_key_ext(address, *key);
                }
            }
            address == *key
        },
        None => false,
    }
}

/// Checks that `key` is the address of the allocation bound to `nft_mint`.
pub fn check_allocation_address(key: &Key, nft_mint: &Key) -> (r: bool)
    ensures
        r == is_allocation_address(*key, *nft_mint),
{
    match find_allocation_address(nft_mint) {
        Some((address, _)) => {
            proof {
                if address@ == key@ {
                    lemma_key_ext(address, *key);
                }
            }
            address == *key
        },
        None => false,
    }
}

/// Checks `key` and `config` as the fee configuration.
pub fn check_fee_config(key: &Key, config: &FeeConfigAccount) -> (r: Result<(), Error>)
    ensures
        r == verdict(fee_config_violation(*key, *config)),
        r is Ok ==> fee_address() is Some,
{
    if !check_fee_address(key) {
        Err(Error::ConstraintSeeds)
    } else if !config.initialized {
        Err(Error::ConstraintRaw)
    } else {
        Ok(())
    }
}

/// Checks `key` and `allocation` as the allocation bound to `nft_mint`.
pub fn check_allocation(key: &Key, nft_mint: &Key, allocation: &AllocationAccount) -> (r: Result<
    (),
    Error,
>)
    ensures
        r == verdict(allocation_violation(*key, *nft_mint, *allocation)),
        r is Ok ==> allocation_address(*nft_mint) is Some,
{
    if !check_allocation_address(key, nft_mint) {
        Err(Error::ConstraintSeeds)
    } else if !allocation.initialized {
        Err(Error::ConstraintRaw)
    } else {
        Ok(())
    }
}

/// Checks `mint` as the NFT of an allocation.
pub fn check_nft_mint(mint: &Mint, fee_config: &Key) -> (r: Result<(), Error>)
    ensures
        r == verdict(nft_mint_violation(*mint, *fee_config)),
{
    if mint.decimals != 0 {
        return Err(Error::ConstraintMintDecimals);
    }
    match mint.mint_authority {
        Some(authority) => {
            if authority == *fee_config {
                Ok(())
            } else {
                Err(Error::ConstraintMintMintAuthority)
            }
        },
        None => Err(Error::ConstraintMintMintAuthority),
    }
}

} // verus!
