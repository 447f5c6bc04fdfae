//! The fee configuration's first write, and every change after it.
use vstd::prelude::*;
use crate::key::Key;
use crate::state::fee::FeeConfigAccount;
use crate::utility::constraint::{check_fee_address, first_of, verdict};
use crate::utility::error::Error;
use crate::utility::signer::is_fee_address;

verus! {

/// The fee rate that a first write sets where it names none.
pub const DEFAULT_FEE_BPS: u16 = 100;

/// The accounts of a write to the fee configuration.
#[derive(Clone, Copy, Debug, PartialEq, Eq)]
pub struct InitializeFeeState {
    /// Who writes.
    pub signer: Key,
    pub fee_config_key: Key,
    pub fee_config: FeeConfigAccount,
}

/// `wanted` where there is one, else `current`.
pub open spec fn or_keep<T>(wanted: Option<T>, current: T) -> T {
    match wanted {
        Some(value) => value,
        None => current,
    }
}

/// What a write by `signer` makes of `config`. A first write makes the
/// signer both authorities at the default rate, and then applies what the
/// arguments name; a later write applies what they name, and must name
/// something.
pub open spec fn written(
    config: FeeConfigAccount,
    signer: Key,
    fee_bps: Option<u16>,
    fee_authority: Option<Key>,
    fee_withdraw_authority: Option<Key>,
) -> Result<FeeConfigAccount, Error> {
    if config.initialized && fee_bps is None && fee_authority is None && fee_withdraw_authority is None {
        Err(Error::InvalidInstructionData)
    } else {
        let base = if config.initialized {
            config
        } else {
            FeeConfigAccount {
                initialized: true,
                fee_authority: signer,
                fee_withdraw_authority: signer,
                fee_bps: DEFAULT_FEE_BPS,
            }
        };
        Ok(
            FeeConfigAccount {
                initialized: true,
                fee_authority: or_keep(fee_authority, base.fee_authority),
                fee_withdraw_authority: or_keep(fee_withdraw_authority, base.fee_withdraw_authority),
                fee_bps: or_keep(fee_bps, base.fee_bps),
            },
        )
    }
}

impl InitializeFeeState {
    /// The first condition on the accounts that does not hold, if any: the
    /// fee configuration is at its address; once it is initialized, only
    /// its fee authority writes to it.
    pub open spec fn violation(self) -> Option<Error> {
        first_of(
            if !is_fee_address(self.fee_config_key) {
                Some(Error::ConstraintSeeds)
            } else {
                None
            },
            if self.fee_config.initialized && self.fee_config.fee_authority != self.signer {
                Some(Error::ConstraintRaw)
            } else {
                None
            },
        )
    }

    /// Checks the conditions on the accounts.
    pub fn validate(&self) -> (r: Result<(), Error>)
        ensures
            r == verdict(self.violation()),
    {
        if !check_fee_address(&self.fee_config_key) {
            return Err(Error::ConstraintSeeds);
        }
        if self.fee_config.initialized && self.fee_config.fee_authority != self.signer {
            return Err(Error::ConstraintRaw);
        }
        Ok(())
    }
}

/// Writes to the fee configuration what the arguments name. On an error
/// nothing is changed.
pub fn initialize_fee(
    ctx: &mut InitializeFeeState,
    fee_bps: Option<u16>,
    fee_authority: Option<Key>,
    fee_withdraw_authority: Option<Key>,
) -> (r: Result<(), Error>)
    ensures
        match r {
            Ok(()) => written(
                old(ctx).fee_config,
                old(ctx).signer,
                fee_bps,
                fee_authority,
                fee_withdraw_authority,
            ) == Ok::<FeeConfigAccount, Error>(final(ctx).fee_config),
            Err(e) => written(
                old(ctx).fee_config,
                old(ctx).signer,
                fee_bps,
                fee_authority,
                fee_withdraw_authority,
            ) == Err::<FeeConfigAccount, Error>(e) && *final(ctx) == *old(ctx),
        },
        *final(ctx) == (InitializeFeeState { fee_config: final(ctx).fee_config, ..*old(ctx) }),
{
    let mut config = ctx.fee_config;
    if !config.initialized {
        config.fee_authority = ctx.signer;
        config.fee_withdraw_authority = ctx.signer;
        config.fee_bps = DEFAULT_FEE_BPS;
        config.initialized = true;
    } else if fee_bps.is_none() && fee_authority.is_none() && fee_withdraw_authority.is_none() {
        return Err(Error::InvalidInstructionData);
    }
    if let Some(new_fee_authority) = fee_authority {
        config.fee_authority = new_fee_authority;
    }
    if let Some(new_fee_withdraw_authority) = fee_withdraw_authority {
        config.fee_withdraw_authority = new_fee_withdraw_authority;
    }
    if let Some(new_fee_bps) = fee_bps {
        config.fee_bps = new_fee_bps;
    }
    ctx.fee_config = config;
    Ok(())
}

} // verus!
