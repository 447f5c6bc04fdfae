//! The fee configuration: one record for the whole program.
use vstd::prelude::*;
use crate::key::Key;

verus! {

/// Seed of the fee configuration's address: the bytes of "fee".
pub const FEE_SEED: [u8; 3] = [102, 101, 101];

/// Fee rate and the two keys that rule over fees.
#[derive(Clone, Copy, Debug, PartialEq, Eq)]
pub struct FeeConfigAccount {
    /// False until the first write, true ever after.
    pub initialized: bool,
    /// May change the fee parameters.
    pub fee_authority: Key,
    /// May withdraw the fees collected.
    pub fee_withdraw_authority: Key,
    /// Fee on deposits, out of 10 000.
    pub fee_bps: u16,
}

impl FeeConfigAccount {
    /// The record before its first write.
    pub open spec fn empty() -> FeeConfigAccount {
        FeeConfigAccount {
            initialized: false,
            fee_authority: Key::zero(),
            fee_withdraw_authority: Key::zero(),
            fee_bps: 0,
        }
    }

    /// Bytes the stored record takes: an 8-byte tag, the flag, the two keys
    /// and the rate.
    pub fn space() -> (r: usize)
        ensures
            r == 8 + 1 + 32 + 32 + 2,
    {
        8 + 1 + 32 + 32 + 2
    }

    /// The seed from which the record's address is derived.
    pub fn seed() -> (r: &'static [u8])
        ensures
            r@ == FEE_SEED@,
    {
        let r: &'static [u8] = &[102u8, 101u8, 101u8];
        assert(r@ =~= FEE_SEED@);
        r
    }
}

impl Default for FeeConfigAccount {
    fn default() -> (r: FeeConfigAccount)
        ensures
            r == FeeConfigAccount::empty(),
    {
        FeeConfigAccount {
            initialized: false,
            fee_authority: Key::default(),
            fee_withdraw_authority: Key::default(),
            fee_bps: 0,
        }
    }
}

} // verus!
