//! The making of an allocation and its NFT, and the handing on of the two
//! roles over it.
use vstd::prelude::*;
use crate::instructions::reconcile::Outcome;
use crate::key::Key;
use crate::state::allocation::AllocationAccount;
use crate::state::fee::FeeConfigAccount;
use crate::utility::account::{closable_by, is_closable_by, Mint, TokenAccount};
use crate::utility::constraint::{
    allocation_seeds_violation, check_allocation_address, check_fee_config, fee_config_violation,
    first_of, verdict,
};
use crate::utility::cpi::{CrossProgramInvocations, Invocation};
use crate::utility::error::Error;
use crate::utility::signer::{fee_address, SeedSigner};

verus! {

/// The mint of wrapped SOL, which a new allocation's first slot names.
pub const SOL_MINT: [u8; 32] = [
    6, 155, 136, 87, 254, 171, 129, 132,
    251, 104, 127, 99, 70, 24, 192, 53,
    218, 196, 57, 220, 26, 235, 59, 85,
    152, 160, 240, 0, 0, 0, 0, 1,
];

/// The mint of USDC, which a new allocation's second slot names.
pub const USDC_MINT: [u8; 32] = [
    198, 250, 122, 243, 190, 219, 173, 58,
    61, 101, 243, 106, 171, 201, 116, 49,
    177, 187, 228, 194, 210, 246, 224, 228,
    124, 166, 2, 3, 69, 47, 93, 97,
];

/// The mint of USDT, which a new allocation's third slot names.
pub const USDT_MINT: [u8; 32] = [
    206, 1, 14, 96, 175, 237, 178, 39,
    23, 189, 99, 25, 47, 84, 20, 90,
    63, 150, 90, 51, 187, 130, 210, 199,
    2, 158, 178, 206, 30, 32, 130, 100,
];

/// The accounts of an initialization.
#[derive(Clone, Debug, PartialEq, Eq)]
pub struct InitializeAllocationState {
    /// Who initializes, or hands a role on.
    pub signer: Key,
    pub fee_config_key: Key,
    pub fee_config: FeeConfigAccount,
    /// The NFT that the allocation is bound to.
    pub nft_mint: Mint,
    /// The account data of the NFT's mint, extensions included.
    pub nft_mint_data: Vec<u8>,
    /// The signer's holding of the NFT.
    pub nft_token: TokenAccount,
    pub allocation_key: Key,
    pub allocation: AllocationAccount,
    pub token_extensions_program: Key,
}

/// The key that `authority` names, or the zero key.
pub open spec fn named(authority: Option<Key>) -> Key {
    match authority {
        Some(key) => key,
        None => Key::zero(),
    }
}

/// The record after the recover authority, if `signer` is it, has handed
/// its role to `authority`; an error where that is the decrease authority.
pub open spec fn rotate_recover(a: AllocationAccount, signer: Key, authority: Option<Key>) -> Result<
    AllocationAccount,
    Error,
> {
    if signer != a.recover_authority {
        Ok(a)
    } else if authority == Some(a.decrease_authority) {
        Err(Error::InvalidInstructionData)
    } else {
        Ok(AllocationAccount { recover_authority: named(authority), ..a })
    }
}

/// The record after the decrease authority, if `signer` is it, has handed
/// its role to `authority`; an error where that is the recover authority.
pub open spec fn rotate_decrease(a: AllocationAccount, signer: Key, authority: Option<Key>) -> Result<
    AllocationAccount,
    Error,
> {
    if signer != a.decrease_authority {
        Ok(a)
    } else if authority == Some(a.recover_authority) {
        Err(Error::InvalidInstructionData)
    } else {
        Ok(AllocationAccount { decrease_authority: named(authority), ..a })
    }
}

/// The record that `signer` makes of one that does not exist yet: the
/// signer recovers, `authority` decreases, and the three slots are empty
/// and name the three default mints. One that exists is left as it is.
pub open spec fn create(a: AllocationAccount, signer: Key, authority: Option<Key>) -> AllocationAccount {
    if a.initialized {
        a
    } else {
        AllocationAccount {
            initialized: true,
            decrease_authority: named(authority),
            recover_authority: signer,
            first_token_mint: Key { bytes: SOL_MINT },
            first_token_amount: 0,
            second_token_mint: Key { bytes: USDC_MINT },
            second_token_amount: 0,
            third_token_mint: Key { bytes: USDT_MINT },
            third_token_amount: 0,
        }
    }
}

/// What an initialization by `signer` makes of the record: the recover
/// authority's handing on, then the decrease authority's, then the making
/// of the record where there was none.
pub open spec fn initialized_record(a: AllocationAccount, signer: Key, authority: Option<Key>) -> Result<
    AllocationAccount,
    Error,
> {
    match rotate_recover(a, signer, authority) {
        Err(e) => Err(e),
        Ok(a1) => match rotate_decrease(a1, signer, authority) {
            Err(e) => Err(e),
            Ok(a2) => Ok(create(a2, signer, authority)),
        },
    }
}

impl InitializeAllocationState {
    /// Why the mint handed in cannot be the NFT: the fee configuration is
    /// not its minter, it has decimals, or the fee configuration is not the
    /// one who may close it.
    pub open spec fn mint_violation(self) -> Option<Error> {
        if self.nft_mint.mint_authority != Some(self.fee_config_key) || self.nft_mint.decimals != 0
            || !closable_by(self.nft_mint_data@, self.fee_config_key) {
            Some(Error::InvalidAccountData)
        } else {
            None
        }
    }

    /// Why the signer may not initialize: the allocation exists and the
    /// signer has neither role over it, or it does not exist and units of
    /// the NFT do.
    pub open spec fn standing_violation(self) -> Option<Error> {
        if self.allocation.initialized {
            if self.signer != self.allocation.recover_authority && self.signer
                != self.allocation.decrease_authority {
                Some(Error::ConstraintRaw)
            } else {
                None
            }
        } else if self.nft_mint.supply != 0 {
            Some(Error::ConstraintRaw)
        } else {
            None
        }
    }

    /// The first condition on the accounts that does not hold, if any.
    /// In order: the signer's holding is of the NFT and the signer's; the
    /// allocation is at the address derived from the NFT's mint; the fee
    /// configuration is at its address and initialized; the mint can be
    /// the NFT; the signer may initialize.
    pub open spec fn violation(self) -> Option<Error> {
        first_of(
            self.nft_token.misbound(self.nft_mint.key, self.signer),
            first_of(
                allocation_seeds_violation(self.allocation_key, self.nft_mint.key),
                first_of(
                    fee_config_violation(self.fee_config_key, self.fee_config),
                    first_of(self.mint_violation(), self.standing_violation()),
                ),
            ),
        )
    }

    /// Checks the conditions on the accounts.
    pub fn validate(&self) -> (r: Result<(), Error>)
        ensures
            r == verdict(self.violation()),
            r is Ok ==> fee_address() is Some,
    {
        self.nft_token.check_bound(&self.nft_mint.key, &self.signer)?;
        if !check_allocation_address(&self.allocation_key, &self.nft_mint.key) {
            return Err(Error::ConstraintSeeds);
        }
        check_fee_config(&self.fee_config_key, &self.fee_config)?;
        let minted_by_fee_config = match self.nft_mint.mint_authority {
            Some(authority) => authority == self.fee_config_key,
            None => false,
        };
        if !minted_by_fee_config || self.nft_mint.decimals != 0 || !is_closable_by(
            self.nft_mint_data.as_slice(),
            &self.fee_config_key,
        ) {
            return Err(Error::InvalidAccountData);
        }
        if self.allocation.initialized {
            if self.signer != self.allocation.recover_authority && self.signer
                != self.allocation.decrease_authority {
                return Err(Error::ConstraintRaw);
            }
        } else if self.nft_mint.supply != 0 {
            return Err(Error::ConstraintRaw);
        }
        Ok(())
    }

    /// The invocations of an initialization: one unit of the NFT is minted
    /// to the signer where none exists yet, which the fee configuration
    /// signs for.
    pub open spec fn plan(self) -> Seq<Invocation> {
        if self.nft_mint.supply == 0 {
            seq![
                CrossProgramInvocations::mint(
                    self.nft_mint.key,
                    self.nft_token.key,
                    self.fee_config_key,
                    self.token_extensions_program,
                    Some(SeedSigner::spec_fee()),
                    1,
                ),
            ]
        } else {
            Seq::empty()
        }
    }

    /// What an initialization that names `authority` comes to.
    pub open spec fn outcome(self, authority: Option<Key>) -> Result<Outcome, Error> {
        if !closable_by(self.nft_mint_data@, self.fee_config_key) {
            Err(Error::InvalidAccountData)
        } else {
            match initialized_record(self.allocation, self.signer, authority) {
                Ok(allocation) => Ok(Outcome { allocation, plan: self.plan() }),
                Err(e) => Err(e),
            }
        }
    }
}

/// Initializes the allocation bound to the NFT, or hands a role over it
/// on. The mint must name the fee configuration as the one who may close
/// it. One unit of the NFT is minted to the signer if none exists. A signer
/// who holds a role hands it to `authority`, or vacates it where none is
/// named, and may not hand it to the holder of the other role. Where there
/// was no allocation, the signer becomes its recover authority and
/// `authority` its decrease authority. On an error nothing is changed.
///
/// The fee configuration's address must exist.
pub fn initialize_allocation(ctx: &mut InitializeAllocationState, authority: Option<Key>) -> (r: Result<
    Vec<Invocation>,
    Error,
>)
    requires
        fee_address() is Some,
    ensures
        match r {
            Ok(plan) => old(ctx).outcome(authority) == Ok::<Outcome, Error>(
                Outcome { allocation: final(ctx).allocation, plan: plan@ },
            ),
            Err(e) => old(ctx).outcome(authority) == Err::<Outcome, Error>(e) && *final(ctx) == *old(ctx),
        },
        *final(ctx) == (InitializeAllocationState { allocation: final(ctx).allocation, ..*old(ctx) }),
{
    let signer = SeedSigner::fee();
    if !is_closable_by(ctx.nft_mint_data.as_slice(), &ctx.fee_config_key) {
        return Err(Error::InvalidAccountData);
    }
    let mut plan: Vec<Invocation> = Vec::new();
    if ctx.nft_mint.supply == 0 {
        plan.push(
            CrossProgramInvocations::mint_token(
                ctx.nft_mint.key,
                ctx.nft_token.key,
                ctx.fee_config_key,
                ctx.token_extensions_program,
                Some(signer),
                1,
            ),
        );
    }
    assert(plan@ =~= old(ctx).plan());
    let wanted = match authority {
        Some(key) => key,
        None => Key::default(),
    };
    let mut allocation = ctx.allocation;
    if ctx.signer == allocation.recover_authority {
        if is_named(authority, &allocation.decrease_authority) {
            return Err(Error::InvalidInstructionData);
        }
        allocation.recover_authority = wanted;
    }
    if ctx.signer == allocation.decrease_authority {
        if is_named(authority, &allocation.recover_authority) {
            return Err(Error::InvalidInstructionData);
        }
        allocation.decrease_authority = wanted;
    }
    if !allocation.initialized {
        allocation.decrease_authority = wanted;
        allocation.recover_authority = ctx.signer;
        allocation.first_token_mint = Key::new(SOL_MINT);
        allocation.first_token_amount = 0;
        allocation.second_token_mint = Key::new(USDC_MINT);
        allocation.second_token_amount = 0;
        allocation.third_token_mint = Key::new(USDT_MINT);
        allocation.third_token_amount = 0;
        allocation.initialized = true;
    }
    ctx.allocation = allocation;
    Ok(plan)
}

/// Whether `authority` names `key`.
fn is_named(authority: Option<Key>, key: &Key) -> (r: bool)
    ensures
        r == (authority == Some(*key)),
{
    match authority {
        Some(named) => named == *key,
        None => false,
    }
}

} // verus!
