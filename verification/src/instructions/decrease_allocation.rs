//! Decrease: a draw on one slot of an allocation by its decrease authority.
use vstd::prelude::*;
use crate::instructions::reconcile::{sweep, sweep_plan, Outcome, Routed};
use crate::key::Key;
use crate::state::allocation::{AllocationAccount, Slot};
use crate::state::fee::FeeConfigAccount;
use crate::utility::account::{Mint, TokenAccount};
use crate::utility::constraint::{
    allocation_violation, check_allocation, check_fee_config, check_nft_mint, fee_config_violation,
    first_of, nft_mint_violation, verdict,
};
use crate::utility::cpi::{CrossProgramInvocations, Invocation};
use crate::utility::error::{Error, RuntimeError};
use crate::utility::signer::{allocation_address, SeedSigner};

verus! {

/// The accounts of a decrease.
#[derive(Clone, Copy, Debug, PartialEq, Eq)]
pub struct DecreaseAllocationState {
    /// Who draws.
    pub signer: Key,
    pub fee_config_key: Key,
    pub fee_config: FeeConfigAccount,
    /// The NFT that the allocation is bound to.
    pub nft_mint: Mint,
    pub allocation_key: Key,
    pub allocation: AllocationAccount,
    /// The token drawn.
    pub token_mint: Mint,
    /// The drawer's holding of the token.
    pub signer_token_account: TokenAccount,
    /// The allocation's holding of the token.
    pub allocation_token_account: TokenAccount,
    /// The fee configuration's holding of the token.
    pub fee_token_account: TokenAccount,
    pub token_program: Key,
}

/// Routes a draw of `amount` of `mint`: to the first slot that names the
/// mint, which must hold that much. The slot keeps its mint, also when
/// nothing is left in it.
pub open spec fn route_draw(a: AllocationAccount, mint: Key, amount: u64) -> Result<Routed, Error> {
    match a.slot_of(mint) {
        Some(i) => {
            let held = a.slots()[i].amount;
            if held < amount {
                Err(Error::ArithmeticOverflow)
            } else {
                Ok(
                    Routed {
                        allocation: a.with_slot(i, Slot { mint, amount: (held - amount) as u64 }),
                        slot: i,
                        expected: held,
                    },
                )
            }
        },
        None => Err(Error::Runtime(RuntimeError::TokenNotFound)),
    }
}

impl DecreaseAllocationState {
    /// The first condition on the accounts that does not hold, if any.
    /// In order: the drawer's and the fee configuration's holdings are of
    /// the token and under their authority; the drawer is the decrease
    /// authority; the fee configuration is at its address and initialized;
    /// the NFT has no decimals and the fee configuration as its minter; the
    /// allocation is at its address and exists; the token has decimals; the
    /// allocation's holding is of the token and the allocation's.
    pub open spec fn violation(self) -> Option<Error> {
        first_of(
            self.signer_token_account.misbound(self.token_mint.key, self.signer),
            first_of(
                self.fee_token_account.misbound(self.token_mint.key, self.fee_config_key),
                first_of(
                    if self.signer != self.allocation.decrease_authority {
                        Some(Error::ConstraintRaw)
                    } else {
                        None
                    },
                    first_of(
                        fee_config_violation(self.fee_config_key, self.fee_config),
                        first_of(
                            nft_mint_violation(self.nft_mint, self.fee_config_key),
                            first_of(
                                allocation_violation(self.allocation_key, self.nft_mint.key, self.allocation),
                                first_of(
                                    if self.token_mint.decimals == 0 {
                                        Some(Error::ConstraintRaw)
                                    } else {
                                        None
                                    },
                                    self.allocation_token_account.misbound(
                                        self.token_mint.key,
                                        self.allocation_key,
                                    ),
                                ),
                            ),
                        ),
                    ),
                ),
            ),
        )
    }

    /// Checks the conditions on the accounts.
    pub fn validate(&self) -> (r: Result<(), Error>)
        ensures
            r == verdict(self.violation()),
            r is Ok ==> allocation_address(self.nft_mint.key) is Some,
    {
        self.signer_token_account.check_bound(&self.token_mint.key, &self.signer)?;
        self.fee_token_account.check_bound(&self.token_mint.key, &self.fee_config_key)?;
        if self.signer != self.allocation.decrease_authority {
            return Err(Error::ConstraintRaw);
        }
        check_fee_config(&self.fee_config_key, &self.fee_config)?;
        check_nft_mint(&self.nft_mint, &self.fee_config_key)?;
        check_allocation(&self.allocation_key, &self.nft_mint.key, &self.allocation)?;
        if self.token_mint.decimals == 0 {
            return Err(Error::ConstraintRaw);
        }
        self.allocation_token_account.check_bound(&self.token_mint.key, &self.allocation_key)
    }

    /// The payment of `amount` out of the allocation's holding.
    pub open spec fn payment(self, amount: u64) -> Invocation {
        CrossProgramInvocations::transfer(
            self.allocation_token_account.key,
            self.token_mint.key,
            self.signer_token_account.key,
            self.allocation_key,
            self.token_program,
            Some(SeedSigner::spec_allocation(self.nft_mint.key)),
            amount,
            self.token_mint.decimals,
        )
    }

    /// The closing of the allocation's holding, its rent to the drawer.
    pub open spec fn closing(self) -> Invocation {
        CrossProgramInvocations::close(
            self.allocation_token_account.key,
            self.signer,
            self.allocation_key,
            self.token_program,
            Some(SeedSigner::spec_allocation(self.nft_mint.key)),
        )
    }

    /// The invocations of a draw of `amount` on a slot that held
    /// `expected`: the sweep, the payment, and the closing of the holding
    /// where the draw empties the slot.
    pub open spec fn plan(self, expected: u64, amount: u64) -> Seq<Invocation> {
        sweep_plan(
            self.allocation_token_account,
            expected,
            self.token_mint,
            self.fee_token_account.key,
            self.allocation_key,
            self.nft_mint.key,
            self.token_program,
        ) + seq![self.payment(amount)] + if expected == amount {
            seq![self.closing()]
        } else {
            Seq::empty()
        }
    }

    /// What a draw of `amount` comes to.
    pub open spec fn outcome(self, amount: u64) -> Result<Outcome, Error> {
        match route_draw(self.allocation, self.token_mint.key, amount) {
            Ok(routed) => Ok(
                Outcome { allocation: routed.allocation, plan: self.plan(routed.expected, amount) },
            ),
            Err(e) => Err(e),
        }
    }
}

/// Draws `amount` of the token from the slot that names it: the
/// allocation's holding is swept of what the slot did not account for, pays
/// `amount` to the drawer, and is closed if that empties the slot. On an
/// error nothing is changed.
///
/// Where the draw is routed, the allocation's address must exist.
pub fn decrease_allocation(ctx: &mut DecreaseAllocationState, amount: u64) -> (r: Result<
    Vec<Invocation>,
    Error,
>)
    requires
        route_draw(old(ctx).allocation, old(ctx).token_mint.key, amount) is Ok ==> allocation_address(
            old(ctx).nft_mint.key,
        ) is Some,
    ensures
        match r {
            Ok(plan) => old(ctx).outcome(amount) == Ok::<Outcome, Error>(
                Outcome { allocation: final(ctx).allocation, plan: plan@ },
            ),
            Err(e) => old(ctx).outcome(amount) == Err::<Outcome, Error>(e) && *final(ctx) == *old(ctx),
        },
        *final(ctx) == (DecreaseAllocationState { allocation: final(ctx).allocation, ..*old(ctx) }),
{
    let mint = ctx.token_mint.key;
    let mut allocation = ctx.allocation;
    let expected_amount: u64;
    match allocation.find_slot(&mint) {
        Some(i) => {
            let held = allocation.slot(i).amount;
            expected_amount = held;
            match held.checked_sub(amount) {
                Some(rest) => {
                    allocation.set_slot(i, Slot { mint, amount: rest });
                },
                None => {
                    return Err(Error::ArithmeticOverflow);
                },
            }
        },
        None => {
            return Err(Error::Runtime(RuntimeError::TokenNotFound));
        },
    }
    let signer = SeedSigner::allocation(&ctx.nft_mint.key);
    let mut plan: Vec<Invocation> = Vec::new();
    sweep(
        &mut plan,
        &ctx.allocation_token_account,
        expected_amount,
        &ctx.token_mint,
        &ctx.fee_token_account.key,
        &ctx.allocation_key,
        signer,
        &ctx.token_program,
    );
    plan.push(
        CrossProgramInvocations::transfer_token(
            ctx.allocation_token_account.key,
            ctx.token_mint.key,
            ctx.signer_token_account.key,
            ctx.allocation_key,
            ctx.token_program,
            Some(signer),
            amount,
            ctx.token_mint.decimals,
        ),
    );
    if expected_amount == amount {
        plan.push(
            CrossProgramInvocations::close_token(
                ctx.allocation_token_account.key,
                ctx.signer,
                ctx.allocation_key,
                ctx.token_program,
                Some(signer),
            ),
        );
    }
    assert(plan@ =~= old(ctx).plan(expected_amount, amount));
    ctx.allocation = allocation;
    Ok(plan)
}

} // verus!
