//! Increase: a deposit into an allocation, with the fee taken off it.
use vstd::prelude::*;
use crate::instructions::reconcile::{sweep, sweep_plan, Outcome, Routed};
use crate::key::Key;
use crate::state::allocation::{AllocationAccount, Slot};
use crate::state::fee::FeeConfigAccount;
use crate::utility::account::{Mint, TokenAccount};
use crate::utility::constraint::{
    allocation_violation, check_allocation, check_fee_config, check_nft_mint, fee_config_violation,
    first_of, nft_mint_violation, verdict,
};
use crate::utility::cpi::{CrossProgramInvocations, Invocation};
use crate::utility::error::{Error, RuntimeError};
use crate::utility::signer::{allocation_address, SeedSigner};

verus! {

/// Basis points in a whole.
pub const MAX_BPS: u16 = 10000;

/// Basis points of a deposit that reach the allocation: what the fee
/// leaves of the whole, and nothing where the fee is the whole or more.
pub open spec fn kept_bps(fee_bps: u16) -> nat {
    if fee_bps >= MAX_BPS {
        0
    } else {
        (MAX_BPS - fee_bps) as nat
    }
}

/// The part of a deposit of `amount` that reaches the allocation.
pub open spec fn allocation_share(amount: u64, fee_bps: u16) -> nat {
    (amount as nat * kept_bps(fee_bps)) / (MAX_BPS as nat)
}

/// The part of a deposit of `amount` that is fee.
pub open spec fn fee_share(amount: u64, fee_bps: u16) -> nat {
    (amount as nat - allocation_share(amount, fee_bps)) as nat
}

/// Whether the product that the split takes leaves the range of `u64`.
pub open spec fn split_overflows(amount: u64, fee_bps: u16) -> bool {
    amount as nat * kept_bps(fee_bps) > u64::MAX as nat
}

/// The share never exceeds the deposit, so the two parts add up to it.
pub proof fn lemma_shares(amount: u64, fee_bps: u16)
    ensures
        allocation_share(amount, fee_bps) <= amount,
        allocation_share(amount, fee_bps) + fee_share(amount, fee_bps) == amount,
{
    let k = kept_bps(fee_bps);
    assert(amount as nat * k <= amount as nat * 10000) by (nonlinear_arith)
        requires
            k <= 10000,
    ;
    assert((amount as nat * k) / 10000 <= amount as nat) by (nonlinear_arith)
        requires
            amount as nat * k <= amount as nat * 10000,
    ;
}

/// Splits a deposit into what reaches the allocation and the fee.
pub fn split_amount(amount: u64, fee_bps: u16) -> (r: Result<(u64, u64), Error>)
    ensures
        split_overflows(amount, fee_bps) ==> r == Err::<(u64, u64), Error>(Error::ArithmeticOverflow),
        !split_overflows(amount, fee_bps) ==> r == Ok::<(u64, u64), Error>(
            (allocation_share(amount, fee_bps) as u64, fee_share(amount, fee_bps) as u64),
        ),
{
    let kept: u16 = MAX_BPS.saturating_sub(fee_bps);
    assert(kept as nat == kept_bps(fee_bps));
    let product = match amount.checked_mul(kept as u64) {
        Some(p) => p,
        None => {
            return Err(Error::ArithmeticOverflow);
        },
    };
    let allocation_amount: u64 = product / (MAX_BPS as u64);
    proof {
        lemma_shares(amount, fee_bps);
    }
    let fee_amount = match amount.checked_sub(allocation_amount) {
        Some(f) => f,
        None => {
            return Err(Error::ArithmeticOverflow);
        },
    };
    Ok((allocation_amount, fee_amount))
}

/// The accounts of an increase.
#[derive(Clone, Copy, Debug, PartialEq, Eq)]
pub struct IncreaseAllocationState {
    /// Who deposits.
    pub signer: Key,
    pub fee_config_key: Key,
    pub fee_config: FeeConfigAccount,
    /// The NFT that the allocation is bound to.
    pub nft_mint: Mint,
    pub allocation_key: Key,
    pub allocation: AllocationAccount,
    /// The token deposited.
    pub token_mint: Mint,
    /// The depositor's holding of the token.
    pub signer_token_account: TokenAccount,
    /// The allocation's holding of the token.
    pub allocation_token_account: TokenAccount,
    /// The fee configuration's holding of the token.
    pub fee_token_account: TokenAccount,
    pub token_program: Key,
}

/// Routes a deposit of `amount` of `mint`: to the first slot that names
/// the mint; else to the first free slot, which is bound to the mint; else
/// nowhere.
pub open spec fn route_deposit(a: AllocationAccount, mint: Key, amount: u64) -> Result<Routed, Error> {
    match a.slot_of(mint) {
        Some(i) => {
            let held = a.slots()[i].amount;
            if held + amount > u64::MAX {
                Err(Error::ArithmeticOverflow)
            } else {
                Ok(
                    Routed {
                        allocation: a.with_slot(i, Slot { mint, amount: (held + amount) as u64 }),
                        slot: i,
                        expected: held,
                    },
                )
            }
        },
        None => match a.free_slot() {
            Some(i) => Ok(Routed { allocation: a.with_slot(i, Slot { mint, amount }), slot: i, expected: 0 }),
            None => Err(Error::Runtime(RuntimeError::MaxTokensReached)),
        },
    }
}

impl IncreaseAllocationState {
    /// The first condition on the accounts that does not hold, if any.
    /// In order: the allocation's and the fee configuration's holdings are
    /// of the token and under their authority; the fee configuration is at
    /// its address and initialized; the NFT has supply one, no decimals and
    /// the fee configuration as its minter; the allocation is at its
    /// address and exists; the token has decimals; the depositor's holding
    /// is of the token and the depositor's.
    pub open spec fn violation(self) -> Option<Error> {
        first_of(
            self.allocation_token_account.misbound(self.token_mint.key, self.allocation_key),
            first_of(
                self.fee_token_account.misbound(self.token_mint.key, self.fee_config_key),
                first_of(
                    fee_config_violation(self.fee_config_key, self.fee_config),
                    first_of(
                        if self.nft_mint.supply != 1 {
                            Some(Error::ConstraintRaw)
                        } else {
                            nft_mint_violation(self.nft_mint, self.fee_config_key)
                        },
                        first_of(
                            allocation_violation(self.allocation_key, self.nft_mint.key, self.allocation),
                            first_of(
                                if self.token_mint.decimals == 0 {
                                    Some(Error::ConstraintRaw)
                                } else {
                                    None
                                },
                                self.signer_token_account.misbound(self.token_mint.key, self.signer),
                            ),
                        ),
                    ),
                ),
            ),
        )
    }

    /// Checks the conditions on the accounts.
    pub fn validate(&self) -> (r: Result<(), Error>)
        ensures
            r == verdict(self.violation()),
            r is Ok ==> allocation_address(self.nft_mint.key) is Some,
    {
        self.allocation_token_account.check_bound(&self.token_mint.key, &self.allocation_key)?;
        self.fee_token_account.check_bound(&self.token_mint.key, &self.fee_config_key)?;
        check_fee_config(&self.fee_config_key, &self.fee_config)?;
        if self.nft_mint.supply != 1 {
            return Err(Error::ConstraintRaw);
        }
        check_nft_mint(&self.nft_mint, &self.fee_config_key)?;
        check_allocation(&self.allocation_key, &self.nft_mint.key, &self.allocation)?;
        if self.token_mint.decimals == 0 {
            return Err(Error::ConstraintRaw);
        }
        self.signer_token_account.check_bound(&self.token_mint.key, &self.signer)
    }

    /// The invocations of a deposit routed to a slot that should have held
    /// `expected`: the sweep, then the allocation's part, then the fee.
    pub open spec fn plan(self, expected: u64, allocation_amount: u64, fee_amount: u64) -> Seq<Invocation> {
        sweep_plan(
            self.allocation_token_account,
            expected,
            self.token_mint,
            self.fee_token_account.key,
            self.allocation_key,
            self.nft_mint.key,
            self.token_program,
        ) + seq![
            CrossProgramInvocations::transfer(
                self.signer_token_account.key,
                self.token_mint.key,
                self.allocation_token_account.key,
                self.signer,
                self.token_program,
                None,
                allocation_amount,
                self.token_mint.decimals,
            ),
            CrossProgramInvocations::transfer(
                self.signer_token_account.key,
                self.token_mint.key,
                self.fee_token_account.key,
                self.signer,
                self.token_program,
                None,
                fee_amount,
                self.token_mint.decimals,
            ),
        ]
    }

    /// What a deposit of `amount` comes to.
    pub open spec fn outcome(self, amount: u64) -> Result<Outcome, Error> {
        if split_overflows(amount, self.fee_config.fee_bps) {
            Err(Error::ArithmeticOverflow)
        } else {
            let allocation_amount = allocation_share(amount, self.fee_config.fee_bps) as u64;
            let fee_amount = fee_share(amount, self.fee_config.fee_bps) as u64;
            match route_deposit(self.allocation, self.token_mint.key, allocation_amount) {
                Ok(routed) => Ok(
                    Outcome {
                        allocation: routed.allocation,
                        plan: self.plan(routed.expected, allocation_amount, fee_amount),
                    },
                ),
                Err(e) => Err(e),
            }
        }
    }

    /// Whether a deposit of `amount` sweeps, and so has the allocation sign.
    pub open spec fn sweeps(self, amount: u64) -> bool {
        !split_overflows(amount, self.fee_config.fee_bps) && (route_deposit(
            self.allocation,
            self.token_mint.key,
            allocation_share(amount, self.fee_config.fee_bps) as u64,
        ) matches Ok(routed) && self.allocation_token_account.amount > routed.expected)
    }
}

/// Deposits `amount` of the token: the fee's share goes to the fee
/// holding, the rest to the slot that the token is routed to, after the
/// allocation's holding was swept of what the slot did not account for.
/// On an error nothing is changed.
///
/// Where the deposit sweeps, the allocation's address must exist.
pub fn increase_allocation(ctx: &mut IncreaseAllocationState, amount: u64) -> (r: Result<
    Vec<Invocation>,
    Error,
>)
    requires
        old(ctx).sweeps(amount) ==> allocation_address(old(ctx).nft_mint.key) is Some,
    ensures
        match r {
            Ok(plan) => old(ctx).outcome(amount) == Ok::<Outcome, Error>(
                Outcome { allocation: final(ctx).allocation, plan: plan@ },
            ),
            Err(e) => old(ctx).outcome(amount) == Err::<Outcome, Error>(e) && *final(ctx) == *old(ctx),
        },
        *final(ctx) == (IncreaseAllocationState { allocation: final(ctx).allocation, ..*old(ctx) }),
{
    let (allocation_amount, fee_amount) = split_amount(amount, ctx.fee_config.fee_bps)?;
    let mint = ctx.token_mint.key;
    let mut allocation = ctx.allocation;
    let expected_amount: u64;
    match allocation.find_slot(&mint) {
        Some(i) => {
            let held = allocation.slot(i).amount;
            expected_amount = held;
            match held.checked_add(allocation_amount) {
                Some(sum) => {
                    allocation.set_slot(i, Slot { mint, amount: sum });
                },
                None => {
                    return Err(Error::ArithmeticOverflow);
                },
            }
        },
        None => match allocation.find_free_slot() {
            Some(i) => {
                expected_amount = 0;
                allocation.set_slot(i, Slot { mint, amount: allocation_amount });
            },
            None => {
                return Err(Error::Runtime(RuntimeError::MaxTokensReached));
            },
        },
    }
    let mut plan: Vec<Invocation> = Vec::new();
    if ctx.allocation_token_account.amount > expected_amount {
        let signer = SeedSigner::allocation(&ctx.nft_mint.key);
        sweep(
            &mut plan,
            &ctx.allocation_token_account,
            expected_amount,
            &ctx.token_mint,
            &ctx.fee_token_account.key,
            &ctx.allocation_key,
            signer,
            &ctx.token_program,
        );
    }
    plan.push(
        CrossProgramInvocations::transfer_token(
            ctx.signer_token_account.key,
            ctx.token_mint.key,
            ctx.allocation_token_account.key,
            ctx.signer,
            ctx.token_program,
            None,
            allocation_amount,
            ctx.token_mint.decimals,
        ),
    );
    plan.push(
        CrossProgramInvocations::transfer_token(
            ctx.signer_token_account.key,
            ctx.token_mint.key,
            ctx.fee_token_account.key,
            ctx.signer,
            ctx.token_program,
            None,
            fee_amount,
            ctx.token_mint.decimals,
        ),
    );
    assert(plan@ =~= old(ctx).plan(expected_amount, allocation_amount, fee_amount));
    ctx.allocation = allocation;
    Ok(plan)
}

} // verus!
