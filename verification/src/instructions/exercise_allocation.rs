//! Exercise: the holder of the NFT redeems everything, and the NFT, its
//! mint and the allocation cease to exist.
use vstd::prelude::*;
use crate::instructions::reconcile::{sweep, sweep_plan, Outcome};
use crate::key::Key;
use crate::state::allocation::AllocationAccount;
use crate::state::fee::FeeConfigAccount;
use crate::utility::account::{Mint, TokenAccount};
use crate::utility::constraint::{
    allocation_violation, check_allocation, check_fee_config, check_nft_mint, fee_config_violation,
    first_of, nft_mint_violation, verdict,
};
use crate::utility::cpi::{CrossProgramInvocations, Invocation};
use crate::utility::error::Error;
use crate::utility::signer::{allocation_address, fee_address, SeedSigner};

verus! {

/// The full withdrawal of one slot that records `amount`: the sweep of the
/// allocation's holding, the payment of `amount` if there is any, and the
/// closing of the holding, whose rent goes to the redeemer's holding of the
/// same token.
pub open spec fn withdraw_plan(
    nft_mint: Mint,
    signer_token: TokenAccount,
    allocation_token: TokenAccount,
    fee_token: TokenAccount,
    allocation: Key,
    token_mint: Mint,
    token_program: Key,
    amount: u64,
) -> Seq<Invocation> {
    sweep_plan(allocation_token, amount, token_mint, fee_token.key, allocation, nft_mint.key, token_program)
        + if amount > 0 {
        seq![
            CrossProgramInvocations::transfer(
                allocation_token.key,
                token_mint.key,
                signer_token.key,
                allocation,
                token_program,
                Some(SeedSigner::spec_allocation(nft_mint.key)),
                amount,
                token_mint.decimals,
            ),
        ]
    } else {
        Seq::empty()
    } + seq![
        CrossProgramInvocations::close(
            allocation_token.key,
            signer_token.key,
            allocation,
            token_program,
            Some(SeedSigner::spec_allocation(nft_mint.key)),
        ),
    ]
}

/// Appends to `plan` the full withdrawal of one slot that records
/// `amount`.
pub fn withdraw_token(
    plan: &mut Vec<Invocation>,
    nft_mint: &Mint,
    signer_token: &TokenAccount,
    allocation_token: &TokenAccount,
    fee_token: &TokenAccount,
    allocation: &Key,
    token_mint: &Mint,
    token_program: &Key,
    amount: u64,
)
    requires
        allocation_address(nft_mint.key) is Some,
    ensures
        final(plan)@ == old(plan)@ + withdraw_plan(
            *nft_mint,
            *signer_token,
            *allocation_token,
            *fee_token,
            *allocation,
            *token_mint,
            *token_program,
            amount,
        ),
{
    let signer = SeedSigner::allocation(&nft_mint.key);
    sweep(plan, allocation_token, amount, token_mint, &fee_token.key, allocation, signer, token_program);
    if amount > 0 {
        plan.push(
            CrossProgramInvocations::transfer_token(
                allocation_token.key,
                token_mint.key,
                signer_token.key,
                *allocation,
                *token_program,
                Some(signer),
                amount,
                token_mint.decimals,
            ),
        );
    }
    plan.push(
        CrossProgramInvocations::close_token(
            allocation_token.key,
            signer_token.key,
            *allocation,
            *token_program,
            Some(signer),
        ),
    );
    assert(plan@ =~= old(plan)@ + withdraw_plan(
        *nft_mint,
        *signer_token,
        *allocation_token,
        *fee_token,
        *allocation,
        *token_mint,
        *token_program,
        amount,
    ));
}

/// The accounts of an exercise.
#[derive(Clone, Copy, Debug, PartialEq, Eq)]
pub struct ExerciseAllocationState {
    /// Who redeems.
    pub signer: Key,
    pub fee_config_key: Key,
    pub fee_config: FeeConfigAccount,
    /// The NFT that the allocation is bound to.
    pub nft_mint: Mint,
    /// The redeemer's holding of the NFT.
    pub nft_token: TokenAccount,
    pub allocation_key: Key,
    pub allocation: AllocationAccount,
    pub first_token_mint: Mint,
    pub signer_first_token_account: TokenAccount,
    pub allocation_first_token_account: TokenAccount,
    pub fee_first_token_account: TokenAccount,
    pub second_token_mint: Mint,
    pub signer_second_token_account: TokenAccount,
    pub allocation_second_token_account: TokenAccount,
    pub fee_second_token_account: TokenAccount,
    pub third_token_mint: Mint,
    pub signer_third_token_account: TokenAccount,
    pub allocation_third_token_account: TokenAccount,
    pub fee_third_token_account: TokenAccount,
    pub token_program: Key,
    pub token_extensions_program: Key,
}

/// Why the three holdings handed in for one slot's token are not the
/// redeemer's, the allocation's and the fee configuration's holding of it.
pub open spec fn holdings_violation(
    mint: Key,
    signer_token: TokenAccount,
    allocation_token: TokenAccount,
    fee_token: TokenAccount,
    signer: Key,
    allocation: Key,
    fee_config: Key,
) -> Option<Error> {
    first_of(
        signer_token.misbound(mint, signer),
        first_of(allocation_token.misbound(mint, allocation), fee_token.misbound(mint, fee_config)),
    )
}

/// Checks the three holdings handed in for one slot's token.
pub fn check_holdings(
    mint: &Key,
    signer_token: &TokenAccount,
    allocation_token: &TokenAccount,
    fee_token: &TokenAccount,
    signer: &Key,
    allocation: &Key,
    fee_config: &Key,
) -> (r: Result<(), Error>)
    ensures
        r == verdict(
            holdings_violation(
                *mint,
                *signer_token,
                *allocation_token,
                *fee_token,
                *signer,
                *allocation,
                *fee_config,
            ),
        ),
{
    signer_token.check_bound(mint, signer)?;
    allocation_token.check_bound(mint, allocation)?;
    fee_token.check_bound(mint, fee_config)
}

impl ExerciseAllocationState {
    /// Why the redeemer does not hold the NFT: the holding handed in is
    /// not the redeemer's holding of the NFT, or does not hold one unit.
    pub open spec fn custody_violation(self) -> Option<Error> {
        first_of(
            self.nft_token.misbound(self.nft_mint.key, self.signer),
            if self.nft_token.amount != 1 {
                Some(Error::ConstraintRaw)
            } else {
                None
            },
        )
    }

    /// Why the three mints handed in are not those of the three slots.
    pub open spec fn mints_violation(self) -> Option<Error> {
        if self.first_token_mint.key != self.allocation.first_token_mint || self.second_token_mint.key
            != self.allocation.second_token_mint || self.third_token_mint.key
            != self.allocation.third_token_mint {
            Some(Error::ConstraintRaw)
        } else {
            None
        }
    }

    /// The first condition on the accounts that does not hold, if any.
    /// In order: for each slot in turn, the three holdings are of the mint
    /// handed in for it and under their authority; the fee configuration is
    /// at its address and initialized; the NFT has no decimals and the fee
    /// configuration as its minter; the redeemer holds one unit of the NFT;
    /// the allocation is at its address and exists; the mints handed in are
    /// those of the slots.
    pub open spec fn violation(self) -> Option<Error> {
        first_of(
            holdings_violation(
                self.first_token_mint.key,
                self.signer_first_token_account,
                self.allocation_first_token_account,
                self.fee_first_token_account,
                self.signer,
                self.allocation_key,
                self.fee_config_key,
            ),
            first_of(
                holdings_violation(
                    self.second_token_mint.key,
                    self.signer_second_token_account,
                    self.allocation_second_token_account,
                    self.fee_second_token_account,
                    self.signer,
                    self.allocation_key,
                    self.fee_config_key,
                ),
                first_of(
                    holdings_violation(
                        self.third_token_mint.key,
                        self.signer_third_token_account,
                        self.allocation_third_token_account,
                        self.fee_third_token_account,
                        self.signer,
                        self.allocation_key,
                        self.fee_config_key,
                    ),
                    first_of(
                        fee_config_violation(self.fee_config_key, self.fee_config),
                        first_of(
                            nft_mint_violation(self.nft_mint, self.fee_config_key),
                            first_of(
                                self.custody_violation(),
                                first_of(
                                    allocation_violation(
                                        self.allocation_key,
                                        self.nft_mint.key,
                                        self.allocation,
                                    ),
                                    self.mints_violation(),
                                ),
                            ),
                        ),
                    ),
                ),
            ),
        )
    }

    /// Checks the conditions on the accounts.
    pub fn validate(&self) -> (r: Result<(), Error>)
        ensures
            r == verdict(self.violation()),
            r is Ok ==> allocation_address(self.nft_mint.key) is Some && fee_address() is Some,
    {
        check_holdings(
            &self.first_token_mint.key,
            &self.signer_first_token_account,
            &self.allocation_first_token_account,
            &self.fee_first_token_account,
            &self.signer,
            &self.allocation_key,
            &self.fee_config_key,
        )?;
        check_holdings(
            &self.second_token_mint.key,
            &self.signer_second_token_account,
            &self.allocation_second_token_account,
            &self.fee_second_token_account,
            &self.signer,
            &self.allocation_key,
            &self.fee_config_key,
        )?;
        check_holdings(
            &self.third_token_mint.key,
            &self.signer_third_token_account,
            &self.allocation_third_token_account,
            &self.fee_third_token_account,
            &self.signer,
            &self.allocation_key,
            &self.fee_config_key,
        )?;
        check_fee_config(&self.fee_config_key, &self.fee_config)?;
        check_nft_mint(&self.nft_mint, &self.fee_config_key)?;
        self.nft_token.check_bound(&self.nft_mint.key, &self.signer)?;
        if self.nft_token.amount != 1 {
            return Err(Error::ConstraintRaw);
        }
        check_allocation(&self.allocation_key, &self.nft_mint.key, &self.allocation)?;
        if self.first_token_mint.key != self.allocation.first_token_mint || self.second_token_mint.key
            != self.allocation.second_token_mint || self.third_token_mint.key
            != self.allocation.third_token_mint {
            return Err(Error::ConstraintRaw);
        }
        Ok(())
    }

    /// The full withdrawal of the first slot.
    pub open spec fn first_withdrawal(self) -> Seq<Invocation> {
        withdraw_plan(
            self.nft_mint,
            self.signer_first_token_account,
            self.allocation_first_token_account,
            self.fee_first_token_account,
            self.allocation_key,
            self.first_token_mint,
            self.token_program,
            self.allocation.first_token_amount,
        )
    }

    /// The full withdrawal of the second slot.
    pub open spec fn second_withdrawal(self) -> Seq<Invocation> {
        withdraw_plan(
            self.nft_mint,
            self.signer_second_token_account,
            self.allocation_second_token_account,
            self.fee_second_token_account,
            self.allocation_key,
            self.second_token_mint,
            self.token_program,
            self.allocation.second_token_amount,
        )
    }

    /// The full withdrawal of the third slot.
    pub open spec fn third_withdrawal(self) -> Seq<Invocation> {
        withdraw_plan(
            self.nft_mint,
            self.signer_third_token_account,
            self.allocation_third_token_account,
            self.fee_third_token_account,
            self.allocation_key,
            self.third_token_mint,
            self.token_program,
            self.allocation.third_token_amount,
        )
    }

    /// The end of the NFT: its one unit is burnt, the redeemer's holding
    /// of it closed, and the mint itself closed, which the fee
    /// configuration signs for. All rent goes to the redeemer.
    pub open spec fn retirement(self) -> Seq<Invocation> {
        seq![
            CrossProgramInvocations::burn(
                self.nft_mint.key,
                self.nft_token.key,
                self.signer,
                self.token_extensions_program,
                None,
                1,
            ),
            CrossProgramInvocations::close(
                self.nft_token.key,
                self.signer,
                self.signer,
                self.token_extensions_program,
                None,
            ),
            CrossProgramInvocations::close(
                self.nft_mint.key,
                self.signer,
                self.fee_config_key,
                self.token_extensions_program,
                Some(SeedSigner::spec_fee()),
            ),
        ]
    }

    /// The invocations of an exercise: the three slots in their order,
    /// then the end of the NFT.
    pub open spec fn plan(self) -> Seq<Invocation> {
        self.first_withdrawal() + self.second_withdrawal() + self.third_withdrawal() + self.retirement()
    }

    /// What an exercise comes to: the plan, and no allocation.
    pub open spec fn outcome(self) -> Outcome {
        Outcome { allocation: AllocationAccount::empty(), plan: self.plan() }
    }
}

/// Redeems the allocation: each slot in turn is withdrawn in full to the
/// redeemer and its holding closed, then the NFT is burnt and its holding
/// and mint are closed, and the allocation's record is no more. It never
/// fails of its own.
///
/// The fee configuration's and the allocation's address must exist.
pub fn exercise_allocation(ctx: &mut ExerciseAllocationState) -> (r: Result<Vec<Invocation>, Error>)
    requires
        fee_address() is Some,
        allocation_address(old(ctx).nft_mint.key) is Some,
    ensures
        r matches Ok(plan) && old(ctx).outcome() == (Outcome {
            allocation: final(ctx).allocation,
            plan: plan@,
        }),
        *final(ctx) == (ExerciseAllocationState { allocation: final(ctx).allocation, ..*old(ctx) }),
{
    let signer = SeedSigner::fee();
    let mut plan: Vec<Invocation> = Vec::new();
    withdraw_token(
        &mut plan,
        &ctx.nft_mint,
        &ctx.signer_first_token_account,
        &ctx.allocation_first_token_account,
        &ctx.fee_first_token_account,
        &ctx.allocation_key,
        &ctx.first_token_mint,
        &ctx.token_program,
        ctx.allocation.first_token_amount,
    );
    withdraw_token(
        &mut plan,
        &ctx.nft_mint,
        &ctx.signer_second_token_account,
        &ctx.allocation_second_token_account,
        &ctx.fee_second_token_account,
        &ctx.allocation_key,
        &ctx.second_token_mint,
        &ctx.token_program,
        ctx.allocation.second_token_amount,
    );
    withdraw_token(
        &mut plan,
        &ctx.nft_mint,
        &ctx.signer_third_token_account,
        &ctx.allocation_third_token_account,
        &ctx.fee_third_token_account,
        &ctx.allocation_key,
        &ctx.third_token_mint,
        &ctx.token_program,
        ctx.allocation.third_token_amount,
    );
    plan.push(
        CrossProgramInvocations::burn_token(
            ctx.nft_mint.key,
            ctx.nft_token.key,
            ctx.signer,
            ctx.token_extensions_program,
            None,
            1,
        ),
    );
    plan.push(
        CrossProgramInvocations::close_token(
            ctx.nft_token.key,
            ctx.signer,
            ctx.signer,
            ctx.token_extensions_program,
            None,
        ),
    );
    plan.push(
        CrossProgramInvocations::close_token(
            ctx.nft_mint.key,
            ctx.signer,
            ctx.fee_config_key,
            ctx.token_extensions_program,
            Some(signer),
        ),
    );
    assert(plan@ =~= old(ctx).plan());
    ctx.allocation = AllocationAccount::default();
    Ok(plan)
}

} // verus!
