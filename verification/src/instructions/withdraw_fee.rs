//! The withdrawal of collected fees by the fee-withdraw authority.
use vstd::prelude::*;
use crate::key::Key;
use crate::state::fee::FeeConfigAccount;
use crate::utility::account::{Mint, TokenAccount};
use crate::utility::constraint::{check_fee_config, fee_config_violation, first_of, verdict};
use crate::utility::cpi::{CrossProgramInvocations, Invocation};
use crate::utility::error::Error;
use crate::utility::signer::{fee_address, SeedSigner};

verus! {

/// The accounts of a fee withdrawal.
#[derive(Clone, Copy, Debug, PartialEq, Eq)]
pub struct WithdrawFeeState {
    /// Who withdraws.
    pub signer: Key,
    pub fee_config_key: Key,
    pub fee_config: FeeConfigAccount,
    /// The token withdrawn.
    pub token_mint: Mint,
    /// The withdrawer's holding of the token.
    pub signer_token_account: TokenAccount,
    /// The fee configuration's holding of the token.
    pub fee_token_account: TokenAccount,
    pub token_program: Key,
}

impl WithdrawFeeState {
    /// The first condition on the accounts that does not hold, if any.
    /// In order: the withdrawer's holding is of the token and the
    /// withdrawer's; the withdrawer is the fee-withdraw authority; the fee
    /// configuration is at its address and initialized; the token has
    /// decimals; the fee holding is of the token and the fee
    /// configuration's.
    pub open spec fn violation(self) -> Option<Error> {
        first_of(
            self.signer_token_account.misbound(self.token_mint.key, self.signer),
            first_of(
                if self.fee_config.fee_withdraw_authority != self.signer {
                    Some(Error::ConstraintRaw)
                } else {
                    None
                },
                first_of(
                    fee_config_violation(self.fee_config_key, self.fee_config),
                    first_of(
                        if self.token_mint.decimals == 0 {
                            Some(Error::ConstraintRaw)
                        } else {
                            None
                        },
                        self.fee_token_account.misbound(self.token_mint.key, self.fee_config_key),
                    ),
                ),
            ),
        )
    }

    /// Checks the conditions on the accounts.
    pub fn validate(&self) -> (r: Result<(), Error>)
        ensures
            r == verdict(self.violation()),
            r is Ok ==> fee_address() is Some,
    {
        self.signer_token_account.check_bound(&self.token_mint.key, &self.signer)?;
        if self.fee_config.fee_withdraw_authority != self.signer {
            return Err(Error::ConstraintRaw);
        }
        check_fee_config(&self.fee_config_key, &self.fee_config)?;
        if self.token_mint.decimals == 0 {
            return Err(Error::ConstraintRaw);
        }
        self.fee_token_account.check_bound(&self.token_mint.key, &self.fee_config_key)
    }

    /// What is withdrawn: `amount` where one is named, else all there is.
    pub open spec fn transfer_amount(self, amount: Option<u64>) -> u64 {
        match amount {
            Some(a) => a,
            None => self.fee_token_account.amount,
        }
    }

    /// The invocations of a withdrawal: the payment out of the fee
    /// holding, and the closing of the fee holding where all of it goes,
    /// its rent to the withdrawer. The fee configuration signs for both.
    pub open spec fn plan(self, amount: Option<u64>) -> Seq<Invocation> {
        seq![
            CrossProgramInvocations::transfer(
                self.fee_token_account.key,
                self.token_mint.key,
                self.signer_token_account.key,
                self.fee_config_key,
                self.token_program,
                Some(SeedSigner::spec_fee()),
                self.transfer_amount(amount),
                self.token_mint.decimals,
            ),
        ] + if self.transfer_amount(amount) == self.fee_token_account.amount {
            seq![
                CrossProgramInvocations::close(
                    self.fee_token_account.key,
                    self.signer,
                    self.fee_config_key,
                    self.token_program,
                    Some(SeedSigner::spec_fee()),
                ),
            ]
        } else {
            Seq::empty()
        }
    }
}

/// Withdraws `amount` of the fees collected in the token, or all of them
/// where no amount is named. It never fails of its own: an amount beyond
/// the balance is for the ledger to refuse.
///
/// The fee configuration's address must exist.
pub fn withdraw_fee(ctx: &WithdrawFeeState, amount: Option<u64>) -> (r: Result<Vec<Invocation>, Error>)
    requires
        fee_address() is Some,
    ensures
        r matches Ok(plan) && plan@ == ctx.plan(amount),
{
    let signer = SeedSigner::fee();
    let transfer_amount = match amount {
        Some(a) => a,
        None => ctx.fee_token_account.amount,
    };
    let mut plan: Vec<Invocation> = Vec::new();
    plan.push(
        CrossProgramInvocations::transfer_token(
            ctx.fee_token_account.key,
            ctx.token_mint.key,
            ctx.signer_token_account.key,
            ctx.fee_config_key,
            ctx.token_program,
            Some(signer),
            transfer_amount,
            ctx.token_mint.decimals,
        ),
    );
    if transfer_amount == ctx.fee_token_account.amount {
        plan.push(
            CrossProgramInvocations::close_token(
                ctx.fee_token_account.key,
                ctx.signer,
                ctx.fee_config_key,
                ctx.token_program,
                Some(signer),
            ),
        );
    }
    assert(plan@ =~= ctx.plan(amount));
    Ok(plan)
}

} // verus!
