//! The six entry points. Each checks the accounts it is handed and only
//! then does its work; whatever fails, nothing is changed.
use vstd::prelude::*;
use crate::instructions::decrease_allocation::{route_draw, DecreaseAllocationState};
use crate::instructions::exercise_allocation::ExerciseAllocationState;
use crate::instructions::increase_allocation::{allocation_share, route_deposit, IncreaseAllocationState};
use crate::instructions::initialize_allocation::InitializeAllocationState;
use crate::instructions::initialize_fee::{or_keep, InitializeFeeState};
use crate::instructions::reconcile::Outcome;
use crate::instructions::withdraw_fee::WithdrawFeeState;
use crate::key::Key;
use crate::lifecycle::{lemma_deposit_keeps_wf, lemma_draw_keeps_wf, lemma_initialization_keeps_wf};
use crate::state::fee::FeeConfigAccount;
use crate::utility::cpi::Invocation;
use crate::utility::error::Error;

verus! {

/// The fee configuration after `signer` has set the rate to `fee_bps`: a
/// first write makes the signer the fee authority, and the withdraw
/// authority too unless one is named; a later write keeps the fee
/// authority, and the withdraw authority unless one is named.
pub open spec fn fee_written(
    config: FeeConfigAccount,
    signer: Key,
    fee_bps: u16,
    withdraw_authority: Option<Key>,
) -> FeeConfigAccount {
    if config.initialized {
        FeeConfigAccount {
            initialized: true,
            fee_authority: config.fee_authority,
            fee_withdraw_authority: or_keep(withdraw_authority, config.fee_withdraw_authority),
            fee_bps,
        }
    } else {
        FeeConfigAccount {
            initialized: true,
            fee_authority: signer,
            fee_withdraw_authority: or_keep(withdraw_authority, signer),
            fee_bps,
        }
    }
}

/// Sets the fee rate, and the withdraw authority where one is named. The
/// first caller becomes the fee authority; after that only the fee
/// authority may call.
pub fn initialize_fee(ctx: &mut InitializeFeeState, fee_bps: u16, withdraw_authority: Option<Key>) -> (r:
    Result<(), Error>)
    ensures
        match old(ctx).violation() {
            Some(e) => r == Err::<(), Error>(e) && *final(ctx) == *old(ctx),
            None => r is Ok && *final(ctx) == (InitializeFeeState {
                fee_config: fee_written(old(ctx).fee_config, old(ctx).signer, fee_bps, withdraw_authority),
                ..*old(ctx)
            }),
        },
{
    ctx.validate()?;
    crate::instructions::initialize_fee::initialize_fee(ctx, Some(fee_bps), None, withdraw_authority)
}

/// Initializes the allocation bound to an NFT, or hands a role over it on.
pub fn initialize_allocation(ctx: &mut InitializeAllocationState, authority: Option<Key>) -> (r: Result<
    Vec<Invocation>,
    Error,
>)
    ensures
        match r {
            Ok(plan) => old(ctx).violation() is None && old(ctx).outcome(authority) == Ok::<Outcome, Error>(
                Outcome { allocation: final(ctx).allocation, plan: plan@ },
            ),
            Err(e) => *final(ctx) == *old(ctx) && match old(ctx).violation() {
                Some(v) => e == v,
                None => old(ctx).outcome(authority) == Err::<Outcome, Error>(e),
            },
        },
        *final(ctx) == (InitializeAllocationState { allocation: final(ctx).allocation, ..*old(ctx) }),
        old(ctx).allocation.wf() ==> final(ctx).allocation.wf(),
        r is Ok ==> final(ctx).allocation.initialized,
{
    ctx.validate()?;
    proof {
        if old(ctx).allocation.wf() && old(ctx).outcome(authority) is Ok {
            lemma_initialization_keeps_wf(old(ctx).allocation, old(ctx).signer, authority);
        }
    }
    crate::instructions::initialize_allocation::initialize_allocation(ctx, authority)
}

/// Deposits `amount` of a token into an allocation. Anyone may.
pub fn increase_allocation(ctx: &mut IncreaseAllocationState, amount: u64) -> (r: Result<
    Vec<Invocation>,
    Error,
>)
    ensures
        match r {
            Ok(plan) => old(ctx).violation() is None && old(ctx).outcome(amount) == Ok::<Outcome, Error>(
                Outcome { allocation: final(ctx).allocation, plan: plan@ },
            ),
            Err(e) => *final(ctx) == *old(ctx) && match old(ctx).violation() {
                Some(v) => e == v,
                None => old(ctx).outcome(amount) == Err::<Outcome, Error>(e),
            },
        },
        *final(ctx) == (IncreaseAllocationState { allocation: final(ctx).allocation, ..*old(ctx) }),
        old(ctx).allocation.wf() ==> final(ctx).allocation.wf(),
{
    ctx.validate()?;
    proof {
        let share = allocation_share(amount, old(ctx).fee_config.fee_bps) as u64;
        if route_deposit(old(ctx).allocation, old(ctx).token_mint.key, share) is Ok {
            lemma_deposit_keeps_wf(old(ctx).allocation, old(ctx).token_mint.key, share);
        }
    }
    crate::instructions::increase_allocation::increase_allocation(ctx, amount)
}

/// Draws `amount` of a token from an allocation. Only its decrease
/// authority may.
pub fn decrease_allocation(ctx: &mut DecreaseAllocationState, amount: u64) -> (r: Result<
    Vec<Invocation>,
    Error,
>)
    ensures
        match r {
            Ok(plan) => old(ctx).violation() is None && old(ctx).outcome(amount) == Ok::<Outcome, Error>(
                Outcome { allocation: final(ctx).allocation, plan: plan@ },
            ),
            Err(e) => *final(ctx) == *old(ctx) && match old(ctx).violation() {
                Some(v) => e == v,
                None => old(ctx).outcome(amount) == Err::<Outcome, Error>(e),
            },
        },
        *final(ctx) == (DecreaseAllocationState { allocation: final(ctx).allocation, ..*old(ctx) }),
        old(ctx).allocation.wf() ==> final(ctx).allocation.wf(),
{
    ctx.validate()?;
    proof {
        if route_draw(old(ctx).allocation, old(ctx).token_mint.key, amount) is Ok {
            lemma_draw_keeps_wf(old(ctx).allocation, old(ctx).token_mint.key, amount);
        }
    }
    crate::instructions::decrease_allocation::decrease_allocation(ctx, amount)
}

/// Redeems an allocation. Only the holder of its NFT may.
pub fn exercise_allocation(ctx: &mut ExerciseAllocationState) -> (r: Result<Vec<Invocation>, Error>)
    ensures
        match old(ctx).violation() {
            Some(e) => r == Err::<Vec<Invocation>, Error>(e) && *final(ctx) == *old(ctx),
            None => r matches Ok(plan) && old(ctx).outcome() == (Outcome {
                allocation: final(ctx).allocation,
                plan: plan@,
            }),
        },
        *final(ctx) == (ExerciseAllocationState { allocation: final(ctx).allocation, ..*old(ctx) }),
{
    ctx.validate()?;
    crate::instructions::exercise_allocation::exercise_allocation(ctx)
}

/// Withdraws fees collected in a token. Only the fee-withdraw authority
/// may.
pub fn withdraw_fee(ctx: &WithdrawFeeState, amount: Option<u64>) -> (r: Result<Vec<Invocation>, Error>)
    ensures
        match ctx.violation() {
            Some(e) => r == Err::<Vec<Invocation>, Error>(e),
            None => r matches Ok(plan) && plan@ == ctx.plan(amount),
        },
{
    ctx.validate()?;
    crate::instructions::withdraw_fee::withdraw_fee(ctx, amount)
}

} // verus!
