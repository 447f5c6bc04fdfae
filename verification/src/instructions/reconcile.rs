//! Reconciliation: what an allocation's holding has beyond what its slot
//! records belongs to nobody and is swept to the fees before anything else
//! moves.
use vstd::prelude::*;
use crate::key::Key;
use crate::state::allocation::AllocationAccount;
use crate::utility::account::{Mint, TokenAccount};
use crate::utility::cpi::{CrossProgramInvocations, Invocation};
use crate::utility::signer::SeedSigner;

verus! {

/// A record after routing, with what its holding should have held before.
pub struct Routed {
    pub allocation: AllocationAccount,
    pub slot: int,
    pub expected: u64,
}

/// What an entry point leaves: the allocation's record, and the
/// invocations to carry out in order.
pub struct Outcome {
    pub allocation: AllocationAccount,
    pub plan: Seq<Invocation>,
}

/// What `balance` has beyond `expected`.
pub open spec fn excess(balance: u64, expected: u64) -> nat {
    if balance > expected {
        (balance - expected) as nat
    } else {
        0
    }
}

/// The sweep of a holding that should hold `expected`: the excess goes to
/// the fee holding, signed for by the allocation; nothing where there is
/// no excess.
pub open spec fn sweep_plan(
    holding: TokenAccount,
    expected: u64,
    mint: Mint,
    fee_holding: Key,
    allocation: Key,
    nft_mint: Key,
    token_program: Key,
) -> Seq<Invocation> {
    if holding.amount > expected {
        seq![
            CrossProgramInvocations::transfer(
                holding.key,
                mint.key,
                fee_holding,
                allocation,
                token_program,
                Some(SeedSigner::spec_allocation(nft_mint)),
                (holding.amount - expected) as u64,
                mint.decimals,
            ),
        ]
    } else {
        Seq::empty()
    }
}

/// Appends to `plan` the sweep of a holding that should hold `expected`.
pub fn sweep(
    plan: &mut Vec<Invocation>,
    holding: &TokenAccount,
    expected: u64,
    mint: &Mint,
    fee_holding: &Key,
    allocation: &Key,
    signer: SeedSigner,
    token_program: &Key,
)
    requires
        signer matches SeedSigner::Allocation { nft_mint, .. } && signer == SeedSigner::spec_allocation(
            nft_mint,
        ),
    ensures
        final(plan)@ == old(plan)@ + sweep_plan(
            *holding,
            expected,
            *mint,
            *fee_holding,
            *allocation,
            signer->nft_mint,
            *token_program,
        ),
{
    if holding.amount > expected {
        let transfer_amount = holding.amount - expected;
        plan.push(
            CrossProgramInvocations::transfer_token(
                holding.key,
                mint.key,
                *fee_holding,
                *allocation,
                *token_program,
                Some(signer),
                transfer_amount,
                mint.decimals,
            ),
        );
    }
    assert(plan@ =~= old(plan)@ + sweep_plan(
        *holding,
        expected,
        *mint,
        *fee_holding,
        *allocation,
        signer->nft_mint,
        *token_program,
    ));
}

} // verus!
