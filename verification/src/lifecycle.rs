//! What holds of an allocation's record through its life: its slots never
//! name one mint twice, its two roles never fall to one key, and a draw
//! undoes a deposit.
use vstd::prelude::*;
use crate::instructions::decrease_allocation::route_draw;
use crate::instructions::exercise_allocation::withdraw_plan;
use crate::instructions::increase_allocation::{
    allocation_share, fee_share, kept_bps, route_deposit, split_overflows, MAX_BPS,
};
use crate::instructions::initialize_allocation::{
    initialized_record, InitializeAllocationState, SOL_MINT, USDC_MINT, USDT_MINT,
};
use crate::instructions::reconcile::sweep_plan;
use crate::key::Key;
use crate::state::allocation::AllocationAccount;
use crate::utility::account::{Mint, TokenAccount};
use crate::utility::cpi::CrossProgramInvocations;
use crate::utility::signer::SeedSigner;

verus! {

/// The three default mints are three.
pub proof fn lemma_default_mints_differ()
    ensures
        (Key { bytes: SOL_MINT }) != (Key { bytes: USDC_MINT }),
        (Key { bytes: SOL_MINT }) != (Key { bytes: USDT_MINT }),
        (Key { bytes: USDC_MINT }) != (Key { bytes: USDT_MINT }),
{
    assert(SOL_MINT[0] == 6 && USDC_MINT[0] == 198 && USDT_MINT[0] == 206);
}

/// An initialization leaves a record that exists and is well formed,
/// whatever it found, if what it found was well formed.
pub proof fn lemma_initialization_keeps_wf(a: AllocationAccount, signer: Key, authority: Option<Key>)
    requires
        a.wf(),
        initialized_record(a, signer, authority) is Ok,
    ensures
        initialized_record(a, signer, authority)->Ok_0.initialized,
        initialized_record(a, signer, authority)->Ok_0.wf(),
        a.initialized ==> initialized_record(a, signer, authority)->Ok_0.slots() == a.slots(),
{
    lemma_default_mints_differ();
    let next = initialized_record(a, signer, authority)->Ok_0;
    if a.initialized {
        assert(next.slots() =~= a.slots());
    } else {
        assert(next.slots()[0].mint == Key { bytes: SOL_MINT });
        assert(next.slots()[1].mint == Key { bytes: USDC_MINT });
        assert(next.slots()[2].mint == Key { bytes: USDT_MINT });
    }
}

/// A deposit changes one slot and nothing else, and leaves the slots'
/// mints distinct if they were: a slot is bound to a mint only where no
/// slot names it.
pub proof fn lemma_deposit_keeps_wf(a: AllocationAccount, mint: Key, amount: u64)
    requires
        route_deposit(a, mint, amount) is Ok,
    ensures
        ({
            let routed = route_deposit(a, mint, amount)->Ok_0;
            &&& 0 <= routed.slot < 3
            &&& routed.allocation.slots() == a.slots().update(
                routed.slot,
                routed.allocation.slots()[routed.slot],
            )
            &&& routed.allocation.slots()[routed.slot].mint == mint
            &&& routed.allocation.slots()[routed.slot].amount == routed.expected + amount
            &&& routed.expected == if a.slot_of(mint) is Some {
                a.slots()[routed.slot].amount
            } else {
                0
            }
            &&& routed.allocation.initialized == a.initialized
            &&& routed.allocation.decrease_authority == a.decrease_authority
            &&& routed.allocation.recover_authority == a.recover_authority
            &&& a.distinct_mints() ==> routed.allocation.distinct_mints()
            &&& a.wf() ==> routed.allocation.wf()
        }),
{
    let routed = route_deposit(a, mint, amount)->Ok_0;
    assert(routed.allocation.slots() =~= a.slots().update(
        routed.slot,
        routed.allocation.slots()[routed.slot],
    ));
    if a.distinct_mints() {
        assert forall|i: int, j: int| 0 <= i < j < 3 implies (#[trigger] routed.allocation.slots()[i]).mint
            != (#[trigger] routed.allocation.slots()[j]).mint by {
            assert(a.slots()[i].mint != a.slots()[j].mint);
        }
    }
}

/// A draw changes the amount of one slot and nothing else: no mint, no
/// role.
pub proof fn lemma_draw_keeps_wf(a: AllocationAccount, mint: Key, amount: u64)
    requires
        route_draw(a, mint, amount) is Ok,
    ensures
        ({
            let routed = route_draw(a, mint, amount)->Ok_0;
            &&& 0 <= routed.slot < 3
            &&& routed.expected == a.slots()[routed.slot].amount
            &&& routed.allocation.slots() == a.slots().update(
                routed.slot,
                routed.allocation.slots()[routed.slot],
            )
            &&& routed.allocation.slots()[routed.slot].mint == a.slots()[routed.slot].mint
            &&& routed.allocation.slots()[routed.slot].amount == routed.expected - amount
            &&& routed.allocation.initialized == a.initialized
            &&& routed.allocation.decrease_authority == a.decrease_authority
            &&& routed.allocation.recover_authority == a.recover_authority
            &&& a.distinct_mints() ==> routed.allocation.distinct_mints()
            &&& a.wf() ==> routed.allocation.wf()
        }),
{
    let routed = route_draw(a, mint, amount)->Ok_0;
    assert(routed.allocation.slots() =~= a.slots().update(
        routed.slot,
        routed.allocation.slots()[routed.slot],
    ));
    if a.distinct_mints() {
        assert forall|i: int, j: int| 0 <= i < j < 3 implies (#[trigger] routed.allocation.slots()[i]).mint
            != (#[trigger] routed.allocation.slots()[j]).mint by {
            assert(a.slots()[i].mint != a.slots()[j].mint);
        }
    }
}

/// After a successful initialization the two roles are held by different
/// keys, unless a role is vacant. The one exception is left out: a signer
/// who makes an allocation and names itself as the decrease authority
/// holds both roles.
pub proof fn lemma_roles_stay_apart(ctx: InitializeAllocationState, authority: Option<Key>)
    requires
        ctx.violation() is None,
        ctx.outcome(authority) is Ok,
        !(!ctx.allocation.initialized && authority == Some(ctx.signer) && ctx.signer != Key::zero()),
    ensures
        ctx.outcome(authority)->Ok_0.allocation.authorities_apart(),
{
}

/// A draw of what a deposit brought to its slot is routed to the same
/// slot and puts every amount back where it was. Where the deposit only
/// added to a slot, the whole record is as before.
pub proof fn lemma_draw_undoes_deposit(a: AllocationAccount, mint: Key, amount: u64)
    requires
        route_deposit(a, mint, amount) is Ok,
    ensures
        ({
            let deposited = route_deposit(a, mint, amount)->Ok_0;
            &&& route_draw(deposited.allocation, mint, amount) matches Ok(drawn)
            &&& drawn.slot == deposited.slot
            &&& forall|i: int| 0 <= i < 3 ==> drawn.allocation.slots()[i].amount == a.slots()[i].amount
            &&& forall|i: int|
                0 <= i < 3 && i != deposited.slot ==> drawn.allocation.slots()[i] == a.slots()[i]
            &&& a.slot_of(mint) is Some ==> drawn.allocation == a
        }),
{
}

/// Where the fee is the whole or more, nothing of a deposit reaches the
/// allocation and all of it is fee, whatever the excess over the whole.
pub proof fn lemma_fee_takes_all(amount: u64, fee_bps: u16)
    requires
        fee_bps >= MAX_BPS,
    ensures
        kept_bps(fee_bps) == 0,
        !split_overflows(amount, fee_bps),
        allocation_share(amount, fee_bps) == 0,
        fee_share(amount, fee_bps) == amount,
{
    assert(amount as nat * 0 == 0) by (nonlinear_arith);
}

/// A deposit of nothing splits into nothing and nothing, and leaves every
/// amount of the record as it was.
pub proof fn lemma_deposit_of_nothing(a: AllocationAccount, mint: Key, fee_bps: u16)
    ensures
        !split_overflows(0, fee_bps),
        allocation_share(0, fee_bps) == 0,
        fee_share(0, fee_bps) == 0,
        route_deposit(a, mint, 0) matches Ok(routed) ==> forall|i: int|
            0 <= i < 3 ==> routed.allocation.slots()[i].amount == a.slots()[i].amount,
{
    assert(0 * kept_bps(fee_bps) == 0) by (nonlinear_arith);
}

/// The full withdrawal of a slot that records nothing pays nothing: it
/// sweeps what the holding has and closes it. Where the holding is empty
/// too, the closing is all there is.
pub proof fn lemma_withdrawal_of_nothing(
    nft_mint: Mint,
    signer_token: TokenAccount,
    allocation_token: TokenAccount,
    fee_token: TokenAccount,
    allocation: Key,
    token_mint: Mint,
    token_program: Key,
)
    ensures
        withdraw_plan(
            nft_mint,
            signer_token,
            allocation_token,
            fee_token,
            allocation,
            token_mint,
            token_program,
            0,
        ) == sweep_plan(
            allocation_token,
            0,
            token_mint,
            fee_token.key,
            allocation,
            nft_mint.key,
            token_program,
        ) + seq![
            CrossProgramInvocations::close(
                allocation_token.key,
                signer_token.key,
                allocation,
                token_program,
                Some(SeedSigner::spec_allocation(nft_mint.key)),
            ),
        ],
        allocation_token.amount == 0 ==> withdraw_plan(
            nft_mint,
            signer_token,
            allocation_token,
            fee_token,
            allocation,
            token_mint,
            token_program,
            0,
        ) == seq![
            CrossProgramInvocations::close(
                allocation_token.key,
                signer_token.key,
                allocation,
                token_program,
                Some(SeedSigner::spec_allocation(nft_mint.key)),
            ),
        ],
{
    let plan = withdraw_plan(
        nft_mint,
        signer_token,
        allocation_token,
        fee_token,
        allocation,
        token_mint,
        token_program,
        0,
    );
    let sweep = sweep_plan(
        allocation_token,
        0,
        token_mint,
        fee_token.key,
        allocation,
        nft_mint.key,
        token_program,
    );
    let closing = seq![
        CrossProgramInvocations::close(
            allocation_token.key,
            signer_token.key,
            allocation,
            token_program,
            Some(SeedSigner::spec_allocation(nft_mint.key)),
        ),
    ];
    assert(plan =~= sweep + closing);
    if allocation_token.amount == 0 {
        assert(plan =~= closing);
    }
}

} // verus!
