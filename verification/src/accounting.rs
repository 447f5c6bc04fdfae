//! What the plans of the entry points do to the ledger: after each, the
//! allocation's holding has exactly what its slot records, the fees have
//! what was taken and what was swept, and nothing else has moved.
use vstd::prelude::*;
use crate::instructions::decrease_allocation::{route_draw, DecreaseAllocationState};
use crate::instructions::exercise_allocation::{withdraw_plan, ExerciseAllocationState};
use crate::instructions::increase_allocation::{
    allocation_share, fee_share, lemma_shares, route_deposit, split_overflows, IncreaseAllocationState,
};
use crate::instructions::initialize_allocation::InitializeAllocationState;
use crate::instructions::reconcile::{excess, sweep_plan};
use crate::instructions::withdraw_fee::WithdrawFeeState;
use crate::key::Key;
use crate::ledger::{lemma_run_concat, lemma_run_empty, lemma_run_one, Ledger};
use crate::lifecycle::{lemma_deposit_keeps_wf, lemma_draw_keeps_wf};
use crate::state::allocation::AllocationAccount;
use crate::utility::account::{Mint, TokenAccount};

verus! {

/// The ledger after a holding that should hold `expected` was swept: the
/// holding is left with no more than that, and the fee holding has the
/// excess.
pub open spec fn swept(ledger: Ledger, holding: TokenAccount, expected: u64, fee_holding: Key) -> Ledger {
    Ledger {
        holdings: ledger.holdings.insert(
            holding.key,
            (holding.amount - excess(holding.amount, expected)) as nat,
        ).insert(fee_holding, ledger.holdings[fee_holding] + excess(holding.amount, expected)),
        mints: ledger.mints,
    }
}

/// The ledger accepts a sweep, and is `swept` after it.
pub proof fn lemma_sweep(
    ledger: Ledger,
    holding: TokenAccount,
    expected: u64,
    mint: Mint,
    fee_holding: Key,
    allocation: Key,
    nft_mint: Key,
    token_program: Key,
)
    requires
        ledger.shows(holding),
        ledger.holdings.contains_key(fee_holding),
        fee_holding != holding.key,
    ensures
        ledger.run(sweep_plan(holding, expected, mint, fee_holding, allocation, nft_mint, token_program))
            == Some(swept(ledger, holding, expected, fee_holding)),
{
    let plan = sweep_plan(holding, expected, mint, fee_holding, allocation, nft_mint, token_program);
    let after = swept(ledger, holding, expected, fee_holding);
    if holding.amount > expected {
        lemma_run_one(ledger, plan[0]);
        assert(plan =~= seq![plan[0]]);
        assert(ledger.apply(plan[0])->0.holdings =~= after.holdings);
    } else {
        lemma_run_empty(ledger);
        assert(plan =~= Seq::empty());
        assert(after.holdings =~= ledger.holdings);
    }
}

/// After a deposit the fee holding has gained the fee and what was swept,
/// the depositor has paid the deposit, and no other holding and no mint has
/// changed. Where the allocation's holding had no less than the slot
/// recorded before, it has exactly what the slot records after. The ledger
/// accepts the plan if and only if the depositor can pay.
pub proof fn lemma_increase_accounts(ctx: IncreaseAllocationState, amount: u64, ledger: Ledger)
    requires
        ctx.outcome(amount) is Ok,
        ledger.shows(ctx.allocation_token_account),
        ledger.holdings.contains_key(ctx.fee_token_account.key),
        ledger.holdings.contains_key(ctx.signer_token_account.key),
        ctx.allocation_token_account.key != ctx.fee_token_account.key,
        ctx.allocation_token_account.key != ctx.signer_token_account.key,
        ctx.fee_token_account.key != ctx.signer_token_account.key,
    ensures
        ledger.run(ctx.outcome(amount)->Ok_0.plan) is Some <==> ledger.holdings[ctx.signer_token_account.key]
            >= amount,
        ledger.run(ctx.outcome(amount)->Ok_0.plan) matches Some(after) ==> {
            let routed = route_deposit(
                ctx.allocation,
                ctx.token_mint.key,
                allocation_share(amount, ctx.fee_config.fee_bps) as u64,
            )->Ok_0;
            &&& after.holdings.dom() == ledger.holdings.dom()
            &&& routed.expected <= ctx.allocation_token_account.amount
                ==> after.holdings[ctx.allocation_token_account.key]
                == ctx.outcome(amount)->Ok_0.allocation.slots()[routed.slot].amount
            &&& after.holdings[ctx.fee_token_account.key] == ledger.holdings[ctx.fee_token_account.key]
                + fee_share(amount, ctx.fee_config.fee_bps) + excess(
                ctx.allocation_token_account.amount,
                routed.expected,
            )
            &&& after.holdings[ctx.signer_token_account.key]
                == ledger.holdings[ctx.signer_token_account.key] - amount
            &&& after.mints == ledger.mints
            &&& after.same_holdings_but(
                ledger,
                set![
                    ctx.allocation_token_account.key,
                    ctx.fee_token_account.key,
                    ctx.signer_token_account.key,
                ],
            )
        },
{
    let bps = ctx.fee_config.fee_bps;
    let share = allocation_share(amount, bps) as u64;
    let fee = fee_share(amount, bps) as u64;
    lemma_shares(amount, bps);
    let routed = route_deposit(ctx.allocation, ctx.token_mint.key, share)->Ok_0;
    let holding = ctx.allocation_token_account;
    let sweep = sweep_plan(
        holding,
        routed.expected,
        ctx.token_mint,
        ctx.fee_token_account.key,
        ctx.allocation_key,
        ctx.nft_mint.key,
        ctx.token_program,
    );
    let plan = ctx.outcome(amount)->Ok_0.plan;
    let deposits = plan.subrange(sweep.len() as int, plan.len() as int);
    assert(plan =~= sweep + deposits);
    assert(deposits =~= seq![deposits[0]] + seq![deposits[1]]);
    lemma_sweep(
        ledger,
        holding,
        routed.expected,
        ctx.token_mint,
        ctx.fee_token_account.key,
        ctx.allocation_key,
        ctx.nft_mint.key,
        ctx.token_program,
    );
    let l1 = swept(ledger, holding, routed.expected, ctx.fee_token_account.key);
    lemma_run_concat(ledger, sweep, deposits);
    lemma_run_concat(l1, seq![deposits[0]], seq![deposits[1]]);
    lemma_run_one(l1, deposits[0]);
    match l1.apply(deposits[0]) {
        Some(l2) => {
            lemma_run_one(l2, deposits[1]);
            match l2.apply(deposits[1]) {
                Some(after) => {
                    assert(after.holdings.dom() =~= ledger.holdings.dom());
                },
                None => {},
            }
        },
        None => {},
    }
}

/// After a draw the fee holding has gained what was swept, the drawer has
/// gained the draw, and no other holding and no mint has changed. Where
/// the allocation's holding had no less than the slot recorded before, the
/// ledger accepts the plan, and the holding has exactly what the slot
/// records after, or is closed where the slot is emptied.
pub proof fn lemma_decrease_accounts(ctx: DecreaseAllocationState, amount: u64, ledger: Ledger)
    requires
        ctx.outcome(amount) is Ok,
        ledger.shows(ctx.allocation_token_account),
        ledger.holdings.contains_key(ctx.fee_token_account.key),
        ledger.holdings.contains_key(ctx.signer_token_account.key),
        ctx.allocation_token_account.key != ctx.fee_token_account.key,
        ctx.allocation_token_account.key != ctx.signer_token_account.key,
        ctx.fee_token_account.key != ctx.signer_token_account.key,
    ensures
        route_draw(ctx.allocation, ctx.token_mint.key, amount)->Ok_0.expected
            <= ctx.allocation_token_account.amount ==> ledger.run(ctx.outcome(amount)->Ok_0.plan) is Some,
        ledger.run(ctx.outcome(amount)->Ok_0.plan) matches Some(after) ==> {
            let routed = route_draw(ctx.allocation, ctx.token_mint.key, amount)->Ok_0;
            let left = ctx.outcome(amount)->Ok_0.allocation.slots()[routed.slot];
            &&& left.amount == routed.expected - amount
            &&& left.mint == ctx.allocation.slots()[routed.slot].mint
            &&& routed.expected <= ctx.allocation_token_account.amount ==> if left.amount == 0 {
                !after.holdings.contains_key(ctx.allocation_token_account.key)
            } else {
                after.holdings.contains_key(ctx.allocation_token_account.key)
                    && after.holdings[ctx.allocation_token_account.key] == left.amount
            }
            &&& after.holdings.contains_key(ctx.fee_token_account.key)
            &&& after.holdings[ctx.fee_token_account.key] == ledger.holdings[ctx.fee_token_account.key]
                + excess(ctx.allocation_token_account.amount, routed.expected)
            &&& after.holdings.contains_key(ctx.signer_token_account.key)
            &&& after.holdings[ctx.signer_token_account.key]
                == ledger.holdings[ctx.signer_token_account.key] + amount
            &&& after.mints == ledger.mints
            &&& after.same_holdings_but(
                ledger,
                set![
                    ctx.allocation_token_account.key,
                    ctx.fee_token_account.key,
                    ctx.signer_token_account.key,
                ],
            )
        },
{
    let routed = route_draw(ctx.allocation, ctx.token_mint.key, amount)->Ok_0;
    let holding = ctx.allocation_token_account;
    let sweep = sweep_plan(
        holding,
        routed.expected,
        ctx.token_mint,
        ctx.fee_token_account.key,
        ctx.allocation_key,
        ctx.nft_mint.key,
        ctx.token_program,
    );
    let plan = ctx.outcome(amount)->Ok_0.plan;
    let payment = seq![ctx.payment(amount)];
    let closing = if routed.expected == amount {
        seq![ctx.closing()]
    } else {
        Seq::empty()
    };
    assert(plan =~= sweep + payment + closing);
    lemma_sweep(
        ledger,
        holding,
        routed.expected,
        ctx.token_mint,
        ctx.fee_token_account.key,
        ctx.allocation_key,
        ctx.nft_mint.key,
        ctx.token_program,
    );
    let l1 = swept(ledger, holding, routed.expected, ctx.fee_token_account.key);
    lemma_run_concat(ledger, sweep + payment, closing);
    lemma_run_concat(ledger, sweep, payment);
    lemma_run_one(l1, ctx.payment(amount));
    match l1.apply(ctx.payment(amount)) {
        Some(l2) => {
            if routed.expected == amount {
                lemma_run_one(l2, ctx.closing());
            } else {
                lemma_run_empty(l2);
            }
        },
        None => {},
    }
}

/// The ledger after one slot that records `amount` was withdrawn in full:
/// the allocation's holding is gone, the fee holding has the excess and the
/// redeemer's holding the amount.
pub open spec fn withdrawn(
    ledger: Ledger,
    signer_token: Key,
    allocation_token: TokenAccount,
    fee_token: Key,
    amount: u64,
) -> Ledger {
    Ledger {
        holdings: ledger.holdings.remove(allocation_token.key).insert(
            fee_token,
            ledger.holdings[fee_token] + excess(allocation_token.amount, amount),
        ).insert(signer_token, ledger.holdings[signer_token] + amount as nat),
        mints: ledger.mints,
    }
}

/// The ledger accepts the full withdrawal of a slot whose holding has no
/// less than the slot records, and is `withdrawn` after it.
pub proof fn lemma_withdraw(
    ledger: Ledger,
    nft_mint: Mint,
    signer_token: TokenAccount,
    allocation_token: TokenAccount,
    fee_token: TokenAccount,
    allocation: Key,
    token_mint: Mint,
    token_program: Key,
    amount: u64,
)
    requires
        ledger.shows(allocation_token),
        ledger.holdings.contains_key(fee_token.key),
        ledger.holdings.contains_key(signer_token.key),
        allocation_token.key != fee_token.key,
        allocation_token.key != signer_token.key,
        fee_token.key != signer_token.key,
        amount <= allocation_token.amount,
    ensures
        ledger.run(
            withdraw_plan(
                nft_mint,
                signer_token,
                allocation_token,
                fee_token,
                allocation,
                token_mint,
                token_program,
                amount,
            ),
        ) == Some(withdrawn(ledger, signer_token.key, allocation_token, fee_token.key, amount)),
{
    let plan = withdraw_plan(
        nft_mint,
        signer_token,
        allocation_token,
        fee_token,
        allocation,
        token_mint,
        token_program,
        amount,
    );
    let sweep = sweep_plan(
        allocation_token,
        amount,
        token_mint,
        fee_token.key,
        allocation,
        nft_mint.key,
        token_program,
    );
    let rest = plan.subrange(sweep.len() as int, plan.len() as int);
    assert(plan =~= sweep + rest);
    lemma_sweep(
        ledger,
        allocation_token,
        amount,
        token_mint,
        fee_token.key,
        allocation,
        nft_mint.key,
        token_program,
    );
    let l1 = swept(ledger, allocation_token, amount, fee_token.key);
    lemma_run_concat(ledger, sweep, rest);
    let target = withdrawn(ledger, signer_token.key, allocation_token, fee_token.key, amount);
    if amount > 0 {
        assert(rest =~= seq![rest[0]] + seq![rest[1]]);
        lemma_run_concat(l1, seq![rest[0]], seq![rest[1]]);
        lemma_run_one(l1, rest[0]);
        let l2 = l1.apply(rest[0])->0;
        lemma_run_one(l2, rest[1]);
        assert(l2.apply(rest[1])->0.holdings =~= target.holdings);
    } else {
        assert(rest =~= seq![rest[0]]);
        lemma_run_one(l1, rest[0]);
        assert(l1.apply(rest[0])->0.holdings =~= target.holdings);
    }
}

impl ExerciseAllocationState {
    /// The ten holdings of an exercise: for each slot the redeemer's, the
    /// allocation's and the fee configuration's, then the redeemer's
    /// holding of the NFT.
    pub open spec fn holdings(self) -> Seq<Key> {
        seq![
            self.signer_first_token_account.key,
            self.allocation_first_token_account.key,
            self.fee_first_token_account.key,
            self.signer_second_token_account.key,
            self.allocation_second_token_account.key,
            self.fee_second_token_account.key,
            self.signer_third_token_account.key,
            self.allocation_third_token_account.key,
            self.fee_third_token_account.key,
            self.nft_token.key,
        ]
    }

    /// What holds of a ledger on which the accounts handed in are what
    /// they show: the ten holdings exist and are ten, the allocation's
    /// three have what they show and no less than their slots record, the
    /// redeemer holds the one unit of the NFT that exists, and the NFT's
    /// mint is no holding.
    pub open spec fn stands_on(self, ledger: Ledger) -> bool {
        &&& forall|i: int| 0 <= i < 10 ==> ledger.holdings.contains_key(#[trigger] self.holdings()[i])
        &&& forall|i: int, j: int|
            0 <= i < j < 10 ==> (#[trigger] self.holdings()[i]) != (#[trigger] self.holdings()[j])
        &&& ledger.shows(self.allocation_first_token_account)
        &&& ledger.shows(self.allocation_second_token_account)
        &&& ledger.shows(self.allocation_third_token_account)
        &&& self.allocation.first_token_amount <= self.allocation_first_token_account.amount
        &&& self.allocation.second_token_amount <= self.allocation_second_token_account.amount
        &&& self.allocation.third_token_amount <= self.allocation_third_token_account.amount
        &&& ledger.holdings[self.nft_token.key] == 1
        &&& ledger.mints.contains_key(self.nft_mint.key)
        &&& ledger.mints[self.nft_mint.key] == 1
        &&& !ledger.holdings.contains_key(self.nft_mint.key)
    }
}

/// The ledger accepts an exercise, and after it none of the allocation's
/// holdings exists, nor the redeemer's holding of the NFT, nor the NFT's
/// mint; the redeemer has gained what each slot recorded and the fees what
/// each holding had beyond that; and no other holding or mint has changed.
pub proof fn lemma_exercise_accounts(ctx: ExerciseAllocationState, ledger: Ledger)
    requires
        ctx.stands_on(ledger),
    ensures
        ledger.run(ctx.plan()) matches Some(after) && {
            &&& !after.holdings.contains_key(ctx.allocation_first_token_account.key)
            &&& !after.holdings.contains_key(ctx.allocation_second_token_account.key)
            &&& !after.holdings.contains_key(ctx.allocation_third_token_account.key)
            &&& !after.holdings.contains_key(ctx.nft_token.key)
            &&& !after.mints.contains_key(ctx.nft_mint.key)
            &&& after.mints == ledger.mints.remove(ctx.nft_mint.key)
            &&& after.holdings[ctx.signer_first_token_account.key]
                == ledger.holdings[ctx.signer_first_token_account.key] + ctx.allocation.first_token_amount
            &&& after.holdings[ctx.signer_second_token_account.key]
                == ledger.holdings[ctx.signer_second_token_account.key]
                + ctx.allocation.second_token_amount
            &&& after.holdings[ctx.signer_third_token_account.key]
                == ledger.holdings[ctx.signer_third_token_account.key] + ctx.allocation.third_token_amount
            &&& after.holdings[ctx.fee_first_token_account.key]
                == ledger.holdings[ctx.fee_first_token_account.key] + excess(
                ctx.allocation_first_token_account.amount,
                ctx.allocation.first_token_amount,
            )
            &&& after.holdings[ctx.fee_second_token_account.key]
                == ledger.holdings[ctx.fee_second_token_account.key] + excess(
                ctx.allocation_second_token_account.amount,
                ctx.allocation.second_token_amount,
            )
            &&& after.holdings[ctx.fee_third_token_account.key]
                == ledger.holdings[ctx.fee_third_token_account.key] + excess(
                ctx.allocation_third_token_account.amount,
                ctx.allocation.third_token_amount,
            )
            &&& after.same_holdings_but(ledger, ctx.holdings().to_set())
        },
{
    let keys = ctx.holdings();
    assert(keys[0] == ctx.signer_first_token_account.key);
    assert(keys[1] == ctx.allocation_first_token_account.key);
    assert(keys[2] == ctx.fee_first_token_account.key);
    assert(keys[3] == ctx.signer_second_token_account.key);
    assert(keys[4] == ctx.allocation_second_token_account.key);
    assert(keys[5] == ctx.fee_second_token_account.key);
    assert(keys[6] == ctx.signer_third_token_account.key);
    assert(keys[7] == ctx.allocation_third_token_account.key);
    assert(keys[8] == ctx.fee_third_token_account.key);
    assert(keys[9] == ctx.nft_token.key);
    let first = ctx.first_withdrawal();
    let second = ctx.second_withdrawal();
    let third = ctx.third_withdrawal();
    let last = ctx.retirement();
    lemma_withdraw(
        ledger,
        ctx.nft_mint,
        ctx.signer_first_token_account,
        ctx.allocation_first_token_account,
        ctx.fee_first_token_account,
        ctx.allocation_key,
        ctx.first_token_mint,
        ctx.token_program,
        ctx.allocation.first_token_amount,
    );
    let l1 = withdrawn(
        ledger,
        keys[0],
        ctx.allocation_first_token_account,
        keys[2],
        ctx.allocation.first_token_amount,
    );
    lemma_withdraw(
        l1,
        ctx.nft_mint,
        ctx.signer_second_token_account,
        ctx.allocation_second_token_account,
        ctx.fee_second_token_account,
        ctx.allocation_key,
        ctx.second_token_mint,
        ctx.token_program,
        ctx.allocation.second_token_amount,
    );
    let l2 = withdrawn(
        l1,
        keys[3],
        ctx.allocation_second_token_account,
        keys[5],
        ctx.allocation.second_token_amount,
    );
    lemma_withdraw(
        l2,
        ctx.nft_mint,
        ctx.signer_third_token_account,
        ctx.allocation_third_token_account,
        ctx.fee_third_token_account,
        ctx.allocation_key,
        ctx.third_token_mint,
        ctx.token_program,
        ctx.allocation.third_token_amount,
    );
    let l3 = withdrawn(
        l2,
        keys[6],
        ctx.allocation_third_token_account,
        keys[8],
        ctx.allocation.third_token_amount,
    );
    lemma_run_concat(ledger, first + second + third, last);
    lemma_run_concat(ledger, first + second, third);
    lemma_run_concat(ledger, first, second);
    assert(ledger.run(first + second + third) == Some(l3));
    assert(last =~= seq![last[0]] + (seq![last[1]] + seq![last[2]]));
    lemma_run_concat(l3, seq![last[0]], seq![last[1]] + seq![last[2]]);
    lemma_run_one(l3, last[0]);
    let l4 = l3.apply(last[0])->0;
    lemma_run_concat(l4, seq![last[1]], seq![last[2]]);
    lemma_run_one(l4, last[1]);
    let l5 = l4.apply(last[1])->0;
    lemma_run_one(l5, last[2]);
    let after = l5.apply(last[2])->0;
    assert(l3.apply(last[0]) is Some);
    assert(l4.apply(last[1]) is Some);
    assert(l5.apply(last[2]) is Some);
    assert(after.mints =~= ledger.mints.remove(ctx.nft_mint.key));
    assert forall|k: Key| !keys.to_set().contains(k) implies (after.holdings.contains_key(k)
        == ledger.holdings.contains_key(k) && (after.holdings.contains_key(k) ==> after.holdings[k]
        == ledger.holdings[k])) by {
        assert forall|i: int| 0 <= i < 10 implies keys[i] != k by {
            assert(keys.to_set().contains(keys[i]));
        }
        assert(keys[0] != k && keys[1] != k && keys[2] != k && keys[3] != k && keys[4] != k && keys[5]
            != k && keys[6] != k && keys[7] != k && keys[8] != k && keys[9] != k);
    }
}

/// The ledger accepts a fee withdrawal if and only if the fee holding has
/// what is withdrawn. After it the withdrawer has gained that, the fee
/// holding has lost it, or is closed where all of it went, and no other
/// holding and no mint has changed.
pub proof fn lemma_withdraw_fee_accounts(ctx: WithdrawFeeState, amount: Option<u64>, ledger: Ledger)
    requires
        ledger.shows(ctx.fee_token_account),
        ledger.holdings.contains_key(ctx.signer_token_account.key),
        ctx.fee_token_account.key != ctx.signer_token_account.key,
    ensures
        ledger.run(ctx.plan(amount)) is Some <==> ctx.transfer_amount(amount)
            <= ctx.fee_token_account.amount,
        ledger.run(ctx.plan(amount)) matches Some(after) ==> {
            &&& after.holdings.contains_key(ctx.signer_token_account.key)
            &&& after.holdings[ctx.signer_token_account.key]
                == ledger.holdings[ctx.signer_token_account.key] + ctx.transfer_amount(amount)
            &&& if ctx.transfer_amount(amount) == ctx.fee_token_account.amount {
                !after.holdings.contains_key(ctx.fee_token_account.key)
            } else {
                after.holdings.contains_key(ctx.fee_token_account.key)
                    && after.holdings[ctx.fee_token_account.key] == ctx.fee_token_account.amount
                    - ctx.transfer_amount(amount)
            }
            &&& after.mints == ledger.mints
            &&& after.same_holdings_but(
                ledger,
                set![ctx.fee_token_account.key, ctx.signer_token_account.key],
            )
        },
{
    let plan = ctx.plan(amount);
    let payment = seq![plan[0]];
    let closing = plan.subrange(1, plan.len() as int);
    assert(plan =~= payment + closing);
    lemma_run_concat(ledger, payment, closing);
    lemma_run_one(ledger, plan[0]);
    match ledger.apply(plan[0]) {
        Some(paid) => {
            if ctx.transfer_amount(amount) == ctx.fee_token_account.amount {
                assert(closing =~= seq![plan[1]]);
                lemma_run_one(paid, plan[1]);
            } else {
                assert(closing =~= Seq::empty());
                lemma_run_empty(paid);
            }
        },
        None => {},
    }
}

/// The ledger accepts the plan of an initialization. Where no unit of the
/// NFT existed, one exists after it and the signer holds it; where one
/// existed, nothing has changed.
pub proof fn lemma_initialize_accounts(ctx: InitializeAllocationState, ledger: Ledger)
    requires
        ledger.shows(ctx.nft_token),
        ledger.mints.contains_key(ctx.nft_mint.key),
        ledger.mints[ctx.nft_mint.key] == ctx.nft_mint.supply,
    ensures
        ledger.run(ctx.plan()) matches Some(after) && if ctx.nft_mint.supply == 0 {
            &&& after.mints == ledger.mints.insert(ctx.nft_mint.key, 1)
            &&& after.holdings == ledger.holdings.insert(ctx.nft_token.key, ctx.nft_token.amount as nat + 1)
        } else {
            after == ledger
        },
{
    if ctx.nft_mint.supply == 0 {
        assert(ctx.plan() =~= seq![ctx.plan()[0]]);
        lemma_run_one(ledger, ctx.plan()[0]);
        let after = ledger.apply(ctx.plan()[0])->0;
        assert(after.mints =~= ledger.mints.insert(ctx.nft_mint.key, 1));
        assert(after.holdings =~= ledger.holdings.insert(ctx.nft_token.key, ctx.nft_token.amount as nat + 1));
    } else {
        lemma_run_empty(ledger);
    }
}

/// Where an allocation keeps its tokens: its holding of each mint, for
/// the mints that matter.
pub struct Custody {
    pub holding: spec_fn(Key) -> Key,
    pub mints: Set<Key>,
}

impl Custody {
    /// Whether every slot of `a` that records something is covered: the
    /// allocation's holding of the slot's mint exists and has no less than
    /// the slot records.
    pub open spec fn covers(self, a: AllocationAccount, ledger: Ledger) -> bool {
        forall|i: int|
            0 <= i < 3 && (#[trigger] a.slots()[i]).amount > 0 ==> ledger.holdings.contains_key(
                (self.holding)(a.slots()[i].mint),
            ) && ledger.holdings[(self.holding)(a.slots()[i].mint)] >= a.slots()[i].amount
    }

    /// Whether the slots of `a` name mints that matter only.
    pub open spec fn knows(self, a: AllocationAccount) -> bool {
        forall|i: int| 0 <= i < 3 ==> self.mints.contains((#[trigger] a.slots()[i]).mint)
    }

    /// Whether the allocation has a holding of its own for each mint that
    /// matters, none of which is `fee_holding` or `signer_holding`.
    pub open spec fn apart(self, fee_holding: Key, signer_holding: Key) -> bool {
        &&& forall|m1: Key, m2: Key|
            self.mints.contains(m1) && self.mints.contains(m2) && #[trigger] (self.holding)(m1)
                == #[trigger] (self.holding)(m2) ==> m1 == m2
        &&& forall|m: Key|
            self.mints.contains(m) ==> #[trigger] (self.holding)(m) != fee_holding && (self.holding)(m)
                != signer_holding
    }

    /// Whether the record is one that this custody keeps: its slots name
    /// three mints, all of which matter, and each slot that records
    /// something is covered.
    pub open spec fn keeps(self, a: AllocationAccount, ledger: Ledger) -> bool {
        a.distinct_mints() && self.knows(a) && self.covers(a, ledger)
    }
}

/// A deposit keeps every slot covered: the slot it touches is covered
/// exactly, and the holdings of the others are not touched, their mints
/// being other mints.
pub proof fn lemma_increase_keeps_covered(
    ctx: IncreaseAllocationState,
    amount: u64,
    ledger: Ledger,
    custody: Custody,
)
    requires
        ctx.outcome(amount) is Ok,
        custody.keeps(ctx.allocation, ledger),
        custody.mints.contains(ctx.token_mint.key),
        custody.apart(ctx.fee_token_account.key, ctx.signer_token_account.key),
        ctx.allocation_token_account.key == (custody.holding)(ctx.token_mint.key),
        ctx.fee_token_account.key != ctx.signer_token_account.key,
        ledger.shows(ctx.allocation_token_account),
        ledger.holdings.contains_key(ctx.fee_token_account.key),
        ledger.holdings.contains_key(ctx.signer_token_account.key),
        ledger.run(ctx.outcome(amount)->Ok_0.plan) is Some,
    ensures
        custody.keeps(ctx.outcome(amount)->Ok_0.allocation, ledger.run(ctx.outcome(amount)->Ok_0.plan)->0),
{
    let share = allocation_share(amount, ctx.fee_config.fee_bps) as u64;
    let mint = ctx.token_mint.key;
    let routed = route_deposit(ctx.allocation, mint, share)->Ok_0;
    let next = ctx.outcome(amount)->Ok_0.allocation;
    let after = ledger.run(ctx.outcome(amount)->Ok_0.plan)->0;
    lemma_deposit_keeps_wf(ctx.allocation, mint, share);
    assert(routed.expected <= ctx.allocation_token_account.amount) by {
        if routed.expected > 0 {
            assert(ctx.allocation.slots()[routed.slot].amount > 0);
            assert(ctx.allocation.slots()[routed.slot].mint == mint);
        }
    }
    lemma_increase_accounts(ctx, amount, ledger);
    let touched = set![
        ctx.allocation_token_account.key,
        ctx.fee_token_account.key,
        ctx.signer_token_account.key,
    ];
    assert forall|i: int| 0 <= i < 3 implies custody.mints.contains((#[trigger] next.slots()[i]).mint) by {
        if i != routed.slot {
            assert(next.slots()[i] == ctx.allocation.slots()[i]);
        }
    }
    assert forall|i: int|
        0 <= i < 3 && (#[trigger] next.slots()[i]).amount > 0 implies after.holdings.contains_key(
        (custody.holding)(next.slots()[i].mint),
    ) && after.holdings[(custody.holding)(next.slots()[i].mint)] >= next.slots()[i].amount by {
        if i != routed.slot {
            assert(next.slots()[i] == ctx.allocation.slots()[i]);
            assert(next.slots()[i].mint != next.slots()[routed.slot].mint);
            assert(!touched.contains((custody.holding)(next.slots()[i].mint)));
        }
    }
}

/// A draw keeps every slot covered: the ledger accepts it, the slot it
/// touches is covered exactly where anything is left in it, and the
/// holdings of the others are not touched.
pub proof fn lemma_decrease_keeps_covered(
    ctx: DecreaseAllocationState,
    amount: u64,
    ledger: Ledger,
    custody: Custody,
)
    requires
        ctx.outcome(amount) is Ok,
        custody.keeps(ctx.allocation, ledger),
        custody.mints.contains(ctx.token_mint.key),
        custody.apart(ctx.fee_token_account.key, ctx.signer_token_account.key),
        ctx.allocation_token_account.key == (custody.holding)(ctx.token_mint.key),
        ctx.fee_token_account.key != ctx.signer_token_account.key,
        ledger.shows(ctx.allocation_token_account),
        ledger.holdings.contains_key(ctx.fee_token_account.key),
        ledger.holdings.contains_key(ctx.signer_token_account.key),
    ensures
        ledger.run(ctx.outcome(amount)->Ok_0.plan) is Some,
        custody.keeps(ctx.outcome(amount)->Ok_0.allocation, ledger.run(ctx.outcome(amount)->Ok_0.plan)->0),
{
    let mint = ctx.token_mint.key;
    let routed = route_draw(ctx.allocation, mint, amount)->Ok_0;
    let next = ctx.outcome(amount)->Ok_0.allocation;
    lemma_draw_keeps_wf(ctx.allocation, mint, amount);
    assert(routed.expected <= ctx.allocation_token_account.amount) by {
        if routed.expected > 0 {
            assert(ctx.allocation.slots()[routed.slot].amount > 0);
            assert(ctx.allocation.slots()[routed.slot].mint == mint);
        }
    }
    lemma_decrease_accounts(ctx, amount, ledger);
    let after = ledger.run(ctx.outcome(amount)->Ok_0.plan)->0;
    let touched = set![
        ctx.allocation_token_account.key,
        ctx.fee_token_account.key,
        ctx.signer_token_account.key,
    ];
    assert forall|i: int| 0 <= i < 3 implies custody.mints.contains((#[trigger] next.slots()[i]).mint) by {
        if i != routed.slot {
            assert(next.slots()[i] == ctx.allocation.slots()[i]);
        }
    }
    assert forall|i: int|
        0 <= i < 3 && (#[trigger] next.slots()[i]).amount > 0 implies after.holdings.contains_key(
        (custody.holding)(next.slots()[i].mint),
    ) && after.holdings[(custody.holding)(next.slots()[i].mint)] >= next.slots()[i].amount by {
        if i != routed.slot {
            assert(next.slots()[i] == ctx.allocation.slots()[i]);
            assert(next.slots()[i].mint != next.slots()[routed.slot].mint);
            assert(!touched.contains((custody.holding)(next.slots()[i].mint)));
        }
    }
}

} // verus!
