//! An allocation over time: deposits and draws in any order, with anybody
//! sending units to any holding in between. At every point each slot is
//! covered by the allocation's holding of its mint, and a fee holding has
//! gained exactly the fees and the sweeps.
use vstd::prelude::*;
use crate::accounting::{
    lemma_decrease_accounts, lemma_decrease_keeps_covered, lemma_increase_accounts,
    lemma_increase_keeps_covered, Custody,
};
use crate::instructions::decrease_allocation::{route_draw, DecreaseAllocationState};
use crate::instructions::increase_allocation::{
    allocation_share, fee_share, route_deposit, IncreaseAllocationState,
};
use crate::instructions::reconcile::excess;
use crate::key::Key;
use crate::ledger::Ledger;
use crate::state::allocation::AllocationAccount;

verus! {

/// One allocation's record and the ledger around it.
pub struct World {
    pub allocation: AllocationAccount,
    pub ledger: Ledger,
}

/// What can happen to an allocation between its making and its exercise.
#[allow(inconsistent_fields)]
pub enum Event {
    /// A successful increase.
    Deposit { ctx: IncreaseAllocationState, amount: u64 },
    /// A successful decrease.
    Draw { ctx: DecreaseAllocationState, amount: u64 },
    /// A transfer between two holdings that is none of this program's.
    Gift { from: Key, to: Key, amount: nat },
}

impl Event {
    /// Whether the event can happen in `world`: an entry point is handed
    /// the record as it stands and accounts that show what the ledger has,
    /// among them the allocation's holding of the token, and succeeds; a
    /// gift is paid out of a holding that is not the allocation's, which
    /// only the allocation can sign for.
    pub open spec fn fits(self, world: World, custody: Custody) -> bool {
        match self {
            Event::Deposit { ctx, amount } => {
                &&& ctx.allocation == world.allocation
                &&& ctx.violation() is None
                &&& ctx.outcome(amount) is Ok
                &&& custody.mints.contains(ctx.token_mint.key)
                &&& ctx.allocation_token_account.key == (custody.holding)(ctx.token_mint.key)
                &&& custody.apart(ctx.fee_token_account.key, ctx.signer_token_account.key)
                &&& ctx.fee_token_account.key != ctx.signer_token_account.key
                &&& world.ledger.shows(ctx.allocation_token_account)
                &&& world.ledger.holdings.contains_key(ctx.fee_token_account.key)
                &&& world.ledger.holdings.contains_key(ctx.signer_token_account.key)
            },
            Event::Draw { ctx, amount } => {
                &&& ctx.allocation == world.allocation
                &&& ctx.violation() is None
                &&& ctx.outcome(amount) is Ok
                &&& custody.mints.contains(ctx.token_mint.key)
                &&& ctx.allocation_token_account.key == (custody.holding)(ctx.token_mint.key)
                &&& custody.apart(ctx.fee_token_account.key, ctx.signer_token_account.key)
                &&& ctx.fee_token_account.key != ctx.signer_token_account.key
                &&& world.ledger.shows(ctx.allocation_token_account)
                &&& world.ledger.holdings.contains_key(ctx.fee_token_account.key)
                &&& world.ledger.holdings.contains_key(ctx.signer_token_account.key)
            },
            Event::Gift { from, to, amount } => forall|m: Key|
                custody.mints.contains(m) ==> #[trigger] (custody.holding)(m) != from,
        }
    }

    /// The world after the event; `None` where the ledger refuses it.
    pub open spec fn next(self, world: World) -> Option<World> {
        match self {
            Event::Deposit { ctx, amount } => match world.ledger.run(ctx.outcome(amount)->Ok_0.plan) {
                Some(ledger) => Some(World { allocation: ctx.outcome(amount)->Ok_0.allocation, ledger }),
                None => None,
            },
            Event::Draw { ctx, amount } => match world.ledger.run(ctx.outcome(amount)->Ok_0.plan) {
                Some(ledger) => Some(World { allocation: ctx.outcome(amount)->Ok_0.allocation, ledger }),
                None => None,
            },
            Event::Gift { from, to, amount } => match world.ledger.transfer(from, to, amount) {
                Some(ledger) => Some(World { allocation: world.allocation, ledger }),
                None => None,
            },
        }
    }

    /// What the event brings to the fee holding `fee_holding`: of a
    /// deposit the fee and what was swept, of a draw what was swept.
    pub open spec fn collected(self, fee_holding: Key) -> nat {
        match self {
            Event::Deposit { ctx, amount } => if ctx.fee_token_account.key == fee_holding {
                fee_share(amount, ctx.fee_config.fee_bps) + excess(
                    ctx.allocation_token_account.amount,
                    route_deposit(
                        ctx.allocation,
                        ctx.token_mint.key,
                        allocation_share(amount, ctx.fee_config.fee_bps) as u64,
                    )->Ok_0.expected,
                )
            } else {
                0
            },
            Event::Draw { ctx, amount } => if ctx.fee_token_account.key == fee_holding {
                excess(
                    ctx.allocation_token_account.amount,
                    route_draw(ctx.allocation, ctx.token_mint.key, amount)->Ok_0.expected,
                )
            } else {
                0
            },
            Event::Gift { from, to, amount } => 0,
        }
    }

    /// Whether the event leaves `fee_holding` to the fees: it is nobody's
    /// holding to deposit from or draw into, no allocation's holding, and
    /// no gift goes into or out of it.
    pub open spec fn spares(self, fee_holding: Key) -> bool {
        match self {
            Event::Deposit { ctx, amount } => ctx.allocation_token_account.key != fee_holding
                && ctx.signer_token_account.key != fee_holding,
            Event::Draw { ctx, amount } => ctx.allocation_token_account.key != fee_holding
                && ctx.signer_token_account.key != fee_holding,
            Event::Gift { from, to, amount } => from != fee_holding && to != fee_holding,
        }
    }
}

/// The world after the events of `history` in their order; `None` where
/// one of them cannot happen.
pub open spec fn replay(world: World, history: Seq<Event>, custody: Custody) -> Option<World>
    decreases history.len(),
{
    if history.len() == 0 {
        Some(world)
    } else if !history[0].fits(world, custody) {
        None
    } else {
        match history[0].next(world) {
            Some(next) => replay(next, history.drop_first(), custody),
            None => None,
        }
    }
}

/// What the events of `history` bring to the fee holding `fee_holding`.
pub open spec fn collected_over(history: Seq<Event>, fee_holding: Key) -> nat
    decreases history.len(),
{
    if history.len() == 0 {
        0
    } else {
        history[0].collected(fee_holding) + collected_over(history.drop_first(), fee_holding)
    }
}

/// Whether every slot of the world's record is covered.
pub open spec fn sound(world: World, custody: Custody) -> bool {
    custody.keeps(world.allocation, world.ledger)
}

/// One event that can happen in a sound world leaves a sound world.
pub proof fn lemma_event_keeps_sound(world: World, event: Event, custody: Custody)
    requires
        sound(world, custody),
        event.fits(world, custody),
        event.next(world) is Some,
    ensures
        sound(event.next(world)->0, custody),
{
    match event {
        Event::Deposit { ctx, amount } => {
            lemma_increase_keeps_covered(ctx, amount, world.ledger, custody);
        },
        Event::Draw { ctx, amount } => {
            lemma_decrease_keeps_covered(ctx, amount, world.ledger, custody);
        },
        Event::Gift { from, to, amount } => {
            let after = event.next(world)->0;
            let a = world.allocation;
            assert forall|i: int|
                0 <= i < 3 && (#[trigger] a.slots()[i]).amount > 0 implies after.ledger.holdings.contains_key(
                (custody.holding)(a.slots()[i].mint),
            ) && after.ledger.holdings[(custody.holding)(a.slots()[i].mint)] >= a.slots()[i].amount by {
                assert(custody.mints.contains(a.slots()[i].mint));
                assert((custody.holding)(a.slots()[i].mint) != from);
            }
        },
    }
}

/// Whatever happens to an allocation, in whatever order, every slot that
/// records something stays covered: if the world was sound, it is sound
/// after the whole history.
pub proof fn lemma_history_keeps_sound(world: World, history: Seq<Event>, custody: Custody)
    requires
        sound(world, custody),
        replay(world, history, custody) is Some,
    ensures
        sound(replay(world, history, custody)->0, custody),
    decreases history.len(),
{
    if history.len() > 0 {
        lemma_event_keeps_sound(world, history[0], custody);
        lemma_history_keeps_sound(history[0].next(world)->0, history.drop_first(), custody);
    }
}

/// A history that can happen can happen up to any point of it.
pub proof fn lemma_history_prefix(world: World, history: Seq<Event>, custody: Custody, n: int)
    requires
        replay(world, history, custody) is Some,
        0 <= n <= history.len(),
    ensures
        replay(world, history.take(n), custody) is Some,
    decreases history.len(),
{
    if n > 0 {
        let next = history[0].next(world)->0;
        assert(history.take(n)[0] == history[0]);
        assert(history.take(n).drop_first() =~= history.drop_first().take(n - 1));
        lemma_history_prefix(next, history.drop_first(), custody, n - 1);
    } else {
        assert(history.take(0).len() == 0);
    }
}

/// At every point of a history that starts in a sound world, the world is
/// sound: each slot that records something is covered.
pub proof fn lemma_sound_at_every_point(world: World, history: Seq<Event>, custody: Custody, n: int)
    requires
        sound(world, custody),
        replay(world, history, custody) is Some,
        0 <= n <= history.len(),
    ensures
        replay(world, history.take(n), custody) matches Some(then) && sound(then, custody),
{
    lemma_history_prefix(world, history, custody, n);
    lemma_history_keeps_sound(world, history.take(n), custody);
}

/// One event that spares a fee holding brings to it what it collects, and
/// nothing else.
pub proof fn lemma_event_collects(world: World, event: Event, custody: Custody, fee_holding: Key)
    requires
        event.fits(world, custody),
        event.next(world) is Some,
        event.spares(fee_holding),
        world.ledger.holdings.contains_key(fee_holding),
    ensures
        event.next(world)->0.ledger.holdings.contains_key(fee_holding),
        event.next(world)->0.ledger.holdings[fee_holding] == world.ledger.holdings[fee_holding]
            + event.collected(fee_holding),
{
    match event {
        Event::Deposit { ctx, amount } => {
            lemma_increase_accounts(ctx, amount, world.ledger);
            let touched = set![
                ctx.allocation_token_account.key,
                ctx.fee_token_account.key,
                ctx.signer_token_account.key,
            ];
            if ctx.fee_token_account.key != fee_holding {
                assert(!touched.contains(fee_holding));
            }
        },
        Event::Draw { ctx, amount } => {
            lemma_decrease_accounts(ctx, amount, world.ledger);
            let touched = set![
                ctx.allocation_token_account.key,
                ctx.fee_token_account.key,
                ctx.signer_token_account.key,
            ];
            if ctx.fee_token_account.key != fee_holding {
                assert(!touched.contains(fee_holding));
            }
        },
        Event::Gift { from, to, amount } => {},
    }
}

/// Over any history a fee holding gains exactly the sum of what its
/// events collect: of each deposit the amount less what its share of the
/// deposit comes to, and of each deposit and draw what was swept.
pub proof fn lemma_history_collects(world: World, history: Seq<Event>, custody: Custody, fee_holding: Key)
    requires
        replay(world, history, custody) is Some,
        forall|i: int| 0 <= i < history.len() ==> (#[trigger] history[i]).spares(fee_holding),
        world.ledger.holdings.contains_key(fee_holding),
    ensures
        replay(world, history, custody)->0.ledger.holdings.contains_key(fee_holding),
        replay(world, history, custody)->0.ledger.holdings[fee_holding]
            == world.ledger.holdings[fee_holding] + collected_over(history, fee_holding),
    decreases history.len(),
{
    if history.len() > 0 {
        lemma_event_collects(world, history[0], custody, fee_holding);
        let rest = history.drop_first();
        assert forall|i: int| 0 <= i < rest.len() implies (#[trigger] rest[i]).spares(fee_holding) by {
            assert(rest[i] == history[i + 1]);
        }
        lemma_history_collects(history[0].next(world)->0, rest, custody, fee_holding);
    }
}

} // verus!
