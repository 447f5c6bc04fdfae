//! The token ledger as far as balances go: the model against which the
//! plans of the entry points are read.
//!
//! The ledger itself is another program. What is assumed of it here is only
//! how each operation moves units between holdings that exist, and that it
//! refuses what a holding cannot pay and the closing of what is not empty.
use vstd::prelude::*;
use crate::key::Key;
use crate::utility::account::TokenAccount;
use crate::utility::cpi::Invocation;

verus! {

/// The holdings that exist, each with its balance, and the mints that
/// exist, each with its supply.
pub struct Ledger {
    pub holdings: Map<Key, nat>,
    pub mints: Map<Key, nat>,
}

impl Ledger {
    /// Whether the ledger has the holding `account` with the balance that
    /// the account shows.
    pub open spec fn shows(self, account: TokenAccount) -> bool {
        self.holdings.contains_key(account.key) && self.holdings[account.key] == account.amount
    }

    /// The ledger after `amount` has moved from `from` to `to`; `None`
    /// where either does not exist or `from` holds less.
    pub open spec fn transfer(self, from: Key, to: Key, amount: nat) -> Option<Ledger> {
        if !self.holdings.contains_key(from) || !self.holdings.contains_key(to) || self.holdings[from]
            < amount {
            None
        } else {
            let debited = self.holdings.insert(from, (self.holdings[from] - amount) as nat);
            Some(Ledger { holdings: debited.insert(to, debited[to] + amount), mints: self.mints })
        }
    }

    /// The ledger after the holding or mint `account` was closed; `None`
    /// where there is none, or it is not empty.
    pub open spec fn close(self, account: Key) -> Option<Ledger> {
        if self.holdings.contains_key(account) {
            if self.holdings[account] == 0 {
                Some(Ledger { holdings: self.holdings.remove(account), mints: self.mints })
            } else {
                None
            }
        } else if self.mints.contains_key(account) {
            if self.mints[account] == 0 {
                Some(Ledger { holdings: self.holdings, mints: self.mints.remove(account) })
            } else {
                None
            }
        } else {
            None
        }
    }

    /// The ledger after `amount` of `mint` was minted into `to`; `None`
    /// where either does not exist.
    pub open spec fn mint_to(self, mint: Key, to: Key, amount: nat) -> Option<Ledger> {
        if !self.mints.contains_key(mint) || !self.holdings.contains_key(to) {
            None
        } else {
            Some(
                Ledger {
                    holdings: self.holdings.insert(to, self.holdings[to] + amount),
                    mints: self.mints.insert(mint, self.mints[mint] + amount),
                },
            )
        }
    }

    /// The ledger after `amount` of `mint` was burnt from `from`; `None`
    /// where either does not exist or holds less.
    pub open spec fn burn(self, mint: Key, from: Key, amount: nat) -> Option<Ledger> {
        if !self.mints.contains_key(mint) || !self.holdings.contains_key(from) || self.holdings[from]
            < amount || self.mints[mint] < amount {
            None
        } else {
            Some(
                Ledger {
                    holdings: self.holdings.insert(from, (self.holdings[from] - amount) as nat),
                    mints: self.mints.insert(mint, (self.mints[mint] - amount) as nat),
                },
            )
        }
    }

    /// The ledger after one invocation; `None` where the ledger refuses
    /// it. Freezing and thawing move nothing.
    pub open spec fn apply(self, invocation: Invocation) -> Option<Ledger> {
        match invocation {
            Invocation::TransferChecked { context, amount, decimals } => self.transfer(
                context.accounts.from,
                context.accounts.to,
                amount as nat,
            ),
            Invocation::CloseAccount { context } => self.close(context.accounts.account),
            Invocation::FreezeAccount { context } => Some(self),
            Invocation::ThawAccount { context } => Some(self),
            Invocation::MintTo { context, amount } => self.mint_to(
                context.accounts.mint,
                context.accounts.to,
                amount as nat,
            ),
            Invocation::Burn { context, amount } => self.burn(
                context.accounts.mint,
                context.accounts.from,
                amount as nat,
            ),
        }
    }

    /// The ledger after the invocations of `plan` in their order; `None`
    /// where the ledger refuses one, and then nothing of the plan stands.
    pub open spec fn run(self, plan: Seq<Invocation>) -> Option<Ledger>
        decreases plan.len(),
    {
        if plan.len() == 0 {
            Some(self)
        } else {
            match self.apply(plan[0]) {
                Some(next) => next.run(plan.drop_first()),
                None => None,
            }
        }
    }

    /// Whether two ledgers agree on every holding but those in `touched`.
    pub open spec fn same_holdings_but(self, other: Ledger, touched: Set<Key>) -> bool {
        forall|k: Key|
            !touched.contains(k) ==> (self.holdings.contains_key(k) == other.holdings.contains_key(k)
                && (self.holdings.contains_key(k) ==> self.holdings[k] == other.holdings[k]))
    }
}

/// Running nothing leaves the ledger as it is.
pub proof fn lemma_run_empty(ledger: Ledger)
    ensures
        ledger.run(Seq::empty()) == Some(ledger),
{
}

/// Running one invocation applies it.
pub proof fn lemma_run_one(ledger: Ledger, invocation: Invocation)
    ensures
        ledger.run(seq![invocation]) == ledger.apply(invocation),
{
    reveal_with_fuel(Ledger::run, 2);
    assert(seq![invocation].drop_first() =~= Seq::<Invocation>::empty());
}

/// Running one plan after another is running the first, then the second
/// on what the first left.
pub proof fn lemma_run_concat(ledger: Ledger, first: Seq<Invocation>, second: Seq<Invocation>)
    ensures
        ledger.run(first + second) == match ledger.run(first) {
            Some(next) => next.run(second),
            None => None,
        },
    decreases first.len(),
{
    if first.len() == 0 {
        assert(first + second =~= second);
    } else {
        assert((first + second)[0] == first[0]);
        assert((first + second).drop_first() =~= first.drop_first() + second);
        match ledger.apply(first[0]) {
            Some(next) => {
                lemma_run_concat(next, first.drop_first(), second);
            },
            None => {},
        }
    }
}

} // verus!
