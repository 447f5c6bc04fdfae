//! The token operations, as values to hand to the token ledger.
use vstd::prelude::*;
use crate::key::Key;
use crate::utility::signer::SeedSigner;

verus! {

/// Accounts of a transfer that names the mint and its decimals.
#[derive(Clone, Copy, Debug, PartialEq, Eq)]
pub struct TransferChecked {
    pub from: Key,
    pub mint: Key,
    pub to: Key,
    pub authority: Key,
}

/// Accounts of closing a holding or a mint; its rent goes to `destination`.
#[derive(Clone, Copy, Debug, PartialEq, Eq)]
pub struct CloseAccount {
    pub account: Key,
    pub destination: Key,
    pub authority: Key,
}

/// Accounts of freezing a holding.
#[derive(Clone, Copy, Debug, PartialEq, Eq)]
pub struct FreezeAccount {
    pub account: Key,
    pub mint: Key,
    pub authority: Key,
}

/// Accounts of thawing a holding.
#[derive(Clone, Copy, Debug, PartialEq, Eq)]
pub struct ThawAccount {
    pub account: Key,
    pub mint: Key,
    pub authority: Key,
}

/// Accounts of minting into a holding.
#[derive(Clone, Copy, Debug, PartialEq, Eq)]
pub struct MintTo {
    pub mint: Key,
    pub to: Key,
    pub authority: Key,
}

/// Accounts of burning from a holding.
#[derive(Clone, Copy, Debug, PartialEq, Eq)]
pub struct Burn {
    pub mint: Key,
    pub from: Key,
    pub authority: Key,
}

/// The program to invoke, the accounts to hand it, and the derived address
/// that signs, if one does.
#[derive(Clone, Copy, Debug, PartialEq, Eq)]
pub struct CpiContext<T> {
    pub program: Key,
    pub accounts: T,
    pub signer_seeds: Option<SeedSigner>,
}

/// One operation on the token ledger.
#[allow(inconsistent_fields)]
#[derive(Clone, Copy, Debug, PartialEq, Eq)]
pub enum Invocation {
    TransferChecked { context: CpiContext<TransferChecked>, amount: u64, decimals: u8 },
    CloseAccount { context: CpiContext<CloseAccount> },
    FreezeAccount { context: CpiContext<FreezeAccount> },
    ThawAccount { context: CpiContext<ThawAccount> },
    MintTo { context: CpiContext<MintTo>, amount: u64 },
    Burn { context: CpiContext<Burn>, amount: u64 },
}

/// One way to build each operation, whoever signs.
pub struct CrossProgramInvocations;

impl CrossProgramInvocations {
    /// The transfer of `amount` from `sender` to `receiver`.
    pub open spec fn transfer(
        sender: Key,
        mint: Key,
        receiver: Key,
        authority: Key,
        token_program: Key,
        signer: Option<SeedSigner>,
        amount: u64,
        decimals: u8,
    ) -> Invocation {
        Invocation::TransferChecked {
            context: CpiContext {
                program: token_program,
                accounts: TransferChecked { from: sender, mint, to: receiver, authority },
                signer_seeds: signer,
            },
            amount,
            decimals,
        }
    }

    /// The closing of `account`.
    pub open spec fn close(
        account: Key,
        destination: Key,
        authority: Key,
        token_program: Key,
        signer: Option<SeedSigner>,
    ) -> Invocation {
        Invocation::CloseAccount {
            context: CpiContext {
                program: token_program,
                accounts: CloseAccount { account, destination, authority },
                signer_seeds: signer,
            },
        }
    }

    /// The freezing of `account`.
    pub open spec fn freeze(
        account: Key,
        mint: Key,
        authority: Key,
        token_program: Key,
        signer: Option<SeedSigner>,
    ) -> Invocation {
        Invocation::FreezeAccount {
            context: CpiContext {
                program: token_program,
                accounts: FreezeAccount { account, mint, authority },
                signer_seeds: signer,
            },
        }
    }

    /// The thawing of `account`.
    pub open spec fn thaw(
        account: Key,
        mint: Key,
        authority: Key,
        token_program: Key,
        signer: Option<SeedSigner>,
    ) -> Invocation {
        Invocation::ThawAccount {
            context: CpiContext {
                program: token_program,
                accounts: ThawAccount { account, mint, authority },
                signer_seeds: signer,
            },
        }
    }

    /// The minting of `amount` into `account`.
    pub open spec fn mint(
        mint: Key,
        account: Key,
        authority: Key,
        token_program: Key,
        signer: Option<SeedSigner>,
        amount: u64,
    ) -> Invocation {
        Invocation::MintTo {
            context: CpiContext {
                program: token_program,
                accounts: MintTo { mint, to: account, authority },
                signer_seeds: signer,
            },
            amount,
        }
    }

    /// The burning of `amount` from `account`.
    pub open spec fn burn(
        mint: Key,
        account: Key,
        authority: Key,
        token_program: Key,
        signer: Option<SeedSigner>,
        amount: u64,
    ) -> Invocation {
        Invocation::Burn {
            context: CpiContext {
                program: token_program,
                accounts: Burn { mint, from: account, authority },
                signer_seeds: signer,
            },
            amount,
        }
    }

    /// Binds accounts to the program they are for, signed for by `signer`
    /// if there is one.
    pub fn cpi_context<T>(program_id: Key, accounts: T, signer: Option<SeedSigner>) -> (r: CpiContext<T>)
        ensures
            r == (CpiContext { program: program_id, accounts, signer_seeds: signer }),
    {
        if let Some(signer) = signer {
            CpiContext { program: program_id, accounts, signer_seeds: Some(signer) }
        } else {
            CpiContext { program: program_id, accounts, signer_seeds: None }
        }
    }

    /// Moves `amount` of `mint`, which has `decimals` decimals, from
    /// `sender` to `receiver`.
    pub fn transfer_token(
        sender: Key,
        mint: Key,
        receiver: Key,
        authority: Key,
        token_program: Key,
        signer: Option<SeedSigner>,
        amount: u64,
        decimals: u8,
    ) -> (r: Invocation)
        ensures
            r == Self::transfer(sender, mint, receiver, authority, token_program, signer, amount, decimals),
    {
        let accounts = TransferChecked { from: sender, mint, to: receiver, authority };
        let context = Self::cpi_context(token_program, accounts, signer);
        Invocation::TransferChecked { context, amount, decimals }
    }

    /// Closes `account` and sends its rent to `destination`.
    pub fn close_token(
        account: Key,
        destination: Key,
        authority: Key,
        token_program: Key,
        signer: Option<SeedSigner>,
    ) -> (r: Invocation)
        ensures
            r == Self::close(account, destination, authority, token_program, signer),
    {
        let accounts = CloseAccount { account, destination, authority };
        let context = Self::cpi_context(token_program, accounts, signer);
        Invocation::CloseAccount { context }
    }

    /// Freezes `account`.
    pub fn freeze_token(
        account: Key,
        mint: Key,
        authority: Key,
        token_program: Key,
        signer: Option<SeedSigner>,
    ) -> (r: Invocation)
        ensures
            r == Self::freeze(account, mint, authority, token_program, signer),
    {
        let accounts = FreezeAccount { account, mint, authority };
        let context = Self::cpi_context(token_program, accounts, signer);
        Invocation::FreezeAccount { context }
    }

    /// Thaws `account`.
    pub fn thaw_token(
        account: Key,
        mint: Key,
        authority: Key,
        token_program: Key,
        signer: Option<SeedSigner>,
    ) -> (r: Invocation)
        ensures
            r == Self::thaw(account, mint, authority, token_program, signer),
    {
        let accounts = ThawAccount { account, mint, authority };
        let context = Self::cpi_context(token_program, accounts, signer);
        Invocation::ThawAccount { context }
    }

    /// Mints `amount` of `mint` into `account`.
    pub fn mint_token(
        mint: Key,
        account: Key,
        authority: Key,
        token_program: Key,
        signer: Option<SeedSigner>,
        amount: u64,
    ) -> (r: Invocation)
        ensures
            r == Self::mint(mint, account, authority, token_program, signer, amount),
    {
        let accounts = MintTo { mint, to: account, authority };
        let context = Self::cpi_context(token_program, accounts, signer);
        Invocation::MintTo { context, amount }
    }

    /// Burns `amount` of `mint` from `account`.
    pub fn burn_token(
        mint: Key,
        account: Key,
        authority: Key,
        token_program: Key,
        signer: Option<SeedSigner>,
        amount: u64,
    ) -> (r: Invocation)
        ensures
            r == Self::burn(mint, account, authority, token_program, signer, amount),
    {
        let accounts = Burn { mint, from: account, authority };
        let context = Self::cpi_context(token_program, accounts, signer);
        Invocation::Burn { context, amount }
    }
}

} // verus!
