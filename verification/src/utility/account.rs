//! Mints and token holdings, as an entry point reads them.
use vstd::prelude::*;
use anchor_spl::token_2022::spl_token_2022::extension::BaseStateWithExtensions;
use crate::key::Key;
use crate::utility::error::Error;

verus! {

/// A mint of the token ledger.
#[derive(Clone, Copy, Debug, PartialEq, Eq)]
pub struct Mint {
    /// Address of the mint.
    pub key: Key,
    /// Who may mint, if anyone.
    pub mint_authority: Option<Key>,
    /// Units in existence.
    pub supply: u64,
    /// Decimals of one unit.
    pub decimals: u8,
}

/// A holding of the token ledger: a balance of one mint under one authority.
#[derive(Clone, Copy, Debug, PartialEq, Eq)]
pub struct TokenAccount {
    /// Address of the holding.
    pub key: Key,
    /// The mint it is denominated in.
    pub mint: Key,
    /// The authority over it.
    pub owner: Key,
    /// Its balance.
    pub amount: u64,
}

impl TokenAccount {
    /// The first reason why the holding is not one of `mint` under
    /// `owner`, if there is one.
    pub open spec fn misbound(self, mint: Key, owner: Key) -> Option<Error> {
        if self.mint != mint {
            Some(Error::ConstraintTokenMint)
        } else if self.owner != owner {
            Some(Error::ConstraintTokenOwner)
        } else {
            None
        }
    }

    /// Checks that the holding is one of `mint` under `owner`.
    pub fn check_bound(&self, mint: &Key, owner: &Key) -> (r: Result<(), Error>)
        ensures
            r == match self.misbound(*mint, *owner) {
                Some(e) => Err::<(), Error>(e),
                None => Ok(()),
            },
    {
        if self.mint != *mint {
            Err(Error::ConstraintTokenMint)
        } else if self.owner != *owner {
            Err(Error::ConstraintTokenOwner)
        } else {
            Ok(())
        }
    }
}

/// The key stored in the close-authority extension of the mint whose
/// account data is `data`: all zero where the extension names nobody, and
/// `None` where `data` is no mint or carries no such extension.
pub uninterp spec fn mint_close_authority(data: Seq<u8>) -> Option<Seq<u8>>;

/// Calls `StateWithExtensions::<Mint>::unpack` of `spl_token_2022` on
/// `data` and `get_extension::<MintCloseAuthority>` on what it gives. The
/// contract names the key read and claims nothing else: both calls parse
/// `data` and depend on nothing but it. Either failing gives `None`. The
/// extension stores one key, all zero for nobody; it is handed out as
/// stored.
#[verifier::external_body]
pub(crate) fn unpack_mint_close_authority(data: &[u8]) -> (r: Option<Key>)
    ensures
        r matches Some(k) ==> mint_close_authority(data@) == Some(k@),
        r is None ==> mint_close_authority(data@) is None,
{
    let state = anchor_spl::token_2022::spl_token_2022::extension::StateWithExtensions::<
        anchor_spl::token_2022::spl_token_2022::state::Mint,
    >::unpack(data).ok()?;
    let extension = state.get_extension::<
        anchor_spl::token_2022::spl_token_2022::extension::mint_close_authority::MintCloseAuthority,
    >().ok()?;
    let stored: Option<anchor_lang::prelude::Pubkey> = extension.close_authority.into();
    Some(Key { bytes: stored.unwrap_or_default().to_bytes() })
}

/// Whether the mint with account data `data` names `key` as the one who
/// may close it.
pub open spec fn closable_by(data: Seq<u8>, key: Key) -> bool {
    mint_close_authority(data) == Some(key@)
}

/// Tells whether the mint with account data `data` names `key` as the one
/// who may close it.
pub fn is_closable_by(data: &[u8], key: &Key) -> (r: bool)
    ensures
        r == closable_by(data@, *key),
{
    match unpack_mint_close_authority(data) {
        Some(stored) => {
            proof {
                if stored@ == key@ {
                    crate::key::lemma_key_ext(stored, *key);
                }
            }
            stored == *key
        },
        None => false,
    }
}

} // verus!
