//! Addresses derived from seeds, and signing in their name.
use vstd::prelude::*;
use crate::key::Key;
use crate::state::allocation::{AllocationAccount, ALLOCATION_SEED};
use crate::state::fee::{FeeConfigAccount, FEE_SEED};
use crate::ID;

verus! {

/// The address that the runtime derives from `seeds` under `program`, with
/// the bump seed that completes it; `None` where it derives none.
pub uninterp spec fn program_address(seeds: Seq<Seq<u8>>, program: Seq<u8>) -> Option<(Seq<u8>, u8)>;

/// Calls `Pubkey::try_find_program_address` of `anchor_lang`, the search
/// that returns `None` where `find_program_address` would panic. The
/// contract names what it returns and claims nothing else of it: the search
/// hashes the seeds and the program's key and depends on nothing but them.
#[verifier::external_body]
pub(crate) fn try_find_program_address(seeds: &Vec<Vec<u8>>, program: &Key) -> (r: Option<(Key, u8)>)
    ensures
        r matches Some((address, bump)) ==> program_address(seeds.deep_view(), program@) == Some(
            (address@, bump),
        ),
        r is None ==> program_address(seeds.deep_view(), program@) is None,
{
    let parts: Vec<&[u8]> = seeds.iter().map(|seed| seed.as_slice()).collect();
    let id = anchor_lang::prelude::Pubkey::new_from_array(program.bytes);
    match anchor_lang::prelude::Pubkey::try_find_program_address(&parts, &id) {
        Some((address, bump)) => Some((Key { bytes: address.to_bytes() }, bump)),
        None => None,
    }
}

/// Seeds of the fee configuration's address.
pub open spec fn fee_seeds() -> Seq<Seq<u8>> {
    seq![FEE_SEED@]
}

/// Seeds of the address of the allocation bound to `nft_mint`.
pub open spec fn allocation_seeds(nft_mint: Key) -> Seq<Seq<u8>> {
    seq![ALLOCATION_SEED@, nft_mint@]
}

/// Address and bump of the fee configuration.
pub open spec fn fee_address() -> Option<(Seq<u8>, u8)> {
    program_address(fee_seeds(), ID@)
}

/// Address and bump of the allocation bound to `nft_mint`.
pub open spec fn allocation_address(nft_mint: Key) -> Option<(Seq<u8>, u8)> {
    program_address(allocation_seeds(nft_mint), ID@)
}

/// The bump of a derived address.
pub open spec fn bump_of(derived: Option<(Seq<u8>, u8)>) -> u8
    recommends
        derived is Some,
{
    match derived {
        Some((_, bump)) => bump,
        None => 0,
    }
}

/// Whether `key` is the fee configuration's address.
pub open spec fn is_fee_address(key: Key) -> bool {
    fee_address() matches Some((address, _)) && address == key@
}

/// Whether `key` is the address of the allocation bound to `nft_mint`.
pub open spec fn is_allocation_address(key: Key, nft_mint: Key) -> bool {
    allocation_address(nft_mint) matches Some((address, _)) && address == key@
}

/// Derives the fee configuration's address.
pub fn find_fee_address() -> (r: Option<(Key, u8)>)
    ensures
        r matches Some((address, bump)) ==> fee_address() == Some((address@, bump)),
        r is None ==> fee_address() is None,
{
    let mut seeds: Vec<Vec<u8>> = Vec::new();
    seeds.push(slice_to_vec(FeeConfigAccount::seed()));
    assert(seeds.deep_view() =~~= fee_seeds());
    let program = crate::id();
    try_find_program_address(&seeds, &program)
}

/// Derives the address of the allocation bound to `nft_mint`.
pub fn find_allocation_address(nft_mint: &Key) -> (r: Option<(Key, u8)>)
    ensures
        r matches Some((address, bump)) ==> allocation_address(*nft_mint) == Some((address@, bump)),
        r is None ==> allocation_address(*nft_mint) is None,
{
    let mut seeds: Vec<Vec<u8>> = Vec::new();
    seeds.push(slice_to_vec(AllocationAccount::seed()));
    seeds.push(nft_mint.to_vec());
    assert(seeds.deep_view() =~~= allocation_seeds(*nft_mint));
    let program = crate::id();
    try_find_program_address(&seeds, &program)
}

/// The bytes of `s` in a vector of their own.
fn slice_to_vec(s: &[u8]) -> (r: Vec<u8>)
    ensures
        r@ == s@,
{
    let mut r: Vec<u8> = Vec::new();
    let mut i: usize = 0;
    while i < s.len()
        invariant
            i <= s.len(),
            r@ == s@.take(i as int),
        decreases s.len() - i,
    {
        r.push(s[i]);
        assert(s@.take(i + 1) =~= s@.take(i as int).push(s@[i as int]));
        i += 1;
    }
    assert(s@.take(s.len() as int) =~= s@);
    r
}

/// A derived address that signs an invocation. There are two kinds, and
/// one never stands in for the other: the fee configuration signs for the
/// fee holdings and for the NFT mint, an allocation for its own holdings.
#[derive(Clone, Copy, Debug, PartialEq, Eq)]
pub enum SeedSigner {
    /// The fee configuration.
    Fee { bump: u8 },
    /// The allocation bound to `nft_mint`.
    Allocation { nft_mint: Key, bump: u8 },
}

impl SeedSigner {
    /// The seeds that sign, the bump last.
    pub open spec fn spec_seeds(self) -> Seq<Seq<u8>> {
        match self {
            SeedSigner::Fee { bump } => seq![FEE_SEED@, seq![bump]],
            SeedSigner::Allocation { nft_mint, bump } => seq![ALLOCATION_SEED@, nft_mint@, seq![bump]],
        }
    }

    /// The signer for the fee configuration.
    pub open spec fn spec_fee() -> SeedSigner
        recommends
            fee_address() is Some,
    {
        SeedSigner::Fee { bump: bump_of(fee_address()) }
    }

    /// The signer for the allocation bound to `nft_mint`.
    pub open spec fn spec_allocation(nft_mint: Key) -> SeedSigner
        recommends
            allocation_address(nft_mint) is Some,
    {
        SeedSigner::Allocation { nft_mint, bump: bump_of(allocation_address(nft_mint)) }
    }

    /// The seeds that sign, the bump last.
    pub fn seeds(&self) -> (r: Vec<Vec<u8>>)
        ensures
            r.deep_view() == self.spec_seeds(),
    {
        let mut r: Vec<Vec<u8>> = Vec::new();
        match self {
            SeedSigner::Fee { bump } => {
                r.push(slice_to_vec(FeeConfigAccount::seed()));
                r.push(vec![*bump]);
            },
            SeedSigner::Allocation { nft_mint, bump } => {
                r.push(slice_to_vec(AllocationAccount::seed()));
                r.push(nft_mint.to_vec());
                r.push(vec![*bump]);
            },
        }
        assert(r.deep_view() =~~= self.spec_seeds());
        r
    }

    /// The signer for the fee configuration.
    pub fn fee() -> (r: SeedSigner)
        requires
            fee_address() is Some,
        ensures
            r == SeedSigner::spec_fee(),
    {
        match find_fee_address() {
            Some((_, bump)) => SeedSigner::Fee { bump },
            None => vstd::pervasive::unreached(),
        }
    }

    /// The signer for the allocation bound to `nft_mint`.
    pub fn allocation(nft_mint: &Key) -> (r: SeedSigner)
        requires
            allocation_address(*nft_mint) is Some,
        ensures
            r == SeedSigner::spec_allocation(*nft_mint),
    {
        match find_allocation_address(nft_mint) {
            Some((_, bump)) => SeedSigner::Allocation { nft_mint: *nft_mint, bump },
            None => vstd::pervasive::unreached(),
        }
    }
}

} // verus!
