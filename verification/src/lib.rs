//! Token allocations backing a position NFT.
//!
//! An allocation escrows up to three token balances for the holder of one
//! NFT. Every entry point is a function from the accounts it is handed to the
//! next state of its record and the token invocations to carry out, in order.
use vstd::prelude::*;

pub mod accounting;
pub mod history;
pub mod instructions;
pub mod key;
pub mod ledger;
pub mod lifecycle;
pub mod program;
pub mod state;
pub mod utility;

verus! {

/// Address of this program.
pub const ID: [u8; 32] = [
    4, 106, 37, 13, 164, 164, 81, 83,
    214, 153, 58, 220, 211, 220, 245, 131,
    223, 26, 67, 99, 145, 112, 29, 223,
    52, 80, 147, 36, 44, 205, 59, 219,
];

/// The address of this program as a key.
pub fn id() -> (r: key::Key)
    ensures
        r.bytes == ID,
{
    key::Key { bytes: ID }
}

} // verus!
