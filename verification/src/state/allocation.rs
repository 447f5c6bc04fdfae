//! The allocation: one record per NFT, with three token slots.
use vstd::prelude::*;
use crate::key::Key;

verus! {

/// First seed of an allocation's address: the bytes of "allocation".
pub const ALLOCATION_SEED: [u8; 10] = [97, 108, 108, 111, 99, 97, 116, 105, 111, 110];

/// One of the three (mint, amount) pairs of an allocation. A slot with
/// amount zero is free, whatever its mint says.
#[derive(Clone, Copy, Debug, PartialEq, Eq)]
pub struct Slot {
    pub mint: Key,
    pub amount: u64,
}

/// What one NFT stands for: up to three token balances, and the two keys
/// that may act on them before the NFT is exercised.
#[derive(Clone, Copy, Debug, PartialEq, Eq)]
pub struct AllocationAccount {
    pub initialized: bool,
    /// May draw the balances down, and hand this role on.
    pub decrease_authority: Key,
    /// May hand either role on.
    pub recover_authority: Key,
    pub first_token_mint: Key,
    pub first_token_amount: u64,
    pub second_token_mint: Key,
    pub second_token_amount: u64,
    pub third_token_mint: Key,
    pub third_token_amount: u64,
}

impl AllocationAccount {
    /// The record of an allocation that does not exist.
    pub open spec fn empty() -> AllocationAccount {
        AllocationAccount {
            initialized: false,
            decrease_authority: Key::zero(),
            recover_authority: Key::zero(),
            first_token_mint: Key::zero(),
            first_token_amount: 0,
            second_token_mint: Key::zero(),
            second_token_amount: 0,
            third_token_mint: Key::zero(),
            third_token_amount: 0,
        }
    }

    /// The three slots, in their order.
    pub open spec fn slots(self) -> Seq<Slot> {
        seq![
            Slot { mint: self.first_token_mint, amount: self.first_token_amount },
            Slot { mint: self.second_token_mint, amount: self.second_token_amount },
            Slot { mint: self.third_token_mint, amount: self.third_token_amount },
        ]
    }

    /// The record with slot `index` replaced by `slot`; unchanged if there
    /// is no such slot.
    pub open spec fn with_slot(self, index: int, slot: Slot) -> AllocationAccount {
        if index == 0 {
            AllocationAccount { first_token_mint: slot.mint, first_token_amount: slot.amount, ..self }
        } else if index == 1 {
            AllocationAccount { second_token_mint: slot.mint, second_token_amount: slot.amount, ..self }
        } else if index == 2 {
            AllocationAccount { third_token_mint: slot.mint, third_token_amount: slot.amount, ..self }
        } else {
            self
        }
    }

    /// No two slots name the same mint.
    pub open spec fn distinct_mints(self) -> bool {
        forall|i: int, j: int|
            0 <= i < j < 3 ==> (#[trigger] self.slots()[i]).mint != (#[trigger] self.slots()[j]).mint
    }

    /// The two roles are held by different keys, unless a role is vacant.
    pub open spec fn authorities_apart(self) -> bool {
        self.decrease_authority == self.recover_authority ==> self.decrease_authority == Key::zero()
    }

    /// What holds of every allocation that the entry points have made.
    pub open spec fn wf(self) -> bool {
        self.initialized ==> self.distinct_mints()
    }

    /// Index of the first slot that names `mint`.
    pub open spec fn slot_of(self, mint: Key) -> Option<int> {
        if self.first_token_mint == mint {
            Some(0)
        } else if self.second_token_mint == mint {
            Some(1)
        } else if self.third_token_mint == mint {
            Some(2)
        } else {
            None
        }
    }

    /// Index of the first free slot.
    pub open spec fn free_slot(self) -> Option<int> {
        if self.first_token_amount == 0 {
            Some(0)
        } else if self.second_token_amount == 0 {
            Some(1)
        } else if self.third_token_amount == 0 {
            Some(2)
        } else {
            None
        }
    }

    /// Bytes the stored record takes: an 8-byte tag, the flag, the two keys
    /// and three slots of a key and an amount.
    pub fn space() -> (r: usize)
        ensures
            r == 8 + 1 + 32 + 32 + 3 * (32 + 8),
    {
        8 + 1 + 32 + 32 + 32 + 8 + 32 + 8 + 32 + 8
    }

    /// The first seed from which the record's address is derived; the
    /// second is the NFT mint's key.
    pub fn seed() -> (r: &'static [u8])
        ensures
            r@ == ALLOCATION_SEED@,
    {
        let r: &'static [u8] = &[97u8, 108u8, 108u8, 111u8, 99u8, 97u8, 116u8, 105u8, 111u8, 110u8];
        assert(r@ =~= ALLOCATION_SEED@);
        r
    }

    /// Slot `index`.
    pub fn slot(&self, index: usize) -> (r: Slot)
        requires
            index < 3,
        ensures
            r == self.slots()[index as int],
    {
        if index == 0 {
            Slot { mint: self.first_token_mint, amount: self.first_token_amount }
        } else if index == 1 {
            Slot { mint: self.second_token_mint, amount: self.second_token_amount }
        } else {
            Slot { mint: self.third_token_mint, amount: self.third_token_amount }
        }
    }

    /// Replaces slot `index` by `slot`.
    pub fn set_slot(&mut self, index: usize, slot: Slot)
        requires
            index < 3,
        ensures
            *final(self) == old(self).with_slot(index as int, slot),
    {
        if index == 0 {
            self.first_token_mint = slot.mint;
            self.first_token_amount = slot.amount;
        } else if index == 1 {
            self.second_token_mint = slot.mint;
            self.second_token_amount = slot.amount;
        } else {
            self.third_token_mint = slot.mint;
            self.third_token_amount = slot.amount;
        }
    }

    /// Finds the first slot that names `mint`.
    pub fn find_slot(&self, mint: &Key) -> (r: Option<usize>)
        ensures
            r.is_some() == self.slot_of(*mint).is_some(),
            r matches Some(i) ==> self.slot_of(*mint) == Some(i as int),
    {
        if self.first_token_mint == *mint {
            Some(0)
        } else if self.second_token_mint == *mint {
            Some(1)
        } else if self.third_token_mint == *mint {
            Some(2)
        } else {
            None
        }
    }

    /// Finds the first free slot.
    pub fn find_free_slot(&self) -> (r: Option<usize>)
        ensures
            r.is_some() == self.free_slot().is_some(),
            r matches Some(i) ==> self.free_slot() == Some(i as int),
    {
        if self.first_token_amount == 0 {
            Some(0)
        } else if self.second_token_amount == 0 {
            Some(1)
        } else if self.third_token_amount == 0 {
            Some(2)
        } else {
            None
        }
    }
}

impl Default for AllocationAccount {
    fn default() -> (r: AllocationAccount)
        ensures
            r == AllocationAccount::empty(),
    {
        AllocationAccount {
            initialized: false,
            decrease_authority: Key::default(),
            recover_authority: Key::default(),
            first_token_mint: Key::default(),
            first_token_amount: 0,
            second_token_mint: Key::default(),
            second_token_amount: 0,
            third_token_mint: Key::default(),
            third_token_amount: 0,
        }
    }
}

/// `slot_of` gives the first slot that names the mint, and none only if no
/// slot names it.
pub proof fn lemma_slot_of_is_first(a: AllocationAccount, mint: Key)
    ensures
        a.slot_of(mint) matches Some(i) ==> 0 <= i < 3 && a.slots()[i].mint == mint && forall|j: int|
            0 <= j < i ==> a.slots()[j].mint != mint,
        a.slot_of(mint) is None ==> forall|j: int| 0 <= j < 3 ==> a.slots()[j].mint != mint,
{
}

/// `free_slot` gives the first slot with amount zero, and none only if
/// every slot holds something.
pub proof fn lemma_free_slot_is_first(a: AllocationAccount)
    ensures
        a.free_slot() matches Some(i) ==> 0 <= i < 3 && a.slots()[i].amount == 0 && forall|j: int|
            0 <= j < i ==> a.slots()[j].amount != 0,
        a.free_slot() is None ==> forall|j: int| 0 <= j < 3 ==> a.slots()[j].amount != 0,
{
}

} // verus!
