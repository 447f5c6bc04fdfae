//! The life of an allocation, played against a small ledger.
use std::collections::HashMap;

use jewl::instructions::decrease_allocation::DecreaseAllocationState;
use jewl::instructions::exercise_allocation::ExerciseAllocationState;
use jewl::instructions::increase_allocation::IncreaseAllocationState;
use jewl::instructions::initialize_allocation::{
    InitializeAllocationState, SOL_MINT, USDC_MINT, USDT_MINT,
};
use jewl::instructions::initialize_fee::InitializeFeeState;
use jewl::instructions::withdraw_fee::WithdrawFeeState;
use jewl::key::Key;
use jewl::program;
use jewl::state::allocation::AllocationAccount;
use jewl::state::fee::FeeConfigAccount;
use jewl::utility::account::{Mint, TokenAccount};
use jewl::utility::cpi::{CrossProgramInvocations, Invocation};
use jewl::utility::error::{Error, RuntimeError};
use jewl::utility::signer::{find_allocation_address, find_fee_address, SeedSigner};

const TOKEN_PROGRAM: [u8; 32] = [0xA0; 32];
const TOKEN_EXTENSIONS_PROGRAM: [u8; 32] = [0xA1; 32];

fn key(n: u8) -> Key {
    Key::new([n; 32])
}

fn fee_key() -> Key {
    find_fee_address().unwrap().0
}

fn allocation_key(nft: &Key) -> Key {
    find_allocation_address(nft).unwrap().0
}

fn fee_signer() -> SeedSigner {
    SeedSigner::Fee { bump: find_fee_address().unwrap().1 }
}

fn allocation_signer(nft: &Key) -> SeedSigner {
    SeedSigner::Allocation { nft_mint: *nft, bump: find_allocation_address(nft).unwrap().1 }
}

/// Account data of a mint with a close-authority extension.
fn mint_data(authority: &Key, supply: u64, close_authority: &Key) -> Vec<u8> {
    let mut data = vec![0u8; 202];
    data[0] = 1;
    data[4..36].copy_from_slice(&authority.bytes);
    data[36..44].copy_from_slice(&supply.to_le_bytes());
    data[44] = 0;
    data[45] = 1;
    data[165] = 1;
    data[166] = 3;
    data[168] = 32;
    data[170..202].copy_from_slice(&close_authority.bytes);
    data
}

/// The ledger as far as balances go.
struct Ledger {
    holdings: HashMap<Key, u64>,
    mints: HashMap<Key, u64>,
}

impl Ledger {
    fn new() -> Ledger {
        Ledger { holdings: HashMap::new(), mints: HashMap::new() }
    }

    fn open(&mut self, account: &TokenAccount) {
        self.holdings.entry(account.key).or_insert(0);
    }

    fn balance(&self, account: &Key) -> Option<u64> {
        self.holdings.get(account).copied()
    }

    fn holding(&self, address: Key, mint: Key, owner: Key) -> TokenAccount {
        TokenAccount { key: address, mint, owner, amount: self.balance(&address).unwrap_or(0) }
    }

    fn apply(&mut self, invocation: &Invocation) -> bool {
        match invocation {
            Invocation::TransferChecked { context, amount, .. } => {
                let from = context.accounts.from;
                let to = context.accounts.to;
                if !self.holdings.contains_key(&from) || !self.holdings.contains_key(&to) {
                    return false;
                }
                if self.holdings[&from] < *amount {
                    return false;
                }
                *self.holdings.get_mut(&from).unwrap() -= *amount;
                *self.holdings.get_mut(&to).unwrap() += *amount;
                true
            }
            Invocation::CloseAccount { context } => {
                let account = context.accounts.account;
                if let Some(balance) = self.holdings.get(&account) {
                    if *balance != 0 {
                        return false;
                    }
                    self.holdings.remove(&account);
                    true
                } else if let Some(supply) = self.mints.get(&account) {
                    if *supply != 0 {
                        return false;
                    }
                    self.mints.remove(&account);
                    true
                } else {
                    false
                }
            }
            Invocation::MintTo { context, amount } => {
                let mint = context.accounts.mint;
                let to = context.accounts.to;
                if !self.mints.contains_key(&mint) || !self.holdings.contains_key(&to) {
                    return false;
                }
                *self.mints.get_mut(&mint).unwrap() += *amount;
                *self.holdings.get_mut(&to).unwrap() += *amount;
                true
            }
            Invocation::Burn { context, amount } => {
                let mint = context.accounts.mint;
                let from = context.accounts.from;
                if !self.mints.contains_key(&mint) || !self.holdings.contains_key(&from) {
                    return false;
                }
                if self.holdings[&from] < *amount || self.mints[&mint] < *amount {
                    return false;
                }
                *self.mints.get_mut(&mint).unwrap() -= *amount;
                *self.holdings.get_mut(&from).unwrap() -= *amount;
                true
            }
            Invocation::FreezeAccount { .. } | Invocation::ThawAccount { .. } => true,
        }
    }

    fn run(&mut self, plan: &[Invocation]) -> bool {
        plan.iter().all(|invocation| self.apply(invocation))
    }
}

/// One signer, one NFT and the records and ledger around them.
struct World {
    signer: Key,
    nft: Key,
    fee_config: FeeConfigAccount,
    allocation: AllocationAccount,
    ledger: Ledger,
}

impl World {
    fn new() -> World {
        let mut ledger = Ledger::new();
        ledger.mints.insert(key(0xD0), 0);
        World {
            signer: key(1),
            nft: key(0xD0),
            fee_config: FeeConfigAccount::default(),
            allocation: AllocationAccount::default(),
            ledger,
        }
    }

    fn signer_holding(&self, mint: Key) -> Key {
        Key::new([mint.bytes[0], 0x51, 0, 0, 0, 0, 0, 0, 0, 0, 0, 0, 0, 0, 0, 0, 0, 0, 0, 0, 0, 0, 0, 0, 0, 0, 0, 0, 0, 0, 0, 0])
    }

    fn allocation_holding(&self, mint: Key) -> Key {
        Key::new([mint.bytes[0], 0xA1, 0, 0, 0, 0, 0, 0, 0, 0, 0, 0, 0, 0, 0, 0, 0, 0, 0, 0, 0, 0, 0, 0, 0, 0, 0, 0, 0, 0, 0, 0])
    }

    fn fee_holding(&self, mint: Key) -> Key {
        Key::new([mint.bytes[0], 0xFE, 0, 0, 0, 0, 0, 0, 0, 0, 0, 0, 0, 0, 0, 0, 0, 0, 0, 0, 0, 0, 0, 0, 0, 0, 0, 0, 0, 0, 0, 0])
    }

    fn nft_holding(&self) -> Key {
        self.signer_holding(self.nft)
    }

    fn nft_mint(&self) -> Mint {
        Mint {
            key: self.nft,
            mint_authority: Some(fee_key()),
            supply: self.ledger.mints.get(&self.nft).copied().unwrap_or(0),
            decimals: 0,
        }
    }

    fn token_mint(&self, mint: Key) -> Mint {
        Mint { key: mint, mint_authority: None, supply: 1_000_000, decimals: 6 }
    }

    fn fund(&mut self, mint: Key, amount: u64) {
        let address = self.signer_holding(mint);
        *self.ledger.holdings.entry(address).or_insert(0) += amount;
    }

    fn initialize_fee(&mut self, fee_bps: u16, withdraw_authority: Option<Key>) -> Result<(), Error> {
        let mut ctx = InitializeFeeState {
            signer: self.signer,
            fee_config_key: fee_key(),
            fee_config: self.fee_config,
        };
        program::initialize_fee(&mut ctx, fee_bps, withdraw_authority)?;
        self.fee_config = ctx.fee_config;
        Ok(())
    }

    fn initialize_allocation(&mut self, authority: Option<Key>) -> Result<Vec<Invocation>, Error> {
        let nft_mint = self.nft_mint();
        let nft_token = self.ledger.holding(self.nft_holding(), self.nft, self.signer);
        self.ledger.open(&nft_token);
        let mut ctx = InitializeAllocationState {
            signer: self.signer,
            fee_config_key: fee_key(),
            fee_config: self.fee_config,
            nft_mint,
            nft_mint_data: mint_data(&fee_key(), nft_mint.supply, &fee_key()),
            nft_token,
            allocation_key: allocation_key(&self.nft),
            allocation: self.allocation,
            token_extensions_program: Key::new(TOKEN_EXTENSIONS_PROGRAM),
        };
        let plan = program::initialize_allocation(&mut ctx, authority)?;
        assert!(self.ledger.run(&plan));
        self.allocation = ctx.allocation;
        Ok(plan)
    }

    fn increase_state(&mut self, mint: Key) -> IncreaseAllocationState {
        let signer_token_account = self.ledger.holding(self.signer_holding(mint), mint, self.signer);
        let allocation_token_account =
            self.ledger.holding(self.allocation_holding(mint), mint, allocation_key(&self.nft));
        let fee_token_account = self.ledger.holding(self.fee_holding(mint), mint, fee_key());
        self.ledger.open(&signer_token_account);
        self.ledger.open(&allocation_token_account);
        self.ledger.open(&fee_token_account);
        IncreaseAllocationState {
            signer: self.signer,
            fee_config_key: fee_key(),
            fee_config: self.fee_config,
            nft_mint: self.nft_mint(),
            allocation_key: allocation_key(&self.nft),
            allocation: self.allocation,
            token_mint: self.token_mint(mint),
            signer_token_account,
            allocation_token_account,
            fee_token_account,
            token_program: Key::new(TOKEN_PROGRAM),
        }
    }

    fn increase(&mut self, mint: Key, amount: u64) -> Result<Vec<Invocation>, Error> {
        let mut ctx = self.increase_state(mint);
        let plan = program::increase_allocation(&mut ctx, amount)?;
        assert!(self.ledger.run(&plan));
        self.allocation = ctx.allocation;
        Ok(plan)
    }

    fn decrease_state(&mut self, mint: Key) -> DecreaseAllocationState {
        let state = self.increase_state(mint);
        DecreaseAllocationState {
            signer: state.signer,
            fee_config_key: state.fee_config_key,
            fee_config: state.fee_config,
            nft_mint: state.nft_mint,
            allocation_key: state.allocation_key,
            allocation: state.allocation,
            token_mint: state.token_mint,
            signer_token_account: state.signer_token_account,
            allocation_token_account: state.allocation_token_account,
            fee_token_account: state.fee_token_account,
            token_program: state.token_program,
        }
    }

    fn decrease(&mut self, mint: Key, amount: u64) -> Result<Vec<Invocation>, Error> {
        let mut ctx = self.decrease_state(mint);
        let plan = program::decrease_allocation(&mut ctx, amount)?;
        assert!(self.ledger.run(&plan));
        self.allocation = ctx.allocation;
        Ok(plan)
    }

    fn exercise_state(&mut self) -> ExerciseAllocationState {
        let mints = [
            self.allocation.first_token_mint,
            self.allocation.second_token_mint,
            self.allocation.third_token_mint,
        ];
        let mut slots = Vec::new();
        for mint in mints {
            let state = self.increase_state(mint);
            slots.push((
                state.token_mint,
                state.signer_token_account,
                state.allocation_token_account,
                state.fee_token_account,
            ));
        }
        ExerciseAllocationState {
            signer: self.signer,
            fee_config_key: fee_key(),
            fee_config: self.fee_config,
            nft_mint: self.nft_mint(),
            nft_token: self.ledger.holding(self.nft_holding(), self.nft, self.signer),
            allocation_key: allocation_key(&self.nft),
            allocation: self.allocation,
            first_token_mint: slots[0].0,
            signer_first_token_account: slots[0].1,
            allocation_first_token_account: slots[0].2,
            fee_first_token_account: slots[0].3,
            second_token_mint: slots[1].0,
            signer_second_token_account: slots[1].1,
            allocation_second_token_account: slots[1].2,
            fee_second_token_account: slots[1].3,
            third_token_mint: slots[2].0,
            signer_third_token_account: slots[2].1,
            allocation_third_token_account: slots[2].2,
            fee_third_token_account: slots[2].3,
            token_program: Key::new(TOKEN_PROGRAM),
            token_extensions_program: Key::new(TOKEN_EXTENSIONS_PROGRAM),
        }
    }

    fn exercise(&mut self) -> Result<Vec<Invocation>, Error> {
        let mut ctx = self.exercise_state();
        let plan = program::exercise_allocation(&mut ctx)?;
        assert!(self.ledger.run(&plan));
        self.allocation = ctx.allocation;
        Ok(plan)
    }

    fn withdraw_state(&mut self, mint: Key) -> WithdrawFeeState {
        let state = self.increase_state(mint);
        WithdrawFeeState {
            signer: state.signer,
            fee_config_key: state.fee_config_key,
            fee_config: state.fee_config,
            token_mint: state.token_mint,
            signer_token_account: state.signer_token_account,
            fee_token_account: state.fee_token_account,
            token_program: state.token_program,
        }
    }

    /// The world after the first deposit: fee of one percent, an
    /// allocation, and 1000 of `M1` deposited.
    fn after_first_deposit() -> World {
        let mut world = World::new();
        world.initialize_fee(100, None).unwrap();
        world.initialize_allocation(None).unwrap();
        world.fund(key(0x11), 10_000);
        world.increase(key(0x11), 1000).unwrap();
        world
    }
}

#[test]
fn initialize_then_first_deposit() {
    let world = World::after_first_deposit();
    let m1 = key(0x11);
    assert_eq!(world.allocation.first_token_mint, m1);
    assert_eq!(world.allocation.first_token_amount, 990);
    assert_eq!(world.ledger.balance(&world.fee_holding(m1)), Some(10));
    assert_eq!(world.ledger.balance(&world.allocation_holding(m1)), Some(990));
    assert_eq!(world.ledger.balance(&world.nft_holding()), Some(1));
    assert_eq!(world.ledger.mints[&world.nft], 1);
}

#[test]
fn initialize_sets_roles_and_default_mints() {
    let mut world = World::new();
    world.initialize_fee(100, None).unwrap();
    let plan = world.initialize_allocation(Some(key(7))).unwrap();
    assert_eq!(
        plan,
        vec![CrossProgramInvocations::mint_token(
            world.nft,
            world.nft_holding(),
            fee_key(),
            Key::new(TOKEN_EXTENSIONS_PROGRAM),
            Some(fee_signer()),
            1,
        )]
    );
    assert_eq!(
        world.allocation,
        AllocationAccount {
            initialized: true,
            decrease_authority: key(7),
            recover_authority: key(1),
            first_token_mint: Key::new(SOL_MINT),
            first_token_amount: 0,
            second_token_mint: Key::new(USDC_MINT),
            second_token_amount: 0,
            third_token_mint: Key::new(USDT_MINT),
            third_token_amount: 0,
        }
    );
}

#[test]
fn first_deposit_plan_is_two_transfers() {
    let mut world = World::new();
    world.initialize_fee(100, None).unwrap();
    world.initialize_allocation(None).unwrap();
    let m1 = key(0x11);
    world.fund(m1, 10_000);
    let plan = world.increase(m1, 1000).unwrap();
    let program = Key::new(TOKEN_PROGRAM);
    assert_eq!(
        plan,
        vec![
            CrossProgramInvocations::transfer_token(
                world.signer_holding(m1),
                m1,
                world.allocation_holding(m1),
                world.signer,
                program,
                None,
                990,
                6,
            ),
            CrossProgramInvocations::transfer_token(
                world.signer_holding(m1),
                m1,
                world.fee_holding(m1),
                world.signer,
                program,
                None,
                10,
                6,
            ),
        ]
    );
}

#[test]
fn partial_draw() {
    let mut world = World::after_first_deposit();
    let m1 = key(0x11);
    // The signer takes the decrease role, which was vacant.
    world.allocation.decrease_authority = world.signer;
    let before = world.ledger.balance(&world.signer_holding(m1)).unwrap();
    let plan = world.decrease(m1, 400).unwrap();
    assert_eq!(world.allocation.first_token_amount, 590);
    assert_eq!(world.ledger.balance(&world.signer_holding(m1)), Some(before + 400));
    assert_eq!(world.ledger.balance(&world.allocation_holding(m1)), Some(590));
    assert_eq!(world.ledger.balance(&world.fee_holding(m1)), Some(10));
    assert_eq!(
        plan,
        vec![CrossProgramInvocations::transfer_token(
            world.allocation_holding(m1),
            m1,
            world.signer_holding(m1),
            allocation_key(&world.nft),
            Key::new(TOKEN_PROGRAM),
            Some(allocation_signer(&world.nft)),
            400,
            6,
        )]
    );
}

#[test]
fn excess_sweep() {
    let mut world = World::after_first_deposit();
    let m1 = key(0x11);
    // Somebody sends 50 straight to the allocation's holding.
    *world.ledger.holdings.get_mut(&world.allocation_holding(m1)).unwrap() += 50;
    assert_eq!(world.ledger.balance(&world.allocation_holding(m1)), Some(1040));
    let plan = world.increase(m1, 100).unwrap();
    assert_eq!(plan.len(), 3);
    assert_eq!(
        plan[0],
        CrossProgramInvocations::transfer_token(
            world.allocation_holding(m1),
            m1,
            world.fee_holding(m1),
            allocation_key(&world.nft),
            Key::new(TOKEN_PROGRAM),
            Some(allocation_signer(&world.nft)),
            50,
            6,
        )
    );
    assert_eq!(world.allocation.first_token_amount, 1089);
    assert_eq!(world.ledger.balance(&world.allocation_holding(m1)), Some(1089));
    assert_eq!(world.ledger.balance(&world.fee_holding(m1)), Some(61));
}

#[test]
fn excess_sweep_step_by_step() {
    let mut world = World::after_first_deposit();
    let m1 = key(0x11);
    *world.ledger.holdings.get_mut(&world.allocation_holding(m1)).unwrap() += 50;
    let mut ctx = world.increase_state(m1);
    let plan = program::increase_allocation(&mut ctx, 100).unwrap();
    assert!(world.ledger.apply(&plan[0]));
    assert_eq!(world.ledger.balance(&world.fee_holding(m1)), Some(60));
    assert_eq!(world.ledger.balance(&world.allocation_holding(m1)), Some(990));
    assert!(world.ledger.apply(&plan[1]));
    assert_eq!(world.ledger.balance(&world.allocation_holding(m1)), Some(1089));
    assert!(world.ledger.apply(&plan[2]));
    assert_eq!(world.ledger.balance(&world.fee_holding(m1)), Some(61));
}

#[test]
fn three_token_cap() {
    let mut world = World::new();
    world.initialize_fee(100, None).unwrap();
    world.initialize_allocation(None).unwrap();
    for m in [0x11u8, 0x12, 0x13, 0x14] {
        world.fund(key(m), 1000);
    }
    world.increase(key(0x11), 100).unwrap();
    world.increase(key(0x12), 100).unwrap();
    world.increase(key(0x13), 100).unwrap();
    assert_eq!(world.allocation.first_token_mint, key(0x11));
    assert_eq!(world.allocation.second_token_mint, key(0x12));
    assert_eq!(world.allocation.third_token_mint, key(0x13));
    let before = world.allocation;
    assert_eq!(
        world.increase(key(0x14), 100),
        Err(Error::Runtime(RuntimeError::MaxTokensReached))
    );
    assert_eq!(world.allocation, before);
}

#[test]
fn full_exercise() {
    let mut world = World::new();
    world.initialize_fee(0, None).unwrap();
    world.initialize_allocation(None).unwrap();
    let m1 = key(0x11);
    let m2 = key(0x12);
    world.fund(m1, 100);
    world.fund(m2, 200);
    world.increase(m1, 100).unwrap();
    world.increase(m2, 200).unwrap();
    let m3 = world.allocation.third_token_mint;
    assert_eq!(world.allocation.first_token_amount, 100);
    assert_eq!(world.allocation.second_token_amount, 200);
    assert_eq!(world.allocation.third_token_amount, 0);
    assert_eq!(world.ledger.balance(&world.signer_holding(m1)), Some(0));
    let plan = world.exercise().unwrap();
    assert_eq!(world.ledger.balance(&world.signer_holding(m1)), Some(100));
    assert_eq!(world.ledger.balance(&world.signer_holding(m2)), Some(200));
    assert_eq!(world.ledger.balance(&world.signer_holding(m3)), Some(0));
    assert_eq!(world.ledger.balance(&world.allocation_holding(m1)), None);
    assert_eq!(world.ledger.balance(&world.allocation_holding(m2)), None);
    assert_eq!(world.ledger.balance(&world.allocation_holding(m3)), None);
    assert_eq!(world.ledger.balance(&world.nft_holding()), None);
    assert!(!world.ledger.mints.contains_key(&world.nft));
    assert_eq!(world.allocation, AllocationAccount::default());
    // Transfer and close for two slots, close alone for the third, then
    // burn, close of the NFT holding, close of the mint.
    assert_eq!(plan.len(), 8);
    let extensions = Key::new(TOKEN_EXTENSIONS_PROGRAM);
    assert_eq!(
        plan[4],
        CrossProgramInvocations::close_token(
            world.allocation_holding(m3),
            world.signer_holding(m3),
            allocation_key(&world.nft),
            Key::new(TOKEN_PROGRAM),
            Some(allocation_signer(&world.nft)),
        )
    );
    assert_eq!(
        plan[5],
        CrossProgramInvocations::burn_token(world.nft, world.nft_holding(), world.signer, extensions, None, 1)
    );
    assert_eq!(
        plan[6],
        CrossProgramInvocations::close_token(world.nft_holding(), world.signer, world.signer, extensions, None)
    );
    assert_eq!(
        plan[7],
        CrossProgramInvocations::close_token(world.nft, world.signer, fee_key(), extensions, Some(fee_signer()))
    );
}

#[test]
fn authority_rotation_rejection() {
    let mut world = World::new();
    world.initialize_fee(100, None).unwrap();
    world.initialize_allocation(Some(key(7))).unwrap();
    // key(1) recovers, key(7) decreases. The decrease authority names the
    // recover authority as its successor.
    world.signer = key(7);
    let before = world.allocation;
    assert_eq!(world.initialize_allocation(Some(key(1))), Err(Error::InvalidInstructionData));
    assert_eq!(world.allocation, before);
    // And the other way round.
    world.signer = key(1);
    assert_eq!(world.initialize_allocation(Some(key(7))), Err(Error::InvalidInstructionData));
    assert_eq!(world.allocation, before);
}

#[test]
fn authority_rotation() {
    let mut world = World::new();
    world.initialize_fee(100, None).unwrap();
    world.initialize_allocation(Some(key(7))).unwrap();
    // The recover authority hands its role to key(8); nothing is minted.
    assert_eq!(world.initialize_allocation(Some(key(8))), Ok(vec![]));
    assert_eq!(world.allocation.recover_authority, key(8));
    assert_eq!(world.allocation.decrease_authority, key(7));
    // The decrease authority vacates its role.
    world.signer = key(7);
    assert_eq!(world.initialize_allocation(None), Ok(vec![]));
    assert_eq!(world.allocation.decrease_authority, Key::default());
    assert_eq!(world.allocation.recover_authority, key(8));
    // A stranger may do neither.
    world.signer = key(9);
    assert_eq!(world.initialize_allocation(Some(key(9))), Err(Error::ConstraintRaw));
}

#[test]
fn creator_naming_itself_holds_both_roles() {
    let mut world = World::new();
    world.initialize_fee(100, None).unwrap();
    world.initialize_allocation(Some(key(1))).unwrap();
    assert_eq!(world.allocation.recover_authority, key(1));
    assert_eq!(world.allocation.decrease_authority, key(1));
}

#[test]
fn deposit_of_nothing_still_sweeps() {
    let mut world = World::after_first_deposit();
    let m1 = key(0x11);
    *world.ledger.holdings.get_mut(&world.allocation_holding(m1)).unwrap() += 7;
    let signer_before = world.ledger.balance(&world.signer_holding(m1));
    let plan = world.increase(m1, 0).unwrap();
    assert_eq!(plan.len(), 3);
    assert!(matches!(plan[0], Invocation::TransferChecked { amount: 7, .. }));
    assert!(matches!(plan[1], Invocation::TransferChecked { amount: 0, .. }));
    assert!(matches!(plan[2], Invocation::TransferChecked { amount: 0, .. }));
    assert_eq!(world.allocation.first_token_amount, 990);
    assert_eq!(world.ledger.balance(&world.allocation_holding(m1)), Some(990));
    assert_eq!(world.ledger.balance(&world.fee_holding(m1)), Some(17));
    assert_eq!(world.ledger.balance(&world.signer_holding(m1)), signer_before);
}

#[test]
fn fee_of_the_whole_takes_all() {
    for fee_bps in [10000u16, 10001, 65535] {
        let mut world = World::new();
        world.initialize_fee(fee_bps, None).unwrap();
        world.initialize_allocation(None).unwrap();
        let m1 = key(0x11);
        world.fund(m1, 1000);
        world.increase(m1, 1000).unwrap();
        assert_eq!(world.allocation.first_token_mint, m1);
        assert_eq!(world.allocation.first_token_amount, 0);
        assert_eq!(world.ledger.balance(&world.allocation_holding(m1)), Some(0));
        assert_eq!(world.ledger.balance(&world.fee_holding(m1)), Some(1000));
    }
}

#[test]
fn draw_of_the_whole_slot_closes_the_holding() {
    let mut world = World::after_first_deposit();
    let m1 = key(0x11);
    world.allocation.decrease_authority = world.signer;
    let plan = world.decrease(m1, 990).unwrap();
    assert_eq!(plan.len(), 2);
    assert_eq!(
        plan[1],
        CrossProgramInvocations::close_token(
            world.allocation_holding(m1),
            world.signer,
            allocation_key(&world.nft),
            Key::new(TOKEN_PROGRAM),
            Some(allocation_signer(&world.nft)),
        )
    );
    assert_eq!(world.allocation.first_token_amount, 0);
    assert_eq!(world.allocation.first_token_mint, m1);
    assert_eq!(world.ledger.balance(&world.allocation_holding(m1)), None);
}

#[test]
fn exercise_of_an_empty_allocation_moves_nothing() {
    let mut world = World::new();
    world.initialize_fee(100, None).unwrap();
    world.initialize_allocation(None).unwrap();
    let plan = world.exercise().unwrap();
    assert_eq!(plan.len(), 6);
    assert!(plan.iter().all(|i| !matches!(i, Invocation::TransferChecked { .. })));
    assert!(matches!(plan[0], Invocation::CloseAccount { .. }));
    assert!(matches!(plan[1], Invocation::CloseAccount { .. }));
    assert!(matches!(plan[2], Invocation::CloseAccount { .. }));
    assert!(matches!(plan[3], Invocation::Burn { amount: 1, .. }));
    assert_eq!(world.allocation, AllocationAccount::default());
    assert!(!world.ledger.mints.contains_key(&world.nft));
    assert_eq!(world.ledger.balance(&world.nft_holding()), None);
}

#[test]
fn deposit_then_draw_restores_the_slot() {
    let mut world = World::after_first_deposit();
    let m1 = key(0x11);
    world.allocation.decrease_authority = world.signer;
    let before = world.allocation;
    let fee_before = world.ledger.balance(&world.fee_holding(m1)).unwrap();
    world.increase(m1, 500).unwrap();
    assert_eq!(world.allocation.first_token_amount, 990 + 495);
    world.decrease(m1, 495).unwrap();
    assert_eq!(world.allocation, before);
    assert_eq!(world.ledger.balance(&world.allocation_holding(m1)), Some(990));
    assert!(world.ledger.balance(&world.fee_holding(m1)).unwrap() >= fee_before);
    assert_eq!(world.ledger.balance(&world.fee_holding(m1)), Some(fee_before + 5));
}

#[test]
fn freed_slot_is_bound_to_the_next_new_mint() {
    let mut world = World::after_first_deposit();
    world.allocation.decrease_authority = world.signer;
    world.decrease(key(0x11), 990).unwrap();
    world.fund(key(0x12), 300);
    world.increase(key(0x12), 300).unwrap();
    assert_eq!(world.allocation.first_token_mint, key(0x12));
    assert_eq!(world.allocation.first_token_amount, 297);
    assert_eq!(world.allocation.second_token_mint, Key::new(USDC_MINT));
}

#[test]
fn draw_errors() {
    let mut world = World::after_first_deposit();
    world.allocation.decrease_authority = world.signer;
    let before = world.allocation;
    assert_eq!(
        world.decrease(key(0x12), 1),
        Err(Error::Runtime(RuntimeError::TokenNotFound))
    );
    assert_eq!(world.decrease(key(0x11), 991), Err(Error::ArithmeticOverflow));
    assert_eq!(world.allocation, before);
    // Only the decrease authority may draw.
    world.signer = key(2);
    assert_eq!(world.decrease(key(0x11), 1), Err(Error::ConstraintRaw));
}

#[test]
fn deposit_errors() {
    let mut world = World::after_first_deposit();
    let m1 = key(0x11);
    assert_eq!(world.increase(m1, u64::MAX), Err(Error::ArithmeticOverflow));
    // The slot cannot take what would leave the range.
    world.allocation.first_token_amount = u64::MAX - 10;
    world.fee_config.fee_bps = 0;
    let before = world.allocation;
    assert_eq!(world.increase(m1, 11), Err(Error::ArithmeticOverflow));
    assert_eq!(world.allocation, before);
}

#[test]
fn fee_withdrawal() {
    let mut world = World::after_first_deposit();
    let m1 = key(0x11);
    let ctx = world.withdraw_state(m1);
    let program = Key::new(TOKEN_PROGRAM);
    let pay = |amount: u64| {
        CrossProgramInvocations::transfer_token(
            ctx.fee_token_account.key,
            m1,
            ctx.signer_token_account.key,
            fee_key(),
            program,
            Some(fee_signer()),
            amount,
            6,
        )
    };
    let close = CrossProgramInvocations::close_token(
        ctx.fee_token_account.key,
        ctx.signer,
        fee_key(),
        program,
        Some(fee_signer()),
    );
    assert_eq!(program::withdraw_fee(&ctx, Some(4)), Ok(vec![pay(4)]));
    assert_eq!(program::withdraw_fee(&ctx, None), Ok(vec![pay(10), close]));
    assert_eq!(program::withdraw_fee(&ctx, Some(10)), Ok(vec![pay(10), close]));
    // More than there is: the plan is made, and the ledger refuses it.
    let plan = program::withdraw_fee(&ctx, Some(11)).unwrap();
    assert_eq!(plan, vec![pay(11)]);
    assert!(!world.ledger.run(&plan));
    // Only the withdraw authority may.
    let mut stranger = ctx;
    stranger.signer = key(2);
    stranger.signer_token_account.owner = key(2);
    assert_eq!(program::withdraw_fee(&stranger, None), Err(Error::ConstraintRaw));
    // All of it, on the ledger.
    let before = world.ledger.balance(&world.signer_holding(m1)).unwrap();
    let plan = program::withdraw_fee(&ctx, None).unwrap();
    assert!(world.ledger.run(&plan));
    assert_eq!(world.ledger.balance(&world.fee_holding(m1)), None);
    assert_eq!(world.ledger.balance(&world.signer_holding(m1)), Some(before + 10));
}

#[test]
fn fee_configuration_writes() {
    let mut world = World::new();
    world.initialize_fee(100, None).unwrap();
    assert_eq!(
        world.fee_config,
        FeeConfigAccount {
            initialized: true,
            fee_authority: key(1),
            fee_withdraw_authority: key(1),
            fee_bps: 100,
        }
    );
    world.initialize_fee(250, Some(key(3))).unwrap();
    assert_eq!(
        world.fee_config,
        FeeConfigAccount {
            initialized: true,
            fee_authority: key(1),
            fee_withdraw_authority: key(3),
            fee_bps: 250,
        }
    );
    world.initialize_fee(300, None).unwrap();
    assert_eq!(world.fee_config.fee_withdraw_authority, key(3));
    assert_eq!(world.fee_config.fee_bps, 300);
    let before = world.fee_config;
    world.signer = key(2);
    assert_eq!(world.initialize_fee(0, None), Err(Error::ConstraintRaw));
    assert_eq!(world.fee_config, before);
}

#[test]
fn first_fee_write_may_name_the_withdraw_authority() {
    let mut world = World::new();
    world.initialize_fee(65535, Some(key(3))).unwrap();
    assert_eq!(
        world.fee_config,
        FeeConfigAccount {
            initialized: true,
            fee_authority: key(1),
            fee_withdraw_authority: key(3),
            fee_bps: 65535,
        }
    );
}
