//! The two records, the keys and the errors.
use jewl::key::Key;
use jewl::state::allocation::{AllocationAccount, Slot};
use jewl::state::fee::FeeConfigAccount;
use jewl::utility::error::RuntimeError;

fn key(n: u8) -> Key {
    Key::new([n; 32])
}

fn sample() -> AllocationAccount {
    AllocationAccount {
        initialized: true,
        decrease_authority: key(1),
        recover_authority: key(2),
        first_token_mint: key(3),
        first_token_amount: 5,
        second_token_mint: key(4),
        second_token_amount: 0,
        third_token_mint: key(3),
        third_token_amount: 0,
    }
}

#[test]
fn record_sizes() {
    assert_eq!(FeeConfigAccount::space(), 75);
    assert_eq!(AllocationAccount::space(), 193);
}

#[test]
fn default_records_are_blank() {
    let fee = FeeConfigAccount::default();
    assert!(!fee.initialized);
    assert_eq!(fee.fee_authority, Key::new([0; 32]));
    assert_eq!(fee.fee_withdraw_authority, Key::new([0; 32]));
    assert_eq!(fee.fee_bps, 0);
    let allocation = AllocationAccount::default();
    assert!(!allocation.initialized);
    assert_eq!(allocation.decrease_authority, Key::default());
    assert_eq!(allocation.recover_authority, Key::default());
    assert_eq!(allocation.first_token_mint, Key::default());
    assert_eq!(allocation.first_token_amount, 0);
    assert_eq!(allocation.second_token_amount, 0);
    assert_eq!(allocation.third_token_amount, 0);
}

#[test]
fn keys_compare_by_their_bytes() {
    let mut bytes = [3u8; 32];
    assert_eq!(Key::new(bytes), key(3));
    bytes[31] = 4;
    assert_ne!(Key::new(bytes), key(3));
    bytes[31] = 3;
    bytes[0] = 4;
    assert_ne!(Key::new(bytes), key(3));
    assert_eq!(key(3).to_vec(), vec![3u8; 32]);
    assert_eq!(Key::default().bytes, [0u8; 32]);
}

#[test]
fn slots_are_read_and_written_by_index() {
    let mut a = sample();
    assert_eq!(a.slot(0), Slot { mint: key(3), amount: 5 });
    assert_eq!(a.slot(1), Slot { mint: key(4), amount: 0 });
    assert_eq!(a.slot(2), Slot { mint: key(3), amount: 0 });
    a.set_slot(1, Slot { mint: key(9), amount: 8 });
    assert_eq!(a.second_token_mint, key(9));
    assert_eq!(a.second_token_amount, 8);
    a.set_slot(2, Slot { mint: key(10), amount: 1 });
    a.set_slot(0, Slot { mint: key(11), amount: 2 });
    assert_eq!(
        a,
        AllocationAccount {
            initialized: true,
            decrease_authority: key(1),
            recover_authority: key(2),
            first_token_mint: key(11),
            first_token_amount: 2,
            second_token_mint: key(9),
            second_token_amount: 8,
            third_token_mint: key(10),
            third_token_amount: 1,
        }
    );
}

#[test]
fn first_match_wins() {
    let a = sample();
    assert_eq!(a.find_slot(&key(3)), Some(0));
    assert_eq!(a.find_slot(&key(4)), Some(1));
    assert_eq!(a.find_slot(&key(5)), None);
    assert_eq!(a.find_free_slot(), Some(1));
    let mut full = a;
    full.second_token_amount = 1;
    assert_eq!(full.find_free_slot(), Some(2));
    full.third_token_amount = 1;
    assert_eq!(full.find_free_slot(), None);
    full.first_token_amount = 0;
    assert_eq!(full.find_free_slot(), Some(0));
}

#[test]
fn error_messages() {
    assert_eq!(RuntimeError::TokenNotFound.message(), "Token does not exist in allocation");
    assert_eq!(RuntimeError::MaxTokensReached.message(), "Allocation already has three tokens");
}
