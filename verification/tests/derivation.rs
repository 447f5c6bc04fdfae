//! Derived addresses and mint data, held against the crates that define
//! them.
use anchor_lang::prelude::Pubkey;
use anchor_spl::token_2022::spl_token_2022::extension::mint_close_authority::MintCloseAuthority;
use anchor_spl::token_2022::spl_token_2022::extension::{
    BaseStateWithExtensions, ExtensionType, StateWithExtensionsMut,
};
use anchor_spl::token_2022::spl_token_2022::state::Mint as LedgerMint;
use jewl::key::Key;
use jewl::state::allocation::AllocationAccount;
use jewl::state::fee::FeeConfigAccount;
use jewl::utility::account::is_closable_by;
use jewl::utility::constraint::{check_allocation_address, check_fee_address};
use jewl::utility::signer::{find_allocation_address, find_fee_address, SeedSigner};

fn program() -> Pubkey {
    Pubkey::new_from_array(jewl::ID)
}

#[test]
fn program_id_is_the_declared_address() {
    assert_eq!(program().to_string(), "JEWLJJ9c9dsrrCuq6gKvkiBsp74Sn4N9VdR68LY1X7x");
    assert_eq!(jewl::id(), Key::new(jewl::ID));
}

#[test]
fn fee_address_is_derived_from_its_seed() {
    let (address, bump) = Pubkey::find_program_address(&[b"fee"], &program());
    assert_eq!(find_fee_address(), Some((Key::new(address.to_bytes()), bump)));
    assert!(check_fee_address(&Key::new(address.to_bytes())));
    assert!(!check_fee_address(&Key::new(jewl::ID)));
    assert!(!check_fee_address(&Key::default()));
}

#[test]
fn allocation_address_is_derived_from_the_nft_mint() {
    let nft = Key::new([9; 32]);
    let (address, bump) = Pubkey::find_program_address(&[b"allocation", &[9; 32]], &program());
    assert_eq!(find_allocation_address(&nft), Some((Key::new(address.to_bytes()), bump)));
    assert!(check_allocation_address(&Key::new(address.to_bytes()), &nft));
    assert!(!check_allocation_address(&Key::new(address.to_bytes()), &Key::new([8; 32])));
    assert!(!check_allocation_address(&nft, &nft));
    let other = find_allocation_address(&Key::new([8; 32])).unwrap().0;
    assert_ne!(other, Key::new(address.to_bytes()));
}

#[test]
fn signer_seeds_rebuild_the_address() {
    let (address, bump) = find_fee_address().unwrap();
    let signer = SeedSigner::fee();
    assert_eq!(signer, SeedSigner::Fee { bump });
    let seeds = signer.seeds();
    assert_eq!(seeds, vec![b"fee".to_vec(), vec![bump]]);
    let parts: Vec<&[u8]> = seeds.iter().map(|s| s.as_slice()).collect();
    let rebuilt = Pubkey::create_program_address(&parts, &program()).unwrap();
    assert_eq!(Key::new(rebuilt.to_bytes()), address);

    let nft = Key::new([9; 32]);
    let (address, bump) = find_allocation_address(&nft).unwrap();
    let signer = SeedSigner::allocation(&nft);
    assert_eq!(signer, SeedSigner::Allocation { nft_mint: nft, bump });
    let seeds = signer.seeds();
    assert_eq!(seeds, vec![b"allocation".to_vec(), vec![9; 32], vec![bump]]);
    let parts: Vec<&[u8]> = seeds.iter().map(|s| s.as_slice()).collect();
    let rebuilt = Pubkey::create_program_address(&parts, &program()).unwrap();
    assert_eq!(Key::new(rebuilt.to_bytes()), address);
}

#[test]
fn record_seeds() {
    assert_eq!(FeeConfigAccount::seed(), b"fee");
    assert_eq!(AllocationAccount::seed(), b"allocation");
}

/// Account data of a mint, written by the ledger's own code.
fn ledger_mint_data(close_authority: Option<Pubkey>) -> Vec<u8> {
    let len = ExtensionType::try_calculate_account_len::<LedgerMint>(&[ExtensionType::MintCloseAuthority])
        .unwrap();
    let mut data = vec![0u8; len];
    let mut state = StateWithExtensionsMut::<LedgerMint>::unpack_uninitialized(&mut data).unwrap();
    let extension = state.init_extension::<MintCloseAuthority>(true).unwrap();
    extension.close_authority = close_authority.try_into().unwrap();
    state.base = LedgerMint {
        mint_authority: Some(Pubkey::new_from_array([5; 32])).into(),
        supply: 0,
        decimals: 0,
        is_initialized: true,
        freeze_authority: None.into(),
    };
    state.pack_base();
    state.init_account_type().unwrap();
    data
}

#[test]
fn close_authority_is_read_from_the_extension() {
    let data = ledger_mint_data(Some(Pubkey::new_from_array([7; 32])));
    assert!(is_closable_by(&data, &Key::new([7; 32])));
    assert!(!is_closable_by(&data, &Key::new([5; 32])));
    assert!(!is_closable_by(&data, &Key::default()));
}

#[test]
fn vacant_close_authority_reads_as_the_zero_key() {
    let data = ledger_mint_data(None);
    assert!(is_closable_by(&data, &Key::default()));
    assert!(!is_closable_by(&data, &Key::new([7; 32])));
}

#[test]
fn data_that_is_no_mint_names_nobody() {
    let data = ledger_mint_data(Some(Pubkey::new_from_array([7; 32])));
    assert!(!is_closable_by(&[], &Key::new([7; 32])));
    assert!(!is_closable_by(&data[..100], &Key::new([7; 32])));
    // A mint without extensions.
    assert!(!is_closable_by(&data[..82], &Key::new([7; 32])));
    // A mint that was never initialized.
    let mut blank = data.clone();
    blank[45] = 0;
    assert!(!is_closable_by(&blank, &Key::new([7; 32])));
    // An account of another type.
    let mut other = data.clone();
    other[165] = 2;
    assert!(!is_closable_by(&other, &Key::new([7; 32])));
}
