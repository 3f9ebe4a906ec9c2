//! Unit checks of the external-ledger primitives and the derivation helpers.

use nft_marketplace::addr::bytes_eq;
use nft_marketplace::addr::copy_bytes;
use nft_marketplace::error::LedgerError;
use nft_marketplace::ledger::transfer_lamports;
use nft_marketplace::ledger::transfer_token;
use nft_marketplace::pda::derive_escrow_address;
use nft_marketplace::pda::derive_listing_address;
use nft_marketplace::state::Listing;
use nft_marketplace::state::TokenAccount;

fn account(mint: u8, owner: u8, amount: u64) -> TokenAccount {
    TokenAccount {
        address: vec![0x40; 32],
        mint: vec![mint; 32],
        owner: vec![owner; 32],
        amount,
    }
}

#[test]
fn listing_record_occupies_its_declared_space() {
    assert_eq!(Listing::space(), 155);
}

#[test]
fn byte_helpers_compare_and_copy() {
    let a = vec![1u8, 2, 3];
    let b = vec![1u8, 2, 3];
    let c = vec![1u8, 2, 4];
    let d = vec![1u8, 2];
    assert!(bytes_eq(&a, &b));
    assert!(!bytes_eq(&a, &c));
    assert!(!bytes_eq(&a, &d));
    assert_eq!(copy_bytes(&a), a);
}

#[test]
fn lamport_transfer_moves_exactly_the_amount() {
    let mut from: u64 = 1_000;
    let mut to: u64 = 20;
    assert_eq!(transfer_lamports(&mut from, &mut to, 300), Ok(()));
    assert_eq!(from, 700);
    assert_eq!(to, 320);
}

#[test]
fn lamport_transfer_rejects_a_short_balance() {
    let mut from: u64 = 100;
    let mut to: u64 = 0;
    assert_eq!(
        transfer_lamports(&mut from, &mut to, 101),
        Err(LedgerError::InsufficientFunds)
    );
    assert_eq!(from, 100);
    assert_eq!(to, 0);
}

#[test]
fn lamport_transfer_rejects_an_overflowing_destination() {
    let mut from: u64 = 100;
    let mut to: u64 = u64::MAX - 10;
    assert_eq!(
        transfer_lamports(&mut from, &mut to, 11),
        Err(LedgerError::BalanceOverflow)
    );
    assert_eq!(from, 100);
    assert_eq!(to, u64::MAX - 10);
}

#[test]
fn token_transfer_checks_owner_and_mint() {
    let mut from = account(0x02, 0x01, 5);
    let mut to = account(0x02, 0x03, 0);
    let wrong_authority = vec![0x09; 32];
    assert_eq!(
        transfer_token(&mut from, &mut to, 1, &wrong_authority),
        Err(LedgerError::OwnerMismatch)
    );
    assert_eq!(from.amount, 5);

    let mut other_asset = account(0x08, 0x03, 0);
    let authority = vec![0x01; 32];
    assert_eq!(
        transfer_token(&mut from, &mut other_asset, 1, &authority),
        Err(LedgerError::MintMismatch)
    );
    assert_eq!(from.amount, 5);

    assert_eq!(transfer_token(&mut from, &mut to, 2, &authority), Ok(()));
    assert_eq!(from.amount, 3);
    assert_eq!(to.amount, 2);
}

#[test]
fn derivation_is_deterministic_and_seed_sensitive() {
    let seller = vec![0x01; 32];
    let other_seller = vec![0x02; 32];
    let mint = vec![0x03; 32];
    let pid = vec![0x07; 32];

    let first = derive_listing_address(&seller, &mint, &pid).expect("derivable");
    let again = derive_listing_address(&seller, &mint, &pid).expect("derivable");
    assert_eq!(first, again);

    let elsewhere = derive_listing_address(&other_seller, &mint, &pid).expect("derivable");
    assert_ne!(first.0, elsewhere.0);

    let escrow = derive_escrow_address(&first.0, &pid).expect("derivable");
    assert_ne!(escrow.0, first.0);
}

#[test]
fn derivation_matches_the_ledger_scheme() {
    let seller = vec![0x01; 32];
    let mint = vec![0x03; 32];
    let pid_bytes = vec![0x07; 32];
    let pid = solana_program::pubkey::Pubkey::new_from_array([0x07; 32]);

    let (a, bump) = derive_listing_address(&seller, &mint, &pid_bytes).expect("derivable");
    let (expected, expected_bump) =
        solana_program::pubkey::Pubkey::derive_program_address(&[b"listing", &seller, &mint], &pid)
            .expect("derivable");
    assert_eq!(a, expected.to_bytes().to_vec());
    assert_eq!(bump, expected_bump);
}
